use vstd::prelude::*;

use crate::taskbar::{TaskbarProgress, TaskbarUpdate};

verus! {

/// The shared state that the application writes and the per-frame systems read.
///
/// `I` is the host's reference to the image asset of the icon. The systems never
/// change `window_icon` or `taskbar_progress`: a change to either comes from the
/// application, and is what makes the next frame push them to the windows.
pub struct WindowUtils<I> {
    /// Progress shown on the taskbar button of every window (Windows 7 and later).
    pub taskbar_progress: Option<TaskbarProgress>,
    /// The image asset of the window icon; `None` clears the icon.
    pub window_icon: Option<I>,
    /// Whether the primary window is maximized; `None` when it could not be found.
    pub is_maximized: Option<bool>,
}

/// What one frame pushes to the live windows.
#[derive(Clone, Copy, Debug, PartialEq, Eq, Structural)]
pub struct FrameSync {
    /// Build the icon again and set it on every window.
    pub refresh_icon: bool,
    /// Push this progress to the taskbar button of every window.
    pub taskbar: Option<TaskbarUpdate>,
}

/// What is known of the primary window's maximized state after a frame that
/// observed `primary`: one entry per primary window, `None` where it had no live
/// window. The last entry wins; with no primary window nothing is known.
pub open spec fn spec_maximized_after(primary: Seq<Option<bool>>) -> Option<bool> {
    if primary.len() == 0 {
        None
    } else {
        primary.last()
    }
}

impl<I> WindowUtils<I> {
    /// The state that the plugin starts with: the given icon, no taskbar progress,
    /// nothing known of the maximized state.
    pub fn new(window_icon: Option<I>) -> (r: Self)
        ensures
            r.window_icon == window_icon,
            r.taskbar_progress is None,
            r.is_maximized is None,
    {
        WindowUtils { taskbar_progress: None, window_icon, is_maximized: None }
    }

    /// Records what a frame observed of the primary window (see
    /// `spec_maximized_after`); the other fields stay as they were.
    pub fn record_maximized(&mut self, primary: &Vec<Option<bool>>)
        ensures
            final(self).is_maximized == spec_maximized_after(primary@),
            final(self).window_icon == old(self).window_icon,
            final(self).taskbar_progress == old(self).taskbar_progress,
    {
        let mut seen: Option<bool> = None;
        let mut i: usize = 0;
        while i < primary.len()
            invariant
                i <= primary@.len(),
                seen == spec_maximized_after(primary@.take(i as int)),
            decreases primary@.len() - i,
        {
            seen = primary[i];
            i = i + 1;
            assert(primary@.take(i as int).last() == primary@[i - 1]);
        }
        assert(primary@.take(i as int) == primary@);
        self.is_maximized = seen;
    }

    /// Decides what a frame pushes to the windows, given whether the image assets
    /// and this state changed since the last frame.
    ///
    /// The icon is built again when either changed. The taskbar progress is pushed
    /// only when this state changed and holds one.
    pub fn frame_sync(&self, assets_changed: bool, utils_changed: bool) -> (r: FrameSync)
        ensures
            r.refresh_icon == (assets_changed || utils_changed),
            r.taskbar == (if utils_changed && self.taskbar_progress is Some {
                Some(self.taskbar_progress->0.spec_update())
            } else {
                None
            }),
    {
        let taskbar = if utils_changed {
            match &self.taskbar_progress {
                Some(progress) => Some(progress.update()),
                None => None,
            }
        } else {
            None
        };
        FrameSync { refresh_icon: assets_changed || utils_changed, taskbar }
    }
}

impl<I> Default for WindowUtils<I> {
    /// No icon, no taskbar progress, nothing known of the maximized state.
    fn default() -> (r: Self)
        ensures
            r.window_icon is None,
            r.taskbar_progress is None,
            r.is_maximized is None,
    {
        WindowUtils::new(None)
    }
}

} // verus!
