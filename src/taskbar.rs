use vstd::prelude::*;

verus! {

/// The type and state of the progress indicator displayed on a taskbar button.
///
/// Pushing a progress value switches an indicator that is in the indeterminate mode
/// to the normal display, but the state pushed right after it overrides that, so the
/// state has to be changed here by hand.
#[derive(Clone, Copy, Debug, PartialEq, Eq, Structural)]
pub enum TaskbarState {
    /// Stops displaying progress and returns the button to its normal state.
    NoProgress,
    /// The indicator cycles along the button: activity without a known proportion.
    Indeterminate,
    /// The indicator grows from left to right with the proportion completed.
    Normal,
    /// The indicator turns red: an error occurred in a window broadcasting progress.
    Error,
    /// The indicator turns yellow: progress is stopped but can be resumed.
    Paused,
}

impl TaskbarState {
    /// The shell's `TBPF_*` flag value of this state.
    pub open spec fn spec_flag(self) -> u32 {
        match self {
            TaskbarState::NoProgress => 0x0,
            TaskbarState::Indeterminate => 0x1,
            TaskbarState::Normal => 0x2,
            TaskbarState::Error => 0x4,
            TaskbarState::Paused => 0x8,
        }
    }

    /// The shell's `TBPF_*` flag value of this state, as handed to `SetProgressState`.
    pub fn flag(self) -> (r: u32)
        ensures
            r == self.spec_flag(),
    {
        match self {
            TaskbarState::NoProgress => 0x0,
            TaskbarState::Indeterminate => 0x1,
            TaskbarState::Normal => 0x2,
            TaskbarState::Error => 0x4,
            TaskbarState::Paused => 0x8,
        }
    }
}

/// Progress shown on the taskbar button of every window (Windows 7 and later).
#[derive(Clone, Copy, Debug, PartialEq, Eq, Structural)]
pub struct TaskbarProgress {
    /// The proportion of the operation that has been completed.
    pub progress: u64,
    /// The value that `progress` has when the operation is complete.
    pub max: u64,
    /// The state of the indicator while the operation runs.
    pub state: TaskbarState,
    /// Stop showing progress once `progress` reaches `max`.
    pub auto_no_progress: bool,
}

/// What is pushed to the taskbar button of each window: the value pair, then the state.
#[derive(Clone, Copy, Debug, PartialEq, Eq, Structural)]
pub struct TaskbarUpdate {
    /// Completed part, handed to `SetProgressValue`.
    pub progress: u64,
    /// Total, handed to `SetProgressValue`.
    pub max: u64,
    /// State handed to `SetProgressState` after the value.
    pub state: TaskbarState,
}

impl TaskbarProgress {
    /// The operation counts as done and the indicator is to be dismissed.
    pub open spec fn spec_is_done(self) -> bool {
        self.auto_no_progress && self.progress >= self.max
    }

    /// The state that the taskbar shows for this progress.
    pub open spec fn spec_shown_state(self) -> TaskbarState {
        if self.spec_is_done() {
            TaskbarState::NoProgress
        } else {
            self.state
        }
    }

    /// The update that pushes this progress to a window.
    pub open spec fn spec_update(self) -> TaskbarUpdate {
        TaskbarUpdate { progress: self.progress, max: self.max, state: self.spec_shown_state() }
    }

    /// Whether the indicator is dismissed because `progress` has reached `max` with
    /// `auto_no_progress` set.
    pub fn is_done(&self) -> (r: bool)
        ensures
            r == self.spec_is_done(),
    {
        self.auto_no_progress && self.progress >= self.max
    }

    /// The state that the taskbar shows: `NoProgress` once done, else the stored state.
    pub fn shown_state(&self) -> (r: TaskbarState)
        ensures
            r == self.spec_shown_state(),
    {
        if self.is_done() {
            TaskbarState::NoProgress
        } else {
            self.state
        }
    }

    /// The value pair and the shown state, as pushed to each window.
    pub fn update(&self) -> (r: TaskbarUpdate)
        ensures
            r == self.spec_update(),
    {
        TaskbarUpdate { progress: self.progress, max: self.max, state: self.shown_state() }
    }
}

impl Default for TaskbarProgress {
    /// No progress yet out of 100, in the normal state, dismissed when complete.
    fn default() -> (r: Self)
        ensures
            r == (TaskbarProgress {
                progress: 0,
                max: 100,
                state: TaskbarState::Normal,
                auto_no_progress: true,
            }),
    {
        TaskbarProgress { progress: 0, max: 100, state: TaskbarState::Normal, auto_no_progress: true }
    }
}

} // verus!
