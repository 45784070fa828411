use vstd::prelude::*;
use winit::window::{BadIcon, Icon};

verus! {

#[verifier::external_type_specification]
#[verifier::external_body]
pub struct ExIcon(Icon);

#[verifier::external_type_specification]
#[verifier::external_body]
pub struct ExBadIcon(BadIcon);

/// Relies on winit's `Icon::from_rgba`: it refuses a buffer whose length is not a
/// multiple of 4 or whose pixel count is not `width * height`. It computes
/// `width * height` in `u32`, so the product must fit. On Windows it may still fail
/// on a well-formed buffer when the system refuses the icon.
pub assume_specification[ Icon::from_rgba ](rgba: Vec<u8>, width: u32, height: u32) -> (r:
    Result<Icon, BadIcon>)
    requires
        width as int * height as int <= u32::MAX as int,
    ensures
        r is Ok ==> rgba@.len() % 4 == 0 && rgba@.len() / 4 == width as int * height as int,
;

/// The pixel count of any `u32` dimensions fits in `u64`.
proof fn lemma_pixel_count_fits_u64(width: u32, height: u32)
    ensures
        width as int * height as int <= u64::MAX as int,
{
    assert(width as int * height as int <= u32::MAX as int * u32::MAX as int) by (nonlinear_arith)
        requires
            width <= u32::MAX,
            height <= u32::MAX,
    ;
}

/// An image resolved from the asset table, as 32-bit RGBA pixels, row by row.
pub struct IconImage {
    /// Four bytes per pixel: red, green, blue, alpha.
    pub rgba: Vec<u8>,
    /// Width in pixels.
    pub width: u32,
    /// Height in pixels.
    pub height: u32,
}

impl IconImage {
    /// The pixel count fits in `u32` and the buffer holds exactly
    /// `width * height` pixels of four bytes each.
    pub open spec fn spec_fits(&self) -> bool {
        &&& self.width as int * self.height as int <= u32::MAX as int
        &&& self.rgba@.len() % 4 == 0
        &&& self.rgba@.len() / 4 == self.width as int * self.height as int
    }

    /// Whether the buffer matches the dimensions; an icon is never built from one
    /// that does not.
    pub fn fits(&self) -> (r: bool)
        ensures
            r == self.spec_fits(),
    {
        proof {
            lemma_pixel_count_fits_u64(self.width, self.height);
        }
        let pixels: u64 = self.width as u64 * self.height as u64;
        let len: usize = self.rgba.len();
        pixels <= u32::MAX as u64 && len % 4 == 0 && (len / 4) as u64 == pixels
    }
}

/// The icon to set on every window, built from the resolved icon image.
///
/// No image (no icon chosen, or the asset is not loaded) clears the icon. A failed
/// conversion clears it too: the failure is not reported.
pub fn window_icon_for(image: Option<IconImage>) -> (r: Option<Icon>)
    ensures
        image is None ==> r is None,
        r is Some ==> image is Some && image->0.spec_fits(),
{
    match image {
        None => None,
        Some(img) => {
            proof {
                lemma_pixel_count_fits_u64(img.width, img.height);
            }
            if img.width as u64 * img.height as u64 > u32::MAX as u64 {
                None
            } else {
                match Icon::from_rgba(img.rgba, img.width, img.height) {
                    Ok(icon) => Some(icon),
                    Err(_) => None,
                }
            }
        },
    }
}

} // verus!
