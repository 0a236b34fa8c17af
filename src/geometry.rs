//! Page geometry: pixel-to-length conversion and the capture configuration.
use vstd::prelude::*;

verus! {

/// Length of one pixel, in picometres (0.084666667 mm).
pub const PICOMETRES_PER_PIXEL: u64 = 84_666_667;

/// A physical length, held exactly as a whole number of picometres.
#[derive(Debug, Clone, Copy, PartialEq, Eq, Structural)]
pub struct Length {
    pub picometres: u64,
}

/// The length that `px` pixels stand for.
pub open spec fn length_of_pixels(px: nat) -> nat {
    px * (PICOMETRES_PER_PIXEL as nat)
}

/// Converts a pixel count to a length at the fixed factor.
pub fn pixels_to_mm(px: u32) -> (r: Length)
    ensures
        r.picometres == length_of_pixels(px as nat),
{
    assert(px as nat * PICOMETRES_PER_PIXEL <= u32::MAX as nat * PICOMETRES_PER_PIXEL)
        by (nonlinear_arith);
    Length { picometres: px as u64 * PICOMETRES_PER_PIXEL }
}

/// The conversion is linear: the length of a sum of pixel counts is the sum of
/// their lengths, and no pixels make no length.
pub proof fn lemma_pixels_to_length_linear(a: nat, b: nat)
    ensures
        length_of_pixels(a + b) == length_of_pixels(a) + length_of_pixels(b),
        length_of_pixels(0) == 0,
{
    assert((a + b) * PICOMETRES_PER_PIXEL == a * PICOMETRES_PER_PIXEL + b * PICOMETRES_PER_PIXEL)
        by (nonlinear_arith);
}

/// Size of a page, in both directions.
#[derive(Debug, Clone, Copy, PartialEq, Eq, Structural)]
pub struct PageSize {
    pub width: Length,
    pub height: Length,
}

/// Settings of one capture run.
#[derive(Debug, Clone, Copy, PartialEq, Eq, Structural)]
pub struct CaptureConfig {
    /// Browser window width in pixels.
    pub window_width: u32,
    /// Browser window height in pixels.
    pub window_height: u32,
    /// Horizontal border of the window that the slide does not fill.
    pub border_x: u32,
    /// Vertical border of the window that the slide does not fill.
    pub border_y: u32,
    /// Pause after each click, in seconds.
    pub settle_secs: u64,
    /// Pause between two checks of the loading spinner, in seconds.
    pub poll_secs: u64,
    /// Most checks of the loading spinner before giving up; `None` waits forever.
    pub max_polls: Option<u64>,
    /// Idle timeout of the browser, in seconds.
    pub idle_timeout_secs: u64,
}

/// Width of a page in pixels: the window less its border, doubled.
pub open spec fn page_width_px(c: CaptureConfig) -> int {
    (c.window_width - c.border_x) * 2
}

/// Height of a page in pixels: the window less its border, doubled.
pub open spec fn page_height_px(c: CaptureConfig) -> int {
    (c.window_height - c.border_y) * 2
}

impl CaptureConfig {
    /// The border fits in the window and the doubled page fits in a `u32`.
    pub open spec fn wf(&self) -> bool {
        &&& self.border_x <= self.window_width
        &&& self.border_y <= self.window_height
        &&& page_width_px(*self) <= u32::MAX
        &&& page_height_px(*self) <= u32::MAX
    }

    /// Window 1024 x 768, border (0, 130), pauses of 3 s, unbounded spinner
    /// wait, idle timeout 60 s.
    pub fn standard() -> (r: CaptureConfig)
        ensures
            r.wf(),
            r.window_width == 1024,
            r.window_height == 768,
            r.border_x == 0,
            r.border_y == 130,
            r.settle_secs == 3,
            r.poll_secs == 3,
            r.max_polls is None,
            r.idle_timeout_secs == 60,
    {
        CaptureConfig {
            window_width: 1024,
            window_height: 768,
            border_x: 0,
            border_y: 130,
            settle_secs: 3,
            poll_secs: 3,
            max_polls: None,
            idle_timeout_secs: 60,
        }
    }

    /// Whether the border fits in the window and the doubled page in a `u32`.
    pub fn is_well_formed(&self) -> (r: bool)
        ensures
            r == self.wf(),
    {
        if self.border_x > self.window_width || self.border_y > self.window_height {
            return false;
        }
        let w: u64 = (self.window_width - self.border_x) as u64 * 2;
        let h: u64 = (self.window_height - self.border_y) as u64 * 2;
        w <= u32::MAX as u64 && h <= u32::MAX as u64
    }

    /// Page size in pixels: (width, height).
    pub fn page_pixels(&self) -> (r: (u32, u32))
        requires
            self.wf(),
        ensures
            r.0 == page_width_px(*self),
            r.1 == page_height_px(*self),
    {
        ((self.window_width - self.border_x) * 2, (self.window_height - self.border_y) * 2)
    }

    /// Physical size of every page of the output document.
    pub fn page_size(&self) -> (r: PageSize)
        requires
            self.wf(),
        ensures
            r.width.picometres == length_of_pixels(page_width_px(*self) as nat),
            r.height.picometres == length_of_pixels(page_height_px(*self) as nat),
    {
        let (w, h) = self.page_pixels();
        PageSize { width: pixels_to_mm(w), height: pixels_to_mm(h) }
    }
}

} // verus!
