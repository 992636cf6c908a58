//! Blacking out the screen regions of windows whose titles match an excluded
//! keyword, before a captured frame is stored.

use vstd::prelude::*;
use crate::text::{contains_seq, lower_of, text_contains, to_lower};

verus! {

/// One pixel.
#[derive(Clone, Copy, Debug, PartialEq, Eq, Structural)]
pub struct Rgba {
    pub r: u8,
    pub g: u8,
    pub b: u8,
    pub a: u8,
}

pub open spec fn black() -> Rgba {
    Rgba { r: 0, g: 0, b: 0, a: 255 }
}

/// A captured image: `width * height` pixels, row after row.
pub struct Frame {
    pub width: u32,
    pub height: u32,
    pub pixels: Vec<Rgba>,
}

/// The pixel at column `x` and row `y` of a frame `width` pixels wide.
pub open spec fn pixel_at(pixels: Seq<Rgba>, width: u32, x: int, y: int) -> Rgba {
    pixels[y * width + x]
}

impl Frame {
    pub open spec fn wf(&self) -> bool {
        self.pixels@.len() == self.width * self.height
    }

    pub open spec fn px(&self, x: int, y: int) -> Rgba {
        pixel_at(self.pixels@, self.width, x, y)
    }
}

/// A window's rectangle in screen coordinates, as the window system reports it
/// (right and bottom exclusive).
#[derive(Clone, Copy, Debug, PartialEq, Eq, Structural)]
pub struct WindowRect {
    pub left: i32,
    pub top: i32,
    pub right: i32,
    pub bottom: i32,
}

/// A visible, non-minimised window: its title and rectangle.
#[derive(Clone, Debug)]
pub struct WindowInfo {
    pub title: String,
    pub rect: WindowRect,
}

/// A half-open block of pixel columns `x1..x2` and rows `y1..y2`.
#[derive(Clone, Copy, Debug, PartialEq, Eq, Structural)]
pub struct PixelRegion {
    pub x1: u32,
    pub y1: u32,
    pub x2: u32,
    pub y2: u32,
}

impl PixelRegion {
    pub open spec fn contains(&self, x: int, y: int) -> bool {
        self.x1 <= x < self.x2 && self.y1 <= y < self.y2
    }
}

pub open spec fn clamp_low(v: i32) -> int {
    if v < 0 { 0 } else { v as int }
}

pub open spec fn min_int(a: int, b: int) -> int {
    if a < b { a } else { b }
}

/// The pixels a window rectangle covers in a `width` by `height` frame, or
/// none: a rectangle with right <= left or bottom <= top is degenerate, one that
/// is empty once clamped to the frame is skipped, and one covering more than
/// nine tenths of the frame is taken for a misreported full-screen window and
/// skipped as well.
pub open spec fn region_of(rect: WindowRect, width: u32, height: u32) -> Option<PixelRegion> {
    let x1 = clamp_low(rect.left);
    let y1 = clamp_low(rect.top);
    let x2 = min_int(clamp_low(rect.right), width as int);
    let y2 = min_int(clamp_low(rect.bottom), height as int);
    if rect.right <= rect.left || rect.bottom <= rect.top {
        None
    } else if x1 >= x2 || y1 >= y2 {
        None
    } else if 10 * ((x2 - x1) * (y2 - y1)) > 9 * (width * height) {
        None
    } else {
        Some(PixelRegion { x1: x1 as u32, y1: y1 as u32, x2: x2 as u32, y2: y2 as u32 })
    }
}

/// Computes `region_of`.
pub fn redaction_region(rect: WindowRect, width: u32, height: u32) -> (r: Option<PixelRegion>)
    ensures
        r == region_of(rect, width, height),
        r matches Some(g) ==> g.x1 < g.x2 <= width && g.y1 < g.y2 <= height,
{
    if rect.right <= rect.left || rect.bottom <= rect.top {
        return None;
    }
    let x1: u32 = if rect.left < 0 { 0 } else { rect.left as u32 };
    let y1: u32 = if rect.top < 0 { 0 } else { rect.top as u32 };
    let xr: u32 = if rect.right < 0 { 0 } else { rect.right as u32 };
    let yb: u32 = if rect.bottom < 0 { 0 } else { rect.bottom as u32 };
    let x2: u32 = if xr < width { xr } else { width };
    let y2: u32 = if yb < height { yb } else { height };
    if x1 >= x2 || y1 >= y2 {
        return None;
    }
    let dx: u64 = (x2 - x1) as u64;
    let dy: u64 = (y2 - y1) as u64;
    assert(dx * dy <= 0xffff_ffff_ffff_ffffu64) by (nonlinear_arith)
        requires
            dx <= 0xffff_ffffu64,
            dy <= 0xffff_ffffu64,
    ;
    assert((width as u64) * (height as u64) <= 0xffff_ffff_ffff_ffffu64) by (nonlinear_arith)
        requires
            width <= 0xffff_ffffu32,
            height <= 0xffff_ffffu32,
    ;
    let area: u128 = (dx * dy) as u128;
    let total: u128 = ((width as u64) * (height as u64)) as u128;
    if 10 * area > 9 * total {
        return None;
    }
    Some(PixelRegion { x1, y1, x2, y2 })
}

/// Row-major indexing is one to one on the pixels of a frame.
proof fn lemma_index_unique(width: int, x1: int, y1: int, x2: int, y2: int)
    requires
        0 <= x1 < width,
        0 <= x2 < width,
        0 <= y1,
        0 <= y2,
        y1 * width + x1 == y2 * width + x2,
    ensures
        x1 == x2,
        y1 == y2,
{
    if y1 < y2 {
        assert(y1 * width + width <= y2 * width) by (nonlinear_arith)
            requires
                y1 < y2,
                width > 0,
        ;
    } else if y2 < y1 {
        assert(y2 * width + width <= y1 * width) by (nonlinear_arith)
            requires
                y2 < y1,
                width > 0,
        ;
    }
}

proof fn lemma_index_in_bounds(width: int, height: int, x: int, y: int)
    requires
        0 <= x < width,
        0 <= y < height,
    ensures
        0 <= y * width + x < width * height,
{
    assert(0 <= y * width + x < width * height) by (nonlinear_arith)
        requires
            0 <= x < width,
            0 <= y < height,
    ;
}

/// Paints every pixel of `region` opaque black and leaves every other pixel as
/// it was.
pub fn black_out(frame: &mut Frame, region: PixelRegion)
    requires
        old(frame).wf(),
        region.x1 < region.x2 <= old(frame).width,
        region.y1 < region.y2 <= old(frame).height,
    ensures
        final(frame).wf(),
        final(frame).width == old(frame).width,
        final(frame).height == old(frame).height,
        forall|x: int, y: int|
            0 <= x < old(frame).width && 0 <= y < old(frame).height ==> #[trigger] final(frame).px(
                x,
                y,
            ) == if region.contains(x, y) {
                black()
            } else {
                old(frame).px(x, y)
            },
{
    let w = frame.width;
    let ghost h = frame.height as int;
    let ghost start = frame.pixels@;
    let len = frame.pixels.len();
    let mut y = region.y1;
    while y < region.y2
        invariant
            frame.wf(),
            frame.width == w,
            frame.height == h,
            start.len() == frame.pixels@.len(),
            len == frame.pixels@.len(),
            region.x1 < region.x2 <= w,
            region.y1 <= y <= region.y2 <= h,
            forall|px: int, py: int|
                0 <= px < w && 0 <= py < h ==> #[trigger] pixel_at(frame.pixels@, w, px, py) == if region.x1
                    <= px < region.x2 && region.y1 <= py < y {
                    black()
                } else {
                    pixel_at(start, w, px, py)
                },
        decreases region.y2 - y,
    {
        let mut x = region.x1;
        while x < region.x2
            invariant
                frame.wf(),
                frame.width == w,
                frame.height == h,
                start.len() == frame.pixels@.len(),
                len == frame.pixels@.len(),
                region.x1 <= x <= region.x2 <= w,
                region.y1 <= y < region.y2 <= h,
                forall|px: int, py: int|
                    0 <= px < w && 0 <= py < h ==> #[trigger] pixel_at(frame.pixels@, w, px, py)
                        == if (region.x1 <= px < region.x2 && region.y1 <= py < y) || (py == y
                        && region.x1 <= px < x) {
                        black()
                    } else {
                        pixel_at(start, w, px, py)
                    },
            decreases region.x2 - x,
        {
            proof {
                lemma_index_in_bounds(w as int, h, x as int, y as int);
                assert((y as int) * (w as int) <= (y as int) * (w as int) + (x as int));
            }
            let i: usize = (y as usize) * (w as usize) + (x as usize);
            let ghost before = frame.pixels@;
            frame.pixels.set(i, Rgba { r: 0, g: 0, b: 0, a: 255 });
            proof {
                assert forall|px: int, py: int|
                    0 <= px < w && 0 <= py < h implies #[trigger] pixel_at(frame.pixels@, w, px, py)
                    == if (region.x1 <= px < region.x2 && region.y1 <= py < y) || (py == y
                    && region.x1 <= px < x + 1) {
                    black()
                } else {
                    pixel_at(start, w, px, py)
                } by {
                    lemma_index_in_bounds(w as int, h, px, py);
                    if py * w + px == i as int {
                        lemma_index_unique(w as int, px, py, x as int, y as int);
                    } else {
                        assert(pixel_at(frame.pixels@, w, px, py) == pixel_at(before, w, px, py));
                    }
                }
            }
            x = x + 1;
        }
        y = y + 1;
    }
}

/// The window's title, folded to lower case, holds one of the keywords.
pub open spec fn is_excluded(title: Seq<char>, keywords: Seq<String>) -> bool {
    exists|j: int| 0 <= j < keywords.len() && contains_seq(lower_of(title), #[trigger] keywords[j]@)
}

/// Whether the lower-cased `title` holds one of `keywords` (which are kept in
/// lower case).
pub fn title_is_excluded(title: &str, keywords: &Vec<String>) -> (r: bool)
    ensures
        r == is_excluded(title@, keywords@),
{
    let lowered = to_lower(title);
    let mut j: usize = 0;
    while j < keywords.len()
        invariant
            j <= keywords@.len(),
            lowered@ == lower_of(title@),
            forall|k: int| 0 <= k < j ==> !contains_seq(lower_of(title@), #[trigger] keywords@[k]@),
        decreases keywords@.len() - j,
    {
        if text_contains(lowered.as_str(), keywords[j].as_str()) {
            return true;
        }
        j = j + 1;
    }
    false
}

/// Pixel `(x, y)` lies in the accepted region of an excluded window among the
/// first `n` of `windows`.
pub open spec fn covered(
    windows: Seq<WindowInfo>,
    keywords: Seq<String>,
    n: int,
    width: u32,
    height: u32,
    x: int,
    y: int,
) -> bool
    decreases n,
{
    if n <= 0 {
        false
    } else {
        covered(windows, keywords, n - 1, width, height, x, y) || (is_excluded(
            windows[n - 1].title@,
            keywords,
        ) && (region_of(windows[n - 1].rect, width, height) matches Some(g) && g.contains(x, y)))
    }
}

/// Redacts `frame`: every pixel inside the accepted region of a window whose
/// title holds an excluded keyword becomes opaque black; every other pixel is
/// left as it was.
pub fn redact(frame: &mut Frame, windows: &Vec<WindowInfo>, keywords: &Vec<String>)
    requires
        old(frame).wf(),
    ensures
        final(frame).wf(),
        final(frame).width == old(frame).width,
        final(frame).height == old(frame).height,
        forall|x: int, y: int|
            0 <= x < old(frame).width && 0 <= y < old(frame).height ==> #[trigger] final(frame).px(
                x,
                y,
            ) == if covered(
                windows@,
                keywords@,
                windows@.len() as int,
                old(frame).width,
                old(frame).height,
                x,
                y,
            ) {
                black()
            } else {
                old(frame).px(x, y)
            },
{
    let w = frame.width;
    let h = frame.height;
    let ghost start = *frame;
    let mut i: usize = 0;
    while i < windows.len()
        invariant
            i <= windows@.len(),
            frame.wf(),
            frame.width == w,
            frame.height == h,
            start.width == w,
            start.height == h,
            forall|x: int, y: int|
                0 <= x < w && 0 <= y < h ==> #[trigger] frame.px(x, y) == if covered(
                    windows@,
                    keywords@,
                    i as int,
                    w,
                    h,
                    x,
                    y,
                ) {
                    black()
                } else {
                    start.px(x, y)
                },
        decreases windows@.len() - i,
    {
        let window = &windows[i];
        if title_is_excluded(window.title.as_str(), keywords) {
            match redaction_region(window.rect, w, h) {
                Some(region) => {
                    black_out(frame, region);
                },
                None => {},
            }
        }
        i = i + 1;
    }
}

/// The two guards of redaction: a window whose rectangle has right < left or
/// bottom < top is skipped, and so is one whose clamped rectangle covers more
/// than nine tenths of the frame; every pixel of an accepted region lies inside
/// the frame.
pub proof fn lemma_redaction_guards(rect: WindowRect, width: u32, height: u32)
    ensures
        rect.right < rect.left || rect.bottom < rect.top ==> region_of(rect, width, height) is None,
        ({
            let x1 = clamp_low(rect.left);
            let y1 = clamp_low(rect.top);
            let x2 = min_int(clamp_low(rect.right), width as int);
            let y2 = min_int(clamp_low(rect.bottom), height as int);
            x1 < x2 && y1 < y2 && 10 * ((x2 - x1) * (y2 - y1)) > 9 * (width * height)
                ==> region_of(rect, width, height) is None
        }),
        region_of(rect, width, height) matches Some(g) ==> g.x1 < g.x2 <= width && g.y1 < g.y2
            <= height,
{
}

} // verus!
