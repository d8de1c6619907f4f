use vstd::prelude::*;

verus! {

/// Height of the control bar under the video, in logical pixels.
pub const CONTROL_BAR_HEIGHT: u32 = 80;

/// A rectangle in the parent window's client coordinates.
#[derive(Clone, Copy, Debug, PartialEq, Eq, Structural)]
pub struct Rect {
    pub x: i32,
    pub y: i32,
    pub width: i32,
    pub height: i32,
}

/// The control bar's height in physical pixels at a display scale given in
/// thousandths (1000 is a scale of 1.0), rounded to the nearest pixel.
pub open spec fn control_px(scale_milli: int) -> int {
    (CONTROL_BAR_HEIGHT as int * scale_milli + 500) / 1000
}

/// A value brought into `0 ..= i32::MAX`.
pub open spec fn clamp_extent(v: int) -> int {
    if v < 0 { 0 } else if v > i32::MAX as int { i32::MAX as int } else { v }
}

/// Where the video surface goes: the full width of the parent's client area,
/// and its height less the control bar, never negative.
pub open spec fn surface_rect_spec(width: int, height: int, scale_milli: int) -> Rect {
    Rect {
        x: 0,
        y: 0,
        width: clamp_extent(width) as i32,
        height: clamp_extent(height - control_px(scale_milli)) as i32,
    }
}

/// The control bar's height in physical pixels at the given scale (in thousandths).
pub fn control_bar_px(scale_milli: u32) -> (r: u64)
    ensures
        r as int == control_px(scale_milli as int),
{
    let bar: u64 = CONTROL_BAR_HEIGHT as u64;
    let scale: u64 = scale_milli as u64;
    assert(bar * scale <= 80 * 0xffff_ffff) by (nonlinear_arith)
        requires
            bar == 80,
            scale <= 0xffff_ffff,
    ;
    (bar * scale + 500) / 1000
}

/// The video surface's rectangle inside a parent client area of
/// `width` x `height` physical pixels.
pub fn surface_rect(width: u32, height: u32, scale_milli: u32) -> (r: Rect)
    ensures
        r == surface_rect_spec(width as int, height as int, scale_milli as int),
{
    let ctrl = control_bar_px(scale_milli) as i64;
    let w: i64 = width as i64;
    let h: i64 = height as i64 - ctrl;
    let cw: i32 = if w > i32::MAX as i64 { i32::MAX } else { w as i32 };
    let ch: i32 = if h < 0 { 0 } else if h > i32::MAX as i64 { i32::MAX } else { h as i32 };
    Rect { x: 0, y: 0, width: cw, height: ch }
}

/// The rectangle to move the video surface to, or `None` while no surface
/// exists yet (identifier zero).
pub fn resize_video_child(surface: u64, width: u32, height: u32, scale_milli: u32) -> (r: Option<Rect>)
    ensures
        surface == 0 ==> r is None,
        surface != 0 ==> r == Some(surface_rect_spec(width as int, height as int, scale_milli as int)),
{
    if surface == 0 {
        None
    } else {
        Some(surface_rect(width, height, scale_milli))
    }
}

} // verus!
