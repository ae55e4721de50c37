use vstd::prelude::*;
use crate::rounding::{div_round_half_even, round_half_even};

verus! {

/// Width of the low-resolution render target, in internal pixels.
pub const RES_WIDTH: u32 = 640;

/// Height of the low-resolution render target, in internal pixels.
pub const RES_HEIGHT: u32 = 360;

/// The reference fraction of the internal resolution that one
/// magnification step stands for, as a ratio.
pub const REFERENCE_NUM: u32 = 4;

pub const REFERENCE_DEN: u32 = 5;

/// Zoom is kept in hundredths: a zoom of `ZOOM_STEPS` is a zoom of one.
pub const ZOOM_STEPS: u32 = 100;

pub const ZOOM_MIN: u32 = 100;

pub const ZOOM_MAX: u32 = 1000;

pub const ZOOM_DEFAULT: u32 = 500;

/// Reference extent for one axis: `res · REFERENCE_NUM / REFERENCE_DEN`, rounded.
pub open spec fn reference_extent_spec(res: nat) -> int {
    round_half_even((res * REFERENCE_NUM) as int, REFERENCE_DEN as int)
}

/// Integer magnification for a window: the smaller of the two per-axis
/// ratios `window / reference_extent`, rounded, and never below one.
/// Rounding is monotone, so rounding each ratio and taking the smaller
/// equals rounding the smaller ratio. Like every rounding in this crate it
/// sends a tie to the even neighbour: a ratio of 2.5 gives 2.
pub open spec fn fit_scale_spec(width: nat, height: nat) -> int {
    let h = round_half_even(width as int, reference_extent_spec(RES_WIDTH as nat));
    let v = round_half_even(height as int, reference_extent_spec(RES_HEIGHT as nat));
    let m = if h <= v { h } else { v };
    if m < 1 { 1 } else { m }
}

pub open spec fn clamp_zoom(z: int) -> int {
    if z < ZOOM_MIN { ZOOM_MIN as int } else if z > ZOOM_MAX { ZOOM_MAX as int } else { z }
}

/// Reference extent of one axis of the internal resolution, in window pixels.
pub fn reference_extent(res: u32) -> (r: u32)
    ensures
        r as int == reference_extent_spec(res as nat),
        r > 0 <==> res > 0,
{
    let n: u64 = res as u64 * 4;
    assert(n == res * REFERENCE_NUM) by (nonlinear_arith)
        requires
            n == res * 4,
            REFERENCE_NUM == 4,
    ;
    let k = div_round_half_even(n, 5);
    proof {
        crate::rounding::lemma_round_close(n as int, REFERENCE_DEN as int);
        assert(REFERENCE_NUM == 4);
        assert(REFERENCE_DEN == 5);
        assert(10 * k <= 8 * res + 5);
        assert(res > 0 ==> 10 * k >= 3);
    }
    k as u32
}

/// Integer magnification of the internal image that fits a window of the
/// given size.
pub fn fit_scale(width: u32, height: u32) -> (r: u32)
    ensures
        r as int == fit_scale_spec(width as nat, height as nat),
        r >= 1,
{
    let rw = reference_extent(RES_WIDTH);
    let rh = reference_extent(RES_HEIGHT);
    let h = div_round_half_even(width as u64, rw as u64);
    let v = div_round_half_even(height as u64, rh as u64);
    proof {
        crate::rounding::lemma_round_close(width as int, rw as int);
        crate::rounding::lemma_round_close(height as int, rh as int);
    }
    let m = if h <= v { h } else { v };
    if m < 1 {
        1
    } else {
        m as u32
    }
}

/// Window dimensions, the magnification that fits them, and the zoom.
///
/// `texel_size` is zero until the first resize; consumers read zero as
/// "not sized yet".
#[derive(Clone, Copy, Debug, PartialEq, Eq, Structural)]
pub struct WindowSize {
    pub width: u32,
    pub height: u32,
    pub texel_size: u32,
    pub zoom: u32,
}

impl WindowSize {
    pub open spec fn wf(&self) -> bool {
        ZOOM_MIN <= self.zoom <= ZOOM_MAX
    }

    /// State before the first resize: no size, no magnification, default zoom.
    pub fn new() -> (r: WindowSize)
        ensures
            r.wf(),
            r.width == 0,
            r.height == 0,
            r.texel_size == 0,
            r.zoom == ZOOM_DEFAULT,
    {
        WindowSize { width: 0, height: 0, texel_size: 0, zoom: ZOOM_DEFAULT }
    }

    /// Records a resize event and recomputes the magnification.
    pub fn resize(&mut self, width: u32, height: u32)
        ensures
            final(self).width == width,
            final(self).height == height,
            final(self).texel_size as int == fit_scale_spec(width as nat, height as nat),
            final(self).zoom == old(self).zoom,
    {
        self.width = width;
        self.height = height;
        self.texel_size = fit_scale(width, height);
    }

    /// Integrates the zoom keys over `dt_ms` milliseconds at ten zoom units
    /// a second (one hundredth per millisecond), clamped to the zoom range.
    /// Returns whether any zoom key was held, that is whether the scene
    /// projection must be rebuilt.
    pub fn apply_zoom_input(&mut self, zoom_out: bool, zoom_in: bool, dt_ms: u32) -> (changed: bool)
        requires
            old(self).wf(),
        ensures
            final(self).wf(),
            final(self).width == old(self).width,
            final(self).height == old(self).height,
            final(self).texel_size == old(self).texel_size,
            changed == (zoom_in != zoom_out),
            !changed ==> final(self).zoom == old(self).zoom,
            (changed && zoom_in) ==> final(self).zoom as int == clamp_zoom(
                old(self).zoom + dt_ms,
            ),
            (changed && zoom_out) ==> final(self).zoom as int == clamp_zoom(
                old(self).zoom - dt_ms,
            ),
    {
        if zoom_in == zoom_out {
            return false;
        }
        let z: i64 = if zoom_in {
            self.zoom as i64 + dt_ms as i64
        } else {
            self.zoom as i64 - dt_ms as i64
        };
        self.zoom = if z < ZOOM_MIN as i64 {
            ZOOM_MIN
        } else if z > ZOOM_MAX as i64 {
            ZOOM_MAX
        } else {
            z as u32
        };
        true
    }
}

} // verus!
