use vstd::prelude::*;
use crate::rounding::{div_round_half_even_signed, lemma_round_close, lemma_round_exact, round_half_even};
use crate::window::{WindowSize, ZOOM_MAX, ZOOM_MIN, ZOOM_STEPS, RES_HEIGHT, RES_WIDTH};

verus! {

/// Positions are fixed point: one world unit is `SUBUNITS` subunits.
pub const SUBUNITS: u32 = 1000;

/// Bound on each coordinate of the continuous camera position, in subunits.
pub const COORD_LIMIT: i64 = 1_000_000_000_000_000;

/// Bound on a viewport coordinate handed to `follow_offset`, in hundredths of a pixel.
pub const VIEWPORT_LIMIT: i64 = 1_000_000_000_000;

/// A point on the camera plane, along its right and up axes, in subunits.
#[derive(Clone, Copy, Debug, PartialEq, Eq, Structural)]
pub struct Point2 {
    pub x: i64,
    pub y: i64,
}

/// The camera that renders the low-resolution scene. Its continuous
/// position is what input moves; the rendered pose is derived from it.
#[derive(Clone, Copy, Debug, PartialEq, Eq, Structural)]
pub struct PixelCamera {
    pub subpixel_position: Point2,
}

/// What the rig hands to the renderer for one frame: the grid-locked
/// camera position, the continuous position it stands for, and the shift of
/// the presented canvas that hides the difference (in subunits times the
/// zoom in hundredths).
#[derive(Clone, Copy, Debug, PartialEq, Eq, Structural)]
pub struct RigPose {
    pub snapped: Point2,
    pub subpixel: Point2,
    pub canvas_offset: Point2,
}

pub open spec fn in_coord_range(v: int) -> bool {
    -COORD_LIMIT <= v <= COORD_LIMIT
}

pub open spec fn clamp_coord(v: int) -> int {
    if v < -COORD_LIMIT { -COORD_LIMIT as int } else if v > COORD_LIMIT { COORD_LIMIT as int } else { v }
}

/// Grid step of the rendered camera, in subunits: the magnification divided
/// by the zoom, rounded down to whole subunits.
pub open spec fn effective_texel_spec(texel_size: nat, zoom: nat) -> int {
    (texel_size * SUBUNITS * ZOOM_STEPS) as int / zoom as int
}

/// `p` moved to the nearest multiple of `t`.
pub open spec fn snap(p: int, t: int) -> int {
    round_half_even(p, t) * t
}

/// Shift of the canvas that compensates for snapping `p` to a grid of step `t`.
pub open spec fn canvas_offset_spec(p: int, t: int, zoom: int) -> int {
    (snap(p, t) - p) * zoom
}

pub open spec fn pose_spec(p: Point2, t: int, zoom: int) -> RigPose {
    RigPose {
        snapped: Point2 { x: snap(p.x as int, t) as i64, y: snap(p.y as int, t) as i64 },
        subpixel: p,
        canvas_offset: Point2 {
            x: canvas_offset_spec(p.x as int, t, zoom) as i64,
            y: canvas_offset_spec(p.y as int, t, zoom) as i64,
        },
    }
}

/// The snapped position is a multiple of the step and lies within half a
/// step of the continuous position.
pub proof fn lemma_snap_on_grid(p: int, t: int)
    requires
        t > 0,
    ensures
        snap(p, t) % t == 0,
        -t <= 2 * (snap(p, t) - p) <= t,
{
    lemma_round_close(p, t);
    let k = round_half_even(p, t);
    assert(k * t == t * k) by (nonlinear_arith);
    vstd::arithmetic::div_mod::lemma_mod_multiples_basic(k, t);
}

/// Snapping a position that is already snapped leaves it where it is.
pub proof fn lemma_snap_idempotent(p: int, t: int)
    requires
        t > 0,
    ensures
        snap(snap(p, t), t) == snap(p, t),
{
    lemma_round_exact(round_half_even(p, t), t);
}

/// The canvas offset, scaled back by the zoom, is exactly the distance the
/// snap moved the camera, so taking it off the snapped position gives the
/// continuous position back.
pub proof fn lemma_canvas_compensates(p: int, t: int, zoom: int)
    requires
        t > 0,
        zoom > 0,
    ensures
        canvas_offset_spec(p, t, zoom) / zoom == snap(p, t) - p,
        snap(p, t) - canvas_offset_spec(p, t, zoom) / zoom == p,
{
    let x = snap(p, t) - p;
    vstd::arithmetic::div_mod::lemma_div_multiples_vanish(x, zoom);
    assert(x * zoom == zoom * x) by (nonlinear_arith);
    assert(canvas_offset_spec(p, t, zoom) == x * zoom);
    assert(canvas_offset_spec(p, t, zoom) / zoom == x);
}

/// Grid step of the rendered camera for the current window state.
pub fn effective_texel(window: &WindowSize) -> (t: i64)
    requires
        window.wf(),
    ensures
        t as int == effective_texel_spec(window.texel_size as nat, window.zoom as nat),
        0 <= t <= 5_000_000_000_000,
        t == 0 <==> window.texel_size == 0,
{
    let ts: u64 = window.texel_size as u64;
    proof {
        assert(ts * 100_000 <= 500_000_000_000_000) by (nonlinear_arith)
            requires
                ts <= u32::MAX,
        ;
    }
    let n: u64 = ts * 100_000;
    assert(n == ts * SUBUNITS * ZOOM_STEPS) by (nonlinear_arith)
        requires
            n == ts * 100_000,
            SUBUNITS == 1000,
            ZOOM_STEPS == 100,
    ;
    let t = n / window.zoom as u64;
    proof {
        let z = window.zoom as int;
        vstd::arithmetic::div_mod::lemma_div_is_ordered_by_denominator(n as int, ZOOM_MIN as int, z);
        vstd::arithmetic::div_mod::lemma_div_is_ordered(n as int, 500_000_000_000_000, ZOOM_MIN as int);
        vstd::arithmetic::div_mod::lemma_div_is_ordered_by_denominator(n as int, z, ZOOM_MAX as int);
        if ts > 0 {
            vstd::arithmetic::div_mod::lemma_div_is_ordered(100_000, n as int, ZOOM_MAX as int);
        }
    }
    t as i64
}

fn snap_coord(p: i64, t: i64) -> (r: i64)
    requires
        0 < t <= 5_000_000_000_000,
        in_coord_range(p as int),
    ensures
        r as int == snap(p as int, t as int),
        -t <= 2 * (r - p) <= t,
{
    let k = div_round_half_even_signed(p, t);
    proof {
        lemma_round_close(p as int, t as int);
        assert(k * t == t * k) by (nonlinear_arith);
    }
    k * t
}

impl PixelCamera {
    pub open spec fn wf(&self) -> bool {
        in_coord_range(self.subpixel_position.x as int) && in_coord_range(
            self.subpixel_position.y as int,
        )
    }

    /// A camera at the origin.
    pub fn new() -> (r: PixelCamera)
        ensures
            r.wf(),
            r.subpixel_position == (Point2 { x: 0, y: 0 }),
    {
        PixelCamera { subpixel_position: Point2 { x: 0, y: 0 } }
    }

    /// Moves the continuous position by `d`, each coordinate held within
    /// `COORD_LIMIT`.
    pub fn shift(&mut self, d: Point2)
        requires
            old(self).wf(),
        ensures
            final(self).wf(),
            final(self).subpixel_position.x as int == clamp_coord(
                old(self).subpixel_position.x + d.x,
            ),
            final(self).subpixel_position.y as int == clamp_coord(
                old(self).subpixel_position.y + d.y,
            ),
    {
        self.subpixel_position = Point2 {
            x: clamped_sum(self.subpixel_position.x, d.x),
            y: clamped_sum(self.subpixel_position.y, d.y),
        };
    }

    /// Moves the camera toward the viewport point where the followed target
    /// appears; does nothing while the window has not been sized.
    pub fn follow(&mut self, window: &WindowSize, viewport_x: i64, viewport_y: i64)
        requires
            old(self).wf(),
            -VIEWPORT_LIMIT <= viewport_x <= VIEWPORT_LIMIT,
            -VIEWPORT_LIMIT <= viewport_y <= VIEWPORT_LIMIT,
        ensures
            final(self).wf(),
            window.texel_size == 0 ==> *final(self) == *old(self),
            window.texel_size != 0 ==> final(self).subpixel_position.x as int == clamp_coord(
                old(self).subpixel_position.x + follow_dx(viewport_x as int),
            ),
            window.texel_size != 0 ==> final(self).subpixel_position.y as int == clamp_coord(
                old(self).subpixel_position.y + follow_dy(viewport_y as int),
            ),
    {
        if window.texel_size != 0 {
            let d = follow_offset(viewport_x, viewport_y);
            self.shift(d);
        }
    }
}

fn clamped_sum(a: i64, b: i64) -> (r: i64)
    requires
        in_coord_range(a as int),
    ensures
        r as int == clamp_coord(a + b),
{
    if b > 0 && a > COORD_LIMIT - b {
        COORD_LIMIT
    } else if b < 0 && a < -COORD_LIMIT - b {
        -COORD_LIMIT
    } else {
        let s = a + b;
        if s > COORD_LIMIT {
            COORD_LIMIT
        } else if s < -COORD_LIMIT {
            -COORD_LIMIT
        } else {
            s
        }
    }
}

/// Horizontal camera shift, in subunits, for a target seen at `vx`
/// hundredths of a pixel: ten world units per full viewport width of
/// distance from the centre, rounded to whole subunits.
pub open spec fn follow_dx(vx: int) -> int {
    round_half_even((vx - 50 * RES_WIDTH) * 100, RES_WIDTH as int)
}

/// Vertical camera shift; viewport rows grow downward, the camera's up axis upward.
pub open spec fn follow_dy(vy: int) -> int {
    -round_half_even((vy - 50 * RES_HEIGHT) * 100, RES_HEIGHT as int)
}

/// Camera shift that brings a target seen at viewport point
/// (`viewport_x`, `viewport_y`), in hundredths of a pixel, toward the centre.
pub fn follow_offset(viewport_x: i64, viewport_y: i64) -> (r: Point2)
    requires
        -VIEWPORT_LIMIT <= viewport_x <= VIEWPORT_LIMIT,
        -VIEWPORT_LIMIT <= viewport_y <= VIEWPORT_LIMIT,
    ensures
        r.x as int == follow_dx(viewport_x as int),
        r.y as int == follow_dy(viewport_y as int),
{
    let nx = (viewport_x - 50 * RES_WIDTH as i64) * 100;
    let ny = (viewport_y - 50 * RES_HEIGHT as i64) * 100;
    let dx = div_round_half_even_signed(nx, RES_WIDTH as i64);
    let dy = div_round_half_even_signed(ny, RES_HEIGHT as i64);
    proof {
        lemma_round_close(ny as int, RES_HEIGHT as int);
    }
    Point2 { x: dx, y: -dy }
}

/// Places the rendered camera on the texel grid and computes the canvas
/// shift that compensates for it. While the grid step is zero (the window
/// has not been sized) the pose of the previous frame is kept unchanged.
pub fn place_camera(window: &WindowSize, cam: &PixelCamera, pose: &mut RigPose)
    requires
        window.wf(),
        cam.wf(),
    ensures
        effective_texel_spec(window.texel_size as nat, window.zoom as nat) == 0 ==> *final(pose)
            == *old(pose),
        effective_texel_spec(window.texel_size as nat, window.zoom as nat) != 0 ==> *final(pose)
            == pose_spec(
            cam.subpixel_position,
            effective_texel_spec(window.texel_size as nat, window.zoom as nat),
            window.zoom as int,
        ),
{
    let t = effective_texel(window);
    if t == 0 {
        return;
    }
    let p = cam.subpixel_position;
    let sx = snap_coord(p.x, t);
    let sy = snap_coord(p.y, t);
    let z = window.zoom as i64;
    proof {
        assert(-5_000_000_000_000_000 <= (sx - p.x) * z <= 5_000_000_000_000_000) by (nonlinear_arith)
            requires
                -t <= 2 * (sx - p.x) <= t,
                t <= 5_000_000_000_000,
                0 < z <= 1000,
        ;
        assert(-5_000_000_000_000_000 <= (sy - p.y) * z <= 5_000_000_000_000_000) by (nonlinear_arith)
            requires
                -t <= 2 * (sy - p.y) <= t,
                t <= 5_000_000_000_000,
                0 < z <= 1000,
        ;
    }
    *pose = RigPose {
        snapped: Point2 { x: sx, y: sy },
        subpixel: p,
        canvas_offset: Point2 { x: (sx - p.x) * z, y: (sy - p.y) * z },
    };
}

} // verus!

verus! {

/// Camera speed: fifty world units a second, that is fifty subunits a millisecond.
pub const MOVE_SUBUNITS_PER_MS: u64 = 50;

/// Direction along one axis from a pair of opposing keys.
pub open spec fn axis_of(plus: bool, minus: bool) -> int {
    (if plus { 1int } else { 0int }) - (if minus { 1int } else { 0int })
}

/// `c` is the length along each axis of a diagonal move of length `s`: the
/// largest whole number with `c·√2 <= s`.
pub open spec fn is_diagonal_leg(c: int, s: int) -> bool {
    c >= 0 && 2 * c * c <= s * s && s * s < 2 * (c + 1) * (c + 1)
}

/// Largest `c` with `2·c² <= s²`.
fn diagonal_leg(s: u64) -> (c: u64)
    requires
        s <= MOVE_SUBUNITS_PER_MS * u32::MAX,
    ensures
        is_diagonal_leg(c as int, s as int),
        c <= s,
{
    if s == 0 {
        return 0;
    }
    proof {
        assert(s * s <= 50_000_000_000_000_000_000_000) by (nonlinear_arith)
            requires
                s <= 50 * 4_294_967_295int,
        ;
    }
    let ss: u128 = s as u128 * s as u128;
    let mut lo: u64 = 0;
    let mut hi: u64 = s;
    proof {
        assert(2 * (s as int) * (s as int) > (s as int) * (s as int)) by (nonlinear_arith)
            requires
                s > 0,
        ;
    }
    while lo + 1 < hi
        invariant
            lo < hi <= s,
            s <= MOVE_SUBUNITS_PER_MS * u32::MAX,
            ss == s * s,
            2 * lo * lo <= s * s,
            s * s < 2 * hi * hi,
        decreases hi - lo,
    {
        let mid: u64 = lo + (hi - lo) / 2;
        proof {
            assert(mid * mid <= s * s) by (nonlinear_arith)
                requires
                    mid <= s,
            ;
            assert(s * s <= 50_000_000_000_000_000_000_000) by (nonlinear_arith)
                requires
                    s <= 50 * 4_294_967_295int,
            ;
        }
        let m2: u128 = 2 * (mid as u128 * mid as u128);
        assert(m2 == 2 * mid * mid) by (nonlinear_arith)
            requires
                m2 == 2 * (mid * mid),
        ;
        if m2 <= ss {
            lo = mid;
        } else {
            hi = mid;
        }
    }
    proof {
        assert(hi == lo + 1);
        assert(2 * (lo + 1) * (lo + 1) == 2 * hi * hi);
    }
    lo
}

/// Displacement, in subunits, of one frame of `dt_ms` milliseconds with the
/// given movement keys held: a unit direction (zero when the keys cancel),
/// times the speed and the elapsed time. A diagonal move is as long as a
/// straight one, each leg rounded down to whole subunits.
pub fn movement_step(left: bool, right: bool, up: bool, down: bool, dt_ms: u32) -> (r: Point2)
    ensures
        ({
            let dx = axis_of(right, left);
            let dy = axis_of(up, down);
            let s = MOVE_SUBUNITS_PER_MS * dt_ms;
            &&& (dx == 0 || dy == 0) ==> r.x == dx * s && r.y == dy * s
            &&& (dx != 0 && dy != 0) ==> is_diagonal_leg(r.x * dx, s) && r.y * dy == r.x * dx
        }),
{
    let dx: i64 = (if right { 1i64 } else { 0i64 }) - (if left { 1i64 } else { 0i64 });
    let dy: i64 = (if up { 1i64 } else { 0i64 }) - (if down { 1i64 } else { 0i64 });
    proof {
        assert(MOVE_SUBUNITS_PER_MS * dt_ms <= MOVE_SUBUNITS_PER_MS * u32::MAX) by (nonlinear_arith)
            requires
                dt_ms <= u32::MAX,
                MOVE_SUBUNITS_PER_MS == 50,
        ;
    }
    let s: u64 = MOVE_SUBUNITS_PER_MS * dt_ms as u64;
    if dx == 0 || dy == 0 {
        Point2 { x: dx * s as i64, y: dy * s as i64 }
    } else {
        let c = diagonal_leg(s) as i64;
        Point2 { x: dx * c, y: dy * c }
    }
}

} // verus!
