use vstd::prelude::*;
use vstd::arithmetic::div_mod::{lemma_fundamental_div_mod, lemma_fundamental_div_mod_converse};
use crate::geometry::{fits_i64, Pos2, Rect, Vec2};

verus! {

/// Pivot expressed in the pre-zoom offset frame, along one axis, over the
/// state's denominator: `(pivot - corner) * denom + offset`.
pub open spec fn pivot_rel(offset: int, denom: int, pivot: int, corner: int) -> int {
    (pivot - corner) * denom + offset
}

/// New offset numerator along one axis after zooming by `num / den` about a
/// pivot at `rel` (from `pivot_rel`); the new denominator is `denom * den`.
pub open spec fn zoomed_offset(offset: int, rel: int, num: int, den: int) -> int {
    offset * den + rel * (num - den)
}

/// Graph coordinate `gn / gd` lands exactly on screen coordinate `screen`
/// under pan `offset / denom` and zoom `scale / denom` in a viewport whose
/// corner is at `corner`: `gn / gd * scale / denom - offset / denom + corner == screen`.
pub open spec fn lands_on(
    offset: int,
    scale: int,
    denom: int,
    gn: int,
    gd: int,
    screen: int,
    corner: int,
) -> bool {
    gn * scale - offset * gd == (screen - corner) * denom * gd
}

/// Screen coordinate, rounded down, of graph coordinate `p`.
pub open spec fn screen_axis(offset: int, scale: int, denom: int, p: int, corner: int) -> int {
    (p * scale - offset) / denom + corner
}

/// Persisted pan and zoom of a canvas. The pan is `offset / denom` (the
/// graph-space position of the viewport's corner) and the zoom factor is
/// `scale / denom`.
#[derive(Clone, Copy, Debug, PartialEq, Eq, Structural)]
pub struct SnarlState {
    pub offset: Vec2,
    pub scale: i64,
    pub denom: i64,
}

/// Pan and zoom of the current frame, in the same form as `SnarlState`.
#[derive(Clone, Copy, Debug, PartialEq, Eq, Structural)]
pub struct ZoomState {
    pub offset: Vec2,
    pub scale: i64,
    pub denom: i64,
}

impl Default for SnarlState {
    /// No pan, zoom factor one.
    fn default() -> (r: SnarlState)
        ensures
            r.offset == (Vec2 { x: 0, y: 0 }),
            r.scale == 1,
            r.denom == 1,
    {
        SnarlState { offset: Vec2 { x: 0, y: 0 }, scale: 1, denom: 1 }
    }
}

/// `v` when it fits in `i64`.
fn narrow(v: i128) -> (r: Option<i64>)
    ensures
        r == (if fits_i64(v as int) { Some(v as i64) } else { None::<i64> }),
{
    if i64::MIN as i128 <= v && v <= i64::MAX as i128 {
        Some(v as i64)
    } else {
        None
    }
}

/// `n / d` rounded down.
fn floor_div(n: i128, d: i64) -> (r: i128)
    requires
        d > 0,
    ensures
        r == n as int / d as int,
{
    let dd = d as i128;
    if n >= 0 {
        (n as u128 / dd as u128) as i128
    } else {
        let m = (-(n + 1)) as u128;
        let t = (m / dd as u128) as i128;
        let rem = (m % dd as u128) as i128;
        proof {
            lemma_fundamental_div_mod(m as int, d as int);
            assert(0 <= rem < d);
            assert(m == d * t + rem);
            assert(n == (-t - 1) * d + (d - rem - 1)) by (nonlinear_arith)
                requires
                    m == d * t + rem,
                    m == -(n + 1),
            ;
            lemma_fundamental_div_mod_converse(n as int, d as int, -t - 1, d - rem - 1);
        }
        -t - 1
    }
}

/// `off * den + rel * (num - den)` when it fits in `i64`.
fn zoom_axis(off: i64, rel: i64, num: i64, den: i64) -> (r: Option<i64>)
    requires
        num > 0,
        den > 0,
    ensures
        r == (if fits_i64(zoomed_offset(off as int, rel as int, num as int, den as int)) {
            Some(zoomed_offset(off as int, rel as int, num as int, den as int) as i64)
        } else {
            None::<i64>
        }),
{
    let a = off as i128;
    let b = rel as i128;
    let c = den as i128;
    let e = num as i128 - den as i128;
    proof {
        assert(-0x3fff_ffff_ffff_ffff_8000_0000_0000_0000 <= a * c
            <= 0x3fff_ffff_ffff_ffff_8000_0000_0000_0000) by (nonlinear_arith)
            requires
                -0x8000_0000_0000_0000 <= a <= 0x7fff_ffff_ffff_ffff,
                0 < c <= 0x7fff_ffff_ffff_ffff,
        ;
        assert(-0x3fff_ffff_ffff_ffff_8000_0000_0000_0000 <= b * e
            <= 0x3fff_ffff_ffff_ffff_8000_0000_0000_0000) by (nonlinear_arith)
            requires
                -0x8000_0000_0000_0000 <= b <= 0x7fff_ffff_ffff_ffff,
                -0x7fff_ffff_ffff_ffff <= e <= 0x7fff_ffff_ffff_ffff,
        ;
    }
    narrow(a * c + b * e)
}

/// `(pivot - corner) * denom + off` when it fits in `i64`.
fn pivot_axis(off: i64, denom: i64, pivot: i64, corner: i64) -> (r: Option<i64>)
    requires
        denom > 0,
    ensures
        r == (if fits_i64(pivot_rel(off as int, denom as int, pivot as int, corner as int)) {
            Some(pivot_rel(off as int, denom as int, pivot as int, corner as int) as i64)
        } else {
            None::<i64>
        }),
{
    let diff = pivot as i128 - corner as i128;
    let d = denom as i128;
    proof {
        assert(-0x7fff_ffff_ffff_ffff_8000_0000_0000_0000 <= diff * d
            <= 0x7fff_ffff_ffff_ffff_0000_0000_0000_0000) by (nonlinear_arith)
            requires
                -0xffff_ffff_ffff_ffff <= diff <= 0xffff_ffff_ffff_ffff,
                0 < d <= 0x7fff_ffff_ffff_ffff,
        ;
    }
    narrow(diff * d + off as i128)
}

/// `a * b` when it fits in `i64`.
fn mul_axis(a: i64, b: i64) -> (r: Option<i64>)
    ensures
        r == (if fits_i64(a * b) { Some((a * b) as i64) } else { None::<i64> }),
{
    narrow(mul_wide(a, b))
}

impl SnarlState {
    /// Zoom factor and denominator are positive.
    pub open spec fn wf(self) -> bool {
        self.scale > 0 && self.denom > 0
    }

    pub open spec fn rel_x(self, pivot: Pos2, viewport: Rect) -> int {
        pivot_rel(self.offset.x as int, self.denom as int, pivot.x as int, viewport.min.x as int)
    }

    pub open spec fn rel_y(self, pivot: Pos2, viewport: Rect) -> int {
        pivot_rel(self.offset.y as int, self.denom as int, pivot.y as int, viewport.min.y as int)
    }

    /// Every number of the zoom by `num / den` about `pivot` fits in `i64`.
    pub open spec fn zoom_fits(self, num: int, den: int, pivot: Pos2, viewport: Rect) -> bool {
        &&& fits_i64(self.rel_x(pivot, viewport))
        &&& fits_i64(self.rel_y(pivot, viewport))
        &&& fits_i64(zoomed_offset(self.offset.x as int, self.rel_x(pivot, viewport), num, den))
        &&& fits_i64(zoomed_offset(self.offset.y as int, self.rel_y(pivot, viewport), num, den))
        &&& fits_i64(self.scale * num)
        &&& fits_i64(self.denom * den)
    }

    /// The state after zooming by `num / den` about `pivot`.
    pub open spec fn spec_zoomed(self, num: int, den: int, pivot: Pos2, viewport: Rect) -> SnarlState {
        SnarlState {
            offset: Vec2 {
                x: zoomed_offset(self.offset.x as int, self.rel_x(pivot, viewport), num, den) as i64,
                y: zoomed_offset(self.offset.y as int, self.rel_y(pivot, viewport), num, den) as i64,
            },
            scale: (self.scale * num) as i64,
            denom: (self.denom * den) as i64,
        }
    }

    /// Both states have the same pan and the same zoom factor as rationals.
    pub open spec fn same_view(self, other: SnarlState) -> bool {
        &&& self.offset.x * other.denom == other.offset.x * self.denom
        &&& self.offset.y * other.denom == other.offset.y * self.denom
        &&& self.scale * other.denom == other.scale * self.denom
    }

    /// Graph coordinate `gn / gd` lands exactly on screen coordinate `screen`
    /// along x in `viewport`.
    pub open spec fn lands_on_x(self, gn: int, gd: int, screen: int, viewport: Rect) -> bool {
        lands_on(self.offset.x as int, self.scale as int, self.denom as int, gn, gd, screen,
            viewport.min.x as int)
    }

    pub open spec fn lands_on_y(self, gn: int, gd: int, screen: int, viewport: Rect) -> bool {
        lands_on(self.offset.y as int, self.scale as int, self.denom as int, gn, gd, screen,
            viewport.min.y as int)
    }

    /// Zooms by `num / den` (which must be positive) about the screen point
    /// `pivot`, so that the graph point under `pivot` stays under it: with
    /// `a = pivot + offset - viewport.min`, the offset becomes
    /// `offset + a * num / den - a` and the zoom factor is multiplied by
    /// `num / den`. The result keeps the denominator `denom * den`, so nothing
    /// is rounded. Returns false, leaving the state as it was, when a number of
    /// the result would not fit in `i64`.
    pub fn apply_scale_wrt_screen_point(&mut self, num: i64, den: i64, pivot: Pos2, viewport: Rect) -> (r: bool)
        requires
            old(self).wf(),
            num > 0,
            den > 0,
        ensures
            r == old(self).zoom_fits(num as int, den as int, pivot, viewport),
            r ==> *final(self) == old(self).spec_zoomed(num as int, den as int, pivot, viewport),
            !r ==> *final(self) == *old(self),
            final(self).wf(),
    {
        let ax = match pivot_axis(self.offset.x, self.denom, pivot.x, viewport.min.x) {
            Some(v) => v,
            None => return false,
        };
        let ay = match pivot_axis(self.offset.y, self.denom, pivot.y, viewport.min.y) {
            Some(v) => v,
            None => return false,
        };
        let x = match zoom_axis(self.offset.x, ax, num, den) {
            Some(v) => v,
            None => return false,
        };
        let y = match zoom_axis(self.offset.y, ay, num, den) {
            Some(v) => v,
            None => return false,
        };
        let scale = match mul_axis(self.scale, num) {
            Some(v) => v,
            None => return false,
        };
        let denom = match mul_axis(self.denom, den) {
            Some(v) => v,
            None => return false,
        };
        proof {
            assert(scale > 0) by (nonlinear_arith)
                requires
                    scale == self.scale * num,
                    self.scale > 0,
                    num > 0,
            ;
            assert(denom > 0) by (nonlinear_arith)
                requires
                    denom == self.denom * den,
                    self.denom > 0,
                    den > 0,
            ;
        }
        self.offset = Vec2 { x, y };
        self.scale = scale;
        self.denom = denom;
        true
    }
}

impl SnarlState {
    pub open spec fn spec_rebased(self, denom: int) -> SnarlState {
        SnarlState {
            offset: Vec2 {
                x: (self.offset.x * denom / (self.denom as int)) as i64,
                y: (self.offset.y * denom / (self.denom as int)) as i64,
            },
            scale: if self.scale * denom / (self.denom as int) >= 1 {
                (self.scale * denom / (self.denom as int)) as i64
            } else {
                1
            },
            denom: denom as i64,
        }
    }

    pub open spec fn rebase_fits(self, denom: int) -> bool {
        &&& fits_i64(self.offset.x * denom / (self.denom as int))
        &&& fits_i64(self.offset.y * denom / (self.denom as int))
        &&& fits_i64(self.scale * denom / (self.denom as int))
    }

    /// The same view over the denominator `denom`: each number is rounded
    /// down, the zoom factor to no less than `1 / denom`. Zooming multiplies
    /// the denominator, so a state that is zoomed again and again is rebased
    /// to keep its numbers small. `None` when a number does not fit in `i64`.
    pub fn rebased(&self, denom: i64) -> (r: Option<SnarlState>)
        requires
            self.wf(),
            denom > 0,
        ensures
            r is Some <==> self.rebase_fits(denom as int),
            r is Some ==> r->0 == self.spec_rebased(denom as int),
            r is Some ==> r->0.wf(),
    {
        let x = match narrow(floor_div(mul_wide(self.offset.x, denom), self.denom)) {
            Some(v) => v,
            None => return None,
        };
        let y = match narrow(floor_div(mul_wide(self.offset.y, denom), self.denom)) {
            Some(v) => v,
            None => return None,
        };
        let scale = match narrow(floor_div(mul_wide(self.scale, denom), self.denom)) {
            Some(v) => v,
            None => return None,
        };
        let scale = if scale >= 1 { scale } else { 1 };
        Some(SnarlState { offset: Vec2 { x, y }, scale, denom })
    }
}

/// `a * b`, exactly.
fn mul_wide(a: i64, b: i64) -> (r: i128)
    ensures
        r == a * b,
{
    let x = a as i128;
    let y = b as i128;
    proof {
        assert(-0x4000_0000_0000_0000_0000_0000_0000_0000 <= x * y
            <= 0x4000_0000_0000_0000_0000_0000_0000_0000) by (nonlinear_arith)
            requires
                -0x8000_0000_0000_0000 <= x <= 0x7fff_ffff_ffff_ffff,
                -0x8000_0000_0000_0000 <= y <= 0x7fff_ffff_ffff_ffff,
        ;
    }
    x * y
}

impl ZoomState {
    /// Zoom factor and denominator are positive.
    pub open spec fn wf(self) -> bool {
        self.scale > 0 && self.denom > 0
    }

    pub open spec fn screen_x(self, point: Pos2, viewport: Rect) -> int {
        screen_axis(self.offset.x as int, self.scale as int, self.denom as int, point.x as int,
            viewport.min.x as int)
    }

    pub open spec fn screen_y(self, point: Pos2, viewport: Rect) -> int {
        screen_axis(self.offset.y as int, self.scale as int, self.denom as int, point.y as int,
            viewport.min.y as int)
    }

    /// Screen position of the graph point `point`:
    /// `point * scale - offset + viewport.min`, each coordinate rounded down.
    /// `None` when a coordinate does not fit in `i64`.
    pub fn graph_point_to_screen(&self, point: Pos2, viewport: Rect) -> (r: Option<Pos2>)
        requires
            self.wf(),
        ensures
            r is Some <==> fits_i64(self.screen_x(point, viewport))
                && fits_i64(self.screen_y(point, viewport)),
            r is Some ==> r->0.x == self.screen_x(point, viewport)
                && r->0.y == self.screen_y(point, viewport),
    {
        let x = match self.axis(point.x, self.offset.x, viewport.min.x) {
            Some(v) => v,
            None => return None,
        };
        let y = match self.axis(point.y, self.offset.y, viewport.min.y) {
            Some(v) => v,
            None => return None,
        };
        Some(Pos2 { x, y })
    }

    fn axis(&self, p: i64, offset: i64, corner: i64) -> (r: Option<i64>)
        requires
            self.wf(),
        ensures
            r == (if fits_i64(screen_axis(offset as int, self.scale as int, self.denom as int,
                p as int, corner as int)) {
                Some(screen_axis(offset as int, self.scale as int, self.denom as int, p as int,
                    corner as int) as i64)
            } else {
                None::<i64>
            }),
    {
        let a = p as i128;
        let b = self.scale as i128;
        proof {
            assert(-0x4000_0000_0000_0000_0000_0000_0000_0000 <= a * b
                <= 0x4000_0000_0000_0000_0000_0000_0000_0000) by (nonlinear_arith)
                requires
                    -0x8000_0000_0000_0000 <= a <= 0x7fff_ffff_ffff_ffff,
                    0 < b <= 0x7fff_ffff_ffff_ffff,
            ;
        }
        let n = a * b - offset as i128;
        let d = self.denom;
        let q = floor_div(n, d);
        proof {
            assert(-0x4000_0000_0000_0001_0000_0000_0000_0000 <= q
                <= 0x4000_0000_0000_0001_0000_0000_0000_0000) by (nonlinear_arith)
                requires
                    d >= 1,
                    q == n as int / d as int,
                    -0x4000_0000_0000_0001_0000_0000_0000_0000 <= n
                        <= 0x4000_0000_0000_0001_0000_0000_0000_0000,
            ;
        }
        narrow(q + corner as i128)
    }
}

/// Zooming about a pivot keeps the pivot fixed: every graph point that lands
/// exactly on `pivot` before the zoom lands exactly on it after, and the graph
/// point found under `pivot` (`rel / scale` along each axis) is one of them.
pub proof fn lemma_zoom_keeps_pivot(
    s: SnarlState,
    num: int,
    den: int,
    pivot: Pos2,
    viewport: Rect,
    gx: int,
    gy: int,
    gd: int,
)
    requires
        s.wf(),
        num > 0,
        den > 0,
        gd > 0,
        s.zoom_fits(num, den, pivot, viewport),
    ensures
        s.lands_on_x(s.rel_x(pivot, viewport), s.scale as int, pivot.x as int, viewport),
        s.lands_on_y(s.rel_y(pivot, viewport), s.scale as int, pivot.y as int, viewport),
        s.spec_zoomed(num, den, pivot, viewport).lands_on_x(
            s.rel_x(pivot, viewport), s.scale as int, pivot.x as int, viewport),
        s.spec_zoomed(num, den, pivot, viewport).lands_on_y(
            s.rel_y(pivot, viewport), s.scale as int, pivot.y as int, viewport),
        s.lands_on_x(gx, gd, pivot.x as int, viewport) ==> s.spec_zoomed(
            num, den, pivot, viewport).lands_on_x(gx, gd, pivot.x as int, viewport),
        s.lands_on_y(gy, gd, pivot.y as int, viewport) ==> s.spec_zoomed(
            num, den, pivot, viewport).lands_on_y(gy, gd, pivot.y as int, viewport),
{
    lemma_axis_keeps_pivot(s.offset.x as int, s.scale as int, s.denom as int, pivot.x as int,
        viewport.min.x as int, num, den, s.rel_x(pivot, viewport), s.scale as int);
    lemma_axis_keeps_pivot(s.offset.y as int, s.scale as int, s.denom as int, pivot.y as int,
        viewport.min.y as int, num, den, s.rel_y(pivot, viewport), s.scale as int);
    lemma_axis_keeps_pivot(s.offset.x as int, s.scale as int, s.denom as int, pivot.x as int,
        viewport.min.x as int, num, den, gx, gd);
    lemma_axis_keeps_pivot(s.offset.y as int, s.scale as int, s.denom as int, pivot.y as int,
        viewport.min.y as int, num, den, gy, gd);
}

proof fn lemma_axis_keeps_pivot(
    off: int,
    scale: int,
    denom: int,
    pivot: int,
    corner: int,
    num: int,
    den: int,
    gn: int,
    gd: int,
)
    requires
        scale > 0,
        denom > 0,
        gd > 0,
    ensures
        lands_on(off, scale, denom, pivot_rel(off, denom, pivot, corner), scale, pivot, corner),
        lands_on(off, scale, denom, gn, gd, pivot, corner) ==> lands_on(
            zoomed_offset(off, pivot_rel(off, denom, pivot, corner), num, den),
            scale * num,
            denom * den,
            gn,
            gd,
            pivot,
            corner,
        ),
{
    let a = pivot_rel(off, denom, pivot, corner);
    assert(a * scale - off * scale == (pivot - corner) * denom * scale) by (nonlinear_arith)
        requires
            a == (pivot - corner) * denom + off,
    ;
    if lands_on(off, scale, denom, gn, gd, pivot, corner) {
        let p = (pivot - corner) * denom;
        let g = gn * scale;
        assert(g == a * gd) by (nonlinear_arith)
            requires
                g - off * gd == p * gd,
                a == p + off,
        ;
        assert(gn * (scale * num) == a * gd * num) by (nonlinear_arith)
            requires
                g == gn * scale,
                g == a * gd,
        ;
        assert((off * den + a * (num - den)) * gd == off * den * gd + a * gd * num - a * den * gd)
            by (nonlinear_arith);
        assert(a * den * gd - off * den * gd == p * den * gd) by (nonlinear_arith)
            requires
                a == p + off,
        ;
        assert(p * den * gd == (pivot - corner) * (denom * den) * gd) by (nonlinear_arith)
            requires
                p == (pivot - corner) * denom,
        ;
    }
}

/// Zooming by a factor of one, once or twice in a row, changes neither the
/// pan nor the zoom factor.
pub proof fn lemma_unit_zoom_is_noop(s: SnarlState, d: int, e: int, pivot: Pos2, viewport: Rect)
    requires
        s.wf(),
        d > 0,
        e > 0,
        s.zoom_fits(d, d, pivot, viewport),
        s.spec_zoomed(d, d, pivot, viewport).zoom_fits(e, e, pivot, viewport),
    ensures
        s.spec_zoomed(d, d, pivot, viewport).same_view(s),
        s.spec_zoomed(d, d, pivot, viewport).spec_zoomed(e, e, pivot, viewport).same_view(s),
{
    let t = s.spec_zoomed(d, d, pivot, viewport);
    let u = t.spec_zoomed(e, e, pivot, viewport);
    assert(t.offset.x == s.offset.x * d);
    assert(t.offset.y == s.offset.y * d);
    assert(u.offset.x == t.offset.x * e);
    assert(u.offset.y == t.offset.y * e);
    assert(t.same_view(s)) by (nonlinear_arith)
        requires
            t.offset.x == s.offset.x * d,
            t.offset.y == s.offset.y * d,
            t.scale == s.scale * d,
            t.denom == s.denom * d,
    ;
    assert(u.same_view(s)) by (nonlinear_arith)
        requires
            u.offset.x == s.offset.x * d * e,
            u.offset.y == s.offset.y * d * e,
            u.scale == s.scale * d * e,
            u.denom == s.denom * d * e,
    ;
}

} // verus!
