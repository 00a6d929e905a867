//! Camera projections and zoom.  Two zoom models exist as the two variants
//! of [`Projection`]: a perspective camera zooms by scaling its field of
//! view, an orthographic camera by scaling its scale parameter; both clamp
//! to a fixed range, so no scroll input can produce an invalid projection.

use vstd::prelude::*;
use vstd::arithmetic::div_mod::{lemma_div_is_ordered, lemma_div_multiples_vanish};
use crate::fixed::{clamp_spec, clamp_fx};

verus! {

/// Smallest admitted field of view: 15 degrees, in microradians.
pub const FOV_MIN_URAD: i64 = 261_799;

/// Largest admitted field of view: 120 degrees, in microradians.
pub const FOV_MAX_URAD: i64 = 2_094_395;

/// Smallest admitted orthographic scale, in micro-units (0.01).
pub const ORTHO_SCALE_MIN: i64 = 10_000;

/// Largest admitted orthographic scale, in micro-units (0.5).
pub const ORTHO_SCALE_MAX: i64 = 500_000;

/// A perspective projection: field of view in microradians, aspect ratio in
/// milli-units, near and far planes in micro-units.
#[derive(Clone, Copy, Debug, PartialEq, Eq, Structural)]
pub struct PerspectiveFx {
    pub fov: i64,
    pub aspect_milli: i64,
    pub near: i64,
    pub far: i64,
}

/// An orthographic projection: the viewport scale in micro-units.
#[derive(Clone, Copy, Debug, PartialEq, Eq, Structural)]
pub struct OrthographicFx {
    pub scale: i64,
}

/// A camera projection, one of the two zoom models.
#[derive(Clone, Copy, Debug, PartialEq, Eq, Structural)]
pub enum Projection {
    Perspective(PerspectiveFx),
    Orthographic(OrthographicFx),
}

impl Projection {
    /// The zoomed parameter is within its clamp range and the planes are
    /// ordered.
    pub open spec fn wf(self) -> bool {
        match self {
            Projection::Perspective(p) => {
                &&& FOV_MIN_URAD <= p.fov <= FOV_MAX_URAD
                &&& 0 < p.aspect_milli
                &&& 0 < p.near < p.far
            },
            Projection::Orthographic(o) => ORTHO_SCALE_MIN <= o.scale <= ORTHO_SCALE_MAX,
        }
    }
}

/// A field of view after one scroll step: multiplied by `1 - scroll * 0.05`
/// (held exactly as `(20 - scroll) / 20`) and clamped.
pub open spec fn zoom_fov_spec(fov: int, scroll: int) -> int {
    if scroll == 0 {
        fov
    } else {
        clamp_spec((fov * (20 - scroll)) / 20, FOV_MIN_URAD as int, FOV_MAX_URAD as int)
    }
}

/// An orthographic scale after one scroll step: multiplied by
/// `1 - scroll * 0.1` (held exactly as `(10 - scroll) / 10`) and clamped.
pub open spec fn zoom_scale_spec(scale: int, scroll: int) -> int {
    if scroll == 0 {
        scale
    } else {
        clamp_spec((scale * (10 - scroll)) / 10, ORTHO_SCALE_MIN as int, ORTHO_SCALE_MAX as int)
    }
}

/// A projection after one scroll step of its zoom model.
pub open spec fn zoom_spec(p: Projection, scroll: int) -> Projection {
    match p {
        Projection::Perspective(pp) => Projection::Perspective(
            PerspectiveFx { fov: zoom_fov_spec(pp.fov as int, scroll) as i64, ..pp },
        ),
        Projection::Orthographic(oo) => Projection::Orthographic(
            OrthographicFx { scale: zoom_scale_spec(oo.scale as int, scroll) as i64 },
        ),
    }
}

/// One zoom step of a clamped, scaled parameter: `value` in
/// `[lo, hi]` is multiplied by `(den - scroll) / den` and clamped back to
/// `[lo, hi]`.  Any scroll magnitude is admitted.
fn zoom_param(value: i64, scroll: i64, den: i64, lo: i64, hi: i64) -> (r: i64)
    requires
        0 < lo <= value <= hi,
        hi <= 2_100_000,
        2 <= den <= 20,
        scroll != 0,
        // the clamp range is reachable from every admitted value
        hi * den <= lo * 100_000,
    ensures
        r == clamp_spec((value * (den - scroll)) / (den as int), lo as int, hi as int),
{
    if scroll >= den {
        // factor <= 0, so the scaled parameter is at most zero: clamp low.
        proof {
            let v = value as int;
            let f = den - scroll as int;
            assert(v * f <= 0) by (nonlinear_arith)
                requires
                    v > 0,
                    f <= 0,
            ;
            lemma_div_is_ordered(v * f, 0, den as int);
            assert(0int / (den as int) == 0) by {
                lemma_div_multiples_vanish(0, den as int);
            };
        }
        lo
    } else if scroll <= -100_000 {
        // the factor is at least 100_000 / den, so the scaled parameter
        // reaches past the top of the range: clamp high.
        proof {
            let v = value as int;
            let d = den as int;
            let f = d - scroll as int;
            assert(v * f >= lo as int * 100_000) by (nonlinear_arith)
                requires
                    v >= lo as int > 0,
                    f >= 100_000,
            ;
            assert((lo as int * 100_000) / d >= hi as int) by {
                lemma_div_is_ordered(hi as int * d, lo as int * 100_000, d);
                lemma_div_multiples_vanish(hi as int, d);
                assert(d * hi as int == hi as int * d);
            };
            lemma_div_is_ordered(lo as int * 100_000, v * f, d);
        }
        hi
    } else {
        // -100_000 < scroll < den: the product stays far inside i64.
        let factor: i64 = den - scroll;
        proof {
            assert(0 < value as int * factor as int <= 2_100_000 * 100_020) by (nonlinear_arith)
                requires
                    0 < value as int <= 2_100_000,
                    0 < factor as int <= 100_020,
            ;
        }
        let scaled: i64 = (value * factor) / den;
        proof {
            lemma_div_is_ordered(0, value as int * factor as int, den as int);
        }
        clamp_fx(scaled, lo, hi)
    }
}

impl Projection {
    /// The projection after one scroll step; a zero scroll changes nothing.
    pub fn zoomed(self, scroll: i64) -> (r: Projection)
        requires
            self.wf(),
        ensures
            r == zoom_spec(self, scroll as int),
            r.wf(),
    {
        if scroll == 0 {
            return self;
        }
        match self {
            Projection::Perspective(p) => Projection::Perspective(
                PerspectiveFx {
                    fov: zoom_param(p.fov, scroll, 20, FOV_MIN_URAD, FOV_MAX_URAD),
                    aspect_milli: p.aspect_milli,
                    near: p.near,
                    far: p.far,
                },
            ),
            Projection::Orthographic(o) => Projection::Orthographic(
                OrthographicFx {
                    scale: zoom_param(o.scale, scroll, 10, ORTHO_SCALE_MIN, ORTHO_SCALE_MAX),
                },
            ),
        }
    }
}

/// A projection after a whole sequence of scroll steps, earliest first.
pub open spec fn zoom_seq_spec(p: Projection, scrolls: Seq<i64>) -> Projection
    decreases scrolls.len(),
{
    if scrolls.len() == 0 {
        p
    } else {
        zoom_spec(zoom_seq_spec(p, scrolls.drop_last()), scrolls.last() as int)
    }
}

/// However long the scroll sequence and whatever its magnitudes and signs,
/// the zoomed parameter stays within its clamp range: the field of view in
/// `[FOV_MIN_URAD, FOV_MAX_URAD]`, the orthographic scale in
/// `[ORTHO_SCALE_MIN, ORTHO_SCALE_MAX]`.
pub proof fn lemma_zoom_in_range(p: Projection, scrolls: Seq<i64>)
    requires
        p.wf(),
    ensures
        zoom_seq_spec(p, scrolls).wf(),
        zoom_seq_spec(p, scrolls) is Perspective <==> p is Perspective,
    decreases scrolls.len(),
{
    if scrolls.len() > 0 {
        lemma_zoom_in_range(p, scrolls.drop_last());
        let prev = zoom_seq_spec(p, scrolls.drop_last());
        let s = scrolls.last() as int;
        lemma_zoom_step_wf(prev, s);
    }
}

/// One zoom step preserves well-formedness and the projection model.
pub proof fn lemma_zoom_step_wf(p: Projection, scroll: int)
    requires
        p.wf(),
    ensures
        zoom_spec(p, scroll).wf(),
        zoom_spec(p, scroll) is Perspective <==> p is Perspective,
{
    if scroll != 0 {
        match p {
            Projection::Perspective(pp) => {
                assert(FOV_MIN_URAD <= clamp_spec(
                    (pp.fov as int * (20 - scroll)) / 20,
                    FOV_MIN_URAD as int,
                    FOV_MAX_URAD as int,
                ) <= FOV_MAX_URAD);
            },
            Projection::Orthographic(oo) => {
                assert(ORTHO_SCALE_MIN <= clamp_spec(
                    (oo.scale as int * (10 - scroll)) / 10,
                    ORTHO_SCALE_MIN as int,
                    ORTHO_SCALE_MAX as int,
                ) <= ORTHO_SCALE_MAX);
            },
        }
    }
}

} // verus!
