//! Thumbnail sizing and the worker pool's result collection. A decoded
//! image is scaled to fit a fixed square bound, aspect ratio preserved;
//! items whose decode fails on both paths are dropped without disturbing
//! the rest of the batch.

use vstd::prelude::*;

verus! {

/// The square bound on thumbnail dimensions, in pixels.
pub const THUMB_SIZE: u32 = 200;

/// Rounding division: `a / b` rounded to the nearest integer, halves up.
pub open spec fn round_div(a: int, b: int) -> int
    recommends
        b > 0,
{
    (2 * a + b) / (2 * b)
}

/// The scaled width: unchanged when the image already fits the bound,
/// otherwise `round(w * THUMB_SIZE / max(w, h))`.
pub open spec fn fit_w_spec(w: int, h: int) -> int {
    let m = if w >= h {
        w
    } else {
        h
    };
    if m <= THUMB_SIZE {
        w
    } else {
        round_div(w * THUMB_SIZE, m)
    }
}

/// The scaled height, symmetric to `fit_w_spec`.
pub open spec fn fit_h_spec(w: int, h: int) -> int {
    let m = if w >= h {
        w
    } else {
        h
    };
    if m <= THUMB_SIZE {
        h
    } else {
        round_div(h * THUMB_SIZE, m)
    }
}

/// The dimensions of the thumbnail for an image of `w` by `h` pixels:
/// scaled by `min(1, THUMB_SIZE / max(w, h))` with rounding, so both
/// results fit the bound and never exceed the original.
pub fn fit_dimensions(w: u32, h: u32) -> (r: (u32, u32))
    requires
        1 <= w,
        1 <= h,
    ensures
        r.0 == fit_w_spec(w as int, h as int),
        r.1 == fit_h_spec(w as int, h as int),
        r.0 <= THUMB_SIZE,
        r.1 <= THUMB_SIZE,
        r.0 <= w,
        r.1 <= h,
        w >= h && w > THUMB_SIZE ==> r.0 == THUMB_SIZE,
        h >= w && h > THUMB_SIZE ==> r.1 == THUMB_SIZE,
{
    let m = if w >= h {
        w
    } else {
        h
    };
    if m <= THUMB_SIZE {
        (w, h)
    } else {
        let t = THUMB_SIZE as u64;
        let m64 = m as u64;
        let nw = (2 * (w as u64) * t + m64) / (2 * m64);
        let nh = (2 * (h as u64) * t + m64) / (2 * m64);
        proof {
            let wi = w as int;
            let hi = h as int;
            let mi = m as int;
            let ti = THUMB_SIZE as int;
            assert((2 * wi * ti + mi) / (2 * mi) <= ti && (2 * wi * ti + mi) / (2 * mi) <= wi && 0
                <= (2 * wi * ti + mi) / (2 * mi)) by (nonlinear_arith)
                requires
                    1 <= wi,
                    wi <= mi,
                    1 <= ti,
                    ti < mi,
            ;
            assert((2 * hi * ti + mi) / (2 * mi) <= ti && (2 * hi * ti + mi) / (2 * mi) <= hi && 0
                <= (2 * hi * ti + mi) / (2 * mi)) by (nonlinear_arith)
                requires
                    1 <= hi,
                    hi <= mi,
                    1 <= ti,
                    ti < mi,
            ;
            // The larger side scales to the bound exactly.
            assert((2 * mi * ti + mi) / (2 * mi) == ti) by (nonlinear_arith)
                requires
                    1 <= mi,
                    0 <= ti,
            ;
        }
        (nw as u32, nh as u32)
    }
}

/// The scaled dimensions keep the aspect ratio within rounding tolerance:
/// the cross products of the new and old dimensions differ by at most
/// half of `w + h`.
pub proof fn lemma_aspect_ratio(w: int, h: int)
    requires
        1 <= w,
        1 <= h,
    ensures
        -(w + h) <= 2 * (fit_w_spec(w, h) * h - fit_h_spec(w, h) * w) <= w + h,
{
    let m = if w >= h {
        w
    } else {
        h
    };
    let t = THUMB_SIZE as int;
    if m <= t {
        assert(fit_w_spec(w, h) == w && fit_h_spec(w, h) == h);
        assert(w * h - h * w == 0) by (nonlinear_arith);
    } else {
        let nw = round_div(w * t, m);
        let nh = round_div(h * t, m);
        assert(2 * w * t - m < 2 * m * nw <= 2 * w * t + m) by (nonlinear_arith)
            requires
                nw == (2 * w * t + m) / (2 * m),
                1 <= m,
        ;
        assert(2 * h * t - m < 2 * m * nh <= 2 * h * t + m) by (nonlinear_arith)
            requires
                nh == (2 * h * t + m) / (2 * m),
                1 <= m,
        ;
        let d1 = 2 * m * nw - 2 * w * t;
        let d2 = 2 * m * nh - 2 * h * t;
        let p = nw * h;
        let q = nh * w;
        assert(2 * m * (p - q) == 2 * (m * p) - 2 * (m * q)) by (nonlinear_arith);
        assert(h * d1 == 2 * (m * p) - 2 * (w * t * h)) by (nonlinear_arith)
            requires
                d1 == 2 * m * nw - 2 * w * t,
                p == nw * h,
        ;
        assert(w * d2 == 2 * (m * q) - 2 * (h * t * w)) by (nonlinear_arith)
            requires
                d2 == 2 * m * nh - 2 * h * t,
                q == nh * w,
        ;
        assert(w * t * h == h * t * w) by (nonlinear_arith);
        assert(2 * m * (p - q) == h * d1 - w * d2);
        assert(-(m * (w + h)) <= h * d1 - w * d2 <= m * (w + h)) by (nonlinear_arith)
            requires
                -m < d1 <= m,
                -m < d2 <= m,
                1 <= w,
                1 <= h,
        ;
        assert(-(w + h) <= 2 * (p - q) <= w + h) by (nonlinear_arith)
            requires
                -(m * (w + h)) <= 2 * m * (p - q) <= m * (w + h),
                1 <= m,
                1 <= w,
                1 <= h,
        ;
    }
}

/// The in-memory model of one decoded thumbnail: the source path and the
/// bitmap's dimensions. The pixel data itself lives with the renderer.
pub struct Thumbnail {
    pub path: String,
    pub width: u32,
    pub height: u32,
}

/// The outcome of the two-path decode strategy: the direct scaled decode
/// wins when it succeeds, otherwise the full-decode-then-scale fallback
/// is taken; when both fail the item is dropped.
pub fn resolve_attempts(direct: Option<Thumbnail>, fallback: Option<Thumbnail>) -> (r: Option<
    Thumbnail,
>)
    ensures
        direct is Some ==> r == direct,
        direct is None ==> r == fallback,
{
    match direct {
        Some(t) => Some(t),
        None => fallback,
    }
}

/// The thumbnails among a batch's per-item decode results, in input
/// order; failed items contribute nothing.
pub open spec fn decoded_of(s: Seq<Option<Thumbnail>>) -> Seq<Thumbnail>
    decreases s.len(),
{
    if s.len() == 0 {
        Seq::empty()
    } else {
        let rest = decoded_of(s.subrange(1, s.len() as int));
        match s[0] {
            Some(t) => seq![t] + rest,
            None => rest,
        }
    }
}

/// Collects a batch's decode results: every successful item survives, in
/// input order, and every failed item is dropped without aborting the
/// batch.
pub fn collect_decoded(results: Vec<Option<Thumbnail>>) -> (r: Vec<Thumbnail>)
    ensures
        r@ == decoded_of(results@),
{
    let ghost orig = results@;
    let mut rest = results;
    let mut out: Vec<Thumbnail> = Vec::new();
    proof {
        assert(out@ + decoded_of(rest@) =~= decoded_of(orig));
    }
    while rest.len() > 0
        invariant
            decoded_of(orig) == out@ + decoded_of(rest@),
        decreases rest.len(),
    {
        let ghost before = rest@;
        let item = rest.remove(0);
        proof {
            assert(rest@ =~= before.subrange(1, before.len() as int));
        }
        match item {
            Some(t) => {
                out.push(t);
                proof {
                    assert(out@ + decoded_of(rest@) =~= decoded_of(orig));
                }
            },
            None => {},
        }
    }
    proof {
        assert(decoded_of(rest@) =~= Seq::<Thumbnail>::empty());
        assert(out@ =~= decoded_of(orig));
    }
    out
}

} // verus!
