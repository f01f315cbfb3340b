//! Laws relating the scale factor, the scaled size, the padding and the
//! pointer mapping of a canvas with logical size `lw x lh` drawn into a target
//! of size `pw x ph`. Fractions are compared cross-multiplied.

use vstd::prelude::*;

use vstd::arithmetic::div_mod::{
    lemma_div_is_ordered, lemma_div_multiples_vanish, lemma_fundamental_div_mod,
    lemma_fundamental_div_mod_converse,
};

use crate::canvas::{canvas_coord, scale_den, scale_num, width_binds};

verus! {

/// At the uniform scale `s = min(pw / lw, ph / lh)` the scaled canvas fits
/// inside the target on both axes (`lw * s <= pw`, `lh * s <= ph`), and it
/// spans the target exactly on at least one axis, so no larger uniform scale
/// would fit.
pub proof fn lemma_scale_fits(lw: int, lh: int, pw: int, ph: int)
    requires
        lw > 0,
        lh > 0,
        pw >= 0,
        ph >= 0,
    ensures
        scale_den(lw, lh, pw, ph) > 0,
        scale_num(lw, lh, pw, ph) >= 0,
        lw * scale_num(lw, lh, pw, ph) <= pw * scale_den(lw, lh, pw, ph),
        lh * scale_num(lw, lh, pw, ph) <= ph * scale_den(lw, lh, pw, ph),
        lw * scale_num(lw, lh, pw, ph) == pw * scale_den(lw, lh, pw, ph) || lh * scale_num(
            lw,
            lh,
            pw,
            ph,
        ) == ph * scale_den(lw, lh, pw, ph),
{
    if width_binds(lw, lh, pw, ph) {
        assert(lw * pw == pw * lw && lh * pw <= ph * lw) by (nonlinear_arith)
            requires
                pw * lh <= ph * lw,
        ;
    } else {
        assert(lw * ph <= pw * lh && lh * ph == ph * lh) by (nonlinear_arith)
            requires
                pw * lh > ph * lw,
        ;
    }
}

/// Enlarging the target, on either axis or on both, never makes the uniform
/// scale smaller: `s(pw1, ph1) <= s(pw2, ph2)` when `pw1 <= pw2` and
/// `ph1 <= ph2`.
pub proof fn lemma_scale_monotonic(lw: int, lh: int, pw1: int, ph1: int, pw2: int, ph2: int)
    requires
        lw > 0,
        lh > 0,
        0 <= pw1 <= pw2,
        0 <= ph1 <= ph2,
    ensures
        scale_num(lw, lh, pw1, ph1) * scale_den(lw, lh, pw2, ph2) <= scale_num(lw, lh, pw2, ph2)
            * scale_den(lw, lh, pw1, ph1),
{
    lemma_scale_fits(lw, lh, pw1, ph1);
    let (sn1, sd1) = (scale_num(lw, lh, pw1, ph1), scale_den(lw, lh, pw1, ph1));
    if width_binds(lw, lh, pw2, ph2) {
        assert(sn1 * lw <= pw2 * sd1) by (nonlinear_arith)
            requires
                lw * sn1 <= pw1 * sd1,
                pw1 <= pw2,
                sd1 > 0,
        ;
    } else {
        assert(sn1 * lh <= ph2 * sd1) by (nonlinear_arith)
            requires
                lh * sn1 <= ph1 * sd1,
                ph1 <= ph2,
                sd1 > 0,
        ;
    }
}

/// The scaled canvas keeps the logical aspect ratio: its width and height,
/// `lw * s` and `lh * s`, share a denominator and their numerators satisfy
/// `w * lh == h * lw`, i.e. `w / h == lw / lh` whenever `h > 0`.
pub proof fn lemma_aspect_preserved(lw: int, lh: int, pw: int, ph: int)
    requires
        lw > 0,
        lh > 0,
        pw >= 0,
        ph >= 0,
    ensures
        (lw * scale_num(lw, lh, pw, ph)) * lh == (lh * scale_num(lw, lh, pw, ph)) * lw,
{
    let sn = scale_num(lw, lh, pw, ph);
    assert((lw * sn) * lh == (lh * sn) * lw) by (nonlinear_arith);
}

/// The padding centres the canvas: both paddings are non-negative, and the
/// target is the left padding, the scaled width and a right padding equal to
/// the left one (likewise top, height and bottom). With the scale `sn / sd`,
/// the left padding is `(pw * sd - lw * sn) / (2 * sd)` and the width is
/// `lw * sn / sd`.
pub proof fn lemma_padding_centres(lw: int, lh: int, pw: int, ph: int)
    requires
        lw > 0,
        lh > 0,
        pw >= 0,
        ph >= 0,
    ensures
        ({
            let (sn, sd) = (scale_num(lw, lh, pw, ph), scale_den(lw, lh, pw, ph));
            let (left, top) = (pw * sd - lw * sn, ph * sd - lh * sn);
            &&& left >= 0
            &&& top >= 0
            &&& left + 2 * (lw * sn) + left == pw * (2 * sd)
            &&& top + 2 * (lh * sn) + top == ph * (2 * sd)
        }),
{
    lemma_scale_fits(lw, lh, pw, ph);
    let (sn, sd) = (scale_num(lw, lh, pw, ph), scale_den(lw, lh, pw, ph));
    assert(pw * (2 * sd) == 2 * (pw * sd) && ph * (2 * sd) == 2 * (ph * sd)) by (nonlinear_arith);
}

/// Round trip on one axis: the target position of canvas position `a / b`
/// maps back to `floor(a / b)`.
proof fn lemma_axis_round_trip(len: int, target: int, sn: int, sd: int, a: int, b: int, pos: int)
    requires
        sn > 0,
        sd > 0,
        b > 0,
        0 <= a <= len * b,
        pos * (2 * sd * b) == (target * sd - len * sn) * b + 2 * a * sn,
    ensures
        canvas_coord(len, target, sn, sd, pos) == a / b,
{
    let n = 2 * sd * pos - target * sd + len * sn;
    let m = 2 * sn;
    assert(n * b == a * m) by (nonlinear_arith)
        requires
            n == 2 * sd * pos - target * sd + len * sn,
            m == 2 * sn,
            pos * (2 * sd * b) == (target * sd - len * sn) * b + 2 * a * sn,
    ;
    lemma_fundamental_div_mod(a, b);
    let q = a / b;
    let r = a % b;
    let t = n - q * m;
    assert(0 <= t < m) by (nonlinear_arith)
        requires
            n * b == a * m,
            a == b * q + r,
            0 <= r < b,
            t == n - q * m,
            m > 0,
            b > 0,
    ;
    lemma_fundamental_div_mod_converse(n, m, q, t);
    assert(a <= b * len) by (nonlinear_arith)
        requires
            a <= len * b,
    ;
    lemma_div_is_ordered(a, b * len, b);
    lemma_div_multiples_vanish(len, b);
    assert(0 <= q) by (nonlinear_arith)
        requires
            a == b * q + r,
            0 <= r < b,
            a >= 0,
            b > 0,
    ;
}

/// Round trip: for a canvas point `(lx, ly) = (ax / b, ay / b)` inside
/// `[0, lw] x [0, lh]`, the target point `(left + lx * s, top + ly * s)` maps
/// back to `(floor(lx), floor(ly))`. The target point is given by the
/// cross-multiplied equations over the scale `sn / sd` and the paddings
/// `(pw * sd - lw * sn) / (2 * sd)` and `(ph * sd - lh * sn) / (2 * sd)`.
pub proof fn lemma_round_trip(
    lw: int,
    lh: int,
    pw: int,
    ph: int,
    ax: int,
    ay: int,
    b: int,
    px: int,
    py: int,
)
    requires
        lw > 0,
        lh > 0,
        pw > 0,
        ph > 0,
        b > 0,
        0 <= ax <= lw * b,
        0 <= ay <= lh * b,
        px * (2 * scale_den(lw, lh, pw, ph) * b) == (pw * scale_den(lw, lh, pw, ph) - lw
            * scale_num(lw, lh, pw, ph)) * b + 2 * ax * scale_num(lw, lh, pw, ph),
        py * (2 * scale_den(lw, lh, pw, ph) * b) == (ph * scale_den(lw, lh, pw, ph) - lh
            * scale_num(lw, lh, pw, ph)) * b + 2 * ay * scale_num(lw, lh, pw, ph),
    ensures
        canvas_coord(lw, pw, scale_num(lw, lh, pw, ph), scale_den(lw, lh, pw, ph), px) == ax / b,
        canvas_coord(lh, ph, scale_num(lw, lh, pw, ph), scale_den(lw, lh, pw, ph), py) == ay / b,
{
    lemma_scale_fits(lw, lh, pw, ph);
    let (sn, sd) = (scale_num(lw, lh, pw, ph), scale_den(lw, lh, pw, ph));
    lemma_axis_round_trip(lw, pw, sn, sd, ax, b, px);
    lemma_axis_round_trip(lh, ph, sn, sd, ay, b, py);
}

/// Clamping on one axis: before the canvas the result is 0, from its far
/// edge on it is `len`.
proof fn lemma_axis_clamp(len: int, target: int, sn: int, sd: int, pos: int)
    requires
        len > 0,
        sn > 0,
        sd > 0,
    ensures
        2 * sd * pos < target * sd - len * sn ==> canvas_coord(len, target, sn, sd, pos) == 0,
        2 * sd * pos >= target * sd + len * sn ==> canvas_coord(len, target, sn, sd, pos) == len,
{
    let n = 2 * sd * pos - target * sd + len * sn;
    let m = 2 * sn;
    if n < 0 {
        crate::canvas::lemma_div_negative(n, m);
    }
    if 2 * sd * pos >= target * sd + len * sn {
        assert(m * len <= n) by (nonlinear_arith)
            requires
                n == 2 * sd * pos - target * sd + len * sn,
                m == 2 * sn,
                2 * sd * pos >= target * sd + len * sn,
        ;
        lemma_div_is_ordered(m * len, n, m);
        lemma_div_multiples_vanish(len, m);
    }
}

/// Clamping: a pointer in the padding before the canvas (`px < left`) maps
/// to 0, and one at or beyond the canvas's far edge (`px >= left + lw * s`)
/// maps to `lw`; likewise on the vertical axis with `top`, `lh` and `ph`.
/// Positions are compared cross-multiplied by `2 * sd`, with the scale
/// `sn / sd` and the left padding `(pw * sd - lw * sn) / (2 * sd)`.
pub proof fn lemma_clamp_to_edges(lw: int, lh: int, pw: int, ph: int, px: int, py: int)
    requires
        lw > 0,
        lh > 0,
        pw > 0,
        ph > 0,
    ensures
        ({
            let (sn, sd) = (scale_num(lw, lh, pw, ph), scale_den(lw, lh, pw, ph));
            &&& 2 * sd * px < pw * sd - lw * sn ==> canvas_coord(lw, pw, sn, sd, px) == 0
            &&& 2 * sd * px >= pw * sd + lw * sn ==> canvas_coord(lw, pw, sn, sd, px) == lw
            &&& 2 * sd * py < ph * sd - lh * sn ==> canvas_coord(lh, ph, sn, sd, py) == 0
            &&& 2 * sd * py >= ph * sd + lh * sn ==> canvas_coord(lh, ph, sn, sd, py) == lh
        }),
{
    lemma_scale_fits(lw, lh, pw, ph);
    let (sn, sd) = (scale_num(lw, lh, pw, ph), scale_den(lw, lh, pw, ph));
    lemma_axis_clamp(lw, pw, sn, sd, px);
    lemma_axis_clamp(lh, ph, sn, sd, py);
}

} // verus!
