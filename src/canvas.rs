use vstd::prelude::*;

use crate::laws::lemma_scale_fits;
use crate::ratio::Ratio;

verus! {

/// The canvas is limited by the width of the target rather than by its
/// height: `pw / lw <= ph / lh`, cross-multiplied.
pub open spec fn width_binds(lw: int, lh: int, pw: int, ph: int) -> bool {
    pw * lh <= ph * lw
}

/// Numerator of the scale factor `min(pw / lw, ph / lh)`.
pub open spec fn scale_num(lw: int, lh: int, pw: int, ph: int) -> int {
    if width_binds(lw, lh, pw, ph) {
        pw
    } else {
        ph
    }
}

/// Denominator of the scale factor `min(pw / lw, ph / lh)`.
pub open spec fn scale_den(lw: int, lh: int, pw: int, ph: int) -> int {
    if width_binds(lw, lh, pw, ph) {
        lw
    } else {
        lh
    }
}

/// Canvas pixel under the target position `pos`, on one axis whose canvas
/// length is `len` and target length is `target`, at scale `sn / sd`.
///
/// The padding on this axis is `(target - len * sn / sd) / 2`, and the canvas
/// coordinate is `(pos - padding) / (sn / sd)`, which simplifies to
/// `(2 * sd * pos - target * sd + len * sn) / (2 * sn)`. It is floored and
/// clamped to `[0, len]`.
pub open spec fn canvas_coord(len: int, target: int, sn: int, sd: int, pos: int) -> int {
    let q = (2 * sd * pos - target * sd + len * sn) / (2 * sn);
    if q < 0 {
        0
    } else if q > len {
        len
    } else {
        q
    }
}

/// The product of two `u32` values fits in a `u64`.
proof fn lemma_product_fits_u64(a: int, b: int)
    requires
        0 <= a <= u32::MAX,
        0 <= b <= u32::MAX,
    ensures
        0 <= a * b <= u32::MAX * u32::MAX,
{
    assert(0 <= a * b <= u32::MAX * u32::MAX) by (nonlinear_arith)
        requires
            0 <= a <= u32::MAX,
            0 <= b <= u32::MAX,
    ;
}

/// A negative numerator gives a negative quotient.
pub(crate) proof fn lemma_div_negative(n: int, d: int)
    requires
        n < 0,
        d > 0,
    ensures
        n / d < 0,
{
    vstd::arithmetic::div_mod::lemma_fundamental_div_mod(n, d);
    let q = n / d;
    if q >= 0 {
        assert(d * q >= 0) by (nonlinear_arith)
            requires
                d > 0,
                q >= 0,
        ;
    }
}

/// Exec form of `canvas_coord` for one axis.
fn canvas_axis(len: u32, target: u32, sn: u64, sd: u64, pos: i64) -> (r: u32)
    requires
        0 < sn <= u32::MAX,
        0 < sd <= u32::MAX,
    ensures
        r == canvas_coord(len as int, target as int, sn as int, sd as int, pos as int),
{
    let ghost n_spec: int = 2 * sd * pos - target * sd + len * sn;
    proof {
        assert(-u32::MAX * 0x1_0000_0000_0000_0000int <= 2 * sd * pos
            <= u32::MAX * 0x1_0000_0000_0000_0000int) by (nonlinear_arith)
            requires
                0 < sd <= u32::MAX,
                -0x8000_0000_0000_0000int <= pos < 0x8000_0000_0000_0000int,
        ;
        lemma_product_fits_u64(target as int, sd as int);
        lemma_product_fits_u64(len as int, sn as int);
    }
    let n: i128 = 2 * (sd as i128) * (pos as i128) - (target as i128) * (sd as i128) + (len as i128)
        * (sn as i128);
    assert(n == n_spec);
    if n < 0 {
        proof {
            lemma_div_negative(n_spec, 2 * sn);
        }
        0
    } else {
        let q: u128 = (n as u128) / (2 * (sn as u128));
        if q > len as u128 {
            len
        } else {
            q as u32
        }
    }
}

/// A canvas of fixed logical size, in pixels, to be scaled uniformly into a
/// target surface of any size and centred there.
#[derive(Clone, Copy, Debug)]
pub struct Canvas2D {
    width: u32,
    height: u32,
}

impl Canvas2D {
    #[verifier::type_invariant]
    spec fn inv(self) -> bool {
        self.width > 0 && self.height > 0
    }

    /// Logical width of the canvas.
    pub closed spec fn logical_width(self) -> int {
        self.width as int
    }

    /// Logical height of the canvas.
    pub closed spec fn logical_height(self) -> int {
        self.height as int
    }

    /// Creates a canvas of the given logical size.
    pub fn new(width: u32, height: u32) -> (r: Self)
        requires
            width > 0,
            height > 0,
        ensures
            r.logical_width() == width,
            r.logical_height() == height,
    {
        Canvas2D { width, height }
    }

    /// Logical width of the canvas; always positive.
    pub fn width(&self) -> (r: u32)
        ensures
            r == self.logical_width(),
            r > 0,
    {
        proof {
            use_type_invariant(self);
        }
        self.width
    }

    /// Logical height of the canvas; always positive.
    pub fn height(&self) -> (r: u32)
        ensures
            r == self.logical_height(),
            r > 0,
    {
        proof {
            use_type_invariant(self);
        }
        self.height
    }

    /// The scale factors that would fit each axis alone:
    /// `(target_width / width, target_height / height)`.
    pub fn get_scale_factor(&self, target_width: u32, target_height: u32) -> (r: (Ratio, Ratio))
        ensures
            r.0.num == target_width && r.0.den == self.logical_width(),
            r.1.num == target_height && r.1.den == self.logical_height(),
            r.0.wf() && r.1.wf(),
    {
        let w = self.width();
        let h = self.height();
        (Ratio::new(target_width as u64, w as u64), Ratio::new(target_height as u64, h as u64))
    }

    /// The uniform scale factor `min(target_width / width, target_height / height)`:
    /// the largest at which the whole canvas fits inside the target.
    pub fn get_min_scale_factor(&self, target_width: u32, target_height: u32) -> (r: Ratio)
        ensures
            r.num == scale_num(
                self.logical_width(),
                self.logical_height(),
                target_width as int,
                target_height as int,
            ),
            r.den == scale_den(
                self.logical_width(),
                self.logical_height(),
                target_width as int,
                target_height as int,
            ),
            r.wf(),
    {
        let (sx, sy) = self.get_scale_factor(target_width, target_height);
        if sx.le(&sy) {
            sx
        } else {
            sy
        }
    }

    /// Size of the canvas at the uniform scale `s` of `get_min_scale_factor`:
    /// `(width * s, height * s)`, each over the denominator of `s`.
    pub fn get_size(&self, target_width: u32, target_height: u32) -> (r: (Ratio, Ratio))
        ensures
            ({
                let (lw, lh) = (self.logical_width(), self.logical_height());
                let (pw, ph) = (target_width as int, target_height as int);
                &&& r.0.num == lw * scale_num(lw, lh, pw, ph)
                &&& r.1.num == lh * scale_num(lw, lh, pw, ph)
                &&& r.0.den == scale_den(lw, lh, pw, ph)
                &&& r.1.den == scale_den(lw, lh, pw, ph)
            }),
            r.0.wf() && r.1.wf(),
    {
        let s = self.get_min_scale_factor(target_width, target_height);
        let w = self.width();
        let h = self.height();
        proof {
            lemma_product_fits_u64(w as int, s.num as int);
            lemma_product_fits_u64(h as int, s.num as int);
        }
        (Ratio::new(w as u64 * s.num, s.den), Ratio::new(h as u64 * s.num, s.den))
    }

    /// Padding and size of the canvas in the target: `(left, top, (w, h))`,
    /// where `(w, h)` is `get_size` and the padding centres the canvas,
    /// `left = (target_width - w) / 2` and `top = (target_height - h) / 2`,
    /// each over twice the denominator of the scale.
    pub fn get_size_and_padding(&self, target_width: u32, target_height: u32) -> (r: (
        Ratio,
        Ratio,
        (Ratio, Ratio),
    ))
        ensures
            ({
                let (lw, lh) = (self.logical_width(), self.logical_height());
                let (pw, ph) = (target_width as int, target_height as int);
                let (sn, sd) = (scale_num(lw, lh, pw, ph), scale_den(lw, lh, pw, ph));
                &&& r.0.num == pw * sd - lw * sn
                &&& r.1.num == ph * sd - lh * sn
                &&& r.0.den == 2 * sd
                &&& r.1.den == 2 * sd
                &&& r.2.0.num == lw * sn
                &&& r.2.1.num == lh * sn
                &&& r.2.0.den == sd
                &&& r.2.1.den == sd
            }),
            r.0.wf() && r.1.wf() && r.2.0.wf() && r.2.1.wf(),
    {
        let (w, h) = self.get_size(target_width, target_height);
        proof {
            use_type_invariant(self);
            lemma_scale_fits(
                self.logical_width(),
                self.logical_height(),
                target_width as int,
                target_height as int,
            );
            lemma_product_fits_u64(target_width as int, w.den as int);
            lemma_product_fits_u64(target_height as int, w.den as int);
        }
        let left = Ratio::new(target_width as u64 * w.den - w.num, 2 * w.den);
        let top = Ratio::new(target_height as u64 * h.den - h.num, 2 * h.den);
        (left, top, (w, h))
    }

    /// Padding that centres the canvas in the target: the `(left, top)` of
    /// `get_size_and_padding`.
    pub fn get_padding(&self, target_width: u32, target_height: u32) -> (r: (Ratio, Ratio))
        ensures
            ({
                let (lw, lh) = (self.logical_width(), self.logical_height());
                let (pw, ph) = (target_width as int, target_height as int);
                let (sn, sd) = (scale_num(lw, lh, pw, ph), scale_den(lw, lh, pw, ph));
                &&& r.0.num == pw * sd - lw * sn
                &&& r.1.num == ph * sd - lh * sn
                &&& r.0.den == 2 * sd
                &&& r.1.den == 2 * sd
            }),
            r.0.wf() && r.1.wf(),
    {
        let (left, top, _) = self.get_size_and_padding(target_width, target_height);
        (left, top)
    }

    /// Canvas pixel under the pointer at `(mouse_x, mouse_y)` in a target of
    /// the given size: the pointer is shifted by the padding, divided by the
    /// scale, clamped to `[0, width] x [0, height]` and floored.
    ///
    /// A target with a zero side shows no canvas; the result is then `None`.
    pub fn mouse_position_ex(
        &self,
        mouse_x: i64,
        mouse_y: i64,
        target_width: u32,
        target_height: u32,
    ) -> (r: Option<(u32, u32)>)
        ensures
            r is None <==> (target_width == 0 || target_height == 0),
            r matches Some((x, y)) ==> {
                let (lw, lh) = (self.logical_width(), self.logical_height());
                let (pw, ph) = (target_width as int, target_height as int);
                let (sn, sd) = (scale_num(lw, lh, pw, ph), scale_den(lw, lh, pw, ph));
                &&& x == canvas_coord(lw, pw, sn, sd, mouse_x as int)
                &&& y == canvas_coord(lh, ph, sn, sd, mouse_y as int)
            },
    {
        if target_width == 0 || target_height == 0 {
            return None;
        }
        let s = self.get_min_scale_factor(target_width, target_height);
        let x = canvas_axis(self.width(), target_width, s.num, s.den, mouse_x);
        let y = canvas_axis(self.height(), target_height, s.num, s.den, mouse_y);
        Some((x, y))
    }
}

} // verus!
