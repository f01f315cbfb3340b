use macroquad_canvas::{Canvas2D, Ratio};

fn ratio(num: u64, den: u64) -> Ratio {
    Ratio::new(num, den)
}

#[test]
fn new_keeps_logical_size() {
    let c = Canvas2D::new(800, 600);
    assert_eq!(c.width(), 800);
    assert_eq!(c.height(), 600);
}

#[test]
fn scale_factors_per_axis() {
    let c = Canvas2D::new(800, 600);
    let (sx, sy) = c.get_scale_factor(1600, 900);
    assert!(sx.same_value(&ratio(2, 1)));
    assert!(sy.same_value(&ratio(3, 2)));
}

#[test]
fn wide_target_is_pillarboxed() {
    let c = Canvas2D::new(800, 600);
    let s = c.get_min_scale_factor(1600, 900);
    assert!(s.same_value(&ratio(3, 2)));
    let (w, h) = c.get_size(1600, 900);
    assert!(w.same_value(&ratio(1200, 1)));
    assert!(h.same_value(&ratio(900, 1)));
    let (left, top) = c.get_padding(1600, 900);
    assert!(left.same_value(&ratio(200, 1)));
    assert!(top.same_value(&ratio(0, 1)));
}

#[test]
fn square_target_is_letterboxed() {
    let c = Canvas2D::new(800, 600);
    let s = c.get_min_scale_factor(400, 400);
    assert!(s.same_value(&ratio(1, 2)));
    let (left, top, (w, h)) = c.get_size_and_padding(400, 400);
    assert!(w.same_value(&ratio(400, 1)));
    assert!(h.same_value(&ratio(300, 1)));
    assert!(left.same_value(&ratio(0, 1)));
    assert!(top.same_value(&ratio(50, 1)));
}

#[test]
fn fractional_scale_is_exact() {
    let c = Canvas2D::new(3, 7);
    let s = c.get_min_scale_factor(5, 5);
    assert!(s.same_value(&ratio(5, 7)));
    let (left, top, (w, h)) = c.get_size_and_padding(5, 5);
    assert!(w.same_value(&ratio(15, 7)));
    assert!(h.same_value(&ratio(5, 1)));
    // (5 - 15/7) / 2 = 10/7
    assert!(left.same_value(&ratio(10, 7)));
    assert!(top.same_value(&ratio(0, 1)));
}

#[test]
fn padding_is_symmetric_and_fits() {
    let c = Canvas2D::new(320, 240);
    for (pw, ph) in [(1920u32, 1080u32), (1000, 1000), (321, 17), (1, 1), (0, 50)] {
        let (left, top, (w, h)) = c.get_size_and_padding(pw, ph);
        // left + w + left == pw, exactly
        assert_eq!(
            left.num as u128 * 2 * w.den as u128 + w.num as u128 * left.den as u128,
            pw as u128 * left.den as u128 * w.den as u128
        );
        assert_eq!(
            top.num as u128 * 2 * h.den as u128 + h.num as u128 * top.den as u128,
            ph as u128 * top.den as u128 * h.den as u128
        );
        assert!(w.le(&ratio(pw as u64, 1)));
        assert!(h.le(&ratio(ph as u64, 1)));
    }
}

#[test]
fn aspect_ratio_is_kept() {
    let c = Canvas2D::new(800, 600);
    for (pw, ph) in [(1600u32, 900u32), (400, 400), (1023, 77), (5, 3000)] {
        let (w, h) = c.get_size(pw, ph);
        assert_eq!(w.num as u128 * 600, h.num as u128 * 800);
        assert_eq!(w.den, h.den);
    }
}

#[test]
fn scale_grows_with_target() {
    let c = Canvas2D::new(800, 600);
    let small = c.get_min_scale_factor(1000, 700);
    let wider = c.get_min_scale_factor(1400, 700);
    let taller = c.get_min_scale_factor(1000, 900);
    assert!(small.le(&wider));
    assert!(small.le(&taller));
    assert!(!taller.le(&small));
}

#[test]
fn zero_target_gives_zero_scale() {
    let c = Canvas2D::new(800, 600);
    let s = c.get_min_scale_factor(0, 900);
    assert_eq!(s.num, 0);
    let (w, h) = c.get_size(0, 900);
    assert_eq!(w.num, 0);
    assert_eq!(h.num, 0);
    let (left, top) = c.get_padding(1600, 0);
    assert!(left.same_value(&ratio(800, 1)));
    assert!(top.same_value(&ratio(0, 1)));
}

#[test]
fn pointer_at_origin_clamps_to_origin() {
    let c = Canvas2D::new(800, 600);
    assert_eq!(c.mouse_position_ex(0, 0, 1600, 900), Some((0, 0)));
}

#[test]
fn pointer_at_far_corner_clamps_to_size() {
    let c = Canvas2D::new(800, 600);
    assert_eq!(c.mouse_position_ex(1600, 900, 1600, 900), Some((800, 600)));
}

#[test]
fn pointer_at_centre() {
    let c = Canvas2D::new(800, 600);
    assert_eq!(c.mouse_position_ex(800, 450, 1600, 900), Some((400, 300)));
}

#[test]
fn pointer_round_trip() {
    let c = Canvas2D::new(800, 600);
    // canvas (100, 20) sits at (200 + 150, 0 + 30)
    assert_eq!(c.mouse_position_ex(350, 30, 1600, 900), Some((100, 20)));
    // canvas (2/3, 2/3) sits at (201, 1) and floors to (0, 0)
    assert_eq!(c.mouse_position_ex(201, 1, 1600, 900), Some((0, 0)));
    // canvas (151 / 1.5, 0) floors to 100
    assert_eq!(c.mouse_position_ex(351, 0, 1600, 900), Some((100, 0)));
}

#[test]
fn pointer_in_padding_clamps() {
    let c = Canvas2D::new(800, 600);
    assert_eq!(c.mouse_position_ex(199, 450, 1600, 900), Some((0, 300)));
    assert_eq!(c.mouse_position_ex(1399, 450, 1600, 900), Some((799, 300)));
    assert_eq!(c.mouse_position_ex(1400, 450, 1600, 900), Some((800, 300)));
    assert_eq!(c.mouse_position_ex(-50, -10, 1600, 900), Some((0, 0)));
    assert_eq!(c.mouse_position_ex(400, 449, 400, 400), Some((800, 600)));
    assert_eq!(c.mouse_position_ex(400, 49, 400, 400), Some((800, 0)));
    assert_eq!(c.mouse_position_ex(400, 50, 400, 400), Some((800, 0)));
    assert_eq!(c.mouse_position_ex(400, 51, 400, 400), Some((800, 2)));
}

#[test]
fn pointer_extremes_do_not_overflow() {
    let c = Canvas2D::new(800, 600);
    assert_eq!(
        c.mouse_position_ex(i64::MAX, i64::MIN, 1600, 900),
        Some((800, 0))
    );
    let big = Canvas2D::new(u32::MAX, u32::MAX);
    assert_eq!(
        big.mouse_position_ex(i64::MIN, i64::MAX, u32::MAX, 1),
        Some((0, u32::MAX))
    );
}

#[test]
fn pointer_on_empty_target_is_none() {
    let c = Canvas2D::new(800, 600);
    assert_eq!(c.mouse_position_ex(10, 10, 0, 900), None);
    assert_eq!(c.mouse_position_ex(10, 10, 1600, 0), None);
}

#[test]
fn ratio_helpers() {
    let a = ratio(6, 4);
    assert!(a.same_value(&ratio(3, 2)));
    assert!(!a.same_value(&ratio(4, 3)));
    assert!(ratio(4, 3).le(&a));
    assert!(!a.le(&ratio(4, 3)));
}
