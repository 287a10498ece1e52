use omni_snake::cos_fp;
use omni_snake::rotated;
use omni_snake::sin_fp;
use omni_snake::Vec2;
use omni_snake::FP_ONE;

#[test]
fn sine_exact_at_cardinal_angles() {
    assert_eq!(sin_fp(0), 0);
    assert_eq!(sin_fp(90_000), FP_ONE);
    assert_eq!(sin_fp(180_000), 0);
    assert_eq!(sin_fp(270_000), -FP_ONE);
}

#[test]
fn cosine_exact_at_cardinal_angles() {
    assert_eq!(cos_fp(0), FP_ONE);
    assert_eq!(cos_fp(90_000), 0);
    assert_eq!(cos_fp(180_000), -FP_ONE);
    assert_eq!(cos_fp(270_000), 0);
}

#[test]
fn sine_exact_at_thirty_degrees() {
    // Bhaskara's approximation is exact at 30 degrees: one half.
    assert_eq!(sin_fp(30_000), FP_ONE / 2);
    assert_eq!(sin_fp(150_000), FP_ONE / 2);
}

#[test]
fn sine_close_at_forty_five_degrees() {
    // sqrt(2)/2 in fixed point is about 46341; the approximation stays
    // within a third of a percent.
    let v = sin_fp(45_000);
    assert!((v - 46341).abs() < 200, "sin 45 deg = {v}");
}

#[test]
fn rotation_by_zero_is_identity() {
    let h = Vec2 { x: -FP_ONE, y: 0 };
    assert_eq!(rotated(h, 0), h);
}

#[test]
fn rotation_by_quarter_turns_is_exact() {
    let h = Vec2 { x: FP_ONE, y: 0 };
    assert_eq!(rotated(h, 90_000), Vec2 { x: 0, y: FP_ONE });
    assert_eq!(rotated(h, 180_000), Vec2 { x: -FP_ONE, y: 0 });
    assert_eq!(rotated(h, 270_000), Vec2 { x: 0, y: -FP_ONE });
}

#[test]
fn rotation_stays_in_unit_box() {
    let mut h = Vec2 { x: FP_ONE, y: 0 };
    for _ in 0..1000 {
        h = rotated(h, 7_000);
        assert!(h.x.abs() <= FP_ONE && h.y.abs() <= FP_ONE);
    }
    // After many small turns the heading still has meaningful length.
    let norm_sq = h.x * h.x + h.y * h.y;
    assert!(norm_sq > (FP_ONE / 2) * (FP_ONE / 2));
}
