use easing::{
    in_cubic, in_out_cubic, in_out_quad, in_out_quart, in_out_quint, in_quad, in_quart, in_quint,
    linear_tween, out_cubic, out_quad, out_quart, out_quint,
};

fn close(a: f64, b: f64) -> bool {
    (a - b).abs() < 1e-9
}

#[test]
fn test_linear() {
    let result = linear_tween(0.5, 0.0, 1.0, 1.0);
    assert_eq!(result, 0.5);
}

#[test]
fn test_linear_u8() {
    let result = linear_tween(0x02_u8, 0, 0x10, 0x10);
    assert_eq!(result, 0x02);

    let result = linear_tween(0x05_u8, 0, 0x10, 0x10);
    assert_eq!(result, 0x05);

    let result = linear_tween(0x08_u8, 0, 0x10, 0x10);
    assert_eq!(result, 0x08);
}

#[test]
fn test_in_out_quad() {
    let result = in_out_quad(80.0, 0.0, 100.0, 100.0);
    assert_eq!(result, 92.0);
}

#[test]
fn linear_is_affine_at_samples() {
    assert_eq!(linear_tween(2.0, 1.0, 3.0, 4.0), 3.0 * 2.0 / 4.0 + 1.0);
    assert_eq!(linear_tween(7i32, -5, 12, 3), 12 * 7 / 3 - 5);
    assert_eq!(linear_tween(1i32, 0, 10, 3), 3);
}

#[test]
fn integer_division_truncates() {
    // 10 * 1 / 3 truncates to 3; -10 * 1 / 3 truncates toward zero to -3.
    assert_eq!(linear_tween(1i64, 0, -10, 3), -3);
    assert_eq!(in_quad(3u32, 1, 8, 4), 1);
    assert_eq!(in_quad(8u32, 1, 8, 4), 33);
}

#[test]
fn start_value_at_time_zero_f64() {
    let (b, c, d) = (3.0, 7.0, 2.0);
    let all: [fn(f64, f64, f64, f64) -> f64; 13] = [
        linear_tween, in_quad, out_quad, in_out_quad, in_cubic, out_cubic, in_out_cubic,
        in_quart, out_quart, in_out_quart, in_quint, out_quint, in_out_quint,
    ];
    for f in all.iter() {
        assert!(close(f(0.0, b, c, d), b));
    }
}

#[test]
fn end_value_at_full_duration_f64() {
    let (b, c, d) = (3.0, 7.0, 2.0);
    let all: [fn(f64, f64, f64, f64) -> f64; 13] = [
        linear_tween, in_quad, out_quad, in_out_quad, in_cubic, out_cubic, in_out_cubic,
        in_quart, out_quart, in_out_quart, in_quint, out_quint, in_out_quint,
    ];
    for f in all.iter() {
        assert!(close(f(d, b, c, d), b + c));
    }
}

#[test]
fn start_and_end_values_i64() {
    let (b, c, d) = (5i64, 8i64, 4i64);
    let all: [fn(i64, i64, i64, i64) -> i64; 13] = [
        linear_tween, in_quad, out_quad, in_out_quad, in_cubic, out_cubic, in_out_cubic,
        in_quart, out_quart, in_out_quart, in_quint, out_quint, in_out_quint,
    ];
    for f in all.iter() {
        assert_eq!(f(0, b, c, d), b);
        assert_eq!(f(d, b, c, d), b + c);
    }
}

#[test]
fn midpoint_is_continuous_f64() {
    let (b, c, d) = (1.0, 10.0, 2.0);
    let eps = 1e-7;
    let in_outs: [fn(f64, f64, f64, f64) -> f64; 4] =
        [in_out_quad, in_out_cubic, in_out_quart, in_out_quint];
    for f in in_outs.iter() {
        let below = f(1.0 - eps, b, c, d);
        let at = f(1.0, b, c, d);
        assert!((below - at).abs() < 1e-5);
        assert!(close(at, b + c / 2.0));
    }
}

#[test]
fn in_and_out_are_dual_f64() {
    let (b, c, d) = (0.0, 10.0, 4.0);
    let pairs: [(fn(f64, f64, f64, f64) -> f64, fn(f64, f64, f64, f64) -> f64); 4] = [
        (in_quad, out_quad),
        (in_cubic, out_cubic),
        (in_quart, out_quart),
        (in_quint, out_quint),
    ];
    for (fin, fout) in pairs.iter() {
        for t in [0.0, 0.5, 1.0, 2.5, 4.0] {
            assert!(close(fin(t, b, c, d) + fout(d - t, b, c, d), b + c));
        }
    }
}

#[test]
fn in_and_out_are_dual_i64_at_whole_durations() {
    let (c, d) = (6i64, 3i64);
    assert_eq!(in_quad(3 * 2, 0, c, d) + out_quad(3 - 6, 0, c, d), c);
    assert_eq!(in_cubic(0, 0, c, d) + out_cubic(3, 0, c, d), c);
    assert_eq!(in_quart(3, 0, c, d) + out_quart(0, 0, c, d), c);
    assert_eq!(in_quint(6, 0, c, d) + out_quint(-3, 0, c, d), c);
}

#[test]
fn exact_values_f64() {
    assert!(close(in_quad(1.0, 0.0, 100.0, 2.0), 25.0));
    assert!(close(out_quad(1.0, 0.0, 100.0, 2.0), 75.0));
    assert!(close(in_cubic(1.0, 0.0, 80.0, 2.0), 10.0));
    assert!(close(out_cubic(1.0, 0.0, 80.0, 2.0), 70.0));
    assert!(close(in_quart(1.0, 0.0, 160.0, 2.0), 10.0));
    assert!(close(out_quart(1.0, 0.0, 160.0, 2.0), 150.0));
    assert!(close(in_quint(1.0, 0.0, 320.0, 2.0), 10.0));
    assert!(close(out_quint(1.0, 0.0, 320.0, 2.0), 310.0));
    assert!(close(in_out_quad(20.0, 0.0, 100.0, 100.0), 8.0));
    assert!(close(in_out_cubic(25.0, 0.0, 100.0, 100.0), 6.25));
    assert!(close(in_out_cubic(75.0, 0.0, 100.0, 100.0), 93.75));
    assert!(close(in_out_quart(75.0, 0.0, 100.0, 100.0), 96.875));
    assert!(close(in_out_quint(75.0, 0.0, 100.0, 100.0), 98.4375));
}

#[test]
fn quad_second_half_uses_shift_of_one_i32() {
    // x = 3 / (2 / 2) = 3; y = 2; -10 / 2 * (2 * 0 - 1) + 0 = 5.
    assert_eq!(in_out_quad(3i32, 0, 10, 2), 5);
    // x = 3; y = 1; 10 / 2 * (1 + 2) + 0 = 15.
    assert_eq!(in_out_cubic(3i32, 0, 10, 2), 15);
}

#[test]
fn works_for_f32() {
    assert_eq!(linear_tween(1.0f32, 2.0, 4.0, 2.0), 4.0);
    assert_eq!(in_out_quad(80.0f32, 0.0, 100.0, 100.0), 92.0);
}
