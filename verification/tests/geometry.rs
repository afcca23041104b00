use task_overlay::geometry::{compute_geometry, Ratio, WindowGeometry};

#[test]
fn default_ratios_are_a_third_and_a_fifteenth() {
    let w = Ratio::default_width();
    assert_eq!(w.num, 33);
    assert_eq!(w.den, 100);
    let h = Ratio::default_height();
    assert_eq!(h.num, 1);
    assert_eq!(h.den, 15);
}

#[test]
fn full_hd_display_exact_geometry() {
    let g = compute_geometry(1920, 1080, Ratio::default_width(), Ratio::default_height());
    // width = floor(1920 * 33 / 100), height = floor(1080 / 15)
    assert_eq!(g.width, 633);
    assert_eq!(g.height, 72);
    // x = floor(1920 / 2 - 633 / 2), y = 1080 - 72 with no rounding error
    assert_eq!(g.x, 643);
    assert_eq!(g.y, 1008);
}

#[test]
fn odd_leftover_width_rounds_down() {
    let g = compute_geometry(99, 45, Ratio::default_width(), Ratio::default_height());
    assert_eq!(g.width, 32);
    assert_eq!(g.height, 3);
    // (99 - 32) / 2 = 33.5, floored
    assert_eq!(g.x, 33);
    assert_eq!(g.y, 42);
}

#[test]
fn geometry_is_idempotent() {
    let first = compute_geometry(2560, 1440, Ratio::default_width(), Ratio::default_height());
    let second = compute_geometry(2560, 1440, Ratio::default_width(), Ratio::default_height());
    assert_eq!(first, second);
}

#[test]
fn caller_may_override_ratios() {
    let g = compute_geometry(1000, 900, Ratio::new(1, 2), Ratio::new(1, 3));
    assert_eq!(g.width, 500);
    assert_eq!(g.height, 300);
    assert_eq!(g.x, 250);
    assert_eq!(g.y, 600);
}

#[test]
fn ratios_above_one_invert_without_clamping() {
    let g = compute_geometry(100, 10, Ratio::new(3, 2), Ratio::new(3, 1));
    assert_eq!(g.width, 150);
    assert_eq!(g.height, 30);
    // (100 - 150) / 2 = -25; the rectangle extends off-screen, reproducibly
    assert_eq!(g.x, -25);
    assert_eq!(g.y, -20);
}

#[test]
fn negative_half_gap_rounds_toward_minus_infinity() {
    // width = floor(99 * 3 / 2) = 148; (99 - 148) / 2 = -24.5, floored to -25
    let g = compute_geometry(99, 99, Ratio::new(3, 2), Ratio::new(1, 15));
    assert_eq!(g.width, 148);
    assert_eq!(g.x, -25);
}

#[test]
fn zero_display_yields_zero_rectangle() {
    let g = compute_geometry(0, 0, Ratio::default_width(), Ratio::default_height());
    let expected = WindowGeometry { width: 0, height: 0, x: 0, y: 0 };
    assert_eq!(g, expected);
}
