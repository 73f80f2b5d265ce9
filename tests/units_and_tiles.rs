use cheap_ruler::{tile_count, tile_row_ratio, DistanceUnit};

#[test]
fn unit_ratios_match_table() {
    assert_eq!(DistanceUnit::Kilometers.conversion_ratio_kilometers(), (1, 1));
    assert_eq!(DistanceUnit::Miles.conversion_ratio_kilometers(), (1_000_000, 1_609_344));
    assert_eq!(DistanceUnit::NauticalMiles.conversion_ratio_kilometers(), (1000, 1852));
    assert_eq!(DistanceUnit::Meters.conversion_ratio_kilometers(), (1000, 1));
    assert_eq!(DistanceUnit::Yards.conversion_ratio_kilometers(), (10_000_000, 9144));
    assert_eq!(DistanceUnit::Feet.conversion_ratio_kilometers(), (10_000_000, 3048));
    assert_eq!(DistanceUnit::Inches.conversion_ratio_kilometers(), (10_000_000, 254));
}

#[test]
fn unit_ratios_as_floats() {
    let (n, d) = DistanceUnit::Miles.conversion_ratio_kilometers();
    let f = n as f64 / d as f64;
    assert!((f - 1000.0 / 1609.344).abs() < 1e-12);
    let (n, d) = DistanceUnit::Meters.conversion_ratio_kilometers();
    assert_eq!(n as f64 / d as f64, 1000.0);
}

#[test]
fn tile_counts() {
    assert_eq!(tile_count(0), 1);
    assert_eq!(tile_count(1), 2);
    assert_eq!(tile_count(12), 4096);
    assert_eq!(tile_count(31), 1u64 << 31);
}

#[test]
fn tile_row_ratio_values() {
    assert_eq!(tile_row_ratio(0, 0), (0, 1));
    assert_eq!(tile_row_ratio(0, 1), (1, 2));
    assert_eq!(tile_row_ratio(1, 1), (-1, 2));
    assert_eq!(tile_row_ratio(1567, 12), (961, 4096));
    assert_eq!(tile_row_ratio(u32::MAX, 31), ((1i64 << 31) - 2 * (u32::MAX as i64) - 1, 1u64 << 31));
}

#[test]
fn tile_row_ratio_gives_latitude() {
    let (num, den) = tile_row_ratio(1567, 12);
    let n = std::f64::consts::PI * (num as f64 / den as f64);
    let lat = n.sinh().atan().to_degrees();
    assert!((lat - 38.8568).abs() < 0.001);
}
