use rad_preview::unit::{select_unit, MeasurementUnit};

/// The prefix thresholds, ascending from femto to yotta.
const THRESHOLDS: [f64; 14] = [
    1e-15, 1e-12, 1e-9, 1e-6, 1e-3, 1.0, 1e3, 1e6, 1e9, 1e12, 1e15, 1e18, 1e21, 1e24,
];

/// The comparison flags the display layer hands the library: whether
/// the value is at or above each threshold.
fn at_least(value: f64) -> Vec<bool> {
    THRESHOLDS.iter().map(|&t| value >= t).collect()
}

fn unit_of(value: f64) -> MeasurementUnit {
    select_unit(&at_least(value))
}

#[test]
fn unit_below_kilo_is_base() {
    assert_eq!(unit_of(999.0), MeasurementUnit::Base);
}

#[test]
fn unit_above_kilo_is_kilo() {
    assert_eq!(unit_of(1500.0), MeasurementUnit::Kilo);
}

#[test]
fn unit_boundary_is_inclusive() {
    // A value exactly on a threshold rounds up into that band.
    assert_eq!(unit_of(1000.0), MeasurementUnit::Kilo);
    assert_eq!(unit_of(1.0), MeasurementUnit::Base);
    assert_eq!(unit_of(1e-15), MeasurementUnit::Femto);
}

#[test]
fn unit_below_smallest_is_femto() {
    assert_eq!(unit_of(1e-16), MeasurementUnit::Femto);
    assert_eq!(unit_of(0.0), MeasurementUnit::Femto);
    assert_eq!(unit_of(-5.0), MeasurementUnit::Femto);
}

#[test]
fn unit_last_is_catch_all() {
    assert_eq!(unit_of(1e24), MeasurementUnit::Yotta);
    assert_eq!(unit_of(7.3e26), MeasurementUnit::Yotta);
}

#[test]
fn unit_each_threshold_selects_its_prefix() {
    for (i, &t) in THRESHOLDS.iter().enumerate() {
        assert_eq!(unit_of(t), MeasurementUnit::from_index(i), "threshold {}", t);
        assert_eq!(unit_of(t * 2.0), MeasurementUnit::from_index(i), "inside band {}", t);
    }
}

#[test]
fn unit_symbols() {
    let expected = [
        "f", "p", "n", "µ", "m", "", "k", "M", "G", "T", "P", "E", "Z", "Y",
    ];
    for (i, &sym) in expected.iter().enumerate() {
        assert_eq!(MeasurementUnit::from_index(i).symbol(), sym);
    }
}
