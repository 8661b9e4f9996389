//! Tests of the raw-code-to-millivolt conversion.

use sensor_node::convert::raw_to_millivolts;

#[test]
fn zero_code_is_zero_millivolts() {
    assert_eq!(raw_to_millivolts(0), 0);
}

#[test]
fn full_scale_code_is_reference_voltage() {
    assert_eq!(raw_to_millivolts(4095), 3100);
}

#[test]
fn midscale_code_truncates() {
    assert_eq!(raw_to_millivolts(2048), 1550);
}

#[test]
fn conversion_is_deterministic() {
    for raw in [0u16, 1, 7, 100, 2048, 4094, 4095] {
        assert_eq!(raw_to_millivolts(raw), raw_to_millivolts(raw));
    }
}

#[test]
fn conversion_matches_floating_point_scale_everywhere() {
    // The driver's own formula: scale by the reference voltage in single
    // precision, then truncate.
    for raw in 0u16..=4095 {
        let expected = ((raw as f32 / 4095.0) * 3.1 * 1000.0) as u16;
        assert_eq!(raw_to_millivolts(raw), expected);
    }
}

#[test]
fn boundary_codes() {
    assert_eq!(raw_to_millivolts(1), 0);
    assert_eq!(raw_to_millivolts(2), 1);
    assert_eq!(raw_to_millivolts(4094), 3099);
}
