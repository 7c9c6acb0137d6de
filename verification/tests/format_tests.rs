use thermal_governor::format::{freq_ghz, i32_to_string, u64_to_string};
use thermal_governor::table::ThermalTable;

#[test]
fn decimal_rendering() {
    assert_eq!(u64_to_string(0), "0");
    assert_eq!(u64_to_string(7), "7");
    assert_eq!(u64_to_string(1_234_567_890), "1234567890");
    assert_eq!(i32_to_string(65), "65");
    assert_eq!(i32_to_string(-5), "-5");
    assert_eq!(i32_to_string(i32::MIN), "-2147483648");
}

#[test]
fn frequencies_in_ghz() {
    assert_eq!(freq_ghz(2_500_000), "2.5");
    assert_eq!(freq_ghz(3_000_000), "3.0");
    assert_eq!(freq_ghz(4_500_000), "4.5");
    assert_eq!(freq_ghz(1_234_567), "1.2");
    assert_eq!(freq_ghz(1_260_000), "1.3");
    assert_eq!(freq_ghz(0), "0.0");
}

#[test]
fn table_render_for_logs() {
    let t = ThermalTable::balanced();
    assert_eq!(t.caps_str(), "4.0/3.5/3.0/2.5/2.0");
    assert_eq!(t.thresholds_str(), "65/72/78/83\u{b0}C");
}
