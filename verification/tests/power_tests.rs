use aeonnode::power::{BatteryStatus, PowerState, BATTERY_CRITICAL, BATTERY_FULL, BATTERY_LOW,
    BATTERY_NOMINAL};
use aeonnode::power::adc_to_millivolts;

#[test]
fn percentage_at_or_below_critical_is_zero() {
    assert_eq!(BatteryStatus::calculate_percentage(BATTERY_CRITICAL), 0);
    assert_eq!(BatteryStatus::calculate_percentage(2500), 0);
    assert_eq!(BatteryStatus::calculate_percentage(0), 0);
}

#[test]
fn percentage_at_or_above_full_is_hundred() {
    assert_eq!(BatteryStatus::calculate_percentage(BATTERY_FULL), 100);
    assert_eq!(BatteryStatus::calculate_percentage(5000), 100);
    assert_eq!(BatteryStatus::calculate_percentage(u16::MAX), 100);
}

#[test]
fn percentage_is_linear_between_thresholds() {
    // midpoint of 3000..4200 is 3600: (600 * 100) / 1200 = 50
    assert_eq!(BatteryStatus::calculate_percentage(3600), 50);
    // (300 * 100) / 1200 = 25
    assert_eq!(BatteryStatus::calculate_percentage(3300), 25);
    // (900 * 100) / 1200 = 75
    assert_eq!(BatteryStatus::calculate_percentage(3900), 75);
}

#[test]
fn percentage_is_monotonic_over_samples() {
    let mut last = 0u8;
    let mut v = 2900u16;
    while v <= 4300 {
        let p = BatteryStatus::calculate_percentage(v);
        assert!(p >= last);
        last = p;
        v += 10;
    }
}

#[test]
fn charging_wins_over_any_battery_level() {
    // solar above battery by more than the margin, even at critical levels
    assert_eq!(BatteryStatus::determine_state(1000, 1501), PowerState::Charging);
    assert_eq!(BatteryStatus::determine_state(3000, 3600), PowerState::Charging);
    assert_eq!(BatteryStatus::determine_state(4200, 4701), PowerState::Charging);
}

#[test]
fn exact_margin_is_not_charging() {
    // solar exactly at battery + margin does not count as charging
    assert_eq!(BatteryStatus::determine_state(3000, 3500), PowerState::Critical);
}

#[test]
fn state_thresholds() {
    assert_eq!(BatteryStatus::determine_state(BATTERY_LOW - 1, 0), PowerState::Critical);
    assert_eq!(BatteryStatus::determine_state(BATTERY_LOW, 0), PowerState::LowPower);
    assert_eq!(BatteryStatus::determine_state(BATTERY_NOMINAL - 1, 0), PowerState::LowPower);
    assert_eq!(BatteryStatus::determine_state(BATTERY_NOMINAL, 0), PowerState::Normal);
    assert_eq!(BatteryStatus::determine_state(4200, 4200), PowerState::Normal);
}

#[test]
fn from_readings_combines_both_derivations() {
    let st = BatteryStatus::from_readings(3600, 3000);
    assert_eq!(st.voltage_mv, 3600);
    assert_eq!(st.solar_mv, 3000);
    assert_eq!(st.state, PowerState::LowPower);
    assert_eq!(st.percentage, 50);
}

#[test]
fn critical_mode_asks_to_skip_uplinks() {
    let critical = BatteryStatus::from_readings(3100, 0);
    assert_eq!(critical.state, PowerState::Critical);
    assert!(!critical.allows_uplink());
    let normal = BatteryStatus::from_readings(4000, 0);
    assert!(normal.allows_uplink());
}

#[test]
fn adc_conversion_scales_by_divider_and_reference() {
    // half scale of a 12 bit reading: 2048 * 3300 * 2 / 4096 = 3300 mV
    assert_eq!(adc_to_millivolts(2048), 3300);
    assert_eq!(adc_to_millivolts(0), 0);
    // full scale minus one: 4095 * 6600 / 4096 = 6598 mV
    assert_eq!(adc_to_millivolts(4095), 6598);
}
