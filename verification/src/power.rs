//! Power management: battery percentage and operating mode.
//!
//! The advisor is a pure function over voltage readings in millivolts.
//! The MAC layer consults the operating mode before each send; in
//! `Critical` mode the caller is expected to skip uplinks rather than
//! drain the battery further.

use vstd::prelude::*;

verus! {

/// Fully charged Li-ion voltage in millivolts.
pub const BATTERY_FULL: u16 = 4200;
/// Nominal Li-ion voltage in millivolts.
pub const BATTERY_NOMINAL: u16 = 3700;
/// Low battery warning threshold in millivolts.
pub const BATTERY_LOW: u16 = 3300;
/// Critical threshold in millivolts: at or below, the charge counts as empty.
pub const BATTERY_CRITICAL: u16 = 3000;
/// How far solar voltage must exceed battery voltage to count as charging.
pub const CHARGING_MARGIN: u16 = 500;

/// Operating mode derived from battery and solar voltage.
#[derive(Debug, Clone, Copy, PartialEq, Eq, Structural)]
pub enum PowerState {
    /// Normal operation, battery at or above `BATTERY_NOMINAL`.
    Normal,
    /// Low power mode, battery between `BATTERY_LOW` and `BATTERY_NOMINAL`.
    LowPower,
    /// Critical mode, battery below `BATTERY_LOW`.
    Critical,
    /// Charging from the solar panel.
    Charging,
}

/// One battery sample: raw readings plus the derived mode and percentage.
#[derive(Debug, Clone, Copy)]
pub struct BatteryStatus {
    /// Battery voltage in millivolts.
    pub voltage_mv: u16,
    /// Solar panel voltage in millivolts.
    pub solar_mv: u16,
    /// Operating mode derived from the two voltages.
    pub state: PowerState,
    /// Battery percentage, 0 to 100.
    pub percentage: u8,
}

/// Battery percentage: 0 at or below the critical threshold, 100 at or
/// above the full threshold, linear in between.
pub open spec fn spec_percentage(voltage_mv: u16) -> int {
    if voltage_mv >= BATTERY_FULL {
        100
    } else if voltage_mv <= BATTERY_CRITICAL {
        0
    } else {
        (voltage_mv - BATTERY_CRITICAL) * 100 / (BATTERY_FULL - BATTERY_CRITICAL)
    }
}

/// Operating mode: charging wins over everything, then critical, low
/// power, and normal, checked in that priority order.
pub open spec fn spec_operating_mode(voltage_mv: u16, solar_mv: u16) -> PowerState {
    if solar_mv > voltage_mv + CHARGING_MARGIN {
        PowerState::Charging
    } else if voltage_mv < BATTERY_LOW {
        PowerState::Critical
    } else if voltage_mv < BATTERY_NOMINAL {
        PowerState::LowPower
    } else {
        PowerState::Normal
    }
}

impl BatteryStatus {
    /// Clamped linear interpolation from voltage to battery percentage.
    pub fn calculate_percentage(voltage_mv: u16) -> (p: u8)
        ensures
            p == spec_percentage(voltage_mv),
            voltage_mv <= BATTERY_CRITICAL ==> p == 0,
            voltage_mv >= BATTERY_FULL ==> p == 100,
            p <= 100,
    {
        if voltage_mv >= BATTERY_FULL {
            100
        } else if voltage_mv <= BATTERY_CRITICAL {
            0
        } else {
            let range: u32 = (BATTERY_FULL - BATTERY_CRITICAL) as u32;
            let current: u32 = (voltage_mv - BATTERY_CRITICAL) as u32;
            ((current * 100) / range) as u8
        }
    }

    /// Classify battery and solar voltage into an operating mode.
    pub fn determine_state(voltage_mv: u16, solar_mv: u16) -> (s: PowerState)
        ensures
            s == spec_operating_mode(voltage_mv, solar_mv),
    {
        if (solar_mv as u32) > (voltage_mv as u32) + (CHARGING_MARGIN as u32) {
            PowerState::Charging
        } else if voltage_mv < BATTERY_LOW {
            PowerState::Critical
        } else if voltage_mv < BATTERY_NOMINAL {
            PowerState::LowPower
        } else {
            PowerState::Normal
        }
    }

    /// Policy hook the session layer's caller consults before each
    /// uplink: in `Critical` mode the measurement's uplink is to be
    /// skipped rather than drain the battery further.  The advisor
    /// itself never blocks a send.
    pub fn allows_uplink(&self) -> (r: bool)
        ensures
            r == (self.state != PowerState::Critical),
    {
        self.state != PowerState::Critical
    }

    /// Combine two voltage readings into a full battery status sample.
    pub fn from_readings(voltage_mv: u16, solar_mv: u16) -> (st: BatteryStatus)
        ensures
            st.voltage_mv == voltage_mv,
            st.solar_mv == solar_mv,
            st.state == spec_operating_mode(voltage_mv, solar_mv),
            st.percentage == spec_percentage(voltage_mv),
    {
        BatteryStatus {
            voltage_mv,
            solar_mv,
            state: Self::determine_state(voltage_mv, solar_mv),
            percentage: Self::calculate_percentage(voltage_mv),
        }
    }
}

/// Millivolts seen at an ADC pin behind the node's 2:1 voltage divider,
/// for a 12-bit reading against a 3.3 V reference.
pub open spec fn spec_adc_to_millivolts(raw: u16) -> int {
    raw * 3300 * 2 / 4096
}

/// Convert a raw 12-bit ADC reading to millivolts at the divider input.
pub fn adc_to_millivolts(raw: u16) -> (mv: u16)
    requires
        raw < 4096,
    ensures
        mv == spec_adc_to_millivolts(raw),
{
    (((raw as u32) * 3300 * 2) / 4096) as u16
}

/// The percentage is monotonically non-decreasing in the voltage.
pub proof fn lemma_percentage_monotonic(v1: u16, v2: u16)
    requires
        v1 <= v2,
    ensures
        spec_percentage(v1) <= spec_percentage(v2),
{
    if BATTERY_CRITICAL < v1 && v2 < BATTERY_FULL {
        vstd::arithmetic::mul::lemma_mul_inequality(
            v1 - BATTERY_CRITICAL,
            v2 - BATTERY_CRITICAL,
            100,
        );
        vstd::arithmetic::div_mod::lemma_div_is_ordered(
            (v1 - BATTERY_CRITICAL) * 100,
            (v2 - BATTERY_CRITICAL) * 100,
            (BATTERY_FULL - BATTERY_CRITICAL) as int,
        );
    }
    if v2 >= BATTERY_FULL && BATTERY_CRITICAL < v1 {
        lemma_percentage_at_most_100(v1);
    }
}

/// The percentage never exceeds 100.
pub proof fn lemma_percentage_at_most_100(v: u16)
    ensures
        0 <= spec_percentage(v) <= 100,
{
    if BATTERY_CRITICAL < v && v < BATTERY_FULL {
        vstd::arithmetic::mul::lemma_mul_inequality(
            v - BATTERY_CRITICAL,
            (BATTERY_FULL - BATTERY_CRITICAL) as int,
            100,
        );
        vstd::arithmetic::div_mod::lemma_div_is_ordered(
            (v - BATTERY_CRITICAL) * 100,
            (BATTERY_FULL - BATTERY_CRITICAL) * 100,
            (BATTERY_FULL - BATTERY_CRITICAL) as int,
        );
        vstd::arithmetic::div_mod::lemma_div_multiples_vanish(
            100,
            (BATTERY_FULL - BATTERY_CRITICAL) as int,
        );
    }
}

/// Whenever the solar voltage exceeds the battery voltage by more than
/// the charging margin, the mode is `Charging`, whatever the battery
/// voltage itself is.
pub proof fn lemma_charging_has_priority(voltage_mv: u16, solar_mv: u16)
    requires
        solar_mv > voltage_mv + CHARGING_MARGIN,
    ensures
        spec_operating_mode(voltage_mv, solar_mv) == PowerState::Charging,
{
}

} // verus!
