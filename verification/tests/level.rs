use dac_frame::frame::{DataFormat, State};
use dac_frame::level::{level_from_voltage, voltage_from_level, MAX_LEVEL};

fn float_level(voltage: f32) -> u16 {
    ((voltage + 10.0) / 20.0 * 65536.0) as u16
}

#[test]
fn minimum_nominal_voltage_is_level_zero() {
    assert_eq!(level_from_voltage(-10, 1), 0x0000);
    assert_eq!(level_from_voltage(-10_000, 1000), 0x0000);
    assert_eq!(float_level(-10.0), 0x0000);
    let frame = DataFormat::from(State { channel: 0, level: 0 });
    assert_eq!(frame.data_high(), 0x00);
    assert_eq!(frame.data_low(), 0x00);
}

#[test]
fn maximum_nominal_voltage_is_the_highest_level() {
    assert_eq!(MAX_LEVEL, 0xFFFF);
    assert_eq!(level_from_voltage(10, 1), 0xFFFF);
    assert_eq!(level_from_voltage(10_000_000, 1_000_000), 0xFFFF);
    assert_eq!(float_level(10.0), 0xFFFF);
}

#[test]
fn just_below_the_maximum_is_the_highest_level() {
    assert_eq!(level_from_voltage(9_999_999, 1_000_000), 0xFFFF);
    assert_eq!(level_from_voltage(9_999, 1000), 65532);
}

#[test]
fn zero_volts_is_mid_scale() {
    assert_eq!(level_from_voltage(0, 1), 0x8000);
    assert_eq!(level_from_voltage(0, 12345), 0x8000);
    assert_eq!(float_level(0.0), 0x8000);
}

#[test]
fn exact_values_of_the_formula() {
    assert_eq!(level_from_voltage(5, 1), 49152);
    assert_eq!(level_from_voltage(-5, 1), 16384);
    assert_eq!(level_from_voltage(5, 2), 40960);
    assert_eq!(level_from_voltage(1, 1), 36044);
    assert_eq!(level_from_voltage(-1, 1), 29491);
    assert_eq!(level_from_voltage(1, 1000), 32771);
    assert_eq!(level_from_voltage(-1, 1000), 32764);
    assert_eq!(level_from_voltage(1, 3), 33860);
}

#[test]
fn one_step_is_twenty_volts_over_65536() {
    assert_eq!(level_from_voltage(-10 * 65536 + 20, 65536), 1);
    assert_eq!(level_from_voltage(-10 * 65536 + 19, 65536), 0);
    assert_eq!(level_from_voltage(-10 * 65536 + 39, 65536), 1);
    assert_eq!(level_from_voltage(-10 * 65536 + 40, 65536), 2);
}

#[test]
fn voltages_below_the_range_give_level_zero() {
    assert_eq!(level_from_voltage(-11, 1), 0);
    assert_eq!(level_from_voltage(-10_001, 1000), 0);
    assert_eq!(level_from_voltage(i64::MIN, 1), 0);
    assert_eq!(level_from_voltage(i64::MIN, 1 << 59), 0);
    assert_eq!(float_level(-10.5), 0);
    assert_eq!(float_level(-1.0e9), 0);
}

#[test]
fn voltages_above_the_range_give_the_highest_level() {
    assert_eq!(level_from_voltage(11, 1), 0xFFFF);
    assert_eq!(level_from_voltage(i64::MAX, 1), 0xFFFF);
    assert_eq!(level_from_voltage(i64::MAX, 1 << 59), 0xFFFF);
    assert_eq!(float_level(10.5), 0xFFFF);
    assert_eq!(float_level(1.0e9), 0xFFFF);
}

#[test]
fn widest_arguments_stay_exact() {
    assert_eq!(level_from_voltage(i64::MAX, u64::MAX), 34406);
    assert_eq!(level_from_voltage(i64::MIN, u64::MAX), 31129);
    assert_eq!(level_from_voltage(0, u64::MAX), 0x8000);
}

#[test]
fn float_formula_agrees_on_binary_fractions() {
    assert_eq!(float_level(5.0), level_from_voltage(5, 1));
    assert_eq!(float_level(-5.0), level_from_voltage(-5, 1));
    assert_eq!(float_level(2.5), level_from_voltage(5, 2));
    assert_eq!(float_level(-7.5), level_from_voltage(-15, 2));
    assert_eq!(float_level(9.375), level_from_voltage(75, 8));
}

#[test]
fn level_voltages() {
    assert_eq!(voltage_from_level(0), -655360);
    assert_eq!(voltage_from_level(0x8000), 0);
    assert_eq!(voltage_from_level(0xFFFF), 655340);
    assert_eq!(voltage_from_level(1), -655340);
}

#[test]
fn every_level_is_the_level_of_its_own_voltage() {
    for level in 0..=u16::MAX {
        let numer = voltage_from_level(level);
        assert_eq!(level_from_voltage(numer as i64, 65536), level);
    }
}

#[test]
fn quantization_error_is_below_one_step() {
    let denom: i64 = 1000;
    for millivolts in -10_000..10_000i64 {
        let level = level_from_voltage(millivolts, denom as u64);
        let decoded = voltage_from_level(level) as i64;
        let error = millivolts * 65536 - decoded * denom;
        assert!(0 <= error && error < 20 * denom);
    }
}

#[test]
fn round_trip_through_the_frame_stays_within_one_step() {
    let step = 20.0f64 / 65536.0;
    for channel in [0u8, 1, 31, 32, 33, 63, 64, 200, 255] {
        for tenths in -100..100i64 {
            let level = level_from_voltage(tenths, 10);
            let sent = DataFormat::from(State { channel, level }).to_bytes();
            let received = DataFormat::from_bytes(&sent).state().unwrap();
            assert_eq!(received.channel, channel);
            let volts = voltage_from_level(received.level) as f64 / 65536.0;
            let error = tenths as f64 / 10.0 - volts;
            assert!(0.0 <= error && error < step);
        }
    }
}
