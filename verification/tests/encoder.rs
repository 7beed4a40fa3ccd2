use vehicle_signals::encoder::{clock_divisor, CYCLES_PER_BIT, CYCLES_PER_SECOND, TARGET_BIT_RATE_HZ};

#[test]
fn bit_period_constants() {
    assert_eq!(CYCLES_PER_BIT, 22);
    assert_eq!(CYCLES_PER_SECOND, TARGET_BIT_RATE_HZ * CYCLES_PER_BIT);
    assert_eq!(CYCLES_PER_SECOND, 19_162_000);
}

#[test]
fn divisor_for_stock_system_clock() {
    // 125 MHz system clock: 125_000_000 / 19_162_000 = 6, and the
    // remainder 10_028_000 scales to 133/256ths.
    assert_eq!(clock_divisor(125_000_000), (6, 133));
}

#[test]
fn divisor_exact_multiple() {
    assert_eq!(clock_divisor(19_162_000), (1, 0));
    assert_eq!(clock_divisor(2 * 19_162_000), (2, 0));
}

#[test]
fn divisor_extremes() {
    assert_eq!(clock_divisor(0), (0, 0));
    assert_eq!(clock_divisor(u32::MAX), (224, 35));
}
