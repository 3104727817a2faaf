use sendspin_cli::clock::ClockSync;

#[test]
fn test_translate_none_before_first_update() {
    let clock = ClockSync::new();
    assert_eq!(clock.server_to_local_micros(2000), None);
}

#[test]
fn test_round_trip_offset_exact_rounding() {
    // offset = ((server_recv - client_send) + (server_send - client_recv)) / 2
    //        = ((1005 - 1000) + (1006 - 1012)) / 2 = (5 - 6) / 2 = -1 / 2,
    // and the division rounds toward zero, so the offset is 0 and the
    // translation subtracts nothing.
    let mut clock = ClockSync::new();
    clock.update(1000, 1005, 1006, 1012);
    assert_eq!(clock.server_to_local_micros(2000), Some(2000));
}

#[test]
fn test_round_trip_offset_negative_rounds_toward_zero() {
    // Sum of deltas is -3: half toward zero is -1, not -2.
    let mut clock = ClockSync::new();
    clock.update(1000, 1004, 1005, 1012);
    assert_eq!(clock.server_to_local_micros(2000), Some(2001));
}

#[test]
fn test_update_supersedes_previous_estimate() {
    let mut clock = ClockSync::new();
    clock.update(0, 500, 500, 0);
    assert_eq!(clock.server_to_local_micros(1000), Some(500));
    // A fresh exchange replaces the estimate outright, no averaging.
    clock.update(0, 100, 100, 0);
    assert_eq!(clock.server_to_local_micros(1000), Some(900));
}

#[test]
fn test_translate_overflow_yields_none() {
    let mut clock = ClockSync::new();
    // Offset of -1000: translating near i64::MAX would leave the domain.
    clock.update(1000, 0, 0, 1000);
    assert_eq!(clock.server_to_local_micros(i64::MAX), None);
    assert_eq!(clock.server_to_local_micros(0), Some(1000));
}
