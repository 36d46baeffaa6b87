use omarec::first_frame::{parse_first_frame_timestamp, TimestampError};

#[test]
fn two_integers_on_one_line() {
    let parsed = parse_first_frame_timestamp("1001 2002\n").unwrap();
    assert_eq!(parsed.monotonic_us, 1001);
    assert_eq!(parsed.realtime_us, 2002);
}

#[test]
fn two_lines_are_accepted() {
    let parsed = parse_first_frame_timestamp("11\n22\n").unwrap();
    assert_eq!(parsed.monotonic_us, 11);
    assert_eq!(parsed.realtime_us, 22);
}

#[test]
fn gsr6_headered_tsv_is_accepted() {
    let source = "monotonic_microsec\trealtime_microsec\n261773753358\t1786686405432508\n";
    let parsed = parse_first_frame_timestamp(source).unwrap();
    assert_eq!(parsed.monotonic_us, 261_773_753_358);
    assert_eq!(parsed.realtime_us, 1_786_686_405_432_508);
}

#[test]
fn header_without_numbers_is_incomplete() {
    assert_eq!(
        parse_first_frame_timestamp("monotonic_microsec\trealtime_microsec\n").unwrap_err(),
        TimestampError::MissingMonotonic
    );
}

#[test]
fn empty_and_malformed_documents_are_rejected() {
    assert_eq!(parse_first_frame_timestamp("").unwrap_err(), TimestampError::MissingMonotonic);
    assert_eq!(parse_first_frame_timestamp("1").unwrap_err(), TimestampError::MissingRealtime);
    assert_eq!(parse_first_frame_timestamp("nope 2").unwrap_err(), TimestampError::InvalidMonotonic);
    assert_eq!(parse_first_frame_timestamp("1 2 3").unwrap_err(), TimestampError::ExtraTokens);
}

#[test]
fn invalid_realtime_and_overflow_are_rejected() {
    assert_eq!(parse_first_frame_timestamp("1 x").unwrap_err(), TimestampError::InvalidRealtime);
    assert_eq!(
        parse_first_frame_timestamp("18446744073709551616 1").unwrap_err(),
        TimestampError::InvalidMonotonic
    );
    assert_eq!(
        parse_first_frame_timestamp("18446744073709551615 0").unwrap().monotonic_us,
        u64::MAX
    );
}

#[test]
fn decimal_pairs_read_back_in_every_written_form() {
    for (a, b) in [(0u64, 0u64), (7, 1_700_000_000_000_000), (u64::MAX, 1)] {
        let expected = omarec::first_frame::FirstFrameTimestamp { monotonic_us: a, realtime_us: b };
        assert_eq!(parse_first_frame_timestamp(&format!("{a} {b}")).unwrap(), expected);
        assert_eq!(
            parse_first_frame_timestamp(&format!("monotonic_microsec\trealtime_microsec\n{a}\t{b}\n")).unwrap(),
            expected
        );
        assert_eq!(parse_first_frame_timestamp(&format!("{a} {b} x")).unwrap_err(), TimestampError::ExtraTokens);
        assert_eq!(parse_first_frame_timestamp(&format!("{a}\n")).unwrap_err(), TimestampError::MissingRealtime);
    }
}
