use qubit_id::snowflake::bit_reversal::reverse_bits_below;
use qubit_id::{
    ClassicalSnowflakeLayout, Id, IdGenerationError, IdMode, QubitSnowflakeBuilder,
    QubitSnowflakeLayout, SnowflakeLayout, TimestampPrecision, HOST_MAX,
};

#[test]
fn classical_compose_matches_readme_example() {
    let layout = ClassicalSnowflakeLayout::new(7).unwrap();
    let id = layout.compose(42, 3).unwrap();
    let raw = layout.compose_raw(42, 3).unwrap();
    assert_eq!(raw, 176_189_443);
    assert_eq!(id.value(), raw);
    let parts = ClassicalSnowflakeLayout::decode(id);
    let raw_parts = ClassicalSnowflakeLayout::decode_raw(raw);
    assert_eq!(parts, raw_parts);
    assert_eq!(parts.timestamp(), 42);
    assert_eq!(parts.node_id(), 7);
    assert_eq!(parts.sequence(), 3);
}

#[test]
fn classical_rejects_out_of_range_parts() {
    assert!(matches!(
        ClassicalSnowflakeLayout::new(1024),
        Err(IdGenerationError::NodeOutOfRange { node_id: 1024, max: 1023 })
    ));
    let layout = ClassicalSnowflakeLayout::new(1023).unwrap();
    assert_eq!(layout.node_id(), 1023);
    assert_eq!(layout.max_timestamp(), (1 << 41) - 1);
    assert_eq!(layout.max_sequence(), 4095);
    assert!(matches!(
        layout.compose_raw(1 << 41, 0),
        Err(IdGenerationError::TimestampOverflow { timestamp, max }) if timestamp == 1 << 41 && max == (1 << 41) - 1
    ));
    assert!(matches!(
        layout.compose_raw(0, 4096),
        Err(IdGenerationError::SequenceOverflow { sequence: 4096, max: 4095 })
    ));
}

#[test]
fn classical_raw_patterns_below_sign_bit_round_trip() {
    for raw in [0_u64, 1, 4095, 4096, 0x1234_5678_9abc_def0 & (i64::MAX as u64), i64::MAX as u64] {
        let parts = ClassicalSnowflakeLayout::decode_raw(raw);
        let layout = ClassicalSnowflakeLayout::new(parts.node_id()).unwrap();
        assert_eq!(layout.compose_raw(parts.timestamp(), parts.sequence()).unwrap(), raw);
    }
    let layout = ClassicalSnowflakeLayout::new(1023).unwrap();
    let largest = layout.compose_raw(layout.max_timestamp(), layout.max_sequence()).unwrap();
    assert_eq!(largest, i64::MAX as u64);
}

#[test]
fn classical_ids_increase_with_time_and_sequence() {
    let layout = ClassicalSnowflakeLayout::new(5).unwrap();
    let a = layout.compose_raw(10, 4095).unwrap();
    let b = layout.compose_raw(11, 0).unwrap();
    let c = layout.compose_raw(11, 1).unwrap();
    assert!(a < b && b < c);
}

#[test]
fn classical_expiration_covers_every_timestamp() {
    let layout = ClassicalSnowflakeLayout::new(0).unwrap();
    assert_eq!(layout.time_unit(), 1_000_000);
    assert_eq!(layout.expires_at(0).unwrap(), 2_199_023_255_552_000_000);
    assert_eq!(layout.expires_at(-5).unwrap(), 2_199_023_255_551_999_995);
    assert!(matches!(
        layout.expires_at(qubit_id::wall_time::WALL_TIME_MAX),
        Err(IdGenerationError::ExpirationTimeOverflow { .. })
    ));
}

#[test]
fn qubit_compose_encodes_header_host_and_fields() {
    let millis = SnowflakeLayout::new(IdMode::Sequential, TimestampPrecision::Millisecond, 7).unwrap();
    assert_eq!(millis.compose_raw(42, 3).unwrap(), 88_109_059);
    let seconds = SnowflakeLayout::new(IdMode::Sequential, TimestampPrecision::Second, 7).unwrap();
    assert_eq!(seconds.compose_raw(42, 3).unwrap(), 4_611_686_108_651_061_251);
    let spread = SnowflakeLayout::new(IdMode::Spread, TimestampPrecision::Millisecond, 7).unwrap();
    assert_eq!(spread.compose_raw(42, 3).unwrap(), 10_736_581_511_651_291_139);
    let spread_seconds = SnowflakeLayout::new(IdMode::Spread, TimestampPrecision::Second, 7).unwrap();
    assert_eq!(spread_seconds.compose(42, 3).unwrap().value(), 15_348_267_530_108_010_499);
}

#[test]
fn qubit_layout_limits_and_errors() {
    assert!(matches!(
        SnowflakeLayout::new(IdMode::Sequential, TimestampPrecision::Second, HOST_MAX + 1),
        Err(IdGenerationError::HostOutOfRange { host: 512, max: 511 })
    ));
    let millis = SnowflakeLayout::new(IdMode::Spread, TimestampPrecision::Millisecond, 511).unwrap();
    assert_eq!(millis.mode(), IdMode::Spread);
    assert_eq!(millis.precision(), TimestampPrecision::Millisecond);
    assert_eq!(millis.host(), 511);
    assert_eq!(millis.max_timestamp(), (1 << 41) - 1);
    assert_eq!(millis.max_sequence(), 4095);
    let seconds = SnowflakeLayout::new(IdMode::Sequential, TimestampPrecision::Second, 0).unwrap();
    assert_eq!(seconds.max_timestamp(), (1 << 31) - 1);
    assert_eq!(seconds.max_sequence(), (1 << 22) - 1);
    assert!(matches!(
        seconds.compose_raw(1 << 31, 0),
        Err(IdGenerationError::TimestampOverflow { .. })
    ));
    assert!(matches!(
        seconds.compose_raw(0, 1 << 22),
        Err(IdGenerationError::SequenceOverflow { sequence, max }) if sequence == 1 << 22 && max == (1 << 22) - 1
    ));
    let default = SnowflakeLayout::default();
    assert_eq!(default.mode(), IdMode::Sequential);
    assert_eq!(default.precision(), TimestampPrecision::Second);
    assert_eq!(default.host(), 0);
}

#[test]
fn qubit_decode_returns_composed_parts() {
    for mode in [IdMode::Sequential, IdMode::Spread] {
        for precision in [TimestampPrecision::Millisecond, TimestampPrecision::Second] {
            let layout = SnowflakeLayout::new(mode, precision, 300).unwrap();
            for (timestamp, sequence) in [(0, 0), (1, 2), (42, 3), (layout.max_timestamp(), layout.max_sequence())] {
                let id = layout.compose(timestamp, sequence).unwrap();
                let parts = SnowflakeLayout::decode(id);
                assert_eq!(parts.mode(), mode);
                assert_eq!(parts.precision(), precision);
                assert_eq!(parts.timestamp(), timestamp);
                assert_eq!(parts.host(), 300);
                assert_eq!(parts.sequence(), sequence);
                assert_eq!(mode == IdMode::Spread, id.value() > i64::MAX as u64);
            }
        }
    }
}

#[test]
fn qubit_every_raw_pattern_round_trips() {
    for raw in [0_u64, 1, u64::MAX, 1 << 63, 1 << 62, 0x0123_4567_89ab_cdef, 0xfedc_ba98_7654_3210] {
        let parts = SnowflakeLayout::decode_raw(raw);
        let layout = SnowflakeLayout::new(parts.mode(), parts.precision(), parts.host()).unwrap();
        assert_eq!(layout.compose_raw(parts.timestamp(), parts.sequence()).unwrap(), raw);
    }
}

#[test]
fn spread_mode_scatters_adjacent_timestamps() {
    let layout = SnowflakeLayout::new(IdMode::Spread, TimestampPrecision::Millisecond, 1).unwrap();
    let first = layout.compose_raw(1, 0).unwrap();
    let second = layout.compose_raw(2, 0).unwrap();
    assert!(first > second);
}

#[test]
fn qubit_snowflake_layout_matches_bit_builder() {
    let layout = QubitSnowflakeLayout::new(IdMode::Spread, TimestampPrecision::Second, 9).unwrap();
    let builder = QubitSnowflakeBuilder::new(IdMode::Spread, TimestampPrecision::Second, 9).unwrap();
    let id = layout.compose(1234, 56).unwrap();
    assert_eq!(builder.build(1234, 56).unwrap(), id);
    assert_eq!(builder.extract_mode(id), IdMode::Spread);
    assert_eq!(builder.extract_precision(id), TimestampPrecision::Second);
    assert_eq!(builder.extract_timestamp(id), 1234);
    assert_eq!(builder.extract_host(id), 9);
    assert_eq!(builder.extract_sequence(id), 56);
    let parts = QubitSnowflakeLayout::decode(id);
    assert_eq!(parts.timestamp(), 1234);
    assert_eq!(parts.host(), 9);
    assert_eq!(parts.sequence(), 56);
    assert!(matches!(
        QubitSnowflakeBuilder::new(IdMode::Sequential, TimestampPrecision::Second, 600),
        Err(qubit_id::IdError::HostOutOfRange { host: 600, max: 511 })
    ));
    assert!(matches!(
        QubitSnowflakeLayout::new(IdMode::Sequential, TimestampPrecision::Second, 600),
        Err(qubit_id::IdError::HostOutOfRange { host: 600, max: 511 })
    ));
    assert!(matches!(builder.build(0, 1 << 22), Err(qubit_id::IdError::SequenceOverflow { .. })));
    assert_eq!(QubitSnowflakeBuilder::default().precision(), TimestampPrecision::Second);
    assert_eq!(QubitSnowflakeLayout::default().mode(), IdMode::Sequential);
}

#[test]
fn id_wraps_value_and_text() {
    let id = Id::new(18_446_744_073_709_551_615);
    assert_eq!(id.value(), u64::MAX);
    assert_eq!(u64::from(Id::from(7_u64)), 7);
    assert_eq!(id.to_string(), "18446744073709551615");
    assert_eq!(Id::new(0).to_string(), "0");
    assert_eq!(Id::new(1_000).to_string(), "1000");
    let parsed: Id = "18446744073709551615".parse().unwrap();
    assert_eq!(parsed, id);
    assert_eq!(Id::try_from("+42").unwrap(), Id::new(42));
    assert!("".parse::<Id>().is_err());
    assert!("18446744073709551616".parse::<Id>().is_err());
    assert!("-1".parse::<Id>().is_err());
    assert!(" 1".parse::<Id>().is_err());
    assert!(Id::try_from("+").is_err());
}

#[test]
fn mode_and_precision_bits_round_trip() {
    for mode in [IdMode::Sequential, IdMode::Spread] {
        assert_eq!(IdMode::from_bit(mode.ordinal()), mode);
    }
    assert_eq!(IdMode::from_bit(5), IdMode::Spread);
    assert_eq!(IdMode::Spread.ordinal(), 1);
    for precision in [TimestampPrecision::Millisecond, TimestampPrecision::Second] {
        assert_eq!(TimestampPrecision::from_bit(precision.ordinal()), precision);
        assert_eq!(
            2 + precision.timestamp_bits() + 9 + precision.sequence_bits(),
            64
        );
    }
    assert_eq!(TimestampPrecision::Second.divisor_millis(), 1000);
    assert_eq!(TimestampPrecision::Millisecond.divisor_millis(), 1);
    assert_eq!(TimestampPrecision::Second.wait_duration_millis(), 500);
    assert_eq!(TimestampPrecision::Millisecond.wait_duration_millis(), 1);
}

#[test]
fn bit_reversal_is_an_involution() {
    assert_eq!(reverse_bits_below(42, 41), 721_554_505_728);
    assert_eq!(reverse_bits_below(reverse_bits_below(42, 41), 41), 42);
    assert_eq!(reverse_bits_below(1, 64), 1 << 63);
    assert_eq!(reverse_bits_below(0b1011, 4), 0b1101);
    assert_eq!(reverse_bits_below(0xffff, 0), 0);
}
