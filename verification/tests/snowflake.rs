use data_eater_core::hashing::consistent_hash;
use data_eater_core::snowflake::{Snowflake, SnowflakeFactory, SnowflakeFormatError};

#[test]
fn sequential_ids_are_unique() {
    let mut factory = SnowflakeFactory::new().expect("could not get unique id");
    let first = factory.next();
    let second = factory.next();
    assert_ne!(first, second, "Two sequential ids should not be equal");
    assert!(second > first, "first should be less than second but {first:?} >= {second:?}");
    assert_eq!(first.machine_id(), second.machine_id(), "machine id should be the same");
    assert!(
        first.timestamp_raw() < second.timestamp_raw()
            || first.sequence_id() < second.sequence_id(),
        "either timestamp or sequence id of first id should be lower, but {first:?} >= {second:?}"
    )
}

#[test]
fn u64_conversion() {
    let valid: u64 = 0x0;
    assert!(Snowflake::try_from(valid).is_ok());
    let invalid: u64 = u64::MAX;
    assert!(Snowflake::try_from(invalid).is_err());
}

#[test]
fn encode_zero_decomposes_to_zero() {
    let id = Snowflake::new(0, 0, 0);
    assert_eq!(id.decompose(), (0u64, 0u16, 0u16));
    assert_eq!(id.to_raw(), 0u64);
}

#[test]
fn decompose_inverts_encode() {
    let t: u64 = 0x123_4567_89AB;
    let node: u16 = 0x2AB;
    let seq: u16 = 0x3FF;
    let id = Snowflake::new(node, seq, t);
    assert_eq!(id.decompose(), (t, node, seq));
    assert_eq!(id.timestamp_raw(), t);
    assert_eq!(id.machine_id(), node);
    assert_eq!(id.sequence_id(), seq);
}

#[test]
fn wide_fields_are_truncated() {
    // One bit above each field's width must vanish.
    let id = Snowflake::new(0x400, 0x400, 0x800_0000_0000);
    assert_eq!(id.decompose(), (0u64, 0u16, 0u16));
    let id = Snowflake::new(0x401, 0x403, 0x800_0000_0005);
    assert_eq!(id.decompose(), (5u64, 1u16, 3u16));
}

#[test]
fn reserved_bit_is_rejected() {
    let err = Snowflake::try_from_raw(0x8000_0000_0000_0000);
    assert_eq!(err, Err(SnowflakeFormatError));
    let ok = Snowflake::try_from_raw(0x0000_0000_0000_0000);
    assert!(ok.is_ok());
    assert_eq!(ok.unwrap().to_raw(), 0);
}

#[test]
fn raw_round_trip() {
    for raw in [0u64, 1, 0x3FF, 0xFFFF_FFFF, 0x7FFF_FFFF_FFFF_FFFF] {
        let id = Snowflake::try_from_raw(raw).unwrap();
        assert_eq!(id.to_raw(), raw);
        assert_eq!(u64::from(id), raw);
    }
}

#[test]
fn reencoding_a_decomposed_id_reproduces_it() {
    for raw in [0u64, 0x7FFF_FFFF_FFFF_FFFF, 0x1234_5678_9ABC_DEF0 & 0x7FFF_FFFF_FFFF_FFFF] {
        let id = Snowflake::try_from_raw(raw).unwrap();
        let (t, node, seq) = id.decompose();
        let again = Snowflake::new(node, seq, t);
        assert_eq!(again.to_raw(), raw);
        assert_eq!(again, id);
    }
}

#[test]
fn sequence_wraps_after_1024_calls_in_one_millisecond() {
    let mut factory = SnowflakeFactory::from_host_identifier(b"host");
    let millis: u64 = 41;
    let first = factory.advance(millis);
    assert_eq!(first.sequence_id(), 0);
    assert_eq!(first.timestamp_raw(), millis);
    let mut last = first;
    for position in 2..=1025u32 {
        last = factory.advance(millis);
        if position < 1025 {
            assert_eq!(last.sequence_id(), (position - 1) as u16);
        }
    }
    assert_eq!(last.sequence_id(), 0, "position 1025 wraps back to sequence 0");
    assert_eq!(last.timestamp_raw(), first.timestamp_raw());
    assert_eq!(last, first, "the wraparound collision reproduces position 1");
}

#[test]
fn ids_increase_while_clock_advances() {
    let mut factory = SnowflakeFactory::from_host_identifier(b"host");
    let a = factory.advance(100);
    let b = factory.advance(100);
    let c = factory.advance(101);
    let d = factory.advance(250);
    assert!(a < b && b < c && c < d);
    assert!(a.to_raw() < b.to_raw() && b.to_raw() < c.to_raw() && c.to_raw() < d.to_raw());
}

#[test]
fn node_id_is_stable_and_comes_from_the_hash() {
    let key = b"some stable host identifier";
    let mut factory = SnowflakeFactory::from_host_identifier(key);
    let expected = (consistent_hash(key) as u16) & 0x3FF;
    let mut ids = Vec::new();
    for millis in [7u64, 7, 8, 1000, 999] {
        ids.push(factory.advance(millis));
    }
    for id in ids {
        assert_eq!(id.machine_id(), expected);
    }
}

#[test]
fn clock_moving_backward_resets_the_sequence() {
    let mut factory = SnowflakeFactory::from_host_identifier(b"host");
    let a = factory.advance(500);
    let b = factory.advance(500);
    assert_eq!(b.sequence_id(), 1);
    let c = factory.advance(499);
    assert_eq!(c.sequence_id(), 0);
    assert_eq!(c.timestamp_raw(), 499);
    assert!(c < a, "monotonicity is documented to break when the clock moves backward");
    let _ = b;
}

#[test]
fn timestamp_is_masked_to_43_bits() {
    let mut factory = SnowflakeFactory::from_host_identifier(b"host");
    let id = factory.advance(0x800_0000_0123);
    assert_eq!(id.timestamp_raw(), 0x123);
}

#[test]
fn order_is_lexicographic_over_the_fields() {
    let low_node_high_seq = Snowflake::new(1, 1023, 5);
    let high_node_low_seq = Snowflake::new(2, 0, 5);
    assert!(low_node_high_seq < high_node_low_seq);
    let later = Snowflake::new(0, 0, 6);
    assert!(high_node_low_seq < later);
    assert!(later.to_raw() > high_node_low_seq.to_raw());
}

#[test]
fn hash_of_known_inputs() {
    assert_eq!(consistent_hash(&[]), 5381);
    assert_eq!(consistent_hash(&[0]), 5381);
    assert_eq!(consistent_hash(&[1]), 5381 * 33);
    assert_eq!(consistent_hash(&[1, 1]), 5381 * 33 * 33);
    assert_eq!(consistent_hash(&[2]), 5381 * 33 * 33);
    let big = 5381u64.wrapping_mul(33u64.wrapping_pow(200));
    assert_eq!(consistent_hash(&[200]), big);
    let two = 5381u64
        .wrapping_mul(33u64.wrapping_pow(250))
        .wrapping_mul(33u64.wrapping_pow(17));
    assert_eq!(consistent_hash(&[250, 17]), two);
}

#[test]
fn factory_from_this_host() {
    let factory = SnowflakeFactory::new();
    assert!(factory.is_ok(), "this host must expose a machine identifier");
}
