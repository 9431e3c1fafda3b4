use bfp_rs::errors::BfpError;
use bfp_rs::types::bfp_type::BfpType;
use bfp_rs::types::byte_stream::ByteStream;
use bfp_rs::types::parseable_type::ParseableType;
use bfp_rs::types::version::Version;

fn round_trip(t: &BfpType, v: ParseableType) {
    let bytes = t.to_bytes(&v);
    let mut stream = ByteStream::from_bytes(bytes);
    let back = t
        .from_stream(&mut stream, &Version::new(vec![0]))
        .expect("decode after encode");
    assert!(back.equals(&v), "round trip failed for {:?}", v);
    assert_eq!(stream.available(), 0);
}

#[test]
fn unsigned_round_trips_at_boundaries() {
    round_trip(&BfpType::UInt8, ParseableType::UInt8(0));
    round_trip(&BfpType::UInt8, ParseableType::UInt8(u8::MAX));
    round_trip(&BfpType::UInt16, ParseableType::UInt16(0));
    round_trip(&BfpType::UInt16, ParseableType::UInt16(u16::MAX));
    round_trip(&BfpType::UInt32, ParseableType::UInt32(0));
    round_trip(&BfpType::UInt32, ParseableType::UInt32(u32::MAX));
    round_trip(&BfpType::UInt64, ParseableType::UInt64(0));
    round_trip(&BfpType::UInt64, ParseableType::UInt64(u64::MAX));
    round_trip(&BfpType::UInt128, ParseableType::UInt128(0));
    round_trip(&BfpType::UInt128, ParseableType::UInt128(u128::MAX));
}

#[test]
fn signed_round_trips_at_boundaries() {
    for v in [0i8, i8::MAX, i8::MIN, -1] {
        round_trip(&BfpType::Int8, ParseableType::Int8(v));
    }
    for v in [0i16, i16::MAX, i16::MIN, -1] {
        round_trip(&BfpType::Int16, ParseableType::Int16(v));
    }
    for v in [0i32, i32::MAX, i32::MIN, -1] {
        round_trip(&BfpType::Int32, ParseableType::Int32(v));
    }
    for v in [0i64, i64::MAX, i64::MIN, -1] {
        round_trip(&BfpType::Int64, ParseableType::Int64(v));
    }
    for v in [0i128, i128::MAX, i128::MIN, -1] {
        round_trip(&BfpType::Int128, ParseableType::Int128(v));
    }
}

#[test]
fn float_round_trips_at_boundaries() {
    for v in [0.0f32, -0.0, f32::MAX, f32::MIN, -1.0, f32::NAN] {
        round_trip(&BfpType::Float32, ParseableType::Float32(v.to_bits()));
    }
    for v in [0.0f64, -0.0, f64::MAX, f64::MIN, -1.0, f64::NAN] {
        round_trip(&BfpType::Float64, ParseableType::Float64(v.to_bits()));
    }
}

#[test]
fn bool_round_trips_for_every_width() {
    for t in [
        BfpType::Bool8,
        BfpType::Bool16,
        BfpType::Bool32,
        BfpType::Bool64,
        BfpType::Bool128,
    ] {
        round_trip(&t, ParseableType::Bool(true));
        round_trip(&t, ParseableType::Bool(false));
    }
}

#[test]
fn decoding_is_little_endian() {
    let mut stream = ByteStream::from_bytes(vec![0x01, 0x02]);
    match BfpType::UInt16.from_stream(&mut stream, &Version::new(vec![0])) {
        Ok(ParseableType::UInt16(x)) => assert_eq!(x, 0x0201),
        other => panic!("unexpected {:?}", other),
    }
    let mut stream = ByteStream::from_bytes(vec![0xff, 0xff]);
    match BfpType::Int16.from_stream(&mut stream, &Version::new(vec![0])) {
        Ok(ParseableType::Int16(x)) => assert_eq!(x, -1),
        other => panic!("unexpected {:?}", other),
    }
    let mut stream = ByteStream::from_bytes(vec![0x02, 0x00, 0x00, 0x00]);
    match BfpType::Bool32.from_stream(&mut stream, &Version::new(vec![0])) {
        Ok(ParseableType::Bool(b)) => assert!(b),
        other => panic!("unexpected {:?}", other),
    }
}

#[test]
fn short_reads_fail_with_the_exact_shortfall() {
    let mut stream = ByteStream::from_bytes(vec![1, 2]);
    let r = BfpType::UInt32.from_stream(&mut stream, &Version::new(vec![0]));
    assert_eq!(
        r.unwrap_err(),
        BfpError::Truncation {
            requested: 4,
            available: 2
        }
    );
    // a failed read consumes nothing
    assert_eq!(stream.available(), 2);
}

#[test]
fn byte_stream_get_peek_remaining() {
    let mut s = ByteStream::from_bytes(vec![10, 20, 30]);
    assert_eq!(s.peek(2).unwrap(), vec![10, 20]);
    assert_eq!(s.available(), 3);
    assert_eq!(s.get(1).unwrap(), vec![10]);
    assert_eq!(s.available(), 2);
    assert_eq!(
        s.get(5).unwrap_err(),
        BfpError::Truncation {
            requested: 5,
            available: 2
        }
    );
    assert_eq!(s.remaining(), vec![20, 30]);
    assert_eq!(s.available(), 0);
    assert_eq!(s.get(0).unwrap(), Vec::<u8>::new());
}
