use std::sync::Arc;

use bfp_rs::combinators::set_repeat_builder::set_repeat;
use bfp_rs::errors::BfpError;
use bfp_rs::retrievers::retriever::Retriever;
use bfp_rs::types::base_struct::BaseStruct;
use bfp_rs::types::bfp_type::BfpType;
use bfp_rs::types::byte_stream::ByteStream;
use bfp_rs::types::parseable_type::ParseableType;
use bfp_rs::types::structure::{Decompressor, NoDecompressor, NoVersionFinder, Struct, VersionFinder};
use bfp_rs::types::version::Version;

fn field(t: BfpType, repeat: isize) -> Retriever {
    Retriever::new(
        Arc::new(t),
        Version::new(vec![-1]),
        Version::new(vec![1000]),
        repeat,
        false,
        Vec::new(),
        Vec::new(),
        String::from("field"),
    )
}

fn field_at(t: BfpType, repeat: isize, idx: usize) -> Retriever {
    let mut r = field(t, repeat);
    r.idx = idx;
    r
}

fn parse(sch: &Struct, bytes: Vec<u8>, ver: &[i32]) -> Result<BaseStruct, BfpError> {
    let mut stream = ByteStream::from_bytes(bytes);
    sch.parse(&mut stream, &Version::new(ver.to_vec()))
}

fn uint8_at(b: &BaseStruct, i: usize) -> u8 {
    match &b.data[i] {
        Some(ParseableType::UInt8(x)) => *x,
        other => panic!("slot {} holds {:?}", i, other),
    }
}

#[test]
fn scalar_fields_decode_in_order() {
    let mut sch = Struct::new();
    sch.append(field(BfpType::UInt8, 1));
    sch.append(field(BfpType::UInt16, 1));
    let b = parse(&sch, vec![7, 0x01, 0x02], &[1]).unwrap();
    assert_eq!(uint8_at(&b, 0), 7);
    match &b.data[1] {
        Some(ParseableType::UInt16(x)) => assert_eq!(*x, 0x0201),
        other => panic!("unexpected {:?}", other),
    }
}

#[test]
fn unsupported_version_stores_absent_and_consumes_nothing() {
    let mut r = field(BfpType::UInt8, 1);
    r.min_ver = Version::new(vec![2]);
    r.max_ver = Version::new(vec![4]);
    let mut sch = Struct::new();
    sch.append(r);
    let mut stream = ByteStream::from_bytes(vec![9, 9]);
    let b = sch.parse(&mut stream, &Version::new(vec![1])).unwrap();
    assert!(matches!(b.data[0], Some(ParseableType::Absent)));
    assert_eq!(stream.available(), 2);
}

#[test]
fn nominal_repeat_minus_one_is_absent() {
    let mut sch = Struct::new();
    sch.append(field(BfpType::UInt8, -1));
    sch.append(field(BfpType::UInt8, 1));
    let b = parse(&sch, vec![42], &[1]).unwrap();
    assert!(matches!(b.data[0], Some(ParseableType::Absent)));
    assert_eq!(uint8_at(&b, 1), 42);
}

#[test]
fn fixed_repeat_decodes_a_list() {
    let mut sch = Struct::new();
    sch.append(field(BfpType::UInt8, 3));
    let b = parse(&sch, vec![1, 2, 3], &[1]).unwrap();
    match &b.data[0] {
        Some(ParseableType::Array(ls)) => {
            assert_eq!(ls.len(), 3);
            assert!(ls.get(0).equals(&ParseableType::UInt8(1)));
            assert!(ls.get(2).equals(&ParseableType::UInt8(3)));
        },
        other => panic!("unexpected {:?}", other),
    }
}

#[test]
fn repeat_override_makes_a_length_prefixed_array() {
    // field 0 holds the element count of field 1
    let chain = vec![set_repeat(&field_at(BfpType::UInt8, 1, 1))
        .from_(&field_at(BfpType::UInt8, 1, 0))];
    let mut counter = field(BfpType::UInt8, 1);
    counter.on_read = chain;
    let mut sch = Struct::new();
    sch.append(counter);
    sch.append(field(BfpType::UInt8, 1));
    let b = parse(&sch, vec![3, 10, 20, 30], &[1]).unwrap();
    assert_eq!(uint8_at(&b, 0), 3);
    match &b.data[1] {
        Some(ParseableType::Array(ls)) => {
            assert_eq!(ls.len(), 3);
            assert!(ls.get(0).equals(&ParseableType::UInt8(10)));
            assert!(ls.get(1).equals(&ParseableType::UInt8(20)));
            assert!(ls.get(2).equals(&ParseableType::UInt8(30)));
        },
        other => panic!("unexpected {:?}", other),
    }
    assert_eq!(b.repeats[1], Some(3));
}

#[test]
fn negative_repeat_override_fails_out_of_range() {
    let chain = vec![set_repeat(&field_at(BfpType::UInt8, 1, 1)).to(-5)];
    let mut counter = field(BfpType::UInt8, 1);
    counter.on_read = chain;
    let mut sch = Struct::new();
    sch.append(counter);
    sch.append(field(BfpType::UInt8, 1));
    let r = parse(&sch, vec![1, 2], &[1]);
    assert_eq!(r.unwrap_err(), BfpError::ValueOutOfRange { field: 1 });
}

#[test]
fn reading_an_unparsed_slot_fails_uninitialized() {
    // the first field's chain reads slot 5, which is still unpopulated
    let chain = vec![bfp_rs::combinators::set_builder::set(&field_at(BfpType::UInt8, 1, 0))
        .from_(&field_at(BfpType::UInt8, 1, 5))];
    let mut first = field(BfpType::UInt8, 1);
    first.on_read = chain;
    let mut sch = Struct::new();
    sch.append(first);
    for _ in 1..6 {
        sch.append(field(BfpType::UInt8, 1));
    }
    let r = parse(&sch, vec![1, 2, 3, 4, 5, 6], &[1]);
    assert_eq!(r.unwrap_err(), BfpError::UninitializedField { field: 5 });
}

#[test]
fn reading_an_absent_field_fails_version_unsupported() {
    let mut gated = field(BfpType::UInt8, 1);
    gated.min_ver = Version::new(vec![2]);
    let chain = vec![bfp_rs::combinators::set_builder::set(&field_at(BfpType::UInt8, 1, 1))
        .from_(&field_at(BfpType::UInt8, 1, 0))];
    let mut second = field(BfpType::UInt8, 1);
    second.on_read = chain;
    let mut sch = Struct::new();
    sch.append(gated);
    sch.append(second);
    let r = parse(&sch, vec![9], &[1]);
    assert_eq!(r.unwrap_err(), BfpError::VersionUnsupported { field: 0 });
}

#[test]
fn nested_records_parse_with_their_own_tables() {
    let mut inner = Struct::new();
    inner.append(field(BfpType::UInt8, 1));
    inner.append(field(BfpType::UInt8, 1));
    let mut sch = Struct::new();
    sch.append(field(BfpType::Struct(inner), 1));
    sch.append(field(BfpType::UInt8, 1));
    let b = parse(&sch, vec![5, 6, 7], &[1]).unwrap();
    match &b.data[0] {
        Some(ParseableType::Struct(rec)) => {
            assert_eq!(uint8_at(rec, 0), 5);
            assert_eq!(uint8_at(rec, 1), 6);
        },
        other => panic!("unexpected {:?}", other),
    }
    assert_eq!(uint8_at(&b, 1), 7);
}

#[test]
fn hookless_parse_refuses_a_compressed_span() {
    let mut plain = field(BfpType::UInt8, 1);
    plain.idx = 0;
    let mut compressed = field(BfpType::UInt8, 1);
    compressed.remaining_compressed = true;
    let mut sch = Struct::new();
    sch.append(plain);
    sch.append(compressed);
    let r = parse(&sch, vec![7, 9], &[1]);
    assert_eq!(r.unwrap_err(), BfpError::CompressionUnsupported { field: 1 });
}

struct FixedDecompressor {
    out: Vec<u8>,
}

impl Decompressor for FixedDecompressor {
    fn decompress(&self, _bytes: &Vec<u8>) -> Result<Vec<u8>, BfpError> {
        Ok(self.out.clone())
    }
}

#[test]
fn compressed_tail_decodes_from_the_decompressed_bytes() {
    let mut compressed = field(BfpType::UInt8, 1);
    compressed.remaining_compressed = true;
    let mut sch = Struct::new();
    sch.append(field(BfpType::UInt8, 1));
    sch.append(compressed);
    sch.append(field(BfpType::UInt8, 1));
    // the raw tail is one byte; the decompressed form is longer
    let d = FixedDecompressor { out: vec![42, 99, 77] };
    let mut stream = ByteStream::from_bytes(vec![7, 255]);
    let b = sch
        .parse_with::<NoVersionFinder, FixedDecompressor>(
            &mut stream,
            &Version::new(vec![1]),
            None,
            Some(&d),
        )
        .unwrap();
    assert_eq!(uint8_at(&b, 0), 7);
    assert_eq!(uint8_at(&b, 1), 42);
    assert_eq!(uint8_at(&b, 2), 99);
}

#[test]
fn parse_with_no_decompressor_fails_on_a_compressed_span() {
    let mut compressed = field(BfpType::UInt8, 1);
    compressed.remaining_compressed = true;
    let mut sch = Struct::new();
    sch.append(compressed);
    let mut stream = ByteStream::from_bytes(vec![1]);
    let r = sch.parse_with::<NoVersionFinder, NoDecompressor>(
        &mut stream,
        &Version::new(vec![1]),
        None,
        None,
    );
    assert_eq!(r.unwrap_err(), BfpError::CompressionUnsupported { field: 0 });
}

struct HeaderVersionFinder;

impl VersionFinder for HeaderVersionFinder {
    fn find_version(
        &self,
        stream: &mut ByteStream,
        _ver: &Version,
    ) -> Result<Option<Version>, BfpError> {
        let header = stream.get(1)?;
        Ok(Some(Version::new(vec![header[0] as i32])))
    }
}

#[test]
fn version_discovery_hook_resolves_the_effective_version() {
    let mut gated = field(BfpType::UInt8, 1);
    gated.min_ver = Version::new(vec![2]);
    let mut sch = Struct::new();
    sch.append(gated);
    // header byte 3 resolves version 3, inside the field's range
    let vf = HeaderVersionFinder;
    let mut stream = ByteStream::from_bytes(vec![3, 11]);
    let b = sch
        .parse_with::<HeaderVersionFinder, NoDecompressor>(
            &mut stream,
            &Version::new(vec![0]),
            Some(&vf),
            None,
        )
        .unwrap();
    assert_eq!(b.ver.components(), &vec![3]);
    assert_eq!(uint8_at(&b, 0), 11);
    // header byte 1 resolves version 1, below the field's range
    let mut stream = ByteStream::from_bytes(vec![1, 11]);
    let b = sch
        .parse_with::<HeaderVersionFinder, NoDecompressor>(
            &mut stream,
            &Version::new(vec![0]),
            Some(&vf),
            None,
        )
        .unwrap();
    assert!(matches!(b.data[0], Some(ParseableType::Absent)));
}

#[test]
fn parse_with_without_hooks_equals_hookless_parse() {
    let mut sch = Struct::new();
    sch.append(field(BfpType::UInt16, 1));
    let mut s1 = ByteStream::from_bytes(vec![1, 2]);
    let b1 = sch.parse(&mut s1, &Version::new(vec![1])).unwrap();
    let mut s2 = ByteStream::from_bytes(vec![1, 2]);
    let b2 = sch
        .parse_with::<NoVersionFinder, NoDecompressor>(
            &mut s2,
            &Version::new(vec![1]),
            None,
            None,
        )
        .unwrap();
    assert!(b1.equals(&b2));
}

#[test]
fn truncation_aborts_the_whole_parse() {
    let mut sch = Struct::new();
    sch.append(field(BfpType::UInt8, 1));
    sch.append(field(BfpType::UInt32, 1));
    let r = parse(&sch, vec![1, 2], &[1]);
    assert_eq!(
        r.unwrap_err(),
        BfpError::Truncation {
            requested: 4,
            available: 1
        }
    );
}
