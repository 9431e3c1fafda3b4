use std::sync::Arc;

use bfp_rs::errors::BfpError;
use bfp_rs::retrievers::retriever::{RetState, Retriever};
use bfp_rs::types::base_struct::BaseStruct;
use bfp_rs::types::bfp_type::BfpType;
use bfp_rs::types::byte_stream::ByteStream;
use bfp_rs::types::parseable_type::ParseableType;
use bfp_rs::types::structure::Struct;
use bfp_rs::types::version::Version;

fn field(t: BfpType, repeat: isize) -> Retriever {
    Retriever::new(
        Arc::new(t),
        Version::new(vec![-1]),
        Version::new(vec![1000]),
        repeat,
        false,
        Vec::new(),
        Vec::new(),
        String::from("field"),
    )
}

fn field_at(t: BfpType, repeat: isize, idx: usize) -> Retriever {
    let mut r = field(t, repeat);
    r.idx = idx;
    r
}

#[test]
fn append_assigns_dense_slot_indices() {
    let mut sch = Struct::new();
    assert_eq!(sch.len(), 0);
    assert_eq!(sch.append(field(BfpType::UInt8, 1)), 0);
    assert_eq!(sch.append(field(BfpType::UInt16, 1)), 1);
    assert_eq!(sch.len(), 2);
    assert_eq!(sch.retrievers[0].idx, 0);
    assert_eq!(sch.retrievers[1].idx, 1);
}

#[test]
fn retriever_state_follows_the_override_table() {
    let scalar = field_at(BfpType::UInt8, 1, 0);
    let optional = field_at(BfpType::UInt8, -1, 1);
    let listed = field_at(BfpType::UInt8, 4, 2);
    let no_overrides: Vec<Option<isize>> = vec![None, None, None];
    assert_eq!(scalar.state(&no_overrides), RetState::Value);
    assert_eq!(optional.state(&no_overrides), RetState::Absent);
    assert_eq!(listed.state(&no_overrides), RetState::List);
    assert_eq!(listed.repeat(&no_overrides), 4);
    // any override makes the field a list, whatever the nominal repeat
    let overridden: Vec<Option<isize>> = vec![Some(2), Some(2), Some(2)];
    assert_eq!(scalar.state(&overridden), RetState::List);
    assert_eq!(optional.state(&overridden), RetState::List);
    assert_eq!(scalar.repeat(&overridden), 2);
}

#[test]
fn supported_checks_the_version_range_inclusively() {
    let mut r = field(BfpType::UInt8, 1);
    r.min_ver = Version::new(vec![2]);
    r.max_ver = Version::new(vec![4]);
    assert!(!r.supported(&Version::new(vec![1])));
    assert!(r.supported(&Version::new(vec![2])));
    assert!(r.supported(&Version::new(vec![3, 9])));
    assert!(r.supported(&Version::new(vec![4])));
    assert!(!r.supported(&Version::new(vec![4, 0, 1])));
}

#[test]
fn a_combinator_chain_runs_on_explicit_tables() {
    // the chain copies slot 0 into slot 1 on tables handed in directly
    let mut sch = Struct::new();
    sch.append(field(BfpType::UInt8, 1));
    sch.append(field(BfpType::UInt8, 1));
    let mut on_read = field(BfpType::UInt8, 1);
    on_read.on_read = vec![bfp_rs::combinators::set_builder::set(&field_at(
        BfpType::UInt8,
        1,
        1,
    ))
    .from_(&field_at(BfpType::UInt8, 1, 0))];
    let mut data: Vec<Option<ParseableType>> = vec![
        Some(ParseableType::UInt8(9)),
        Some(ParseableType::UInt8(0)),
    ];
    let mut repeats: Vec<Option<isize>> = vec![None, None];
    on_read
        .call_on_reads(&sch.retrievers, &mut data, &mut repeats, &Version::new(vec![1]))
        .unwrap();
    match &data[1] {
        Some(ParseableType::UInt8(x)) => assert_eq!(*x, 9),
        other => panic!("unexpected {:?}", other),
    }
}

#[test]
fn records_compare_by_their_value_tables_only() {
    let a = BaseStruct::new(
        Version::new(vec![1]),
        vec![Some(ParseableType::UInt8(1))],
        vec![None],
    );
    let b = BaseStruct::new(
        Version::new(vec![2]),
        vec![Some(ParseableType::UInt8(1))],
        vec![Some(7)],
    );
    let c = BaseStruct::new(
        Version::new(vec![1]),
        vec![Some(ParseableType::UInt8(2))],
        vec![None],
    );
    assert!(a.equals(&b));
    assert!(!a.equals(&c));
}

#[test]
fn an_empty_stream_has_nothing_to_read() {
    let mut s = ByteStream::empty();
    assert_eq!(s.available(), 0);
    assert_eq!(
        s.get(1).unwrap_err(),
        BfpError::Truncation {
            requested: 1,
            available: 0
        }
    );
}
