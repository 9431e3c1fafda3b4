use std::sync::Arc;

use bfp_rs::combinators::combinator_type::CombinatorType;
use bfp_rs::combinators::if_builder::{if_, if_len, if_not, Operand};
use bfp_rs::combinators::set_repeat_builder::set_repeat;
use bfp_rs::errors::BfpError;
use bfp_rs::ordering::Ordering;
use bfp_rs::retrievers::retriever::Retriever;
use bfp_rs::types::base_struct::BaseStruct;
use bfp_rs::types::bfp_type::BfpType;
use bfp_rs::types::byte_stream::ByteStream;
use bfp_rs::types::parseable_type::ParseableType;
use bfp_rs::types::structure::Struct;
use bfp_rs::types::version::Version;

fn field(t: BfpType, repeat: isize) -> Retriever {
    Retriever::new(
        Arc::new(t),
        Version::new(vec![-1]),
        Version::new(vec![1000]),
        repeat,
        false,
        Vec::new(),
        Vec::new(),
        String::from("field"),
    )
}

fn field_at(t: BfpType, repeat: isize, idx: usize) -> Retriever {
    let mut r = field(t, repeat);
    r.idx = idx;
    r
}

fn parse(sch: &Struct, bytes: Vec<u8>, ver: &[i32]) -> Result<BaseStruct, BfpError> {
    let mut stream = ByteStream::from_bytes(bytes);
    sch.parse(&mut stream, &Version::new(ver.to_vec()))
}

fn uint8_at(b: &BaseStruct, i: usize) -> u8 {
    match &b.data[i] {
        Some(ParseableType::UInt8(x)) => *x,
        other => panic!("slot {} holds {:?}", i, other),
    }
}

fn nop_on(target_idx: usize) -> CombinatorType {
    // an assignment that keeps the table shape; used as a nested step
    bfp_rs::combinators::set_builder::set(&field_at(BfpType::UInt8, 1, target_idx))
        .to(ParseableType::UInt8(1))
        .unwrap()
}

#[test]
fn negated_comparisons_select_the_exact_complement_sets() {
    let x = field_at(BfpType::UInt8, 1, 0);
    let y = field_at(BfpType::UInt8, 1, 1);
    let plain = if_(&x).gt(Operand::Field(y.idx)).unwrap().and_then(nop_on(1));
    let negated = if_not(&x).gt(Operand::Field(y.idx)).unwrap().and_then(nop_on(1));
    match (plain, negated) {
        (CombinatorType::IfCmpFrom(p), CombinatorType::IfCmpFrom(n)) => {
            assert_eq!(p.ord, vec![Ordering::Greater]);
            assert_eq!(n.ord, vec![Ordering::Less, Ordering::Equal]);
        },
        other => panic!("unexpected {:?}", other),
    }
    let plain = if_(&x).eq(Operand::Field(1)).unwrap().and_then(nop_on(1));
    let negated = if_not(&x).eq(Operand::Field(1)).unwrap().and_then(nop_on(1));
    match (plain, negated) {
        (CombinatorType::IfCmpFrom(p), CombinatorType::IfCmpFrom(n)) => {
            assert_eq!(p.ord, vec![Ordering::Equal]);
            assert_eq!(n.ord, vec![Ordering::Less, Ordering::Greater]);
        },
        other => panic!("unexpected {:?}", other),
    }
    let plain = if_(&x).leq(Operand::Field(1)).unwrap().and_then(nop_on(1));
    let negated = if_not(&x).leq(Operand::Field(1)).unwrap().and_then(nop_on(1));
    match (plain, negated) {
        (CombinatorType::IfCmpFrom(p), CombinatorType::IfCmpFrom(n)) => {
            assert_eq!(p.ord, vec![Ordering::Less, Ordering::Equal]);
            assert_eq!(n.ord, vec![Ordering::Greater]);
        },
        other => panic!("unexpected {:?}", other),
    }
}

#[test]
fn chaining_two_comparisons_is_rejected() {
    let x = field_at(BfpType::UInt8, 1, 0);
    let b = if_(&x).eq(Operand::Field(1)).unwrap();
    let r = b.eq(Operand::Field(2));
    assert!(matches!(r, Err(BfpError::TypeMismatch { .. })));
}

#[test]
fn length_mode_rejects_a_negative_literal() {
    let x = field_at(BfpType::UInt8, 0, 0);
    let r = if_len(&x).eq(Operand::Lit(ParseableType::Int8(-1)));
    assert!(matches!(r, Err(BfpError::ValueOutOfRange { .. })));
}

#[test]
fn literal_operand_must_match_the_target_type() {
    let x = field_at(BfpType::UInt8, 1, 0);
    let r = if_(&x).eq(Operand::Lit(ParseableType::UInt16(3)));
    assert!(matches!(r, Err(BfpError::TypeMismatch { .. })));
    let r = bfp_rs::combinators::set_builder::set(&x).to(ParseableType::Bool(true));
    assert!(matches!(r, Err(BfpError::TypeMismatch { .. })));
}

#[test]
fn empty_list_condition_sets_the_other_field() {
    // field 0 is a scalar; field 1 is a list; when the list is empty,
    // field 0 is overwritten with one
    let then = bfp_rs::combinators::set_builder::set(&field_at(BfpType::UInt8, 1, 0))
        .to(ParseableType::UInt8(1))
        .unwrap();
    let cond = if_len(&field_at(BfpType::UInt8, 0, 1))
        .eq(Operand::Lit(ParseableType::UInt8(0)))
        .unwrap()
        .and_then(then);
    let mut list_field = field(BfpType::UInt8, 0);
    list_field.on_read = vec![cond];
    let mut sch = Struct::new();
    sch.append(field(BfpType::UInt8, 1));
    sch.append(list_field);
    let b = parse(&sch, vec![5], &[1]).unwrap();
    assert_eq!(uint8_at(&b, 0), 1);
}

#[test]
fn nonempty_list_condition_leaves_the_other_field_alone() {
    let then = bfp_rs::combinators::set_builder::set(&field_at(BfpType::UInt8, 1, 0))
        .to(ParseableType::UInt8(1))
        .unwrap();
    let cond = if_len(&field_at(BfpType::UInt8, 0, 1))
        .eq(Operand::Lit(ParseableType::UInt8(0)))
        .unwrap()
        .and_then(then);
    // field 0's own chain resizes field 1 to one element before it is read
    let resize = set_repeat(&field_at(BfpType::UInt8, 0, 1)).to(1);
    let mut scalar = field(BfpType::UInt8, 1);
    scalar.on_read = vec![resize];
    let mut list_field = field(BfpType::UInt8, 0);
    list_field.on_read = vec![cond];
    let mut sch = Struct::new();
    sch.append(scalar);
    sch.append(list_field);
    let b = parse(&sch, vec![5, 77], &[1]).unwrap();
    assert_eq!(uint8_at(&b, 0), 5);
    match &b.data[1] {
        Some(ParseableType::Array(ls)) => assert_eq!(ls.len(), 1),
        other => panic!("unexpected {:?}", other),
    }
}

#[test]
fn if_check_runs_on_true_and_skips_on_false() {
    // the flag comes second and rewrites the earlier number when set
    let then = bfp_rs::combinators::set_builder::set(&field_at(BfpType::UInt8, 1, 0))
        .to(ParseableType::UInt8(9))
        .unwrap();
    let cond = if_(&field_at(BfpType::Bool8, 1, 1))
        .and_then(then);
    let mut flag = field(BfpType::Bool8, 1);
    flag.on_read = vec![cond];
    let mut sch = Struct::new();
    sch.append(field(BfpType::UInt8, 1));
    sch.append(flag);
    let b = parse(&sch, vec![5, 1], &[1]).unwrap();
    assert_eq!(uint8_at(&b, 0), 9);
    let b = parse(&sch, vec![5, 0], &[1]).unwrap();
    assert_eq!(uint8_at(&b, 0), 5);
}

#[test]
fn if_check_on_a_non_boolean_field_is_a_type_error() {
    let then = bfp_rs::combinators::set_builder::set(&field_at(BfpType::UInt8, 1, 1))
        .to(ParseableType::UInt8(9))
        .unwrap();
    let cond = if_(&field_at(BfpType::UInt8, 1, 0)).and_then(then);
    let mut num = field(BfpType::UInt8, 1);
    num.on_read = vec![cond];
    let mut sch = Struct::new();
    sch.append(num);
    sch.append(field(BfpType::UInt8, 1));
    let r = parse(&sch, vec![1, 5], &[1]);
    assert_eq!(r.unwrap_err(), BfpError::TypeMismatch { field: 0 });
}

#[test]
fn set_from_copies_and_set_from_len_stores_a_length() {
    // field 0: count; field 1: list sized by field 0;
    // field 2: copy of field 0; field 3: the list's length
    let resize = set_repeat(&field_at(BfpType::UInt8, 1, 1))
        .from_(&field_at(BfpType::UInt8, 1, 0));
    let mut counter = field(BfpType::UInt8, 1);
    counter.on_read = vec![resize];
    let copy_back = bfp_rs::combinators::set_builder::set(&field_at(BfpType::UInt8, 1, 2))
        .from_(&field_at(BfpType::UInt8, 1, 0));
    let store_len = bfp_rs::combinators::set_builder::set(&field_at(BfpType::UInt8, 1, 3))
        .from_len(&field_at(BfpType::UInt8, 1, 1));
    let mut last = field(BfpType::UInt8, 1);
    last.on_read = vec![copy_back, store_len];
    let mut sch = Struct::new();
    sch.append(counter);
    sch.append(field(BfpType::UInt8, 1));
    sch.append(field(BfpType::UInt8, 1));
    sch.append(last);
    let b = parse(&sch, vec![2, 10, 20, 0, 0], &[1]).unwrap();
    assert_eq!(uint8_at(&b, 2), 2);
    assert_eq!(uint8_at(&b, 3), 2);
}

#[test]
fn comparing_a_list_against_a_scalar_is_a_type_error() {
    let then = bfp_rs::combinators::set_builder::set(&field_at(BfpType::UInt8, 1, 0))
        .to(ParseableType::UInt8(1))
        .unwrap();
    let cond = if_(&field_at(BfpType::UInt8, 2, 1))
        .eq(Operand::Field(0))
        .unwrap()
        .and_then(then);
    let mut list_field = field(BfpType::UInt8, 2);
    list_field.on_read = vec![cond];
    let mut sch = Struct::new();
    sch.append(field(BfpType::UInt8, 1));
    sch.append(list_field);
    let r = parse(&sch, vec![1, 2, 3], &[1]);
    assert_eq!(r.unwrap_err(), BfpError::TypeMismatch { field: 1 });
}

#[test]
fn comparing_against_a_constant_picks_the_branch() {
    // when the number read is below ten, overwrite it with zero
    let then = bfp_rs::combinators::set_builder::set(&field_at(BfpType::UInt8, 1, 0))
        .to(ParseableType::UInt8(0))
        .unwrap();
    let cond = if_(&field_at(BfpType::UInt8, 1, 0))
        .lt(Operand::Lit(ParseableType::UInt8(10)))
        .unwrap()
        .and_then(then);
    let mut num = field(BfpType::UInt8, 1);
    num.on_read = vec![cond];
    let mut sch = Struct::new();
    sch.append(num);
    let b = parse(&sch, vec![5], &[1]).unwrap();
    assert_eq!(uint8_at(&b, 0), 0);
    let b = parse(&sch, vec![55], &[1]).unwrap();
    assert_eq!(uint8_at(&b, 0), 55);
}

#[test]
fn comparing_a_list_length_against_another_field() {
    // field 0: expected count; field 1: two-element list; field 2: flagged
    // with one when the lengths agree
    let then = bfp_rs::combinators::set_builder::set(&field_at(BfpType::UInt8, 1, 2))
        .to(ParseableType::UInt8(1))
        .unwrap();
    let cond = if_len(&field_at(BfpType::UInt8, 2, 1))
        .eq(Operand::Field(0))
        .unwrap()
        .and_then(then);
    let mut last = field(BfpType::UInt8, 1);
    last.on_read = vec![cond];
    let mut sch = Struct::new();
    sch.append(field(BfpType::UInt8, 1));
    sch.append(field(BfpType::UInt8, 2));
    sch.append(last);
    let b = parse(&sch, vec![2, 10, 20, 0], &[1]).unwrap();
    assert_eq!(uint8_at(&b, 2), 1);
    let b = parse(&sch, vec![9, 10, 20, 0], &[1]).unwrap();
    assert_eq!(uint8_at(&b, 2), 0);
}
