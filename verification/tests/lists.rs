use std::sync::Arc;

use bfp_rs::errors::BfpError;
use bfp_rs::types::bfp_list::BfpList;
use bfp_rs::types::bfp_type::BfpType;
use bfp_rs::types::parseable_type::ParseableType;

fn u8_list(vals: &[u8]) -> BfpList {
    let elems = vals.iter().map(|v| ParseableType::UInt8(*v)).collect();
    BfpList::new(elems, Arc::new(BfpType::UInt8))
}

fn as_u8s(ls: &BfpList) -> Vec<u8> {
    let mut out = Vec::new();
    let mut i = 0;
    while i < ls.len() {
        match ls.get(i) {
            ParseableType::UInt8(x) => out.push(*x),
            other => panic!("unexpected {:?}", other),
        }
        i += 1;
    }
    out
}

#[test]
fn append_and_set_type_check() {
    let mut ls = u8_list(&[1, 2]);
    ls.append(ParseableType::UInt8(3)).unwrap();
    assert_eq!(as_u8s(&ls), vec![1, 2, 3]);
    let r = ls.append(ParseableType::UInt16(4));
    assert!(matches!(r, Err(BfpError::TypeMismatch { .. })));
    assert_eq!(as_u8s(&ls), vec![1, 2, 3]);
    ls.set(0, ParseableType::UInt8(9)).unwrap();
    assert_eq!(as_u8s(&ls), vec![9, 2, 3]);
    assert!(ls.set(1, ParseableType::Bool(true)).is_err());
}

#[test]
fn extend_is_atomic() {
    let mut ls = u8_list(&[1]);
    ls.extend(vec![ParseableType::UInt8(2), ParseableType::UInt8(3)])
        .unwrap();
    assert_eq!(as_u8s(&ls), vec![1, 2, 3]);
    let r = ls.extend(vec![ParseableType::UInt8(4), ParseableType::Bool(false)]);
    assert!(r.is_err());
    assert_eq!(as_u8s(&ls), vec![1, 2, 3]);
}

#[test]
fn insert_counts_from_either_end_and_clamps() {
    let mut ls = u8_list(&[1, 2, 3]);
    ls.insert(1, ParseableType::UInt8(9)).unwrap();
    assert_eq!(as_u8s(&ls), vec![1, 9, 2, 3]);
    ls.insert(-1, ParseableType::UInt8(8)).unwrap();
    assert_eq!(as_u8s(&ls), vec![1, 9, 2, 8, 3]);
    ls.insert(-100, ParseableType::UInt8(7)).unwrap();
    assert_eq!(as_u8s(&ls), vec![7, 1, 9, 2, 8, 3]);
    ls.insert(100, ParseableType::UInt8(6)).unwrap();
    assert_eq!(as_u8s(&ls), vec![7, 1, 9, 2, 8, 3, 6]);
}

#[test]
fn remove_takes_the_first_match() {
    let mut ls = u8_list(&[1, 2, 1]);
    ls.remove(&ParseableType::UInt8(1)).unwrap();
    assert_eq!(as_u8s(&ls), vec![2, 1]);
    let r = ls.remove(&ParseableType::UInt8(9));
    assert!(matches!(r, Err(BfpError::ValueOutOfRange { .. })));
}

#[test]
fn pop_counts_from_either_end() {
    let mut ls = u8_list(&[1, 2, 3]);
    let v = ls.pop(-1).unwrap();
    assert!(v.equals(&ParseableType::UInt8(3)));
    let v = ls.pop(0).unwrap();
    assert!(v.equals(&ParseableType::UInt8(1)));
    assert!(ls.pop(5).is_err());
    assert_eq!(as_u8s(&ls), vec![2]);
}

#[test]
fn index_count_reverse_clear() {
    let mut ls = u8_list(&[5, 3, 5, 1]);
    assert_eq!(ls.index(&ParseableType::UInt8(5)).unwrap(), 0);
    assert_eq!(ls.index(&ParseableType::UInt8(1)).unwrap(), 3);
    assert!(ls.index(&ParseableType::UInt8(9)).is_err());
    assert_eq!(ls.count(&ParseableType::UInt8(5)), 2);
    assert_eq!(ls.count(&ParseableType::UInt8(9)), 0);
    ls.reverse();
    assert_eq!(as_u8s(&ls), vec![1, 5, 3, 5]);
    ls.clear();
    assert_eq!(ls.len(), 0);
}

#[test]
fn list_values_compare_structurally_but_have_no_order() {
    let a = ParseableType::Array(u8_list(&[1, 2]));
    let b = ParseableType::Array(u8_list(&[1, 2]));
    let c = ParseableType::Array(u8_list(&[1, 3]));
    assert!(a.equals(&b));
    assert!(!a.equals(&c));
    assert_eq!(a.cmp_value(&b), None);
    assert!(a.is_ls_of(&BfpType::UInt8));
    assert!(!a.is_ls_of(&BfpType::UInt16));
    assert!(!ParseableType::UInt8(1).is_ls_of(&BfpType::UInt8));
}

#[test]
fn duplicate_is_a_deep_equal_copy() {
    let original = ParseableType::Array(u8_list(&[1, 2, 3]));
    let copy = original.duplicate();
    assert!(copy.equals(&original));
    match (copy, original) {
        (ParseableType::Array(mut c), ParseableType::Array(o)) => {
            c.set(0, ParseableType::UInt8(9)).unwrap();
            assert_eq!(as_u8s(&o), vec![1, 2, 3]);
        },
        _ => panic!("expected arrays"),
    }
}

#[test]
fn sort_orders_and_keeps_every_element() {
    let mut ls = u8_list(&[3, 1, 2, 1]);
    ls.sort().unwrap();
    assert_eq!(as_u8s(&ls), vec![1, 1, 2, 3]);
    let mut empty = u8_list(&[]);
    empty.sort().unwrap();
    assert_eq!(empty.len(), 0);
}

#[test]
fn sort_refuses_an_unordered_element_kind() {
    let inner = bfp_rs::types::structure::Struct::new();
    let mut ls = BfpList::new(Vec::new(), Arc::new(BfpType::Struct(inner)));
    let r = ls.sort();
    assert!(matches!(r, Err(BfpError::TypeMismatch { .. })));
}

#[test]
fn sort_refuses_a_nan_comparison_and_leaves_the_list_alone() {
    let elems = vec![
        ParseableType::Float32(2.0f32.to_bits()),
        ParseableType::Float32(f32::NAN.to_bits()),
    ];
    let mut ls = BfpList::new(elems, Arc::new(BfpType::Float32));
    let r = ls.sort();
    assert!(matches!(r, Err(BfpError::TypeMismatch { .. })));
    assert_eq!(ls.len(), 2);
    assert!(ls.get(0).equals(&ParseableType::Float32(2.0f32.to_bits())));
}

#[test]
fn sort_orders_floats_by_ieee_order() {
    let elems = vec![
        ParseableType::Float32(1.5f32.to_bits()),
        ParseableType::Float32((-2.0f32).to_bits()),
        ParseableType::Float32(0.0f32.to_bits()),
    ];
    let mut ls = BfpList::new(elems, Arc::new(BfpType::Float32));
    ls.sort().unwrap();
    assert!(ls.get(0).equals(&ParseableType::Float32((-2.0f32).to_bits())));
    assert!(ls.get(1).equals(&ParseableType::Float32(0.0f32.to_bits())));
    assert!(ls.get(2).equals(&ParseableType::Float32(1.5f32.to_bits())));
}

#[test]
fn copy_is_deep_and_equal() {
    let ls = u8_list(&[4, 5]);
    let mut c = ls.copy();
    assert_eq!(as_u8s(&c), vec![4, 5]);
    c.set(0, ParseableType::UInt8(9)).unwrap();
    assert_eq!(as_u8s(&ls), vec![4, 5]);
}
