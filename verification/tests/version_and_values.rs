use bfp_rs::ordering::Ordering;
use bfp_rs::types::bfp_type::BfpType;
use bfp_rs::types::parseable_type::ParseableType;
use bfp_rs::types::py_bfp_type::PyBfpType;
use bfp_rs::types::version::Version;

fn ver(nums: &[i32]) -> Version {
    Version::new(nums.to_vec())
}

#[test]
fn version_orders_lexicographically() {
    assert_eq!(ver(&[1, 2]).cmp(&ver(&[1, 2, 1])), Ordering::Less);
    assert_eq!(ver(&[1, 2, 1]).cmp(&ver(&[1, 2])), Ordering::Greater);
    assert_eq!(ver(&[1, 2]).cmp(&ver(&[1, 2])), Ordering::Equal);
    assert_eq!(ver(&[1, 3]).cmp(&ver(&[1, 2, 9])), Ordering::Greater);
    assert_eq!(ver(&[-1]).cmp(&ver(&[0])), Ordering::Less);
    assert_eq!(ver(&[]).cmp(&ver(&[0])), Ordering::Less);
}

#[test]
fn version_le_chain_is_transitive_on_samples() {
    let a = ver(&[1]);
    let b = ver(&[1, 0]);
    let c = ver(&[2]);
    assert!(a.le(&b));
    assert!(b.le(&c));
    assert!(a.le(&c));
}

#[test]
fn value_structural_equality() {
    assert!(ParseableType::UInt8(7).equals(&ParseableType::UInt8(7)));
    assert!(!ParseableType::UInt8(7).equals(&ParseableType::UInt8(8)));
    assert!(!ParseableType::UInt8(7).equals(&ParseableType::UInt16(7)));
    assert!(ParseableType::Absent.equals(&ParseableType::Absent));
    assert!(ParseableType::Bytes(vec![1, 2]).equals(&ParseableType::Bytes(vec![1, 2])));
    assert!(!ParseableType::Bytes(vec![1, 2]).equals(&ParseableType::Bytes(vec![1])));
}

#[test]
fn float_equality_is_bitwise() {
    let nan = f32::NAN.to_bits();
    assert!(ParseableType::Float32(nan).equals(&ParseableType::Float32(nan)));
    let pz = 0.0f32.to_bits();
    let nz = (-0.0f32).to_bits();
    assert!(!ParseableType::Float32(pz).equals(&ParseableType::Float32(nz)));
}

#[test]
fn float_comparison_follows_ieee_order() {
    let b = |x: f32| ParseableType::Float32(x.to_bits());
    assert_eq!(b(1.5).cmp_value(&b(2.5)), Some(Ordering::Less));
    assert_eq!(b(-1.5).cmp_value(&b(1.5)), Some(Ordering::Less));
    assert_eq!(b(-0.0).cmp_value(&b(0.0)), Some(Ordering::Equal));
    assert_eq!(b(f32::NAN).cmp_value(&b(1.0)), None);
    assert_eq!(b(1.0).cmp_value(&b(f32::NAN)), None);
    let d = |x: f64| ParseableType::Float64(x.to_bits());
    assert_eq!(d(-3.0).cmp_value(&d(-2.0)), Some(Ordering::Less));
    assert_eq!(d(7.0).cmp_value(&d(7.0)), Some(Ordering::Equal));
}

#[test]
fn integer_and_bool_and_bytes_comparisons() {
    assert_eq!(
        ParseableType::Int8(-5).cmp_value(&ParseableType::Int8(3)),
        Some(Ordering::Less)
    );
    assert_eq!(
        ParseableType::UInt64(9).cmp_value(&ParseableType::UInt64(9)),
        Some(Ordering::Equal)
    );
    assert_eq!(
        ParseableType::Bool(false).cmp_value(&ParseableType::Bool(true)),
        Some(Ordering::Less)
    );
    assert_eq!(
        ParseableType::Bytes(vec![1, 2]).cmp_value(&ParseableType::Bytes(vec![1, 3])),
        Some(Ordering::Less)
    );
    assert_eq!(
        ParseableType::Bytes(vec![1]).cmp_value(&ParseableType::Bytes(vec![1, 0])),
        Some(Ordering::Less)
    );
    // across variants there is no defined order
    assert_eq!(
        ParseableType::UInt8(1).cmp_value(&ParseableType::UInt16(1)),
        None
    );
    assert_eq!(
        ParseableType::Absent.cmp_value(&ParseableType::Absent),
        None
    );
}

#[test]
fn conversions_to_bool_and_isize() {
    assert_eq!(ParseableType::Bool(true).to_bool(), Some(true));
    assert_eq!(ParseableType::UInt8(1).to_bool(), None);
    assert_eq!(ParseableType::UInt8(200).to_isize(), Some(200));
    assert_eq!(ParseableType::Int64(-3).to_isize(), Some(-3));
    assert_eq!(ParseableType::Bool(true).to_isize(), None);
}

#[test]
fn type_predicates_and_names() {
    assert!(BfpType::UInt8.is_ord());
    assert!(!BfpType::UInt8.is_bool());
    assert!(BfpType::Bool64.is_bool());
    assert_eq!(BfpType::UInt32.py_name(), "int");
    assert_eq!(BfpType::Float64.py_name(), "float");
    assert_eq!(BfpType::Bool8.py_name(), "bool");
    assert_eq!(BfpType::Int128.to_py_bfp_type(), PyBfpType::Int128);
    assert_eq!(BfpType::Float32.to_py_bfp_type(), PyBfpType::Float32);
}

#[test]
fn narrowing_a_count_truncates_to_the_declared_width() {
    match BfpType::UInt8.to_parseable_from_usize(300) {
        Some(ParseableType::UInt8(x)) => assert_eq!(x, 44),
        other => panic!("unexpected {:?}", other),
    }
    match BfpType::Int16.to_parseable_from_usize(5) {
        Some(ParseableType::Int16(x)) => assert_eq!(x, 5),
        other => panic!("unexpected {:?}", other),
    }
    assert!(BfpType::Float32.to_parseable_from_usize(1).is_none());
    assert!(BfpType::Bool8.to_parseable_from_usize(1).is_none());
}
