use wgpu_tensors::element::{Element, ElementType, Float32, UNIT_BITS, UNIT_BYTES};
use wgpu_tensors::name::names_equal;

#[test]
fn booleans_are_packed_one_per_bit() {
    assert_eq!(ElementType::Bool.num_packed(), 32);
    assert_eq!(<bool as Element>::num_packed(), 32);
    assert_eq!(UNIT_BITS, 32);
    assert_eq!(UNIT_BYTES * 8, UNIT_BITS);
}

#[test]
fn numbers_take_one_unit_each() {
    assert_eq!(ElementType::Float32.num_packed(), 1);
    assert_eq!(ElementType::Int32.num_packed(), 1);
    assert_eq!(ElementType::Uint32.num_packed(), 1);
    assert_eq!(<Float32 as Element>::num_packed(), 1);
    assert_eq!(<i32 as Element>::num_packed(), 1);
    assert_eq!(<u32 as Element>::num_packed(), 1);
}

#[test]
fn element_types_of_the_tags() {
    assert_eq!(<Float32 as Element>::element_type(), ElementType::Float32);
    assert_eq!(<i32 as Element>::element_type(), ElementType::Int32);
    assert_eq!(<u32 as Element>::element_type(), ElementType::Uint32);
    assert_eq!(<bool as Element>::element_type(), ElementType::Bool);
}

#[test]
fn booleans_are_no_numbers() {
    assert!(ElementType::Float32.is_number());
    assert!(ElementType::Int32.is_number());
    assert!(ElementType::Uint32.is_number());
    assert!(!ElementType::Bool.is_number());
}

#[test]
fn names_are_compared_as_text() {
    assert!(names_equal("result", "result"));
    assert!(names_equal("", ""));
    assert!(!names_equal("result", "operand"));
    assert!(!names_equal("result", "results"));
    assert!(!names_equal("result", "resulT"));
    assert!(!names_equal("", "a"));
    assert!(names_equal("größe", "größe"));
    assert!(!names_equal("größe", "grösse"));
}
