use aleo_agent::field::FieldElement;
use snarkvm::console::network::Testnet3;
use snarkvm::console::prelude::ToBytes;
use snarkvm::console::types::Field;
use std::str::FromStr;

const MODULUS: [u8; 32] = [
    1, 0, 0, 0, 0, 128, 17, 10, 1, 0, 0, 208, 254, 118, 170, 89, 1, 176, 55, 92, 30, 77, 180, 96,
    86, 165, 44, 154, 94, 101, 171, 18,
];

#[test]
fn zero_is_a_field_element_and_is_zero() {
    let zero = FieldElement::from_bytes_le([0u8; 32]).unwrap();
    assert!(zero.is_zero());
    assert_eq!(zero.to_bytes_le(), [0u8; 32]);
}

#[test]
fn one_is_not_zero() {
    let mut bytes = [0u8; 32];
    bytes[0] = 1;
    let one = FieldElement::from_bytes_le(bytes).unwrap();
    assert!(!one.is_zero());
    assert_eq!(one.to_bytes_le(), bytes);
}

#[test]
fn a_high_byte_alone_is_not_zero() {
    let mut bytes = [0u8; 32];
    bytes[31] = 1;
    assert!(!FieldElement::from_bytes_le(bytes).unwrap().is_zero());
}

#[test]
fn the_modulus_is_no_field_element() {
    assert!(FieldElement::from_bytes_le(MODULUS).is_none());
}

#[test]
fn the_number_below_the_modulus_is_a_field_element() {
    let mut bytes = MODULUS;
    bytes[0] = 0;
    let largest = FieldElement::from_bytes_le(bytes).unwrap();
    assert_eq!(largest.to_bytes_le(), bytes);
    let minus_one = Field::<Testnet3>::from_str("-1field").unwrap();
    assert_eq!(minus_one.to_bytes_le().unwrap(), bytes.to_vec());
}

#[test]
fn numbers_above_the_modulus_are_no_field_elements() {
    let mut bytes = MODULUS;
    bytes[0] = 2;
    assert!(FieldElement::from_bytes_le(bytes).is_none());
    assert!(FieldElement::from_bytes_le([255u8; 32]).is_none());
}

#[test]
fn bytes_are_those_of_the_network_field() {
    let field = Field::<Testnet3>::from_str("1234567890123456789012345678901234567890field").unwrap();
    let bytes: [u8; 32] = field.to_bytes_le().unwrap().try_into().unwrap();
    let element = FieldElement::from_bytes_le(bytes).unwrap();
    assert_eq!(element.to_bytes_le(), bytes);
}
