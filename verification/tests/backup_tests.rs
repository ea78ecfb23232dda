use aleo_agent::backup::{
    decrypt_field, encrypt_field, encrypt_field_with_nonce, extract_value, member_field,
    CryptoError, Member,
};
use aleo_agent::field::FieldElement;
use snarkvm::console::network::{Network, Testnet3};
use snarkvm::console::prelude::{FromBytes, ToBytes};
use snarkvm::console::program::{Ciphertext, Identifier, Literal, Plaintext};
use snarkvm::console::types::Field;
use std::str::FromStr;

fn inside(field: Field<Testnet3>) -> FieldElement {
    FieldElement::from_bytes_le(field.to_bytes_le().unwrap().try_into().unwrap()).unwrap()
}

fn outside(element: &FieldElement) -> Field<Testnet3> {
    Field::from_bytes_le(&element.to_bytes_le()).unwrap()
}

fn field(text: &str) -> FieldElement {
    inside(Field::from_str(text).unwrap())
}

fn member_of(plaintext: &Plaintext<Testnet3>, name: &str) -> Field<Testnet3> {
    match plaintext.find(&[Identifier::from_str(name).unwrap()]).unwrap() {
        Plaintext::Literal(Literal::Field(value), _) => value,
        _ => panic!("no field under {name}"),
    }
}

#[test]
fn a_backup_reads_back_as_the_field() {
    let secret_field = field("123456789field");
    let ciphertext = encrypt_field(&secret_field, "mypassword", "private_key").unwrap();
    let recovered = decrypt_field(&ciphertext, "mypassword", "private_key").unwrap();
    assert_eq!(recovered.to_bytes_le(), secret_field.to_bytes_le());
}

#[test]
fn a_backup_of_zero_reads_back_as_zero() {
    let zero = field("0field");
    let ciphertext = encrypt_field(&zero, "s", "d").unwrap();
    let recovered = decrypt_field(&ciphertext, "s", "d").unwrap();
    assert!(recovered.is_zero());
}

#[test]
fn a_backup_of_the_largest_field_reads_back() {
    let largest = field("-1field");
    let ciphertext = encrypt_field(&largest, "", "").unwrap();
    let recovered = decrypt_field(&ciphertext, "", "").unwrap();
    assert_eq!(recovered.to_bytes_le(), largest.to_bytes_le());
}

#[test]
fn another_secret_does_not_read_the_field_back() {
    let secret_field = field("123456789field");
    let ciphertext = encrypt_field(&secret_field, "secret one", "private_key").unwrap();
    match decrypt_field(&ciphertext, "secret two", "private_key") {
        Ok(recovered) => assert_ne!(recovered.to_bytes_le(), secret_field.to_bytes_le()),
        Err(_) => {}
    }
}

#[test]
fn another_domain_does_not_read_the_field_back() {
    let secret_field = field("123456789field");
    let ciphertext = encrypt_field(&secret_field, "secret", "private_key").unwrap();
    match decrypt_field(&ciphertext, "secret", "view_key") {
        Ok(recovered) => assert_ne!(recovered.to_bytes_le(), secret_field.to_bytes_le()),
        Err(_) => {}
    }
}

#[test]
fn two_backups_of_one_field_differ() {
    let secret_field = field("42field");
    let first = encrypt_field(&secret_field, "secret", "private_key").unwrap();
    let second = encrypt_field(&secret_field, "secret", "private_key").unwrap();
    assert_ne!(first, second);
}

#[test]
fn one_nonce_gives_one_backup() {
    let secret_field = field("42field");
    let nonce = field("7field");
    let first = encrypt_field_with_nonce(&secret_field, "secret", "private_key", &nonce).unwrap();
    let second = encrypt_field_with_nonce(&secret_field, "secret", "private_key", &nonce).unwrap();
    assert_eq!(first, second);
    let other = encrypt_field_with_nonce(&secret_field, "secret", "private_key", &field("8field"))
        .unwrap();
    assert_ne!(first, other);
}

#[test]
fn a_backup_holds_the_blinded_field_and_the_nonce() {
    let secret_field = field("42field");
    let nonce = field("7field");
    let text = encrypt_field_with_nonce(&secret_field, "secret", "private_key", &nonce).unwrap();

    let secret = Field::<Testnet3>::new_domain_separator("secret");
    let domain = Field::<Testnet3>::new_domain_separator("private_key");
    let plaintext = Ciphertext::<Testnet3>::from_str(&text).unwrap().decrypt_symmetric(secret).unwrap();
    let blinding = Testnet3::hash_psd2(&[domain, outside(&nonce), secret]).unwrap();
    assert_eq!(member_of(&plaintext, "nonce"), outside(&nonce));
    assert_eq!(member_of(&plaintext, "key"), blinding * outside(&secret_field));
    assert_ne!(member_of(&plaintext, "key"), outside(&secret_field));
}

#[test]
fn a_backup_made_by_the_network_library_reads_back() {
    let secret = Field::<Testnet3>::new_domain_separator("pass phrase");
    let domain = Field::<Testnet3>::new_domain_separator("private_key");
    let nonce = Field::<Testnet3>::from_str("99field").unwrap();
    let seed = Field::<Testnet3>::from_str("5555field").unwrap();
    let blinding = Testnet3::hash_psd2(&[domain, nonce, secret]).unwrap();
    let text = format!("{{ key: {}, nonce: {} }}", blinding * seed, nonce);
    let ciphertext = Plaintext::<Testnet3>::from_str(&text).unwrap().encrypt_symmetric(secret).unwrap();
    let recovered = decrypt_field(&ciphertext.to_string(), "pass phrase", "private_key").unwrap();
    assert_eq!(outside(&recovered), seed);
}

#[test]
fn what_is_no_ciphertext_does_not_decrypt() {
    assert_eq!(
        decrypt_field("not a ciphertext", "secret", "private_key").unwrap_err(),
        CryptoError::DecryptionFailed
    );
    assert_eq!(decrypt_field("", "secret", "private_key").unwrap_err(), CryptoError::DecryptionFailed);
}

#[test]
fn a_ciphertext_without_key_is_refused() {
    let secret = Field::<Testnet3>::new_domain_separator("secret");
    let ciphertext = Plaintext::<Testnet3>::from_str("{ other: 1field, nonce: 2field }")
        .unwrap()
        .encrypt_symmetric(secret)
        .unwrap();
    assert_eq!(
        decrypt_field(&ciphertext.to_string(), "secret", "private_key").unwrap_err(),
        CryptoError::MemberMissing
    );
}

#[test]
fn a_ciphertext_with_a_key_of_another_type_is_refused() {
    let secret = Field::<Testnet3>::new_domain_separator("secret");
    let ciphertext = Plaintext::<Testnet3>::from_str("{ key: 1u64, nonce: 2field }")
        .unwrap()
        .encrypt_symmetric(secret)
        .unwrap();
    assert_eq!(
        decrypt_field(&ciphertext.to_string(), "secret", "private_key").unwrap_err(),
        CryptoError::WrongLiteralType
    );
}

#[test]
fn extract_value_finds_a_field() {
    let found = extract_value("{ key: 5field, nonce: 6field }", "nonce").unwrap();
    assert_eq!(found.to_bytes_le(), field("6field").to_bytes_le());
    let found = extract_value("{ key: 5field, nonce: 6field }", "key").unwrap();
    assert_eq!(found.to_bytes_le(), field("5field").to_bytes_le());
}

#[test]
fn extract_value_says_what_is_wrong() {
    assert_eq!(
        extract_value("{ key: 5u8, nonce: 6field }", "key").unwrap_err(),
        CryptoError::WrongLiteralType
    );
    assert_eq!(
        extract_value("{ key: { inner: 5field }, nonce: 6field }", "key").unwrap_err(),
        CryptoError::ExpectedLiteral
    );
    assert_eq!(
        extract_value("{ key: 5field, nonce: 6field }", "absent").unwrap_err(),
        CryptoError::MemberMissing
    );
    assert_eq!(extract_value("5field", "key").unwrap_err(), CryptoError::MemberMissing);
    assert_eq!(extract_value("no plaintext", "key").unwrap_err(), CryptoError::MemberMissing);
}

#[test]
fn member_field_maps_each_member() {
    assert_eq!(
        member_field(Member::Field(field("3field"))).unwrap().to_bytes_le(),
        field("3field").to_bytes_le()
    );
    assert_eq!(member_field(Member::OtherLiteral).unwrap_err(), CryptoError::WrongLiteralType);
    assert_eq!(member_field(Member::NotLiteral).unwrap_err(), CryptoError::ExpectedLiteral);
    assert_eq!(member_field(Member::Missing).unwrap_err(), CryptoError::MemberMissing);
}

#[test]
fn secrets_that_stand_for_one_number_open_the_same_backup() {
    // A secret is read as a little-endian number, so a zero byte at its end changes nothing.
    let secret_field = field("77field");
    let ciphertext = encrypt_field(&secret_field, "a", "private_key").unwrap();
    let recovered = decrypt_field(&ciphertext, "a\u{0}", "private_key").unwrap();
    assert_eq!(recovered.to_bytes_le(), secret_field.to_bytes_le());
    match decrypt_field(&ciphertext, "b", "private_key") {
        Ok(other) => assert_ne!(other.to_bytes_le(), secret_field.to_bytes_le()),
        Err(_) => {}
    }
}

#[test]
fn crypto_errors_say_what_is_wrong() {
    assert_eq!(CryptoError::WrongLiteralType.message(), "Wrong literal type");
    assert_eq!(CryptoError::ExpectedLiteral.message(), "Expected literal");
}
