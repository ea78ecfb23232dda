//! Password-based backup of a field element: blinding, symmetric encryption
//! under a secret, and recovery.
use crate::field::{
    domain_separator, field_div, field_mul, hash_psd2, is_quotient, le_value, modulus, psd2_hash,
    quotient, random_field, FieldElement,
};
use indexmap::IndexMap;
use once_cell::sync::OnceCell;
use snarkvm::console::network::Testnet3;
use snarkvm::console::prelude::{FromBytes, ToBytes};
use snarkvm::console::program::{Ciphertext, Identifier, Literal, Plaintext};
use snarkvm::console::types::Field;
use std::str::FromStr;
use vstd::prelude::*;
use vstd::string::StringSliceAdditionalSpecFns;

verus! {

/// Why a backup could not be made or read.
#[derive(Clone, Copy, Debug, PartialEq, Eq, Structural)]
pub enum CryptoError {
    /// The blinding factor could not be hashed.
    HashFailed,
    /// The pair of key and nonce could not be encrypted.
    EncryptionFailed,
    /// The ciphertext does not decrypt to a plaintext under the secret.
    DecryptionFailed,
    /// The plaintext has no member of the name asked for.
    MemberMissing,
    /// The member asked for is no literal.
    ExpectedLiteral,
    /// The member asked for is a literal, but no field element.
    WrongLiteralType,
    /// The blinding factor is zero, so nothing can be divided by it.
    ZeroBlinding,
    /// The seed or the text gives no private key.
    InvalidKey,
    /// The message could not be signed.
    SigningFailed,
}

impl CryptoError {
    /// The error in words.
    pub fn message(&self) -> (text: &'static str)
        ensures
            text@ == (match self {
                CryptoError::HashFailed => "Failed to hash the blinding factor"@,
                CryptoError::EncryptionFailed => "Failed to encrypt the key"@,
                CryptoError::DecryptionFailed => "Failed to decrypt the ciphertext"@,
                CryptoError::MemberMissing => "Failed to locate the member in the plaintext"@,
                CryptoError::ExpectedLiteral => "Expected literal"@,
                CryptoError::WrongLiteralType => "Wrong literal type"@,
                CryptoError::ZeroBlinding => "The blinding factor is zero"@,
                CryptoError::InvalidKey => "Invalid account private key"@,
                CryptoError::SigningFailed => "Failed to sign the message"@,
            }),
    {
        match self {
            CryptoError::HashFailed => "Failed to hash the blinding factor",
            CryptoError::EncryptionFailed => "Failed to encrypt the key",
            CryptoError::DecryptionFailed => "Failed to decrypt the ciphertext",
            CryptoError::MemberMissing => "Failed to locate the member in the plaintext",
            CryptoError::ExpectedLiteral => "Expected literal",
            CryptoError::WrongLiteralType => "Wrong literal type",
            CryptoError::ZeroBlinding => "The blinding factor is zero",
            CryptoError::InvalidKey => "Invalid account private key",
            CryptoError::SigningFailed => "Failed to sign the message",
        }
    }
}

/// What stands under a name in a plaintext, as far as a backup reads it.
pub enum Member {
    /// A literal field element.
    Field(FieldElement),
    /// A literal of another type.
    OtherLiteral,
    /// A struct or an array.
    NotLiteral,
    /// Nothing: no member of that name, or no struct to look in.
    Missing,
}

/// A [`Member`] with the field element as a number.
pub enum MemberValue {
    Field(nat),
    OtherLiteral,
    NotLiteral,
    Missing,
}

impl View for Member {
    type V = MemberValue;

    open spec fn view(&self) -> MemberValue {
        match self {
            Member::Field(f) => MemberValue::Field(f.value()),
            Member::OtherLiteral => MemberValue::OtherLiteral,
            Member::NotLiteral => MemberValue::NotLiteral,
            Member::Missing => MemberValue::Missing,
        }
    }
}

/// The ciphertext, in its canonical text, of the struct of two named field
/// elements under a secret, where there is one.
pub uninterp spec fn symmetric_ciphertext(
    names: (Seq<char>, Seq<char>),
    values: (nat, nat),
    secret: nat,
) -> Option<Seq<char>>;

/// The plaintext, in its canonical text, that a ciphertext decrypts to under a
/// secret, where it does.
pub uninterp spec fn symmetric_plaintext(ciphertext: Seq<char>, secret: nat) -> Option<Seq<char>>;

/// What stands under a name in a plaintext given in its canonical text.
pub uninterp spec fn plaintext_member(plaintext: Seq<char>, name: Seq<char>) -> MemberValue;

/// The field element that a text stands for as a domain separator.
pub open spec fn separator(text: &str) -> nat {
    le_value(text.spec_bytes()) % modulus()
}

/// The field element under `name` in a plaintext, or why there is none.
pub open spec fn extracted(plaintext: Seq<char>, name: Seq<char>) -> Result<nat, CryptoError> {
    match plaintext_member(plaintext, name) {
        MemberValue::Field(v) => Ok(v),
        MemberValue::OtherLiteral => Err(CryptoError::WrongLiteralType),
        MemberValue::NotLiteral => Err(CryptoError::ExpectedLiteral),
        MemberValue::Missing => Err(CryptoError::MemberMissing),
    }
}

/// The backup of `field` under a secret and a domain, made with `nonce`: the
/// field is multiplied by the hash of domain, nonce and secret, and the product
/// is encrypted together with the nonce under the secret.
pub open spec fn encrypted(field: nat, secret: nat, domain: nat, nonce: nat) -> Result<
    Seq<char>,
    CryptoError,
> {
    match psd2_hash(domain, nonce, secret) {
        None => Err(CryptoError::HashFailed),
        Some(blinding) => match symmetric_ciphertext(
            ("key"@, "nonce"@),
            ((blinding * field) % modulus(), nonce),
            secret,
        ) {
            None => Err(CryptoError::EncryptionFailed),
            Some(ciphertext) => Ok(ciphertext),
        },
    }
}

/// The field element that a backup holds under a secret and a domain: the
/// decrypted key divided by the hash of domain, decrypted nonce and secret.
pub open spec fn decrypted(ciphertext: Seq<char>, secret: nat, domain: nat) -> Result<
    nat,
    CryptoError,
> {
    match symmetric_plaintext(ciphertext, secret) {
        None => Err(CryptoError::DecryptionFailed),
        Some(plaintext) => match extracted(plaintext, "key"@) {
            Err(e) => Err(e),
            Ok(key) => match extracted(plaintext, "nonce"@) {
                Err(e) => Err(e),
                Ok(nonce) => match psd2_hash(domain, nonce, secret) {
                    None => Err(CryptoError::HashFailed),
                    Some(blinding) => if blinding == 0 {
                        Err(CryptoError::ZeroBlinding)
                    } else {
                        Ok(quotient(key, blinding))
                    },
                },
            },
        },
    }
}

/// What reading back a backup made with `nonce` gives: the field, unless the
/// blinding factor was zero.
pub open spec fn recovered(field: nat, secret: nat, domain: nat, nonce: nat) -> Result<
    nat,
    CryptoError,
> {
    if psd2_hash(domain, nonce, secret) == Some(0nat) {
        Err(CryptoError::ZeroBlinding)
    } else {
        Ok(field)
    }
}

/// Encrypts the struct of two named field elements under a secret.
///
/// Trusted: builds `Plaintext::Struct` from the two members and calls
/// `Plaintext::encrypt_symmetric`; the ciphertext is a function of names,
/// values and secret. `Ciphertext::decrypt_symmetric` under the same secret
/// subtracts the randomizers that encryption added, so it gives the struct
/// back, and `Plaintext::find` then finds each member under its name (the
/// second one where the names are equal).
#[verifier::external_body]
fn encrypt_members(
    first: (&str, &FieldElement),
    second: (&str, &FieldElement),
    secret: &FieldElement,
) -> (ciphertext: Option<String>)
    requires
        first.1.wf(),
        second.1.wf(),
        secret.wf(),
    ensures
        ciphertext matches Some(c) ==> symmetric_ciphertext(
            (first.0@, second.0@),
            (first.1.value(), second.1.value()),
            secret.value(),
        ) == Some(c@),
        ciphertext is None ==> symmetric_ciphertext(
            (first.0@, second.0@),
            (first.1.value(), second.1.value()),
            secret.value(),
        ) is None,
        ciphertext matches Some(c) ==> (symmetric_plaintext(c@, secret.value()) matches Some(p)
            && plaintext_member(p, second.0@) == MemberValue::Field(second.1.value()) && (first.0@
            != second.0@ ==> plaintext_member(p, first.0@) == MemberValue::Field(
            first.1.value(),
        ))),
{
    let a = Literal::Field(Field::<Testnet3>::from_bytes_le(&first.1.bytes).unwrap());
    let b = Literal::Field(Field::<Testnet3>::from_bytes_le(&second.1.bytes).unwrap());
    let key = Field::<Testnet3>::from_bytes_le(&secret.bytes).unwrap();
    let members = IndexMap::from_iter(vec![
        (Identifier::from_str(first.0).ok()?, Plaintext::from(a)),
        (Identifier::from_str(second.0).ok()?, Plaintext::from(b)),
    ]);
    let sealed = Plaintext::<Testnet3>::Struct(members, OnceCell::new()).encrypt_symmetric(key);
    sealed.ok().map(|c| c.to_string())
}

/// Decrypts a ciphertext, given in its canonical text, under a secret.
///
/// Trusted: calls `Ciphertext::from_str` and `Ciphertext::decrypt_symmetric`;
/// the plaintext is a function of ciphertext and secret.
#[verifier::external_body]
fn decrypt_symmetric(ciphertext: &str, secret: &FieldElement) -> (plaintext: Option<String>)
    requires
        secret.wf(),
    ensures
        plaintext matches Some(p) ==> symmetric_plaintext(ciphertext@, secret.value()) == Some(p@),
        plaintext is None ==> symmetric_plaintext(ciphertext@, secret.value()) is None,
{
    let key = Field::<Testnet3>::from_bytes_le(&secret.bytes).unwrap();
    let opened = Ciphertext::<Testnet3>::from_str(ciphertext).ok()?.decrypt_symmetric(key);
    opened.ok().map(|p| p.to_string())
}

/// Looks a member up in a plaintext given in its canonical text.
///
/// Trusted: calls `Plaintext::from_str`, `Identifier::from_str` and
/// `Plaintext::find`, and tells the variants of what was found apart; the
/// answer is a function of plaintext and name.
#[verifier::external_body]
fn find_member(plaintext: &str, name: &str) -> (member: Member)
    ensures
        member@ == plaintext_member(plaintext@, name@),
        member matches Member::Field(f) ==> f.wf(),
{
    let Ok(parsed) = Plaintext::<Testnet3>::from_str(plaintext) else { return Member::Missing };
    let Ok(identifier) = Identifier::<Testnet3>::from_str(name) else { return Member::Missing };
    match parsed.find(&[identifier]) {
        Ok(Plaintext::Literal(Literal::Field(f), _)) => {
            Member::Field(FieldElement { bytes: f.to_bytes_le().unwrap().try_into().unwrap() })
        },
        Ok(Plaintext::Literal(..)) => Member::OtherLiteral,
        Ok(_) => Member::NotLiteral,
        Err(_) => Member::Missing,
    }
}

/// The field element that a member holds, or why it holds none.
pub fn member_field(member: Member) -> (value: Result<FieldElement, CryptoError>)
    ensures
        value == (match member {
            Member::Field(f) => Ok(f),
            Member::OtherLiteral => Err(CryptoError::WrongLiteralType),
            Member::NotLiteral => Err(CryptoError::ExpectedLiteral),
            Member::Missing => Err(CryptoError::MemberMissing),
        }),
{
    match member {
        Member::Field(f) => Ok(f),
        Member::OtherLiteral => Err(CryptoError::WrongLiteralType),
        Member::NotLiteral => Err(CryptoError::ExpectedLiteral),
        Member::Missing => Err(CryptoError::MemberMissing),
    }
}

/// The field element under `name` in a plaintext, or why there is none.
pub fn extract_value(plaintext: &str, name: &str) -> (value: Result<FieldElement, CryptoError>)
    ensures
        value matches Ok(f) ==> f.wf() && extracted(plaintext@, name@) == Ok::<nat, CryptoError>(
            f.value(),
        ),
        value matches Err(e) ==> extracted(plaintext@, name@) == Err::<nat, CryptoError>(e),
{
    member_field(find_member(plaintext, name))
}

/// Backs `field` up under `secret` and `domain` with the given nonce.
///
/// The result is the backup that [`encrypted`] describes. Read back under the
/// same secret and domain it gives `field` again, unless the blinding factor
/// was zero.
pub fn encrypt_field_with_nonce(
    field: &FieldElement,
    secret: &str,
    domain: &str,
    nonce: &FieldElement,
) -> (ciphertext: Result<String, CryptoError>)
    requires
        field.wf(),
        nonce.wf(),
    ensures
        ciphertext matches Ok(c) ==> encrypted(
            field.value(),
            separator(secret),
            separator(domain),
            nonce.value(),
        ) == Ok::<Seq<char>, CryptoError>(c@),
        ciphertext matches Err(e) ==> encrypted(
            field.value(),
            separator(secret),
            separator(domain),
            nonce.value(),
        ) == Err::<Seq<char>, CryptoError>(e),
        ciphertext matches Ok(c) ==> decrypted(c@, separator(secret), separator(domain))
            == recovered(field.value(), separator(secret), separator(domain), nonce.value()),
{
    let domain_field = domain_separator(domain);
    let secret_field = domain_separator(secret);
    let blinding = match hash_psd2(&domain_field, nonce, &secret_field) {
        Some(b) => b,
        None => { return Err(CryptoError::HashFailed); },
    };
    let key = field_mul(&blinding, field);
    match encrypt_members(("key", &key), ("nonce", nonce), &secret_field) {
        None => Err(CryptoError::EncryptionFailed),
        Some(c) => {
            proof {
                lemma_names_differ();
                let f = field.value();
                let b = blinding.value();
                if b != 0 {
                    assert(f * b == b * f) by (nonlinear_arith);
                    assert(is_quotient(f, key.value(), b));
                    assert(quotient(key.value(), b) == f);
                }
            }
            Ok(c)
        },
    }
}

/// Backs `field` up under `secret` and `domain` with a fresh random nonce, so
/// that two backups of one field differ.
///
/// Whatever nonce was drawn, the backup reads back as `field` under the same
/// secret and domain, unless the blinding factor was zero.
pub fn encrypt_field(field: &FieldElement, secret: &str, domain: &str) -> (ciphertext: Result<
    String,
    CryptoError,
>)
    requires
        field.wf(),
    ensures
        ciphertext matches Ok(c) ==> exists|nonce: nat|
            nonce < modulus() && #[trigger] encrypted(
                field.value(),
                separator(secret),
                separator(domain),
                nonce,
            ) == Ok::<Seq<char>, CryptoError>(c@) && decrypted(
                c@,
                separator(secret),
                separator(domain),
            ) == recovered(field.value(), separator(secret), separator(domain), nonce),
        ciphertext matches Err(e) ==> e == CryptoError::HashFailed || e
            == CryptoError::EncryptionFailed,
{
    let nonce = random_field();
    let ciphertext = encrypt_field_with_nonce(field, secret, domain, &nonce);
    proof {
        if ciphertext is Ok {
            assert(encrypted(field.value(), separator(secret), separator(domain), nonce.value())
                == Ok::<Seq<char>, CryptoError>(ciphertext->Ok_0@));
        }
    }
    ciphertext
}

/// Reads a backup under `secret` and `domain`: the field element that
/// [`decrypted`] describes, or the reason why there is none.
pub fn decrypt_field(ciphertext: &str, secret: &str, domain: &str) -> (field: Result<
    FieldElement,
    CryptoError,
>)
    ensures
        field matches Ok(f) ==> f.wf() && decrypted(
            ciphertext@,
            separator(secret),
            separator(domain),
        ) == Ok::<nat, CryptoError>(f.value()),
        field matches Err(e) ==> decrypted(ciphertext@, separator(secret), separator(domain))
            == Err::<nat, CryptoError>(e),
{
    let domain_field = domain_separator(domain);
    let secret_field = domain_separator(secret);
    let plaintext = match decrypt_symmetric(ciphertext, &secret_field) {
        Some(p) => p,
        None => { return Err(CryptoError::DecryptionFailed); },
    };
    let key = match extract_value(plaintext.as_str(), "key") {
        Ok(k) => k,
        Err(e) => { return Err(e); },
    };
    let nonce = match extract_value(plaintext.as_str(), "nonce") {
        Ok(n) => n,
        Err(e) => { return Err(e); },
    };
    let blinding = match hash_psd2(&domain_field, &nonce, &secret_field) {
        Some(b) => b,
        None => { return Err(CryptoError::HashFailed); },
    };
    if blinding.is_zero() {
        return Err(CryptoError::ZeroBlinding);
    }
    Ok(field_div(&key, &blinding))
}

/// The two member names of a backup's plaintext are different texts.
proof fn lemma_names_differ()
    ensures
        "key"@ != "nonce"@,
{
    reveal_strlit("key");
    reveal_strlit("nonce");
    assert("key"@.len() == 3);
    assert("nonce"@.len() == 5);
}

} // verus!
