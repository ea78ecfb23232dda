//! Records as they cross the crate's boundary: canonical texts, with the
//! checks and derivations that the network defines on them.
use crate::account::Account;
use crate::field::FieldElement;
use snarkvm::console::account::{PrivateKey, ViewKey};
use snarkvm::console::network::Testnet3;
use snarkvm::console::prelude::{FromBytes, ToBytes};
use snarkvm::console::program::{
    Ciphertext, Entry, Identifier, Literal, Owner, Plaintext, Record,
};
use snarkvm::console::types::Field;
use std::str::FromStr;
use vstd::prelude::*;

verus! {

/// How a record in its encrypted text holds its owner.
#[derive(Clone, Copy, Debug, PartialEq, Eq, Structural)]
pub enum OwnerEntry {
    /// The text is no record.
    Unreadable,
    /// The owner's address stands in the open.
    Public,
    /// The owner's address is encrypted, in so many field elements.
    Private { fields: usize },
}

/// How a record given in its encrypted text holds its owner.
pub uninterp spec fn owner_entry(record: Seq<char>) -> OwnerEntry;

/// Whether the owner entry of a record given in its encrypted text is the
/// address of a view key, where the entry can be checked.
pub uninterp spec fn owner_matches(record: Seq<char>, view_key: Seq<char>) -> bool;

/// Whether an owner entry can be checked against a view key: it is public,
/// or encrypted in at least one field element.
pub open spec fn owner_checkable(entry: OwnerEntry) -> bool {
    match entry {
        OwnerEntry::Unreadable => false,
        OwnerEntry::Public => true,
        OwnerEntry::Private { fields } => fields > 0,
    }
}

/// Whether the holder of a view key owns a record given in its encrypted
/// text: the owner entry can be checked, and is the view key's address.
pub open spec fn owned_by(record: Seq<char>, view_key: Seq<char>) -> bool {
    owner_checkable(owner_entry(record)) && owner_matches(record, view_key)
}

/// The serial number of the record with the given commitment under the
/// private key with the given seed, where there is one.
pub uninterp spec fn serial_number_of(seed: nat, commitment: nat) -> Option<nat>;

/// The plain text that an encrypted record decrypts to under a view key, where
/// it does.
pub uninterp spec fn record_plaintext(record: Seq<char>, view_key: Seq<char>) -> Option<Seq<char>>;

/// The amount that a record in plain text holds in a private entry of the
/// given name and of type `u64`, where it has such an entry.
pub uninterp spec fn private_u64_entry(record: Seq<char>, name: Seq<char>) -> Option<u64>;

/// The microcredits that a record in plain text holds, where it holds any.
pub open spec fn microcredits_of(record: Seq<char>) -> Option<u64> {
    private_u64_entry(record, "microcredits"@)
}

/// A record in plain text.
#[derive(Debug)]
pub struct PlaintextRecord {
    text: String,
}

impl View for PlaintextRecord {
    type V = Seq<char>;

    closed spec fn view(&self) -> Seq<char> {
        self.text@
    }
}

/// A record as the chain holds it, encrypted.
#[derive(Debug)]
pub struct CiphertextRecord {
    text: String,
}

impl View for CiphertextRecord {
    type V = Seq<char>;

    closed spec fn view(&self) -> Seq<char> {
        self.text@
    }
}

/// Why a record does not serve.
#[derive(Clone, Copy, Debug, PartialEq, Eq, Structural)]
pub enum RecordError {
    /// The record has no private entry of microcredits.
    NoMicrocredits,
    /// The record does not decrypt under the view key, or belongs to another.
    NotDecryptable,
    /// No serial number can be derived for the commitment.
    NoSerialNumber,
}

impl RecordError {
    /// The error in words.
    pub fn message(&self) -> (text: &'static str)
        ensures
            text@ == (match self {
                RecordError::NoMicrocredits => "The record provided does not contain a microcredits field"@,
                RecordError::NotDecryptable => "Failed to decrypt the record"@,
                RecordError::NoSerialNumber => "Failed to derive the serial number"@,
            }),
    {
        match self {
            RecordError::NoMicrocredits => "The record provided does not contain a microcredits field",
            RecordError::NotDecryptable => "Failed to decrypt the record",
            RecordError::NoSerialNumber => "Failed to derive the serial number",
        }
    }
}

/// Reads how a record holds its owner.
///
/// Trusted: calls `Record::from_str` and `Record::owner`, and tells the
/// owner's two variants apart; for a private owner, the number is the length
/// of its ciphertext.
#[verifier::external_body]
fn read_owner_entry(record: &str) -> (entry: OwnerEntry)
    ensures
        entry == owner_entry(record@),
{
    match Record::<Testnet3, Ciphertext<Testnet3>>::from_str(record) {
        Ok(parsed) => match parsed.owner() {
            Owner::Public(_) => OwnerEntry::Public,
            Owner::Private(sealed) => OwnerEntry::Private { fields: sealed.len() },
        },
        Err(_) => OwnerEntry::Unreadable,
    }
}

/// Checks a record's owner against a view key.
///
/// Trusted: calls `Record::from_str`, `ViewKey::from_str` and
/// `Record::is_owner`; a text that is no view key owns nothing.
/// `Record::is_owner` reads the first field element of a private owner, so
/// an owner without one is kept away from it.
#[verifier::external_body]
fn is_owner(record: &str, view_key: &str) -> (owned: bool)
    requires
        owner_checkable(owner_entry(record@)),
    ensures
        owned == owner_matches(record@, view_key@),
{
    let Ok(parsed) = Record::<Testnet3, Ciphertext<Testnet3>>::from_str(record) else {
        return false
    };
    let Ok(key) = ViewKey::<Testnet3>::from_str(view_key) else { return false };
    parsed.is_owner(&key)
}

/// Whether an owner entry can be checked against a view key.
pub fn owner_can_be_checked(entry: OwnerEntry) -> (checkable: bool)
    ensures
        checkable == owner_checkable(entry),
{
    match entry {
        OwnerEntry::Unreadable => false,
        OwnerEntry::Public => true,
        OwnerEntry::Private { fields } => fields > 0,
    }
}

/// Derives a record's serial number from a private key's seed and the
/// record's commitment.
///
/// Trusted: calls `PrivateKey::try_from` and `Record::serial_number`; the
/// serial number is a function of seed and commitment.
#[verifier::external_body]
fn serial_number(seed: &FieldElement, commitment: &FieldElement) -> (number: Option<FieldElement>)
    requires
        seed.wf(),
        commitment.wf(),
    ensures
        number matches Some(n) ==> n.wf() && serial_number_of(seed.value(), commitment.value())
            == Some(n.value()),
        number is None ==> serial_number_of(seed.value(), commitment.value()) is None,
{
    let key = PrivateKey::try_from(Field::<Testnet3>::from_bytes_le(&seed.bytes).unwrap()).ok()?;
    let tag = Field::<Testnet3>::from_bytes_le(&commitment.bytes).unwrap();
    let number = Record::<Testnet3, Plaintext<Testnet3>>::serial_number(key, tag).ok()?;
    Some(FieldElement { bytes: number.to_bytes_le().unwrap().try_into().unwrap() })
}

/// Decrypts a record under a view key.
///
/// Trusted: calls `Record::from_str`, `ViewKey::from_str` and
/// `Record::decrypt`; the plain text is a function of record and view key.
#[verifier::external_body]
fn decrypt_record(record: &str, view_key: &str) -> (plain: Option<String>)
    ensures
        plain matches Some(p) ==> record_plaintext(record@, view_key@) == Some(p@),
        plain is None ==> record_plaintext(record@, view_key@) is None,
{
    let parsed = Record::<Testnet3, Ciphertext<Testnet3>>::from_str(record).ok()?;
    let key = ViewKey::<Testnet3>::from_str(view_key).ok()?;
    parsed.decrypt(&key).ok().map(|plain| plain.to_string())
}

/// Reads an amount out of a named entry of a record in plain text.
///
/// Trusted: calls `Record::from_str`, `Identifier::from_str` and
/// `Record::find`, and takes the amount where the entry found is a private
/// literal of type `u64`.
#[verifier::external_body]
fn find_private_u64(record: &str, name: &str) -> (amount: Option<u64>)
    ensures
        amount == private_u64_entry(record@, name@),
{
    let parsed = Record::<Testnet3, Plaintext<Testnet3>>::from_str(record).ok()?;
    let name = Identifier::<Testnet3>::from_str(name).ok()?;
    match parsed.find(&[name]).ok()? {
        Entry::Private(Plaintext::Literal(Literal::U64(amount), _)) => Some(*amount),
        _ => None,
    }
}

impl PlaintextRecord {
    /// The record with the given plain text.
    pub fn new(text: String) -> (record: PlaintextRecord)
        ensures
            record@ == text@,
    {
        PlaintextRecord { text }
    }

    /// The record's text.
    pub fn text(&self) -> (text: &String)
        ensures
            text@ == self@,
    {
        &self.text
    }

    /// The microcredits that the record holds; `NoMicrocredits` where it has
    /// no private entry of them.
    pub fn microcredits(&self) -> (amount: Result<u64, RecordError>)
        ensures
            amount == credits_entry(microcredits_of(self@)),
    {
        entry_amount(find_private_u64(self.text.as_str(), "microcredits"))
    }
}

/// The amount of a record's microcredits entry, or `NoMicrocredits`.
pub open spec fn credits_entry(entry: Option<u64>) -> Result<u64, RecordError> {
    match entry {
        Some(amount) => Ok(amount),
        None => Err(RecordError::NoMicrocredits),
    }
}

/// The amount of a record's microcredits entry, or `NoMicrocredits`.
pub fn entry_amount(entry: Option<u64>) -> (amount: Result<u64, RecordError>)
    ensures
        amount == credits_entry(entry),
{
    match entry {
        Some(amount) => Ok(amount),
        None => Err(RecordError::NoMicrocredits),
    }
}

impl Clone for PlaintextRecord {
    fn clone(&self) -> (copy: PlaintextRecord)
        ensures
            copy@ == self@,
    {
        PlaintextRecord { text: self.text.clone() }
    }
}

impl CiphertextRecord {
    /// The record with the given encrypted text.
    pub fn new(text: String) -> (record: CiphertextRecord)
        ensures
            record@ == text@,
    {
        CiphertextRecord { text }
    }

    /// The record's text.
    pub fn text(&self) -> (text: &String)
        ensures
            text@ == self@,
    {
        &self.text
    }

    /// Whether the account owns the record: a check on the record's owner
    /// entry alone, without decrypting the rest.
    pub fn is_owner(&self, account: &Account) -> (owned: bool)
        ensures
            owned == owned_by(self@, account@.view_key),
    {
        owner_can_be_checked(read_owner_entry(self.text.as_str())) && is_owner(
            self.text.as_str(),
            account.view_key().as_str(),
        )
    }

    /// The record in plain text, decrypted with the account's view key.
    pub fn decrypt(&self, account: &Account) -> (plain: Result<PlaintextRecord, RecordError>)
        ensures
            plain matches Ok(p) ==> record_plaintext(self@, account@.view_key) == Some(p@),
            plain matches Err(e) ==> e == RecordError::NotDecryptable && record_plaintext(
                self@,
                account@.view_key,
            ) is None,
    {
        match decrypt_record(self.text.as_str(), account.view_key().as_str()) {
            Some(text) => Ok(PlaintextRecord { text }),
            None => Err(RecordError::NotDecryptable),
        }
    }
}

impl Clone for CiphertextRecord {
    fn clone(&self) -> (copy: CiphertextRecord)
        ensures
            copy@ == self@,
    {
        CiphertextRecord { text: self.text.clone() }
    }
}

/// The serial number that marks the record with the given commitment as spent
/// by the account.
pub fn record_serial_number(account: &Account, commitment: &FieldElement) -> (number: Result<
    FieldElement,
    RecordError,
>)
    requires
        account.wf(),
        commitment.wf(),
    ensures
        number matches Ok(n) ==> n.wf() && serial_number_of(account@.seed, commitment.value())
            == Some(n.value()),
        number matches Err(e) ==> e == RecordError::NoSerialNumber && serial_number_of(
            account@.seed,
            commitment.value(),
        ) is None,
{
    match serial_number(&account.seed(), commitment) {
        Some(n) => Ok(n),
        None => Err(RecordError::NoSerialNumber),
    }
}

} // verus!
