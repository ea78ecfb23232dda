//! Accounts: a private key with the view key and the address derived from it.
use crate::backup::{decrypt_field, decrypted, encrypt_field, encrypted, recovered, separator, CryptoError};
use crate::field::{modulus, seeded_field, seeded_value, FieldElement};
use rand_chacha::rand_core::SeedableRng;
use rand_chacha::ChaChaRng;
use snarkvm::console::account::{Address, PrivateKey, Signature, ViewKey};
use snarkvm::console::network::Testnet3;
use snarkvm::console::prelude::{FromBytes, ToBytes, Uniform};
use snarkvm::console::types::Field;
use std::str::FromStr;
use vstd::prelude::*;

verus! {

/// The canonical texts of the private key with the given seed, of its view key
/// and of its address, where the seed gives a private key.
pub uninterp spec fn account_keys(seed: nat) -> Option<(Seq<char>, Seq<char>, Seq<char>)>;

/// The seed of the private key that a text stands for, where it stands for one.
pub uninterp spec fn key_seed(text: Seq<char>) -> Option<nat>;

/// Whether a signature, given in its canonical text, is one of the holder of
/// an address on a message.
pub uninterp spec fn signature_accepted(
    address: Seq<char>,
    message: Seq<u8>,
    signature: Seq<char>,
) -> bool;

/// The domain under which a private key is backed up.
pub open spec fn backup_domain() -> nat {
    separator("private_key")
}

/// An account as plain values.
pub struct AccountView {
    pub seed: nat,
    pub private_key: Seq<char>,
    pub view_key: Seq<char>,
    pub address: Seq<char>,
}

/// The account that a seed gives, or `InvalidKey` where it gives none.
pub open spec fn account_of(seed: nat) -> Result<AccountView, CryptoError> {
    match account_keys(seed) {
        Some(keys) => Ok(
            AccountView { seed, private_key: keys.0, view_key: keys.1, address: keys.2 },
        ),
        None => Err(CryptoError::InvalidKey),
    }
}

/// Whether the key texts of an account are those of its seed.
pub open spec fn valid_account(account: AccountView) -> bool {
    &&& account.seed < modulus()
    &&& account_of(account.seed) == Ok::<AccountView, CryptoError>(account)
}

/// A private key, held by its seed and its canonical text, with the view key
/// and the address that belong to it.
#[derive(Debug)]
pub struct Account {
    seed: FieldElement,
    private_key: String,
    view_key: String,
    address: String,
}

impl View for Account {
    type V = AccountView;

    closed spec fn view(&self) -> AccountView {
        AccountView {
            seed: self.seed.value(),
            private_key: self.private_key@,
            view_key: self.view_key@,
            address: self.address@,
        }
    }
}

/// Derives the texts of private key, view key and address from a seed.
///
/// Trusted: calls `PrivateKey::try_from` on the seed and `ViewKey::try_from`
/// and `Address::try_from` on the key; all three are functions of the seed.
#[verifier::external_body]
fn derive_keys(seed: &FieldElement) -> (keys: Option<(String, String, String)>)
    requires
        seed.wf(),
    ensures
        keys matches Some(k) ==> account_keys(seed.value()) == Some((k.0@, k.1@, k.2@)),
        keys is None ==> account_keys(seed.value()) is None,
{
    let field = Field::<Testnet3>::from_bytes_le(&seed.bytes).unwrap();
    let key = PrivateKey::<Testnet3>::try_from(field).ok()?;
    let view_key = ViewKey::try_from(&key).ok()?;
    let address = Address::try_from(&key).ok()?;
    Some((key.to_string(), view_key.to_string(), address.to_string()))
}

/// Reads the seed out of a private key's text.
///
/// Trusted: calls `PrivateKey::from_str` and `PrivateKey::seed`; the seed is a
/// function of the text.
#[verifier::external_body]
fn parse_seed(text: &str) -> (seed: Option<FieldElement>)
    ensures
        seed matches Some(s) ==> s.wf() && key_seed(text@) == Some(s.value()),
        seed is None ==> key_seed(text@) is None,
{
    let key = PrivateKey::<Testnet3>::from_str(text).ok()?;
    Some(FieldElement { bytes: key.seed().to_bytes_le().unwrap().try_into().unwrap() })
}

/// Signs a message with the private key of a seed.
///
/// Trusted: calls `PrivateKey::try_from` and `PrivateKey::sign_bytes` with a
/// ChaCha generator seeded from the system's entropy. Which signature comes
/// out is open; one that comes out is accepted by `Signature::verify_bytes`
/// for the address of the seed's private key.
#[verifier::external_body]
fn sign_bytes(seed: &FieldElement, message: &[u8]) -> (signature: Option<String>)
    requires
        seed.wf(),
    ensures
        signature matches Some(s) ==> forall|keys: (Seq<char>, Seq<char>, Seq<char>)|
            account_keys(seed.value()) == Some(keys) ==> #[trigger] signature_accepted(
                keys.2,
                message@,
                s@,
            ),
{
    let field = Field::<Testnet3>::from_bytes_le(&seed.bytes).unwrap();
    let key = PrivateKey::<Testnet3>::try_from(field).ok()?;
    key.sign_bytes(message, &mut ChaChaRng::from_entropy()).ok().map(|s| s.to_string())
}

/// A field element drawn from the system's entropy, to seed a private key.
///
/// Trusted: calls `ChaChaRng::from_entropy` and `Uniform::rand`; nothing is
/// claimed of the element but that it is one.
#[verifier::external_body]
fn entropy_field() -> (element: FieldElement)
    ensures
        element.wf(),
{
    let drawn: Field<Testnet3> = Uniform::rand(&mut ChaChaRng::from_entropy());
    FieldElement { bytes: drawn.to_bytes_le().unwrap().try_into().unwrap() }
}

/// Checks a signature on a message against an address.
///
/// Trusted: calls `Address::from_str`, `Signature::from_str` and
/// `Signature::verify_bytes`; a text that is no address or no signature is
/// not accepted.
#[verifier::external_body]
fn verify_bytes(address: &str, message: &[u8], signature: &str) -> (accepted: bool)
    ensures
        accepted == signature_accepted(address@, message@, signature@),
{
    let Ok(holder) = Address::<Testnet3>::from_str(address) else { return false };
    let Ok(parsed) = Signature::<Testnet3>::from_str(signature) else { return false };
    parsed.verify_bytes(&holder, message)
}

impl Account {
    /// An account is well formed when its key texts are those of its seed.
    pub open spec fn wf(&self) -> bool {
        valid_account(self@)
    }

    /// The seed of the account's private key.
    pub closed spec fn spec_seed(&self) -> FieldElement {
        self.seed
    }

    /// The account of the private key with the given seed.
    pub fn from_field(seed: FieldElement) -> (account: Result<Account, CryptoError>)
        requires
            seed.wf(),
        ensures
            account matches Ok(a) ==> a.wf() && a.spec_seed() == seed && account_of(seed.value())
                == Ok::<AccountView, CryptoError>(a@),
            account matches Err(e) ==> account_of(seed.value()) == Err::<AccountView, CryptoError>(
                e,
            ),
    {
        match derive_keys(&seed) {
            Some((private_key, view_key, address)) => Ok(
                Account { seed, private_key, view_key, address },
            ),
            None => Err(CryptoError::InvalidKey),
        }
    }

    /// A new account with a private key drawn at random.
    pub fn new() -> (account: Result<Account, CryptoError>)
        ensures
            account matches Ok(a) ==> a.wf(),
            account matches Err(e) ==> e == CryptoError::InvalidKey,
    {
        Account::from_field(entropy_field())
    }

    /// The account whose private key a generator seeded with `seed` draws: the
    /// same account for the same seed, every time.
    pub fn from_seed(seed: u64) -> (account: Result<Account, CryptoError>)
        ensures
            account matches Ok(a) ==> a.wf() && account_of(seeded_value(seed)) == Ok::<
                AccountView,
                CryptoError,
            >(a@),
            account matches Err(e) ==> account_of(seeded_value(seed)) == Err::<
                AccountView,
                CryptoError,
            >(e),
    {
        Account::from_field(seeded_field(seed))
    }

    /// The account of a private key given in its canonical text; `InvalidKey`
    /// where the text is no private key.
    pub fn from_private_key(key: &str) -> (account: Result<Account, CryptoError>)
        ensures
            account matches Ok(a) ==> a.wf() && key_seed(key@) == Some(a@.seed),
            account is Ok <==> (key_seed(key@) matches Some(seed) && account_keys(seed) is Some),
            account matches Err(e) ==> e == CryptoError::InvalidKey,
    {
        match parse_seed(key) {
            Some(seed) => Account::from_field(seed),
            None => Err(CryptoError::InvalidKey),
        }
    }

    /// The account whose private key was backed up in `ciphertext` under
    /// `secret`: that of the seed which [`decrypted`] describes.
    pub fn from_encrypted_key(ciphertext: &str, secret: &str) -> (account: Result<
        Account,
        CryptoError,
    >)
        ensures
            account matches Ok(a) ==> a.wf() && decrypted(
                ciphertext@,
                separator(secret),
                backup_domain(),
            ) == Ok::<nat, CryptoError>(a@.seed),
            account matches Err(e) ==> match decrypted(
                ciphertext@,
                separator(secret),
                backup_domain(),
            ) {
                Ok(seed) => e == CryptoError::InvalidKey && account_keys(seed) is None,
                Err(why) => e == why,
            },
    {
        match decrypt_field(ciphertext, secret, "private_key") {
            Ok(seed) => Account::from_field(seed),
            Err(e) => Err(e),
        }
    }

    /// Backs the private key up under `secret` with a fresh random nonce.
    ///
    /// Whatever nonce was drawn, the backup holds the account's seed: read back
    /// under the same secret it gives the seed again, unless the blinding
    /// factor was zero.
    pub fn get_encrypted_key(&self, secret: &str) -> (ciphertext: Result<String, CryptoError>)
        requires
            self.wf(),
        ensures
            ciphertext matches Ok(c) ==> exists|nonce: nat|
                nonce < modulus() && #[trigger] encrypted(
                    self@.seed,
                    separator(secret),
                    backup_domain(),
                    nonce,
                ) == Ok::<Seq<char>, CryptoError>(c@) && decrypted(
                    c@,
                    separator(secret),
                    backup_domain(),
                ) == recovered(self@.seed, separator(secret), backup_domain(), nonce),
            ciphertext matches Err(e) ==> e == CryptoError::HashFailed || e
                == CryptoError::EncryptionFailed,
    {
        let ciphertext = encrypt_field(&self.seed, secret, "private_key");
        proof {
            if ciphertext is Ok {
                let c = ciphertext->Ok_0;
                let nonce = choose|nonce: nat|
                    nonce < modulus() && #[trigger] encrypted(
                        self@.seed,
                        separator(secret),
                        separator("private_key"),
                        nonce,
                    ) == Ok::<Seq<char>, CryptoError>(c@) && decrypted(
                        c@,
                        separator(secret),
                        separator("private_key"),
                    ) == recovered(self@.seed, separator(secret), separator("private_key"), nonce);
                assert(encrypted(self@.seed, separator(secret), backup_domain(), nonce) == Ok::<
                    Seq<char>,
                    CryptoError,
                >(c@));
            }
        }
        ciphertext
    }

    /// The private key in its canonical text.
    pub fn private_key(&self) -> (key: &String)
        ensures
            key@ == self@.private_key,
    {
        &self.private_key
    }

    /// The view key in its canonical text.
    pub fn view_key(&self) -> (key: &String)
        ensures
            key@ == self@.view_key,
    {
        &self.view_key
    }

    /// The address in its canonical text.
    pub fn address(&self) -> (address: &String)
        ensures
            address@ == self@.address,
    {
        &self.address
    }

    /// The seed of the private key.
    pub fn seed(&self) -> (seed: FieldElement)
        ensures
            seed == self.spec_seed(),
            seed.value() == self@.seed,
    {
        self.seed
    }

    /// Signs a message with the private key. A signature that comes out is
    /// accepted by [`Account::verify`] on the same message.
    pub fn sign(&self, msg: &[u8]) -> (signature: Result<String, CryptoError>)
        requires
            self.wf(),
        ensures
            signature matches Ok(s) ==> signature_accepted(self@.address, msg@, s@),
            signature matches Err(e) ==> e == CryptoError::SigningFailed,
    {
        match sign_bytes(&self.seed, msg) {
            Some(s) => {
                assert(account_keys(self@.seed) == Some(
                    (self@.private_key, self@.view_key, self@.address),
                ));
                Ok(s)
            },
            None => Err(CryptoError::SigningFailed),
        }
    }

    /// Whether a signature is one of this account on a message.
    pub fn verify(&self, msg: &[u8], signature: &str) -> (accepted: bool)
        ensures
            accepted == signature_accepted(self@.address, msg@, signature@),
    {
        verify_bytes(self.address.as_str(), msg, signature)
    }
}

impl Clone for Account {
    fn clone(&self) -> (copy: Account)
        ensures
            copy@ == self@,
            copy.spec_seed() == self.spec_seed(),
    {
        Account {
            seed: self.seed,
            private_key: self.private_key.clone(),
            view_key: self.view_key.clone(),
            address: self.address.clone(),
        }
    }
}

} // verus!
