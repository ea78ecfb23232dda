//! Elements of the network's base field, held as 32 little-endian bytes.
use rand_chacha::rand_core::SeedableRng;
use rand_chacha::ChaChaRng;
use snarkvm::console::network::{Network, Testnet3};
use snarkvm::console::prelude::{FromBytes, ToBytes, Uniform};
use snarkvm::console::types::Field;
use vstd::prelude::*;
use vstd::string::StringSliceAdditionalSpecFns;

verus! {

/// The number that a little-endian byte string stands for.
pub open spec fn le_value(bytes: Seq<u8>) -> nat
    decreases bytes.len(),
{
    if bytes.len() == 0 {
        0
    } else {
        bytes[0] as nat + 256 * le_value(bytes.drop_first())
    }
}

/// The bytes of the field's order, least significant first.
pub open spec fn modulus_bytes() -> Seq<u8> {
    seq![
        1u8, 0, 0, 0, 0, 128, 17, 10, 1, 0, 0, 208, 254, 118, 170, 89, 1, 176, 55, 92, 30, 77, 180,
        96, 86, 165, 44, 154, 94, 101, 171, 18,
    ]
}

/// The order of the field, a prime of 253 bits:
/// 8444461749428370424248824938781546531375899335154063827935233455917409239041.
pub open spec fn modulus() -> nat {
    le_value(modulus_bytes())
}

/// The weight of the byte at a position of a little-endian byte string.
pub open spec fn weight(position: nat) -> nat
    decreases position,
{
    if position == 0 {
        1
    } else {
        256 * weight((position - 1) as nat)
    }
}

/// Whether `q` is a quotient of `a` by `b` in the field.
pub open spec fn is_quotient(q: nat, a: nat, b: nat) -> bool {
    q < modulus() && (q * b) % modulus() == a
}

/// The network's Poseidon hash of rate 2 on three field elements, where it
/// yields one.
pub uninterp spec fn psd2_hash(first: nat, second: nat, third: nat) -> Option<nat>;

/// The field element that a generator seeded with `seed` draws first.
pub uninterp spec fn seeded_value(seed: u64) -> nat;

/// The one quotient of `a` by `b` in the field, where `b` is not zero.
pub open spec fn quotient(a: nat, b: nat) -> nat {
    choose|q: nat| is_quotient(q, a, b)
}

/// A field element: a number below [`modulus`], as 32 little-endian bytes.
#[derive(Clone, Copy, Debug)]
pub struct FieldElement {
    pub(crate) bytes: [u8; 32],
}

impl FieldElement {
    /// The number that the element stands for.
    pub closed spec fn value(&self) -> nat {
        le_value(self.bytes@)
    }

    /// The bytes of the element, least significant first.
    pub closed spec fn spec_bytes(&self) -> Seq<u8> {
        self.bytes@
    }

    /// An element is well formed when its number is below the field's order.
    pub open spec fn wf(&self) -> bool {
        self.value() < modulus()
    }

    /// The element's bytes, least significant first.
    pub fn to_bytes_le(&self) -> (bytes: [u8; 32])
        ensures
            bytes@ == self.spec_bytes(),
            le_value(bytes@) == self.value(),
    {
        self.bytes
    }

    /// Whether the element is the field's zero.
    pub fn is_zero(&self) -> (zero: bool)
        ensures
            zero == (self.value() == 0),
    {
        let mut i: usize = 0;
        while i < 32
            invariant
                i <= 32,
                forall|j: int| 0 <= j < i ==> self.bytes@[j] == 0,
            decreases 32 - i,
        {
            if self.bytes[i] != 0 {
                proof {
                    lemma_le_value_zero(self.bytes@);
                    assert(self.bytes@[i as int] != 0);
                }
                return false;
            }
            i += 1;
        }
        proof {
            lemma_le_value_zero(self.bytes@);
        }
        true
    }

    /// The element that 32 little-endian bytes stand for, unless their number
    /// is not below the field's order.
    pub fn from_bytes_le(bytes: [u8; 32]) -> (element: Option<FieldElement>)
        ensures
            element is Some <==> le_value(bytes@) < modulus(),
            element matches Some(f) ==> f.wf() && f.spec_bytes() == bytes@ && f.value() == le_value(
                bytes@,
            ),
    {
        let mut below = false;
        let mut i: usize = 0;
        assert(bytes@.take(0) =~= Seq::<u8>::empty());
        assert(modulus_bytes().take(0) =~= Seq::<u8>::empty());
        while i < 32
            invariant
                i <= 32,
                below == (le_value(bytes@.take(i as int)) < le_value(modulus_bytes().take(i as int))),
            decreases 32 - i,
        {
            let byte = bytes[i];
            let bound = modulus_byte(i);
            proof {
                let lower = bytes@.take(i as int);
                let limit = modulus_bytes().take(i as int);
                assert(bytes@.take(i as int + 1) =~= lower.push(byte));
                assert(modulus_bytes().take(i as int + 1) =~= limit.push(bound));
                lemma_le_value_push(lower, byte);
                lemma_le_value_push(limit, bound);
                lemma_le_value_bound(lower);
                lemma_le_value_bound(limit);
                let w = weight(i as nat);
                if byte < bound {
                    assert(w * (byte + 1) <= w * bound) by (nonlinear_arith)
                        requires
                            byte + 1 <= bound,
                            w >= 0,
                    ;
                    assert(w * (byte + 1) == w * byte + w) by (nonlinear_arith);
                } else if byte > bound {
                    assert(w * (bound + 1) <= w * byte) by (nonlinear_arith)
                        requires
                            bound + 1 <= byte,
                            w >= 0,
                    ;
                    assert(w * (bound + 1) == w * bound + w) by (nonlinear_arith);
                }
            }
            if byte < bound {
                below = true;
            } else if byte > bound {
                below = false;
            }
            i += 1;
        }
        assert(bytes@.take(32) =~= bytes@);
        assert(modulus_bytes().take(32) =~= modulus_bytes());
        if below {
            Some(FieldElement { bytes })
        } else {
            None
        }
    }
}

/// The byte of the field's order at a position.
fn modulus_byte(position: usize) -> (byte: u8)
    requires
        position < 32,
    ensures
        byte == modulus_bytes()[position as int],
{
    let bytes: [u8; 32] = [
        1, 0, 0, 0, 0, 128, 17, 10, 1, 0, 0, 208, 254, 118, 170, 89, 1, 176, 55, 92, 30, 77, 180,
        96, 86, 165, 44, 154, 94, 101, 171, 18,
    ];
    assert(bytes@ =~= modulus_bytes());
    bytes[position]
}

/// A byte added at the high end of a byte string adds its value at the
/// weight of its position.
pub proof fn lemma_le_value_push(bytes: Seq<u8>, byte: u8)
    ensures
        le_value(bytes.push(byte)) == le_value(bytes) + weight(bytes.len()) * byte,
    decreases bytes.len(),
{
    let longer = bytes.push(byte);
    assert(longer[0] == if bytes.len() == 0 { byte } else { bytes[0] });
    assert(le_value(longer) == longer[0] as nat + 256 * le_value(longer.drop_first()));
    if bytes.len() == 0 {
        assert(longer.drop_first() =~= Seq::<u8>::empty());
        assert(le_value(longer.drop_first()) == 0);
        assert(weight(0) == 1);
        assert(le_value(bytes) == 0);
        assert(weight(bytes.len()) * byte == byte) by (nonlinear_arith)
            requires
                weight(bytes.len()) == 1,
        ;
    } else {
        let rest = bytes.drop_first();
        assert(longer.drop_first() =~= rest.push(byte));
        lemma_le_value_push(rest, byte);
        let w = weight(rest.len());
        assert(weight(bytes.len()) == 256 * w);
        assert(le_value(bytes) == bytes[0] as nat + 256 * le_value(rest));
        assert(256 * (le_value(rest) + w * byte) == 256 * le_value(rest) + (256 * w) * byte)
            by (nonlinear_arith);
    }
}

/// A byte string stands for a number below the weight of its length.
pub proof fn lemma_le_value_bound(bytes: Seq<u8>)
    ensures
        le_value(bytes) < weight(bytes.len()),
    decreases bytes.len(),
{
    if bytes.len() > 0 {
        lemma_le_value_bound(bytes.drop_first());
    }
}

/// A little-endian byte string stands for zero exactly when all its bytes are zero.
pub proof fn lemma_le_value_zero(bytes: Seq<u8>)
    ensures
        le_value(bytes) == 0 <==> forall|i: int| 0 <= i < bytes.len() ==> bytes[i] == 0,
    decreases bytes.len(),
{
    if bytes.len() > 0 {
        let rest = bytes.drop_first();
        lemma_le_value_zero(rest);
        if le_value(bytes) == 0 {
            assert forall|i: int| 0 <= i < bytes.len() implies bytes[i] == 0 by {
                if i > 0 {
                    assert(bytes[i] == rest[i - 1]);
                }
            }
        }
        if forall|i: int| 0 <= i < bytes.len() ==> bytes[i] == 0 {
            assert forall|i: int| 0 <= i < rest.len() implies rest[i] == 0 by {
                assert(rest[i] == bytes[i + 1]);
            }
        }
    }
}

/// A field element drawn at random.
///
/// Trusted: calls `Uniform::rand` on the thread's generator; nothing is
/// claimed of the element but that it is one.
#[verifier::external_body]
pub(crate) fn random_field() -> (element: FieldElement)
    ensures
        element.wf(),
{
    let drawn: Field<Testnet3> = Uniform::rand(&mut rand::thread_rng());
    FieldElement { bytes: drawn.to_bytes_le().unwrap().try_into().unwrap() }
}

/// The field element that a text stands for as a domain separator.
///
/// Trusted: calls `Field::new_domain_separator`, which reads the text's bytes
/// as a little-endian number and reduces it by the field's order.
#[verifier::external_body]
pub(crate) fn domain_separator(text: &str) -> (element: FieldElement)
    ensures
        element.wf(),
        element.value() == le_value(text.spec_bytes()) % modulus(),
{
    let made = Field::<Testnet3>::new_domain_separator(text);
    FieldElement { bytes: made.to_bytes_le().unwrap().try_into().unwrap() }
}

/// The product of two field elements.
///
/// Trusted: calls the field's `*`, multiplication modulo the field's order.
/// The order is prime, so a product by a factor that is not zero has the
/// other factor as its only quotient by it.
#[verifier::external_body]
pub(crate) fn field_mul(a: &FieldElement, b: &FieldElement) -> (product: FieldElement)
    requires
        a.wf(),
        b.wf(),
    ensures
        product.wf(),
        product.value() == (a.value() * b.value()) % modulus(),
        a.value() != 0 ==> forall|q: nat| #[trigger]
            is_quotient(q, product.value(), a.value()) ==> q == b.value(),
{
    let x = Field::<Testnet3>::from_bytes_le(&a.bytes).unwrap();
    let y = Field::<Testnet3>::from_bytes_le(&b.bytes).unwrap();
    FieldElement { bytes: (x * y).to_bytes_le().unwrap().try_into().unwrap() }
}

/// The quotient of a field element by one that is not zero.
///
/// Trusted: calls the field's `/`, which halts on a zero divisor and else
/// multiplies by the divisor's inverse. The order is prime, so the quotient is
/// the one element whose product with the divisor is the dividend.
#[verifier::external_body]
pub(crate) fn field_div(a: &FieldElement, b: &FieldElement) -> (quotient: FieldElement)
    requires
        a.wf(),
        b.wf(),
        b.value() != 0,
    ensures
        quotient.wf(),
        is_quotient(quotient.value(), a.value(), b.value()),
        forall|q: nat| #[trigger] is_quotient(q, a.value(), b.value()) ==> q == quotient.value(),
{
    let x = Field::<Testnet3>::from_bytes_le(&a.bytes).unwrap();
    let y = Field::<Testnet3>::from_bytes_le(&b.bytes).unwrap();
    FieldElement { bytes: (x / y).to_bytes_le().unwrap().try_into().unwrap() }
}

/// The Poseidon hash of rate 2 of three field elements.
///
/// Trusted: calls `Network::hash_psd2` on the three elements in this order;
/// the hash is a function of them alone.
#[verifier::external_body]
pub(crate) fn hash_psd2(first: &FieldElement, second: &FieldElement, third: &FieldElement) -> (hash:
    Option<FieldElement>)
    requires
        first.wf(),
        second.wf(),
        third.wf(),
    ensures
        hash matches Some(h) ==> h.wf() && psd2_hash(first.value(), second.value(), third.value())
            == Some(h.value()),
        hash is None ==> psd2_hash(first.value(), second.value(), third.value()) is None,
{
    let a = Field::<Testnet3>::from_bytes_le(&first.bytes).unwrap();
    let b = Field::<Testnet3>::from_bytes_le(&second.bytes).unwrap();
    let c = Field::<Testnet3>::from_bytes_le(&third.bytes).unwrap();
    let hash = Testnet3::hash_psd2(&[a, b, c]).ok()?;
    Some(FieldElement { bytes: hash.to_bytes_le().unwrap().try_into().unwrap() })
}

/// The field element that a ChaCha generator seeded with `seed` draws first.
///
/// Trusted: calls `ChaChaRng::seed_from_u64` and `Uniform::rand`; the
/// generator's stream is fixed by its seed, on every machine.
#[verifier::external_body]
pub(crate) fn seeded_field(seed: u64) -> (element: FieldElement)
    ensures
        element.wf(),
        element.value() == seeded_value(seed),
{
    let drawn: Field<Testnet3> = Uniform::rand(&mut ChaChaRng::seed_from_u64(seed));
    FieldElement { bytes: drawn.to_bytes_le().unwrap().try_into().unwrap() }
}

} // verus!
