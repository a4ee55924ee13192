//! Diffie-Hellman key agreement in the 1024-bit MODP group of RFC 2409
//! (the Second Oakley Group), with generator 2.

use vstd::prelude::*;
use vstd::arithmetic::power::{
    lemma_pow0,
    lemma_pow1,
    lemma_pow_adds,
    lemma_pow_increases,
    lemma_pow_mod_noop,
    lemma_pow_multiplies,
    pow,
};
use vstd::arithmetic::power2::lemma2_to64;
use vstd::arithmetic::div_mod::{
    lemma_fundamental_div_mod_converse,
    lemma_mod_bound,
    lemma_mul_mod_noop_general,
    lemma_small_mod,
};
use vstd::arithmetic::mul::{lemma_mul_is_associative, lemma_mul_is_commutative};
use crate::secret_service::crypto::bigint;
use crate::secret_service::crypto::bigint::{be_value, value_of};
use crate::secret_service::crypto::rng::random_bytes;

verus! {

/// The number of bytes that spell a group element.
pub const DH_ELEMENT_LEN: usize = 128;

/// The generator of the group.
pub const DH_GENERATOR: u8 = 2;

/// The prime of the group, most significant byte first.
pub const DH_PRIME: [u8; 128] = [
    0xFF, 0xFF, 0xFF, 0xFF, 0xFF, 0xFF, 0xFF, 0xFF, 0xC9, 0x0F, 0xDA, 0xA2, 0x21, 0x68, 0xC2,
    0x34, 0xC4, 0xC6, 0x62, 0x8B, 0x80, 0xDC, 0x1C, 0xD1, 0x29, 0x02, 0x4E, 0x08, 0x8A, 0x67,
    0xCC, 0x74, 0x02, 0x0B, 0xBE, 0xA6, 0x3B, 0x13, 0x9B, 0x22, 0x51, 0x4A, 0x08, 0x79, 0x8E,
    0x34, 0x04, 0xDD, 0xEF, 0x95, 0x19, 0xB3, 0xCD, 0x3A, 0x43, 0x1B, 0x30, 0x2B, 0x0A, 0x6D,
    0xF2, 0x5F, 0x14, 0x37, 0x4F, 0xE1, 0x35, 0x6D, 0x6D, 0x51, 0xC2, 0x45, 0xE4, 0x85, 0xB5,
    0x76, 0x62, 0x5E, 0x7E, 0xC6, 0xF4, 0x4C, 0x42, 0xE9, 0xA6, 0x37, 0xED, 0x6B, 0x0B, 0xFF,
    0x5C, 0xB6, 0xF4, 0x06, 0xB7, 0xED, 0xEE, 0x38, 0x6B, 0xFB, 0x5A, 0x89, 0x9F, 0xA5, 0xAE,
    0x9F, 0x24, 0x11, 0x7C, 0x4B, 0x1F, 0xE6, 0x49, 0x28, 0x66, 0x51, 0xEC, 0xE6, 0x53, 0x81,
    0xFF, 0xFF, 0xFF, 0xFF, 0xFF, 0xFF, 0xFF, 0xFF,
];

/// The prime of the group, as a number.
pub open spec fn dh_prime() -> nat {
    be_value(DH_PRIME@)
}

/// `base` to the power `exp`, reduced by `modulus`; 1 for a zero exponent,
/// whatever the modulus.
pub open spec fn mod_pow(base: nat, exp: nat, modulus: nat) -> nat {
    if exp == 0 {
        1
    } else {
        (pow(base as int, exp) % (modulus as int)) as nat
    }
}

/// The spelling of `value` in exactly `len` bytes, most significant byte
/// first. A value that needs more bytes loses its upper part.
pub open spec fn be_bytes(value: nat, len: nat) -> Seq<u8>
    decreases len,
{
    if len == 0 {
        Seq::empty()
    } else {
        be_bytes(value / 256, (len - 1) as nat).push((value % 256) as u8)
    }
}

/// The public key that belongs to the private exponent `private`.
pub open spec fn public_of(private: nat) -> nat {
    mod_pow(DH_GENERATOR as nat, private, dh_prime())
}

/// The secret that two parties share: the peer's public key to the power of
/// our private exponent.
pub open spec fn shared_secret(peer_public: nat, private: nat) -> nat {
    mod_pow(peer_public, private, dh_prime())
}

/// The input keying material of the key derivation: the shared secret,
/// padded on the left with zeros to the length of a group element.
pub open spec fn shared_ikm(peer_public: nat, private: nat) -> Seq<u8> {
    be_bytes(shared_secret(peer_public, private), DH_ELEMENT_LEN as nat)
}

/// The fixed-width spelling has the width that was asked for.
pub proof fn lemma_be_bytes_len(value: nat, len: nat)
    ensures
        be_bytes(value, len).len() == len,
    decreases len,
{
    if len > 0 {
        lemma_be_bytes_len(value / 256, (len - 1) as nat);
    }
}

/// The keying material has the length of a group element, however short the
/// spelling of the shared secret is.
pub proof fn lemma_shared_ikm_len(peer_public: nat, private: nat)
    ensures
        shared_ikm(peer_public, private).len() == DH_ELEMENT_LEN,
{
    lemma_be_bytes_len(shared_secret(peer_public, private), DH_ELEMENT_LEN as nat);
}

/// A byte sequence is the fixed-width spelling of its own value: no two
/// sequences of one length spell the same number.
pub proof fn lemma_be_bytes_of_value(bytes: Seq<u8>)
    ensures
        be_bytes(be_value(bytes), bytes.len()) == bytes,
    decreases bytes.len(),
{
    if bytes.len() > 0 {
        let head = be_value(bytes.drop_last());
        let last = bytes.last() as nat;
        lemma_fundamental_div_mod_converse((head * 256 + last) as int, 256, head as int, last as int);
        lemma_be_bytes_of_value(bytes.drop_last());
        assert(be_bytes(be_value(bytes), bytes.len()) =~= bytes);
    }
}

proof fn lemma_be_value_prepend_zero(bytes: Seq<u8>)
    ensures
        be_value(seq![0u8] + bytes) == be_value(bytes),
    decreases bytes.len(),
{
    let longer = seq![0u8] + bytes;
    if bytes.len() == 0 {
        assert(longer.drop_last() =~= Seq::<u8>::empty());
        assert(be_value(longer.drop_last()) == 0);
    } else {
        assert(longer.drop_last() =~= seq![0u8] + bytes.drop_last());
        lemma_be_value_prepend_zero(bytes.drop_last());
    }
}

/// Zeros on the left do not change the number that bytes spell.
pub proof fn lemma_be_value_pad(zeros: nat, bytes: Seq<u8>)
    ensures
        be_value(Seq::new(zeros, |i: int| 0u8) + bytes) == be_value(bytes),
    decreases zeros,
{
    let padded = Seq::new(zeros, |i: int| 0u8) + bytes;
    if zeros == 0 {
        assert(padded =~= bytes);
    } else {
        let shorter = Seq::new((zeros - 1) as nat, |i: int| 0u8) + bytes;
        assert(padded =~= seq![0u8] + shorter);
        lemma_be_value_prepend_zero(shorter);
        lemma_be_value_pad((zeros - 1) as nat, bytes);
    }
}

/// Bytes spell a number below 256 to the power of their count.
pub proof fn lemma_be_value_upper(bytes: Seq<u8>)
    ensures
        be_value(bytes) < pow(256, bytes.len()),
    decreases bytes.len(),
{
    reveal(pow);
    if bytes.len() > 0 {
        lemma_be_value_upper(bytes.drop_last());
    }
}

/// Bytes that start with a non-zero byte spell a number of full length.
pub proof fn lemma_be_value_lower(bytes: Seq<u8>)
    requires
        bytes.len() >= 1,
        bytes[0] != 0,
    ensures
        be_value(bytes) >= pow(256, (bytes.len() - 1) as nat),
    decreases bytes.len(),
{
    reveal(pow);
    if bytes.len() == 1 {
        assert(bytes.drop_last() =~= Seq::<u8>::empty());
        assert(be_value(bytes.drop_last()) == 0);
        assert(pow(256, 0) == 1);
    } else {
        assert(bytes.drop_last()[0] == bytes[0]);
        lemma_be_value_lower(bytes.drop_last());
    }
}

/// The prime is more than 1 and fits the length of a group element.
pub proof fn lemma_dh_prime_bounds()
    ensures
        1 < dh_prime() < pow(256, 128),
{
    lemma_be_value_upper(DH_PRIME@);
    lemma_be_value_lower(DH_PRIME@);
    lemma_pow1(256);
    lemma_pow_increases(256, 1, 127);
}

/// One round of square-and-multiply keeps the product of the accumulator
/// and the remaining power, up to the modulus.
proof fn lemma_mod_pow_step(acc: int, base: int, exp: nat, modulus: int)
    requires
        modulus > 0,
        exp > 0,
    ensures
        ({
            let next_acc = if exp % 2 == 1 { (acc * base) % modulus } else { acc };
            let next_base = (base * base) % modulus;
            (next_acc * pow(next_base, exp / 2)) % modulus == (acc * pow(base, exp)) % modulus
        }),
{
    let half = exp / 2;
    let next_base = (base * base) % modulus;
    lemma_pow_mod_noop(base * base, half, modulus);
    assert(pow(base, 2) == base * base) by {
        reveal(pow);
        assert(pow(base, 2) == base * pow(base, 1));
        lemma_pow1(base);
    }
    lemma_pow_multiplies(base, 2, half);
    assert(pow(next_base, half) % modulus == pow(base, 2 * half) % modulus);
    let rest = pow(base, 2 * half);
    if exp % 2 == 1 {
        let next_acc = (acc * base) % modulus;
        assert(exp == 1 + 2 * half);
        lemma_pow_adds(base, 1, 2 * half);
        lemma_pow1(base);
        assert(pow(base, exp) == base * rest);
        lemma_mul_is_associative(acc, base, rest);
        lemma_mul_mod_noop_general(acc * base, pow(next_base, half), modulus);
        lemma_mul_mod_noop_general(acc * base, rest, modulus);
        assert((next_acc * pow(next_base, half)) % modulus == ((acc * base) * (pow(
            next_base,
            half,
        ) % modulus)) % modulus);
    } else {
        assert(exp == 2 * half);
        lemma_mul_mod_noop_general(acc, pow(next_base, half), modulus);
        lemma_mul_mod_noop_general(acc, rest, modulus);
    }
}

/// Modular exponentiation by squaring.
pub fn pow_base_exp_mod(base: &num::BigUint, exp: &num::BigUint, modulus: &num::BigUint) -> (result:
    num::BigUint)
    requires
        value_of(*modulus) != 0,
    ensures
        value_of(result) == mod_pow(value_of(*base), value_of(*exp), value_of(*modulus)),
{
    let ghost base0 = value_of(*base) as int;
    let ghost exp0 = value_of(*exp);
    let ghost m = value_of(*modulus) as int;
    let mut base = bigint::copy(base);
    let mut exp = bigint::copy(exp);
    let mut result = bigint::one();
    while !bigint::is_zero(&exp)
        invariant
            m == value_of(*modulus),
            m > 0,
            (value_of(result) * pow(value_of(base) as int, value_of(exp))) % m == pow(base0, exp0)
                % m,
            value_of(result) < m || value_of(exp) > 0 || exp0 == 0,
            value_of(exp) <= exp0,
            exp0 == 0 ==> value_of(result) == 1,
        decreases value_of(exp),
    {
        let ghost acc = value_of(result) as int;
        let ghost b = value_of(base) as int;
        let ghost e = value_of(exp);
        proof {
            lemma_mod_pow_step(acc, b, e, m);
            lemma2_to64();
            lemma_mod_bound(acc * b, m);
            lemma_mod_bound(b * b, m);
        }
        if bigint::is_odd(&exp) {
            result = bigint::rem(bigint::mul(&result, &base), modulus);
        }
        exp = bigint::shr(exp, 1);
        base = bigint::rem(bigint::mul(&base, &base), modulus);
    }
    proof {
        lemma_pow0(value_of(base) as int);
        assert(value_of(exp) == 0);
        assert(value_of(result) * pow(value_of(base) as int, value_of(exp)) == value_of(result));
        if exp0 > 0 {
            lemma_small_mod(value_of(result), m as nat);
            lemma_mod_bound(pow(base0, exp0), m);
        } else {
            assert(value_of(result) == 1);
        }
    }
    result
}

/// The prime of the group, as a number to compute with.
pub fn prime() -> (prime: num::BigUint)
    ensures
        value_of(prime) == dh_prime(),
{
    bigint::from_bytes_be(&DH_PRIME)
}

/// The generator of the group, as a number to compute with.
pub fn generator() -> (generator: num::BigUint)
    ensures
        value_of(generator) == DH_GENERATOR,
{
    let bytes = [DH_GENERATOR];
    proof {
        assert(bytes@.drop_last() =~= Seq::<u8>::empty());
        assert(be_value(bytes@.drop_last()) == 0);
    }
    bigint::from_bytes_be(&bytes)
}

/// A private exponent and the public key that belongs to it.
pub struct Keypair {
    pub private: num::BigUint,
    pub public: num::BigUint,
}

impl Keypair {
    /// Whether the public key is the generator to the power of the private
    /// exponent.
    pub open spec fn wf(&self) -> bool {
        value_of(self.public) == public_of(value_of(self.private))
    }

    /// The keypair whose private exponent the bytes spell, most significant
    /// byte first. The exponent is taken as it is: it is neither reduced nor
    /// made odd.
    pub fn from_private_bytes(bytes: &[u8]) -> (keypair: Self)
        ensures
            keypair.wf(),
            value_of(keypair.private) == be_value(bytes@),
    {
        let private = bigint::from_bytes_be(bytes);
        proof {
            lemma_dh_prime_bounds();
        }
        let public = pow_base_exp_mod(&generator(), &private, &prime());
        Keypair { private, public }
    }

    /// A fresh keypair: the private exponent is drawn as 128 random bytes.
    pub fn generate() -> (keypair: Self)
        ensures
            keypair.wf(),
            value_of(keypair.private) < pow(256, 128),
    {
        let bytes = random_bytes::<128>();
        proof {
            lemma_be_value_upper(bytes@);
        }
        Self::from_private_bytes(&bytes)
    }

    /// The public key in the form in which it is sent to the service:
    /// spelled in exactly 128 bytes, most significant byte first. A number
    /// that is no public key of the group and needs more bytes is spelled
    /// in as many as it needs.
    pub fn public_bytes(&self) -> (bytes: Vec<u8>)
        ensures
            be_value(bytes@) == value_of(self.public),
            self.wf() ==> bytes@ == be_bytes(value_of(self.public), DH_ELEMENT_LEN as nat),
            self.wf() ==> bytes@.len() == DH_ELEMENT_LEN,
    {
        let shortest = bigint::to_bytes_be(&self.public);
        proof {
            if self.wf() {
                lemma_element_len(value_of(self.private), DH_GENERATOR as nat, shortest@);
            }
        }
        if shortest.len() <= DH_ELEMENT_LEN {
            pad_left(shortest)
        } else {
            shortest
        }
    }
}

impl Clone for Keypair {
    fn clone(&self) -> (copy: Self)
        ensures
            value_of(copy.private) == value_of(self.private),
            value_of(copy.public) == value_of(self.public),
    {
        Keypair { private: bigint::copy(&self.private), public: bigint::copy(&self.public) }
    }
}

/// The shortest spelling of a power in the group takes no more bytes than a
/// group element has.
proof fn lemma_element_len(exp: nat, base: nat, bytes: Seq<u8>)
    requires
        be_value(bytes) == mod_pow(base, exp, dh_prime()),
        bytes.len() >= 1,
        bytes[0] == 0 ==> bytes.len() == 1,
    ensures
        bytes.len() <= DH_ELEMENT_LEN,
{
    lemma_dh_prime_bounds();
    if exp > 0 {
        lemma_mod_bound(pow(base as int, exp), dh_prime() as int);
    }
    if bytes.len() > DH_ELEMENT_LEN {
        lemma_be_value_lower(bytes);
        lemma_pow_increases(256, 128, (bytes.len() - 1) as nat);
    }
}

/// Pads the spelling of a group element on the left with zeros, to the
/// length of a group element.
fn pad_left(shortest: Vec<u8>) -> (bytes: Vec<u8>)
    requires
        shortest@.len() <= DH_ELEMENT_LEN,
    ensures
        bytes@ == be_bytes(be_value(shortest@), DH_ELEMENT_LEN as nat),
        bytes@.len() == DH_ELEMENT_LEN,
        be_value(bytes@) == be_value(shortest@),
{
    let pad = DH_ELEMENT_LEN - shortest.len();
    let mut bytes = vec![0u8; pad];
    bytes.extend_from_slice(shortest.as_slice());
    proof {
        assert(bytes@ =~= Seq::new(pad as nat, |i: int| 0u8) + shortest@);
        lemma_be_value_pad(pad as nat, shortest@);
        lemma_be_bytes_of_value(bytes@);
    }
    bytes
}

/// The input keying material from which the session key is derived: the
/// shared secret in exactly 128 bytes, zeros on the left where its own
/// spelling is shorter.
pub fn prepare_derive_shared(private: &num::BigUint, peer_public: &[u8]) -> (ikm: Vec<u8>)
    ensures
        ikm@ == shared_ikm(be_value(peer_public@), value_of(*private)),
        ikm@.len() == DH_ELEMENT_LEN,
{
    let peer = bigint::from_bytes_be(peer_public);
    proof {
        lemma_dh_prime_bounds();
    }
    let common_secret = pow_base_exp_mod(&peer, private, &prime());
    let common_secret_bytes = bigint::to_bytes_be(&common_secret);
    proof {
        lemma_element_len(value_of(*private), be_value(peer_public@), common_secret_bytes@);
    }
    pad_left(common_secret_bytes)
}

/// Both sides of an exchange reach the same shared secret, and so the same
/// keying material: our private exponent on the peer's public key gives what
/// the peer's private exponent gives on ours.
pub proof fn lemma_shared_secret_symmetric(ours: nat, theirs: nat)
    ensures
        shared_secret(public_of(theirs), ours) == shared_secret(public_of(ours), theirs),
        shared_ikm(public_of(theirs), ours) == shared_ikm(public_of(ours), theirs),
{
    let p = dh_prime() as int;
    let g = DH_GENERATOR as int;
    lemma_dh_prime_bounds();
    lemma_pow0(g);
    lemma_small_mod(1, dh_prime());
    assert(public_of(theirs) == pow(g, theirs) % p);
    assert(public_of(ours) == pow(g, ours) % p);
    lemma_pow0(public_of(theirs) as int);
    lemma_pow0(public_of(ours) as int);
    assert(shared_secret(public_of(theirs), ours) == pow(public_of(theirs) as int, ours) % p);
    assert(shared_secret(public_of(ours), theirs) == pow(public_of(ours) as int, theirs) % p);
    lemma_pow_mod_noop(pow(g, theirs), ours, p);
    lemma_pow_mod_noop(pow(g, ours), theirs, p);
    lemma_pow_multiplies(g, theirs, ours);
    lemma_pow_multiplies(g, ours, theirs);
    lemma_mul_is_commutative(theirs as int, ours as int);
}

} // verus!
