//! The CREATE2 address formula and the score of an address.

use crate::hexfmt::{encode_hex, hex_text, prefixed_hex};
use crate::keccak::{keccak256, keccak256_digest};
use vstd::prelude::*;
use vstd::string::*;

verus! {

/// The 20-byte address of the factory contract that deploys.
#[derive(Debug, Clone, Copy, PartialEq, Eq)]
pub struct FactoryAddress {
    pub bytes: [u8; 20],
}

/// The 32-byte Keccak-256 hash of the contract's creation code.
#[derive(Debug, Clone, Copy, PartialEq, Eq)]
pub struct CodeHash {
    pub bytes: [u8; 32],
}

/// A 32-byte deployment salt.
#[derive(Debug, Clone, Copy, PartialEq, Eq)]
pub struct Salt {
    pub bytes: [u8; 32],
}

/// A 20-byte contract address derived from factory, salt and code hash.
#[derive(Debug, Clone, Copy, PartialEq, Eq)]
pub struct DerivedAddress {
    pub bytes: [u8; 20],
}

impl View for FactoryAddress {
    type V = Seq<u8>;

    open spec fn view(&self) -> Seq<u8> {
        self.bytes@
    }
}

impl View for CodeHash {
    type V = Seq<u8>;

    open spec fn view(&self) -> Seq<u8> {
        self.bytes@
    }
}

impl View for Salt {
    type V = Seq<u8>;

    open spec fn view(&self) -> Seq<u8> {
        self.bytes@
    }
}

impl View for DerivedAddress {
    type V = Seq<u8>;

    open spec fn view(&self) -> Seq<u8> {
        self.bytes@
    }
}

/// The bytes that are hashed: `0xff`, then the factory address, the salt and
/// the code hash, in this order.
pub open spec fn create2_preimage(factory: Seq<u8>, salt: Seq<u8>, code_hash: Seq<u8>) -> Seq<u8> {
    seq![0xffu8] + factory + salt + code_hash
}

/// The address part of a digest: its last 20 bytes.
pub open spec fn digest_address(digest: Seq<u8>) -> Seq<u8> {
    digest.subrange(12, 32)
}

/// The CREATE2 address: the last 20 bytes of the Keccak-256 digest of the
/// preimage.
pub open spec fn create2_address(factory: Seq<u8>, salt: Seq<u8>, code_hash: Seq<u8>) -> Seq<u8> {
    digest_address(keccak256(create2_preimage(factory, salt, code_hash)))
}

/// The number of `'0'` characters at the start of a text.
pub open spec fn leading_zeros(text: Seq<char>) -> nat
    decreases text.len(),
{
    if text.len() == 0 || text[0] != '0' {
        0
    } else {
        1 + leading_zeros(text.skip(1))
    }
}

/// The score of an address: the leading zero digits of its lowercase hex text.
pub open spec fn zero_score(address: Seq<u8>) -> nat {
    leading_zeros(hex_text(address))
}

/// `leading_zeros` is the one position `n` with only `'0'` before it and
/// either the end of the text or another character at it.
pub proof fn lemma_leading_zeros_is(text: Seq<char>, n: nat)
    requires
        n <= text.len(),
        forall|i: int| 0 <= i < n ==> text[i] == '0',
        n == text.len() || text[n as int] != '0',
    ensures
        leading_zeros(text) == n,
    decreases n,
{
    if n > 0 {
        let rest = text.skip(1);
        assert forall|i: int| 0 <= i < n - 1 implies rest[i] == '0' by {
            assert(rest[i] == text[i + 1]);
        }
        lemma_leading_zeros_is(rest, (n - 1) as nat);
    }
}

/// No text has more leading zeros than characters.
pub proof fn lemma_leading_zeros_bounded(text: Seq<char>)
    ensures
        leading_zeros(text) <= text.len(),
    decreases text.len(),
{
    if text.len() > 0 && text[0] == '0' {
        lemma_leading_zeros_bounded(text.skip(1));
    }
}

/// The score of every address lies between 0 and 40.
pub proof fn lemma_zero_score_bounded(address: DerivedAddress)
    ensures
        0 <= zero_score(address@) <= 40,
{
    lemma_leading_zeros_bounded(hex_text(address@));
}

/// Two addresses derived from the same factory, salt and code hash are the
/// same address.
pub proof fn lemma_derivation_deterministic(
    factory: FactoryAddress,
    salt: Salt,
    code_hash: CodeHash,
    first: DerivedAddress,
    second: DerivedAddress,
)
    requires
        first@ == create2_address(factory@, salt@, code_hash@),
        second@ == create2_address(factory@, salt@, code_hash@),
    ensures
        first == second,
{
    assert(first.bytes =~= second.bytes);
}

/// Builds the 85-byte preimage of the address digest.
pub fn build_preimage(factory: &FactoryAddress, salt: &Salt, code_hash: &CodeHash) -> (preimage:
    Vec<u8>)
    ensures
        preimage@ == create2_preimage(factory@, salt@, code_hash@),
        preimage@.len() == 85,
{
    let mut preimage: Vec<u8> = Vec::new();
    preimage.push(0xff);
    preimage.extend_from_slice(factory.bytes.as_slice());
    preimage.extend_from_slice(salt.bytes.as_slice());
    preimage.extend_from_slice(code_hash.bytes.as_slice());
    preimage
}

/// Takes the address out of a 32-byte digest: its bytes 12 to 31.
pub fn address_of_digest(digest: &[u8; 32]) -> (address: DerivedAddress)
    ensures
        address@ == digest_address(digest@),
{
    let mut bytes = [0u8; 20];
    let mut i: usize = 0;
    while i < 20
        invariant
            i <= 20,
            forall|j: int| 0 <= j < i ==> bytes@[j] == digest@[12 + j],
        decreases 20 - i,
    {
        bytes[i] = digest[12 + i];
        i += 1;
    }
    assert(bytes@ =~= digest@.subrange(12, 32));
    DerivedAddress { bytes }
}

/// Derives the address of the contract that `factory` deploys with `salt`
/// from code whose hash is `init_code_hash`.
pub fn compute_create2_address(
    factory: &FactoryAddress,
    salt: &Salt,
    init_code_hash: &CodeHash,
) -> (address: DerivedAddress)
    ensures
        address@ == create2_address(factory@, salt@, init_code_hash@),
        address@.len() == 20,
{
    let preimage = build_preimage(factory, salt, init_code_hash);
    let digest = keccak256_digest(preimage.as_slice());
    address_of_digest(&digest)
}

/// Counts the `'0'` characters at the start of `address`, the hex text of an
/// address without prefix.
pub fn count_leading_zeros(address: &str) -> (zeros: usize)
    ensures
        zeros == leading_zeros(address@),
        zeros <= address@.len(),
        forall|i: int| 0 <= i < zeros ==> address@[i] == '0',
        zeros < address@.len() ==> address@[zeros as int] != '0',
{
    let n: usize = address.unicode_len();
    let mut zeros: usize = 0;
    while zeros < n && address.get_char(zeros) == '0'
        invariant
            zeros <= n,
            n == address@.len(),
            forall|i: int| 0 <= i < zeros ==> address@[i] == '0',
        decreases n - zeros,
    {
        zeros += 1;
    }
    proof {
        lemma_leading_zeros_is(address@, zeros as nat);
    }
    zeros
}

impl DerivedAddress {
    /// The 40 lowercase hex digits of the address, without prefix.
    pub fn to_hex(&self) -> (text: String)
        ensures
            text@ == hex_text(self@),
            text@.len() == 40,
    {
        encode_hex(self.bytes.as_slice())
    }

    /// The address as `0x` and its 40 hex digits.
    pub fn to_prefixed_hex(&self) -> (text: String)
        ensures
            text@ == seq!['0', 'x'] + hex_text(self@),
            text@.len() == 42,
    {
        prefixed_hex(self.bytes.as_slice())
    }

    /// The number of leading zero digits in the address's hex text.
    pub fn score(&self) -> (zeros: usize)
        ensures
            zeros == zero_score(self@),
            0 <= zeros <= 40,
    {
        let text = self.to_hex();
        count_leading_zeros(text.as_str())
    }
}

impl Salt {
    /// The salt as `0x` and its 64 hex digits.
    pub fn to_prefixed_hex(&self) -> (text: String)
        ensures
            text@ == seq!['0', 'x'] + hex_text(self@),
            text@.len() == 66,
    {
        prefixed_hex(self.bytes.as_slice())
    }
}

} // verus!
