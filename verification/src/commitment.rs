//! The commit-reveal primitive shared by both games.
//!
//! A participant binds itself to hidden material by publishing its Keccak-256
//! digest. At reveal time the arena recomputes the digest over the disclosed
//! material and compares it with the stored one: the reveal is accepted iff
//! they are equal. For the choice game the committed material is the choice
//! byte followed by a 32-byte salt; for the coin flip it is a bare 32-byte
//! secret.

use vstd::prelude::*;

verus! {

/// The Keccak-256 digest of a byte sequence. Its value is determined by the
/// bytes alone; nothing more is assumed of it.
pub uninterp spec fn keccak_of(data: Seq<u8>) -> Seq<u8>;

/// Relies on anchor_lang::solana_program::keccak::hash: the Keccak-256 digest
/// of the input bytes, a pure function of those bytes.
#[verifier::external_body]
pub(crate) fn keccak256(data: &[u8]) -> (digest: [u8; 32])
    ensures
        digest@ == keccak_of(data@),
{
    anchor_lang::solana_program::keccak::hash(data).to_bytes()
}

/// A stored digest accepts the given material.
pub open spec fn verifies(stored: Seq<u8>, material: Seq<u8>) -> bool {
    stored == keccak_of(material)
}

/// The committed material of the choice game: the choice byte followed by the
/// salt.
pub open spec fn choice_material(choice: u8, salt: Seq<u8>) -> Seq<u8> {
    seq![choice] + salt
}

/// Every byte of the value is zero: the empty sentinel for digests, secrets
/// and the unset participant slot.
pub open spec fn is_all_zero(bytes: [u8; 32]) -> bool {
    forall|i: int| 0 <= i < 32 ==> bytes@[i] == 0
}

/// The empty sentinel value itself.
pub open spec fn zero32() -> [u8; 32] {
    vstd::array::spec_array_fill_for_copy_type::<u8, 32>(0u8)
}

/// Byte-for-byte equality of two 32-byte values.
pub fn bytes32_eq(a: &[u8; 32], b: &[u8; 32]) -> (r: bool)
    ensures
        r <==> *a == *b,
        r <==> a@ == b@,
{
    let mut i: usize = 0;
    while i < 32
        invariant
            0 <= i <= 32,
            forall|j: int| 0 <= j < i ==> a@[j] == b@[j],
        decreases 32 - i,
    {
        if a[i] != b[i] {
            assert(a@ != b@) by {
                if a@ == b@ {
                    assert(a@[i as int] == b@[i as int]);
                }
            }
            return false;
        }
        i += 1;
    }
    assert(*a =~= *b);
    true
}

/// Whether a 32-byte value is the empty sentinel.
pub fn bytes32_is_zero(bytes: &[u8; 32]) -> (r: bool)
    ensures
        r <==> is_all_zero(*bytes),
{
    let mut i: usize = 0;
    while i < 32
        invariant
            0 <= i <= 32,
            forall|j: int| 0 <= j < i ==> bytes@[j] == 0,
        decreases 32 - i,
    {
        if bytes[i] != 0 {
            return false;
        }
        i += 1;
    }
    true
}

/// Appends all 32 bytes to the buffer, in order.
pub(crate) fn push_bytes32(data: &mut Vec<u8>, bytes: &[u8; 32])
    requires
        old(data)@.len() + 32 <= usize::MAX,
    ensures
        final(data)@ == old(data)@ + bytes@,
{
    let mut i: usize = 0;
    while i < 32
        invariant
            0 <= i <= 32,
            data@ == old(data)@ + bytes@.subrange(0, i as int),
        decreases 32 - i,
    {
        data.push(bytes[i]);
        assert(data@ =~= old(data)@ + bytes@.subrange(0, i + 1));
        i += 1;
    }
    assert(data@ =~= old(data)@ + bytes@);
}

/// Builds the committed material of the choice game as bytes.
pub fn choice_material_bytes(choice: u8, salt: &[u8; 32]) -> (data: Vec<u8>)
    ensures
        data@ == choice_material(choice, salt@),
{
    let mut data: Vec<u8> = Vec::new();
    data.push(choice);
    push_bytes32(&mut data, salt);
    assert(data@ =~= choice_material(choice, salt@));
    data
}

/// Commits to a choice of the choice game: the digest of the choice byte
/// followed by the salt. This is what a participant publishes before the
/// reveal.
pub fn choice_commitment(choice: u8, salt: &[u8; 32]) -> (digest: [u8; 32])
    ensures
        digest@ == keccak_of(choice_material(choice, salt@)),
{
    let data = choice_material_bytes(choice, salt);
    keccak256(data.as_slice())
}

/// Commits to a coin-flip secret: the digest of the bare 32-byte secret.
pub fn flip_commitment(secret: &[u8; 32]) -> (digest: [u8; 32])
    ensures
        digest@ == keccak_of(secret@),
{
    keccak256(secret.as_slice())
}

/// Recomputes the digest of the revealed material and compares it with the
/// stored commitment: the reveal is accepted iff they are equal.
pub fn verify(stored: &[u8; 32], material: &[u8]) -> (ok: bool)
    ensures
        ok <==> verifies(stored@, material@),
{
    let digest = keccak256(material);
    bytes32_eq(stored, &digest)
}

/// Round trip of the commit-reveal primitive: a commitment always verifies
/// against the very material it was computed from.
pub proof fn lemma_commit_then_verify(material: Seq<u8>)
    ensures
        verifies(keccak_of(material), material),
{
}

} // verus!
