//! The two-party commit-reveal coin flip.
//!
//! Each participant commits to a hidden 32-byte secret; once both have
//! revealed, the outcome is the parity of the last byte of the Keccak-256
//! digest of the two secrets concatenated: even means heads and pays the
//! first participant, odd means tails and pays the second. Neither party can
//! bias the combined digest once the other's commitment is fixed, and
//! neither learns the other's secret before committing.

use vstd::prelude::*;

use crate::commitment::bytes32_eq;
use crate::commitment::bytes32_is_zero;
use crate::commitment::is_all_zero;
use crate::commitment::keccak_of;
use crate::commitment::verifies;
use crate::commitment::verify;
use crate::commitment::zero32;
use crate::errors::ArenaError;

verus! {

/// A single-shot coin flip between two participants.
#[derive(Clone, Debug)]
pub struct CoinFlip {
    /// The participant that opened the flip; wins on heads.
    pub player_a: [u8; 32],
    /// The participant that joined; all zeroes while the flip is open. Wins
    /// on tails.
    pub player_b: [u8; 32],
    /// The stake each side escrows.
    pub wager: u64,
    /// The opening side's commitment digest.
    pub commit_a: [u8; 32],
    /// The joining side's commitment digest; all zeroes until the join.
    pub commit_b: [u8; 32],
    /// The opening side's revealed secret; meaningful once revealed.
    pub secret_a: [u8; 32],
    /// The joining side's revealed secret.
    pub secret_b: [u8; 32],
    /// Whether the opening side has revealed.
    pub revealed_a: bool,
    /// Whether the joining side has revealed.
    pub revealed_b: bool,
    /// The derived outcome, meaningful once settled: true pays the first
    /// participant.
    pub result_heads: bool,
    /// Whether the outcome is final.
    pub settled: bool,
    /// When the flip was opened.
    pub created_at: i64,
}

/// Whether the combined digest of the two revealed secrets comes up heads:
/// its last byte is even.
pub open spec fn heads_of(secret_a: Seq<u8>, secret_b: Seq<u8>) -> bool {
    keccak_of(secret_a + secret_b)[31] % 2 == 0
}

impl CoinFlip {
    /// The flip's invariant: it is settled exactly when both sides have
    /// revealed.
    pub open spec fn wf(self) -> bool {
        self.settled <==> (self.revealed_a && self.revealed_b)
    }
}

/// Opens a new coin flip: the creator stakes a positive wager and publishes
/// its commitment; everything of the second participant starts empty.
pub fn create_coin_flip(
    player: [u8; 32],
    wager: u64,
    commitment: [u8; 32],
    created_at: i64,
) -> (r: Result<CoinFlip, ArenaError>)
    ensures
        match r {
            Ok(flip) => {
                &&& wager > 0
                &&& flip.wf()
                &&& flip.player_a == player
                &&& flip.player_b == zero32()
                &&& flip.wager == wager
                &&& flip.commit_a == commitment
                &&& flip.commit_b == zero32()
                &&& flip.secret_a == zero32()
                &&& flip.secret_b == zero32()
                &&& !flip.revealed_a
                &&& !flip.revealed_b
                &&& !flip.result_heads
                &&& !flip.settled
                &&& flip.created_at == created_at
            },
            Err(e) => e == ArenaError::ZeroWager && wager == 0,
        },
{
    if wager == 0 {
        return Err(ArenaError::ZeroWager);
    }
    Ok(
        CoinFlip {
            player_a: player,
            player_b: [0u8; 32],
            wager,
            commit_a: commitment,
            commit_b: [0u8; 32],
            secret_a: [0u8; 32],
            secret_b: [0u8; 32],
            revealed_a: false,
            revealed_b: false,
            result_heads: false,
            settled: false,
            created_at,
        },
    )
}

/// Why a join is rejected, or nothing if it is accepted.
pub open spec fn join_coin_flip_err(flip: CoinFlip, player: [u8; 32]) -> Option<ArenaError> {
    if !is_all_zero(flip.player_b) {
        Some(ArenaError::NotOpen)
    } else if player == flip.player_a {
        Some(ArenaError::CantPlaySelf)
    } else {
        None
    }
}

/// A second participant joins an open flip with a matching stake and its own
/// commitment.
pub fn join_coin_flip(flip: &mut CoinFlip, player: [u8; 32], commitment: [u8; 32]) -> (r: Result<
    (),
    ArenaError,
>)
    requires
        old(flip).wf(),
    ensures
        final(flip).wf(),
        match r {
            Ok(()) => {
                &&& join_coin_flip_err(*old(flip), player) is None
                &&& *final(flip) == (CoinFlip { player_b: player, commit_b: commitment, ..*old(flip) })
            },
            Err(e) => join_coin_flip_err(*old(flip), player) == Some(e) && *final(flip) == *old(
                flip,
            ),
        },
{
    if !bytes32_is_zero(&flip.player_b) {
        return Err(ArenaError::NotOpen);
    }
    if bytes32_eq(&player, &flip.player_a) {
        return Err(ArenaError::CantPlaySelf);
    }
    flip.player_b = player;
    flip.commit_b = commitment;
    Ok(())
}

/// Why a reveal is rejected, or nothing if it is accepted.
pub open spec fn reveal_flip_err(flip: CoinFlip, caller: [u8; 32], secret: [u8; 32]) -> Option<
    ArenaError,
> {
    if flip.settled {
        Some(ArenaError::AlreadySettled)
    } else if caller != flip.player_a && caller != flip.player_b {
        Some(ArenaError::NotPlayer)
    } else if caller == flip.player_a {
        if flip.revealed_a {
            Some(ArenaError::AlreadyRevealed)
        } else if !verifies(flip.commit_a@, secret@) {
            Some(ArenaError::CommitmentMismatch)
        } else {
            None
        }
    } else {
        if flip.revealed_b {
            Some(ArenaError::AlreadyRevealed)
        } else if !verifies(flip.commit_b@, secret@) {
            Some(ArenaError::CommitmentMismatch)
        } else {
            None
        }
    }
}

/// How an accepted reveal changes the flip. The caller's secret is stored
/// and its side marked revealed; once both sides have revealed, the outcome
/// is derived from the combined digest and the flip becomes terminal.
pub open spec fn reveal_flip_transition(
    pre: CoinFlip,
    post: CoinFlip,
    caller: [u8; 32],
    secret: [u8; 32],
) -> bool {
    let is_a = caller == pre.player_a;
    let both = if is_a {
        pre.revealed_b
    } else {
        pre.revealed_a
    };
    &&& post.player_a == pre.player_a
    &&& post.player_b == pre.player_b
    &&& post.wager == pre.wager
    &&& post.commit_a == pre.commit_a
    &&& post.commit_b == pre.commit_b
    &&& post.created_at == pre.created_at
    &&& post.secret_a == (if is_a { secret } else { pre.secret_a })
    &&& post.secret_b == (if is_a { pre.secret_b } else { secret })
    &&& post.revealed_a == (is_a || pre.revealed_a)
    &&& post.revealed_b == (!is_a || pre.revealed_b)
    &&& post.settled == both
    &&& post.result_heads == (if both {
        heads_of(post.secret_a@, post.secret_b@)
    } else {
        pre.result_heads
    })
}

/// Reveals the caller's secret after checking it against the stored
/// commitment; the second reveal derives the outcome and settles the flip.
pub fn reveal_flip_secret(flip: &mut CoinFlip, caller: [u8; 32], secret: [u8; 32]) -> (r: Result<
    (),
    ArenaError,
>)
    requires
        old(flip).wf(),
    ensures
        final(flip).wf(),
        match r {
            Ok(()) => {
                &&& reveal_flip_err(*old(flip), caller, secret) is None
                &&& reveal_flip_transition(*old(flip), *final(flip), caller, secret)
            },
            Err(e) => reveal_flip_err(*old(flip), caller, secret) == Some(e) && *final(flip)
                == *old(flip),
        },
{
    if flip.settled {
        return Err(ArenaError::AlreadySettled);
    }
    let is_a = bytes32_eq(&caller, &flip.player_a);
    let is_b = bytes32_eq(&caller, &flip.player_b);
    if !is_a && !is_b {
        return Err(ArenaError::NotPlayer);
    }
    if is_a {
        if flip.revealed_a {
            return Err(ArenaError::AlreadyRevealed);
        }
        if !verify(&flip.commit_a, secret.as_slice()) {
            return Err(ArenaError::CommitmentMismatch);
        }
        flip.secret_a = secret;
        flip.revealed_a = true;
    } else {
        if flip.revealed_b {
            return Err(ArenaError::AlreadyRevealed);
        }
        if !verify(&flip.commit_b, secret.as_slice()) {
            return Err(ArenaError::CommitmentMismatch);
        }
        flip.secret_b = secret;
        flip.revealed_b = true;
    }
    if flip.revealed_a && flip.revealed_b {
        let heads = combined_heads(&flip.secret_a, &flip.secret_b);
        flip.result_heads = heads;
        flip.settled = true;
    }
    Ok(())
}

/// Whether the last byte of a digest is even: the heads side of the derived
/// outcome.
pub fn heads_from_digest(digest: &[u8; 32]) -> (h: bool)
    ensures
        h == (digest@[31] % 2 == 0),
{
    digest[31] % 2 == 0
}

/// Concatenates the two revealed secrets, hashes them, and reads the
/// outcome off the last byte of the digest.
fn combined_heads(secret_a: &[u8; 32], secret_b: &[u8; 32]) -> (h: bool)
    ensures
        h == heads_of(secret_a@, secret_b@),
{
    let mut combined: Vec<u8> = Vec::new();
    crate::commitment::push_bytes32(&mut combined, secret_a);
    crate::commitment::push_bytes32(&mut combined, secret_b);
    assert(combined@ =~= secret_a@ + secret_b@);
    let digest = crate::commitment::keccak256(combined.as_slice());
    heads_from_digest(&digest)
}

} // verus!
