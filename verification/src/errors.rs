//! The conditions on which an operation is rejected.
//!
//! Every precondition failure rejects the whole operation with one of these
//! named conditions; a rejected operation never changes any record. All of
//! them are recoverable by the caller: retry with corrected input, or wait
//! for the right phase.

use vstd::prelude::*;

verus! {

/// Why an operation was rejected.
#[derive(Clone, Copy, PartialEq, Eq, Structural, Debug)]
pub enum ArenaError {
    /// The wager must be greater than zero.
    ZeroWager,
    /// The match is not open for joining.
    NotOpen,
    /// A participant cannot play against itself.
    CantPlaySelf,
    /// The caller is not a participant of this match.
    NotPlayer,
    /// The caller has already committed for this round.
    AlreadyCommitted,
    /// The caller has already revealed for this round.
    AlreadyRevealed,
    /// The revealed material does not hash to the stored commitment.
    CommitmentMismatch,
    /// The revealed choice is not one of the three options.
    InvalidChoice,
    /// The round index is out of range.
    InvalidRound,
    /// The match is already settled.
    AlreadySettled,
    /// The match is not settled yet.
    NotSettled,
}

impl ArenaError {
    /// A short description of the condition.
    pub fn message(&self) -> &'static str {
        match self {
            ArenaError::ZeroWager => "Wager must be greater than zero",
            ArenaError::NotOpen => "Match is not open",
            ArenaError::CantPlaySelf => "Cannot play against yourself",
            ArenaError::NotPlayer => "Not a player in this match",
            ArenaError::AlreadyCommitted => "Already committed",
            ArenaError::AlreadyRevealed => "Already revealed",
            ArenaError::CommitmentMismatch => "Commitment mismatch",
            ArenaError::InvalidChoice => "Invalid choice (must be 1-3)",
            ArenaError::InvalidRound => "Invalid round",
            ArenaError::AlreadySettled => "Match already settled",
            ArenaError::NotSettled => "Match not settled yet",
        }
    }
}

} // verus!
