//! The arena singleton and the per-player statistics record.
//!
//! The arena holds the process-wide configuration and counters: the owning
//! authority, cumulative match and player counts, the fee rate in basis
//! points, and the accumulated fee balance. The fee rate is fixed at creation
//! (250 basis points, 2.5%) and never changed by any operation.
//!
//! Each participant has one statistics record, created before first play and
//! mutated only by settlement. Its rating never drops below the floor of 100.

use vstd::prelude::*;

verus! {

/// The fee rate every arena is created with: 250 basis points, 2.5%.
pub const FEE_RATE_BPS: u16 = 250;

/// The rating every player starts with.
pub const INITIAL_RATING: u16 = 1200;

/// The floor below which no rating ever drops.
pub const RATING_FLOOR: u16 = 100;

/// Process-wide configuration and counters, created once.
pub struct Arena {
    /// The identity that created the arena.
    pub authority: [u8; 32],
    /// How many matches have been settled.
    pub total_matches: u64,
    /// How many players have registered.
    pub total_players: u64,
    /// The fee rate in basis points, fixed at creation.
    pub fee_rate_bps: u16,
    /// The accumulated fees, fed by every settlement.
    pub fee_balance: u64,
}

impl Arena {
    /// The arena's invariant: the fee rate is the one it was created with.
    pub open spec fn wf(self) -> bool {
        self.fee_rate_bps == FEE_RATE_BPS
    }
}

/// One participant's record: win/loss/draw counts, rating, and wagering
/// totals.
pub struct PlayerStats {
    /// The identity this record belongs to.
    pub authority: [u8; 32],
    /// Matches won.
    pub wins: u32,
    /// Matches lost.
    pub losses: u32,
    /// Matches drawn.
    pub draws: u32,
    /// The skill rating, never below the floor of 100.
    pub elo: u16,
    /// Total value ever staked.
    pub total_wagered: u64,
    /// Total value ever paid out to this player.
    pub total_won: u64,
    /// Matches played to completion.
    pub matches_played: u32,
}

impl PlayerStats {
    /// The record's invariant: the rating never drops below the floor.
    pub open spec fn wf(self) -> bool {
        self.elo >= RATING_FLOOR
    }
}

/// Creates the arena singleton owned by the given authority, with all
/// counters at zero and the fixed fee rate.
pub fn initialize(authority: [u8; 32]) -> (arena: Arena)
    ensures
        arena.wf(),
        arena.authority == authority,
        arena.total_matches == 0,
        arena.total_players == 0,
        arena.fee_rate_bps == FEE_RATE_BPS,
        arena.fee_balance == 0,
{
    Arena {
        authority,
        total_matches: 0,
        total_players: 0,
        fee_rate_bps: FEE_RATE_BPS,
        fee_balance: 0,
    }
}

/// Creates a fresh statistics record for the given identity and counts the
/// registration in the arena.
pub fn register_player(arena: &mut Arena, authority: [u8; 32]) -> (stats: PlayerStats)
    requires
        old(arena).total_players < u64::MAX,
    ensures
        stats.wf(),
        stats.authority == authority,
        stats.wins == 0,
        stats.losses == 0,
        stats.draws == 0,
        stats.elo == INITIAL_RATING,
        stats.total_wagered == 0,
        stats.total_won == 0,
        stats.matches_played == 0,
        final(arena).total_players == old(arena).total_players + 1,
        final(arena).authority == old(arena).authority,
        final(arena).total_matches == old(arena).total_matches,
        final(arena).fee_rate_bps == old(arena).fee_rate_bps,
        final(arena).fee_balance == old(arena).fee_balance,
{
    arena.total_players = arena.total_players + 1;
    PlayerStats {
        authority,
        wins: 0,
        losses: 0,
        draws: 0,
        elo: INITIAL_RATING,
        total_wagered: 0,
        total_won: 0,
        matches_played: 0,
    }
}

} // verus!
