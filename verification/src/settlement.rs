//! Settlement of a finished match and the rating update.
//!
//! The pot is twice the stake. The arena keeps a fee of
//! `floor(pot * fee_rate_bps / 10000)` and the winner receives the rest, so
//! payout and fee together always equal the pot exactly. Both participants'
//! statistics are updated, and the skill rating moves by a bounded, zero-sum
//! delta: the winner gains what the loser loses, except that no rating ever
//! drops below the floor of 100.
//!
//! The rating formula is a linear approximation bounded to a 400-point
//! difference, not the logistic Elo curve: with `diff` the rating gap capped
//! at 400, the expected winner score (scaled by 1000) is
//! `500 + diff * 500 / 400` when the winner was rated at least as high as the
//! loser, and `500 - diff * 500 / 400` otherwise; the delta is
//! `max(1, 32 * (1000 - expected) / 1000)`, always between 1 and 32.

use vstd::prelude::*;

use crate::arena::Arena;
use crate::arena::PlayerStats;
use crate::arena::RATING_FLOOR;
use crate::coin_flip::CoinFlip;
use crate::errors::ArenaError;
use crate::rps::RpsMatch;

verus! {

/// The pot of a match: both participants' stakes combined.
pub open spec fn pot_of(wager: u64) -> int {
    2 * wager
}

/// The fee the arena keeps out of the pot.
pub open spec fn fee_of(wager: u64, fee_rate_bps: u16) -> int {
    pot_of(wager) * fee_rate_bps / 10000
}

/// What the winner receives: the pot less the fee.
pub open spec fn payout_of(wager: u64, fee_rate_bps: u16) -> int {
    pot_of(wager) - fee_of(wager, fee_rate_bps)
}

/// The rating gap between winner and loser, capped at 400 points.
pub open spec fn rating_diff(winner: int, loser: int) -> int {
    let d = if winner >= loser {
        winner - loser
    } else {
        loser - winner
    };
    if d > 400 {
        400
    } else {
        d
    }
}

/// The winner's expected score, scaled by 1000: a linear ramp over the capped
/// rating gap.
pub open spec fn expected_winner_score(winner: int, loser: int) -> int {
    if winner >= loser {
        500 + rating_diff(winner, loser) * 500 / 400
    } else {
        500 - rating_diff(winner, loser) * 500 / 400
    }
}

/// How far both ratings move: at least 1, at most 32.
pub open spec fn rating_delta(winner: int, loser: int) -> int {
    let d = 32 * (1000 - expected_winner_score(winner, loser)) / 1000;
    if d < 1 {
        1
    } else {
        d
    }
}

/// The winner's rating after the match: raised by the delta, never below the
/// floor.
pub open spec fn winner_rating_after(winner: int, loser: int) -> int {
    let r = winner + rating_delta(winner, loser);
    if r < RATING_FLOOR {
        RATING_FLOOR as int
    } else {
        r
    }
}

/// The loser's rating after the match: lowered by the delta, never below the
/// floor.
pub open spec fn loser_rating_after(winner: int, loser: int) -> int {
    let r = loser - rating_delta(winner, loser);
    if r < RATING_FLOOR {
        RATING_FLOOR as int
    } else {
        r
    }
}

/// Computes the payout and the fee for a settled match.
pub fn settlement_amounts(wager: u64, fee_rate_bps: u16) -> (r: (u64, u64))
    requires
        wager <= u64::MAX / 2,
        fee_rate_bps <= 10000,
    ensures
        r.0 == payout_of(wager, fee_rate_bps),
        r.1 == fee_of(wager, fee_rate_bps),
        r.0 + r.1 == pot_of(wager),
{
    let pot = wager * 2;
    proof {
        assert(0 <= pot * fee_rate_bps <= pot * 10000 && pot * fee_rate_bps / 10000 <= pot) by (
        nonlinear_arith)
            requires
                0 <= pot,
                0 <= fee_rate_bps <= 10000,
        ;
    }
    let fee = ((pot as u128) * (fee_rate_bps as u128) / 10000) as u64;
    let payout = pot - fee;
    (payout, fee)
}

/// Computes the bounded rating delta from the two pre-match ratings.
pub fn compute_rating_delta(winner_elo: u16, loser_elo: u16) -> (delta: u16)
    ensures
        delta == rating_delta(winner_elo as int, loser_elo as int),
        1 <= delta <= 32,
{
    let w = winner_elo as u32;
    let l = loser_elo as u32;
    let gap: u32 = if w >= l {
        w - l
    } else {
        l - w
    };
    let diff: u32 = if gap > 400 {
        400
    } else {
        gap
    };
    let expected: u32 = if w >= l {
        500 + diff * 500 / 400
    } else {
        500 - diff * 500 / 400
    };
    let raw: u32 = 32 * (1000 - expected) / 1000;
    let delta: u32 = if raw < 1 {
        1
    } else {
        raw
    };
    delta as u16
}

/// How one settlement changes the winner's record.
pub open spec fn winner_stats_after(s: PlayerStats, loser_elo: u16, wager: u64, payout: u64) -> PlayerStats {
    PlayerStats {
        wins: (s.wins + 1) as u32,
        total_won: (s.total_won + payout) as u64,
        total_wagered: (s.total_wagered + wager) as u64,
        matches_played: (s.matches_played + 1) as u32,
        elo: winner_rating_after(s.elo as int, loser_elo as int) as u16,
        ..s
    }
}

/// How one settlement changes the loser's record.
pub open spec fn loser_stats_after(s: PlayerStats, winner_elo: u16, wager: u64) -> PlayerStats {
    PlayerStats {
        losses: (s.losses + 1) as u32,
        total_wagered: (s.total_wagered + wager) as u64,
        matches_played: (s.matches_played + 1) as u32,
        elo: loser_rating_after(winner_elo as int, s.elo as int) as u16,
        ..s
    }
}

/// Applies one settlement to the arena and to both participants' records and
/// returns the payout and the fee. Shared by both games at match
/// finalization: the caller derives who won and hands in the two records.
pub fn apply_settlement(
    arena: &mut Arena,
    winner_stats: &mut PlayerStats,
    loser_stats: &mut PlayerStats,
    wager: u64,
) -> (r: (u64, u64))
    requires
        old(arena).wf(),
        old(winner_stats).wf(),
        old(loser_stats).wf(),
        wager <= u64::MAX / 2,
        old(winner_stats).elo + 32 <= u16::MAX,
        old(winner_stats).wins < u32::MAX,
        old(winner_stats).matches_played < u32::MAX,
        old(winner_stats).total_won + payout_of(wager, old(arena).fee_rate_bps) <= u64::MAX,
        old(winner_stats).total_wagered + wager <= u64::MAX,
        old(loser_stats).losses < u32::MAX,
        old(loser_stats).matches_played < u32::MAX,
        old(loser_stats).total_wagered + wager <= u64::MAX,
        old(arena).total_matches < u64::MAX,
        old(arena).fee_balance + fee_of(wager, old(arena).fee_rate_bps) <= u64::MAX,
    ensures
        final(arena).wf(),
        final(winner_stats).wf(),
        final(loser_stats).wf(),
        r.0 == payout_of(wager, old(arena).fee_rate_bps),
        r.1 == fee_of(wager, old(arena).fee_rate_bps),
        r.0 + r.1 == pot_of(wager),
        *final(winner_stats) == winner_stats_after(
            *old(winner_stats),
            old(loser_stats).elo,
            wager,
            r.0,
        ),
        *final(loser_stats) == loser_stats_after(*old(loser_stats), old(winner_stats).elo, wager),
        *final(arena) == (Arena {
            total_matches: (old(arena).total_matches + 1) as u64,
            fee_balance: (old(arena).fee_balance + fee_of(wager, old(arena).fee_rate_bps)) as u64,
            ..*old(arena)
        }),
{
    let (payout, fee) = settlement_amounts(wager, arena.fee_rate_bps);

    winner_stats.wins = winner_stats.wins + 1;
    winner_stats.total_won = winner_stats.total_won + payout;
    winner_stats.total_wagered = winner_stats.total_wagered + wager;
    winner_stats.matches_played = winner_stats.matches_played + 1;

    loser_stats.losses = loser_stats.losses + 1;
    loser_stats.total_wagered = loser_stats.total_wagered + wager;
    loser_stats.matches_played = loser_stats.matches_played + 1;

    let delta = compute_rating_delta(winner_stats.elo, loser_stats.elo);
    let w_elo = winner_stats.elo;
    let l_elo = loser_stats.elo;
    winner_stats.elo = if w_elo + delta < RATING_FLOOR {
        RATING_FLOOR
    } else {
        w_elo + delta
    };
    loser_stats.elo = if l_elo < RATING_FLOOR + delta {
        RATING_FLOOR
    } else {
        l_elo - delta
    };

    arena.total_matches = arena.total_matches + 1;
    arena.fee_balance = arena.fee_balance + fee;

    (payout, fee)
}

/// Settles a finished choice-game match: the side with two round wins is the
/// winner, the pot is split into payout and fee, and both records and the
/// arena are updated. The winner and loser identities and the two amounts are
/// returned for the caller to move the escrowed value.
pub fn settle_rps(
    m: &RpsMatch,
    arena: &mut Arena,
    winner_stats: &mut PlayerStats,
    loser_stats: &mut PlayerStats,
) -> (r: Result<([u8; 32], [u8; 32], u64, u64), ArenaError>)
    requires
        old(arena).wf(),
        old(winner_stats).wf(),
        old(loser_stats).wf(),
        m.wager <= u64::MAX / 2,
        old(winner_stats).elo + 32 <= u16::MAX,
        old(winner_stats).wins < u32::MAX,
        old(winner_stats).matches_played < u32::MAX,
        old(winner_stats).total_won + payout_of(m.wager, old(arena).fee_rate_bps) <= u64::MAX,
        old(winner_stats).total_wagered + m.wager <= u64::MAX,
        old(loser_stats).losses < u32::MAX,
        old(loser_stats).matches_played < u32::MAX,
        old(loser_stats).total_wagered + m.wager <= u64::MAX,
        old(arena).total_matches < u64::MAX,
        old(arena).fee_balance + fee_of(m.wager, old(arena).fee_rate_bps) <= u64::MAX,
    ensures
        final(arena).wf(),
        final(winner_stats).wf(),
        final(loser_stats).wf(),
        match r {
            Ok(out) => {
                &&& m.settled
                &&& (if m.score_a >= 2 {
                    out.0 == m.player_a && out.1 == m.player_b
                } else {
                    out.0 == m.player_b && out.1 == m.player_a
                })
                &&& out.2 == payout_of(m.wager, old(arena).fee_rate_bps)
                &&& out.3 == fee_of(m.wager, old(arena).fee_rate_bps)
                &&& out.2 + out.3 == pot_of(m.wager)
                &&& *final(winner_stats) == winner_stats_after(
                    *old(winner_stats),
                    old(loser_stats).elo,
                    m.wager,
                    out.2,
                )
                &&& *final(loser_stats) == loser_stats_after(
                    *old(loser_stats),
                    old(winner_stats).elo,
                    m.wager,
                )
                &&& *final(arena) == (Arena {
                    total_matches: (old(arena).total_matches + 1) as u64,
                    fee_balance: (old(arena).fee_balance + fee_of(
                        m.wager,
                        old(arena).fee_rate_bps,
                    )) as u64,
                    ..*old(arena)
                })
            },
            Err(e) => {
                &&& e == ArenaError::NotSettled
                &&& !m.settled
                &&& *final(arena) == *old(arena)
                &&& *final(winner_stats) == *old(winner_stats)
                &&& *final(loser_stats) == *old(loser_stats)
            },
        },
{
    if !m.settled {
        return Err(ArenaError::NotSettled);
    }
    let (winner, loser) = if m.score_a >= 2 {
        (m.player_a, m.player_b)
    } else {
        (m.player_b, m.player_a)
    };
    let (payout, fee) = apply_settlement(arena, winner_stats, loser_stats, m.wager);
    Ok((winner, loser, payout, fee))
}

/// Settles a finished coin flip: heads pays the first participant, tails the
/// second. The pot split, the record updates and the returned values are the
/// same as for the choice game.
pub fn settle_coin_flip(
    flip: &CoinFlip,
    arena: &mut Arena,
    winner_stats: &mut PlayerStats,
    loser_stats: &mut PlayerStats,
) -> (r: Result<([u8; 32], [u8; 32], u64, u64), ArenaError>)
    requires
        old(arena).wf(),
        old(winner_stats).wf(),
        old(loser_stats).wf(),
        flip.wager <= u64::MAX / 2,
        old(winner_stats).elo + 32 <= u16::MAX,
        old(winner_stats).wins < u32::MAX,
        old(winner_stats).matches_played < u32::MAX,
        old(winner_stats).total_won + payout_of(flip.wager, old(arena).fee_rate_bps) <= u64::MAX,
        old(winner_stats).total_wagered + flip.wager <= u64::MAX,
        old(loser_stats).losses < u32::MAX,
        old(loser_stats).matches_played < u32::MAX,
        old(loser_stats).total_wagered + flip.wager <= u64::MAX,
        old(arena).total_matches < u64::MAX,
        old(arena).fee_balance + fee_of(flip.wager, old(arena).fee_rate_bps) <= u64::MAX,
    ensures
        final(arena).wf(),
        final(winner_stats).wf(),
        final(loser_stats).wf(),
        match r {
            Ok(out) => {
                &&& flip.settled
                &&& (if flip.result_heads {
                    out.0 == flip.player_a && out.1 == flip.player_b
                } else {
                    out.0 == flip.player_b && out.1 == flip.player_a
                })
                &&& out.2 == payout_of(flip.wager, old(arena).fee_rate_bps)
                &&& out.3 == fee_of(flip.wager, old(arena).fee_rate_bps)
                &&& out.2 + out.3 == pot_of(flip.wager)
                &&& *final(winner_stats) == winner_stats_after(
                    *old(winner_stats),
                    old(loser_stats).elo,
                    flip.wager,
                    out.2,
                )
                &&& *final(loser_stats) == loser_stats_after(
                    *old(loser_stats),
                    old(winner_stats).elo,
                    flip.wager,
                )
                &&& *final(arena) == (Arena {
                    total_matches: (old(arena).total_matches + 1) as u64,
                    fee_balance: (old(arena).fee_balance + fee_of(
                        flip.wager,
                        old(arena).fee_rate_bps,
                    )) as u64,
                    ..*old(arena)
                })
            },
            Err(e) => {
                &&& e == ArenaError::NotSettled
                &&& !flip.settled
                &&& *final(arena) == *old(arena)
                &&& *final(winner_stats) == *old(winner_stats)
                &&& *final(loser_stats) == *old(loser_stats)
            },
        },
{
    if !flip.settled {
        return Err(ArenaError::NotSettled);
    }
    let (winner, loser) = if flip.result_heads {
        (flip.player_a, flip.player_b)
    } else {
        (flip.player_b, flip.player_a)
    };
    let (payout, fee) = apply_settlement(arena, winner_stats, loser_stats, flip.wager);
    Ok((winner, loser, payout, fee))
}

/// Settlement conserves value: payout and fee together equal the pot of twice
/// the stake, exactly, for every stake and every fee rate up to 100%.
pub proof fn lemma_settlement_conserves_value(wager: u64, fee_rate_bps: u16)
    requires
        wager >= 1,
        fee_rate_bps <= 10000,
    ensures
        payout_of(wager, fee_rate_bps) + fee_of(wager, fee_rate_bps) == 2 * wager,
        0 <= fee_of(wager, fee_rate_bps) <= pot_of(wager),
{
    assert(pot_of(wager) * fee_rate_bps / 10000 <= pot_of(wager) && pot_of(wager) * fee_rate_bps
        >= 0) by (nonlinear_arith)
        requires
            fee_rate_bps <= 10000,
            pot_of(wager) >= 0,
    ;
}

/// The rating delta is always between 1 and 32.
pub proof fn lemma_rating_delta_bounded(winner: int, loser: int)
    requires
        winner >= 0,
        loser >= 0,
    ensures
        1 <= rating_delta(winner, loser) <= 32,
{
    assert(0 <= rating_diff(winner, loser) <= 400);
    assert(0 <= rating_diff(winner, loser) * 500 / 400 <= 500) by (nonlinear_arith)
        requires
            0 <= rating_diff(winner, loser) <= 400,
    ;
    assert(0 <= expected_winner_score(winner, loser) <= 1000);
    assert(0 <= 32 * (1000 - expected_winner_score(winner, loser)) / 1000 <= 32) by (
    nonlinear_arith)
        requires
            0 <= expected_winner_score(winner, loser) <= 1000,
    ;
}

/// The rating update is zero-sum: the winner gains exactly the delta the
/// loser loses, whenever the loser's rating stays above the floor; and for
/// any pre-ratings at or above the floor both post-ratings stay at or above
/// it. (When the floor catches the loser, the loser gives up less than the
/// winner gains; the floor itself still holds.)
pub proof fn lemma_rating_update_zero_sum(winner: int, loser: int)
    requires
        winner >= RATING_FLOOR,
        loser >= RATING_FLOOR,
    ensures
        winner_rating_after(winner, loser) >= RATING_FLOOR,
        loser_rating_after(winner, loser) >= RATING_FLOOR,
        loser - rating_delta(winner, loser) >= RATING_FLOOR ==> {
            &&& winner_rating_after(winner, loser) - winner == rating_delta(winner, loser)
            &&& loser - loser_rating_after(winner, loser) == rating_delta(winner, loser)
        },
{
    lemma_rating_delta_bounded(winner, loser);
}

} // verus!
