//! The best-of-three choice-game state machine.
//!
//! A match is opened by one participant with a stake, joined by a second with
//! a matching stake, and then played over up to three rounds. Each round both
//! sides first commit to a hidden choice and then reveal it; the round
//! resolver scores decisive rounds and draws are replayed from scratch. The
//! first side to two round wins takes the match, which then becomes terminal
//! and awaits settlement.

use vstd::prelude::*;

use crate::commitment::bytes32_eq;
use crate::commitment::bytes32_is_zero;
use crate::commitment::choice_material;
use crate::commitment::choice_material_bytes;
use crate::commitment::is_all_zero;
use crate::commitment::verifies;
use crate::commitment::verify;
use crate::commitment::zero32;
use crate::errors::ArenaError;
use crate::round::RoundOutcome;
use crate::round::beats;
use crate::round::resolve_round;
use crate::round::valid_choice;

verus! {

/// The phase a choice-game match is in. The committing and revealing
/// sub-phases of a round are tracked implicitly by which slots are filled.
#[derive(Clone, Copy, PartialEq, Eq, Structural, Debug)]
pub enum MatchPhase {
    /// Awaiting a second participant.
    Open,
    /// Rounds in progress: participants are committing.
    Committing,
    /// Rounds in progress: participants are revealing.
    Revealing,
    /// Terminal: one side has reached two round wins.
    Finished,
}

/// A best-of-three choice-game match between two participants.
#[derive(Clone, Debug)]
pub struct RpsMatch {
    /// The participant that opened the match.
    pub player_a: [u8; 32],
    /// The participant that joined; all zeroes while the match is open.
    pub player_b: [u8; 32],
    /// The stake each side escrows.
    pub wager: u64,
    /// The phase the match is in.
    pub phase: MatchPhase,
    /// Round wins of the opening side.
    pub score_a: u8,
    /// Round wins of the joining side.
    pub score_b: u8,
    /// The round being played, 0 to 3.
    pub current_round: u8,
    /// Whether the match has reached its terminal state.
    pub settled: bool,
    /// When the match was opened.
    pub created_at: i64,
    /// Per-round commitment digests of the opening side; all-zero means
    /// not yet committed.
    pub commits_a: [[u8; 32]; 3],
    /// Per-round commitment digests of the joining side.
    pub commits_b: [[u8; 32]; 3],
    /// Per-round revealed choices of the opening side; 0 means not yet
    /// revealed.
    pub choices_a: [u8; 3],
    /// Per-round revealed choices of the joining side.
    pub choices_b: [u8; 3],
}

impl RpsMatch {
    /// The match invariant: scores are bounded by the best-of-three win
    /// condition, the round index counts exactly the decisive rounds, the
    /// terminal flag agrees with the scores and with the phase, and every
    /// revealed slot holds either the empty sentinel or a valid choice.
    pub open spec fn wf(self) -> bool {
        &&& self.score_a <= 2
        &&& self.score_b <= 2
        &&& self.current_round <= 3
        &&& self.current_round == self.score_a + self.score_b
        &&& (self.settled <==> (self.score_a == 2 || self.score_b == 2))
        &&& ((self.phase == MatchPhase::Finished) <==> self.settled)
        &&& forall|i: int|
            0 <= i < 3 ==> (#[trigger] self.choices_a@[i] == 0 || valid_choice(self.choices_a@[i]))
        &&& forall|i: int|
            0 <= i < 3 ==> (#[trigger] self.choices_b@[i] == 0 || valid_choice(self.choices_b@[i]))
    }
}

/// Opens a new match: the creator stakes a positive wager, all round slots
/// start empty, and the second participant slot is the empty sentinel.
pub fn create_rps_match(player: [u8; 32], wager: u64, created_at: i64) -> (r: Result<
    RpsMatch,
    ArenaError,
>)
    ensures
        match r {
            Ok(m) => {
                &&& wager > 0
                &&& m.wf()
                &&& m.player_a == player
                &&& m.player_b == zero32()
                &&& m.wager == wager
                &&& m.phase == MatchPhase::Open
                &&& m.score_a == 0
                &&& m.score_b == 0
                &&& m.current_round == 0
                &&& !m.settled
                &&& m.created_at == created_at
                &&& forall|i: int| 0 <= i < 3 ==> #[trigger] m.commits_a@[i] == zero32()
                &&& forall|i: int| 0 <= i < 3 ==> #[trigger] m.commits_b@[i] == zero32()
                &&& forall|i: int| 0 <= i < 3 ==> #[trigger] m.choices_a@[i] == 0
                &&& forall|i: int| 0 <= i < 3 ==> #[trigger] m.choices_b@[i] == 0
            },
            Err(e) => e == ArenaError::ZeroWager && wager == 0,
        },
{
    if wager == 0 {
        return Err(ArenaError::ZeroWager);
    }
    Ok(
        RpsMatch {
            player_a: player,
            player_b: [0u8; 32],
            wager,
            phase: MatchPhase::Open,
            score_a: 0,
            score_b: 0,
            current_round: 0,
            settled: false,
            created_at,
            commits_a: [[0u8; 32]; 3],
            commits_b: [[0u8; 32]; 3],
            choices_a: [0u8; 3],
            choices_b: [0u8; 3],
        },
    )
}

/// Why a join is rejected, or nothing if it is accepted.
pub open spec fn join_rps_err(m: RpsMatch, player: [u8; 32]) -> Option<ArenaError> {
    if m.phase != MatchPhase::Open {
        Some(ArenaError::NotOpen)
    } else if player == m.player_a {
        Some(ArenaError::CantPlaySelf)
    } else {
        None
    }
}

/// A second participant joins an open match with a matching stake and the
/// match moves to the committing phase.
pub fn join_rps_match(m: &mut RpsMatch, player: [u8; 32]) -> (r: Result<(), ArenaError>)
    requires
        old(m).wf(),
    ensures
        final(m).wf(),
        match r {
            Ok(()) => {
                &&& join_rps_err(*old(m), player) is None
                &&& *final(m) == (RpsMatch {
                    player_b: player,
                    phase: MatchPhase::Committing,
                    ..*old(m)
                })
            },
            Err(e) => join_rps_err(*old(m), player) == Some(e) && *final(m) == *old(m),
        },
{
    if m.phase != MatchPhase::Open {
        return Err(ArenaError::NotOpen);
    }
    if bytes32_eq(&player, &m.player_a) {
        return Err(ArenaError::CantPlaySelf);
    }
    m.player_b = player;
    m.phase = MatchPhase::Committing;
    Ok(())
}

/// Why a commit is rejected, or nothing if it is accepted.
pub open spec fn commit_choice_err(m: RpsMatch, caller: [u8; 32]) -> Option<ArenaError> {
    let r = m.current_round as int;
    if m.settled {
        Some(ArenaError::AlreadySettled)
    } else if m.current_round >= 3 {
        Some(ArenaError::InvalidRound)
    } else if caller != m.player_a && caller != m.player_b {
        Some(ArenaError::NotPlayer)
    } else if caller == m.player_a && !is_all_zero(m.commits_a@[r]) {
        Some(ArenaError::AlreadyCommitted)
    } else if caller != m.player_a && !is_all_zero(m.commits_b@[r]) {
        Some(ArenaError::AlreadyCommitted)
    } else {
        None
    }
}

/// Stores the caller's commitment digest for the current round. A slot can
/// only be filled while it holds the empty sentinel: a second commit for the
/// same round and side is rejected without any change.
pub fn commit_choice(m: &mut RpsMatch, caller: [u8; 32], commitment: [u8; 32]) -> (r: Result<
    (),
    ArenaError,
>)
    requires
        old(m).wf(),
    ensures
        final(m).wf(),
        match r {
            Ok(()) => {
                &&& commit_choice_err(*old(m), caller) is None
                &&& if caller == old(m).player_a {
                    *final(m) == (RpsMatch {
                        commits_a: vstd::array::spec_array_update(
                            old(m).commits_a,
                            old(m).current_round as int,
                            commitment,
                        ),
                        ..*old(m)
                    })
                } else {
                    *final(m) == (RpsMatch {
                        commits_b: vstd::array::spec_array_update(
                            old(m).commits_b,
                            old(m).current_round as int,
                            commitment,
                        ),
                        ..*old(m)
                    })
                }
            },
            Err(e) => commit_choice_err(*old(m), caller) == Some(e) && *final(m) == *old(m),
        },
{
    if m.settled {
        return Err(ArenaError::AlreadySettled);
    }
    let round = m.current_round as usize;
    if round >= 3 {
        return Err(ArenaError::InvalidRound);
    }
    let is_a = bytes32_eq(&caller, &m.player_a);
    let is_b = bytes32_eq(&caller, &m.player_b);
    if !is_a && !is_b {
        return Err(ArenaError::NotPlayer);
    }
    if is_a {
        if !bytes32_is_zero(&m.commits_a[round]) {
            return Err(ArenaError::AlreadyCommitted);
        }
        m.commits_a[round] = commitment;
        assert(m.commits_a =~= vstd::array::spec_array_update(
            old(m).commits_a,
            round as int,
            commitment,
        ));
    } else {
        if !bytes32_is_zero(&m.commits_b[round]) {
            return Err(ArenaError::AlreadyCommitted);
        }
        m.commits_b[round] = commitment;
        assert(m.commits_b =~= vstd::array::spec_array_update(
            old(m).commits_b,
            round as int,
            commitment,
        ));
    }
    Ok(())
}

/// Why a reveal is rejected, or nothing if it is accepted.
pub open spec fn reveal_choice_err(
    m: RpsMatch,
    caller: [u8; 32],
    choice: u8,
    salt: Seq<u8>,
) -> Option<ArenaError> {
    let r = m.current_round as int;
    if m.settled {
        Some(ArenaError::AlreadySettled)
    } else if !valid_choice(choice) {
        Some(ArenaError::InvalidChoice)
    } else if m.current_round >= 3 {
        Some(ArenaError::InvalidRound)
    } else if caller != m.player_a && caller != m.player_b {
        Some(ArenaError::NotPlayer)
    } else if caller == m.player_a {
        if !verifies(m.commits_a@[r]@, choice_material(choice, salt)) {
            Some(ArenaError::CommitmentMismatch)
        } else if m.choices_a@[r] != 0 {
            Some(ArenaError::AlreadyRevealed)
        } else {
            None
        }
    } else {
        if !verifies(m.commits_b@[r]@, choice_material(choice, salt)) {
            Some(ArenaError::CommitmentMismatch)
        } else if m.choices_b@[r] != 0 {
            Some(ArenaError::AlreadyRevealed)
        } else {
            None
        }
    }
}

/// How an accepted reveal changes the match. The caller's choice is recorded
/// for the current round; once both sides have revealed, the round resolves:
/// a draw resets both sides' slots for that round and leaves the round index
/// and the scores unchanged, while a decisive round scores the winning side
/// and advances the round index. The match becomes terminal as soon as one
/// side reaches two round wins.
pub open spec fn reveal_choice_transition(
    pre: RpsMatch,
    post: RpsMatch,
    caller: [u8; 32],
    choice: u8,
) -> bool {
    let r = pre.current_round as int;
    let is_a = caller == pre.player_a;
    let a = if is_a { choice } else { pre.choices_a@[r] };
    let b = if is_a { pre.choices_b@[r] } else { choice };
    &&& post.player_a == pre.player_a
    &&& post.player_b == pre.player_b
    &&& post.wager == pre.wager
    &&& post.created_at == pre.created_at
    &&& if a == 0 || b == 0 {
        // The opponent has not revealed yet: only the caller's choice is recorded.
        &&& post.choices_a@ == (if is_a { pre.choices_a@.update(r, choice) } else { pre.choices_a@ })
        &&& post.choices_b@ == (if is_a { pre.choices_b@ } else { pre.choices_b@.update(r, choice) })
        &&& post.commits_a == pre.commits_a
        &&& post.commits_b == pre.commits_b
        &&& post.score_a == pre.score_a
        &&& post.score_b == pre.score_b
        &&& post.current_round == pre.current_round
        &&& post.settled == pre.settled
        &&& post.phase == pre.phase
    } else if a == b {
        // Draw: the round is replayed from scratch.
        &&& post.choices_a@ == pre.choices_a@.update(r, 0u8)
        &&& post.choices_b@ == pre.choices_b@.update(r, 0u8)
        &&& post.commits_a@ == pre.commits_a@.update(r, zero32())
        &&& post.commits_b@ == pre.commits_b@.update(r, zero32())
        &&& post.score_a == pre.score_a
        &&& post.score_b == pre.score_b
        &&& post.current_round == pre.current_round
        &&& post.settled == pre.settled
        &&& post.phase == pre.phase
    } else {
        // Decisive: the winning side scores and the round index advances.
        &&& post.choices_a@ == (if is_a { pre.choices_a@.update(r, choice) } else { pre.choices_a@ })
        &&& post.choices_b@ == (if is_a { pre.choices_b@ } else { pre.choices_b@.update(r, choice) })
        &&& post.commits_a == pre.commits_a
        &&& post.commits_b == pre.commits_b
        &&& post.score_a == pre.score_a + (if beats(a, b) { 1int } else { 0int })
        &&& post.score_b == pre.score_b + (if beats(a, b) { 0int } else { 1int })
        &&& post.current_round == pre.current_round + 1
        &&& (post.settled <==> (post.score_a >= 2 || post.score_b >= 2))
        &&& post.phase == (if post.settled { MatchPhase::Finished } else { pre.phase })
    }
}

/// Reveals the caller's choice for the current round after checking it
/// against the stored commitment, and resolves the round once both sides
/// have revealed.
pub fn reveal_choice(m: &mut RpsMatch, caller: [u8; 32], choice: u8, salt: [u8; 32]) -> (r: Result<
    (),
    ArenaError,
>)
    requires
        old(m).wf(),
    ensures
        final(m).wf(),
        match r {
            Ok(()) => {
                &&& reveal_choice_err(*old(m), caller, choice, salt@) is None
                &&& reveal_choice_transition(*old(m), *final(m), caller, choice)
            },
            Err(e) => reveal_choice_err(*old(m), caller, choice, salt@) == Some(e) && *final(m)
                == *old(m),
        },
{
    if m.settled {
        return Err(ArenaError::AlreadySettled);
    }
    if choice < 1 || choice > 3 {
        return Err(ArenaError::InvalidChoice);
    }
    let round = m.current_round as usize;
    if round >= 3 {
        return Err(ArenaError::InvalidRound);
    }
    let is_a = bytes32_eq(&caller, &m.player_a);
    let is_b = bytes32_eq(&caller, &m.player_b);
    if !is_a && !is_b {
        return Err(ArenaError::NotPlayer);
    }
    let material = choice_material_bytes(choice, &salt);
    if is_a {
        if !verify(&m.commits_a[round], material.as_slice()) {
            return Err(ArenaError::CommitmentMismatch);
        }
        if m.choices_a[round] != 0 {
            return Err(ArenaError::AlreadyRevealed);
        }
        m.choices_a[round] = choice;
    } else {
        if !verify(&m.commits_b[round], material.as_slice()) {
            return Err(ArenaError::CommitmentMismatch);
        }
        if m.choices_b[round] != 0 {
            return Err(ArenaError::AlreadyRevealed);
        }
        m.choices_b[round] = choice;
    }
    if m.choices_a[round] != 0 && m.choices_b[round] != 0 {
        let a = m.choices_a[round];
        let b = m.choices_b[round];
        match resolve_round(a, b) {
            RoundOutcome::Draw => {
                // Replay the round from scratch: reset both sides' slots.
                m.commits_a[round] = [0u8; 32];
                m.commits_b[round] = [0u8; 32];
                m.choices_a[round] = 0;
                m.choices_b[round] = 0;
                assert(m.choices_a@ =~= old(m).choices_a@.update(round as int, 0u8));
                assert(m.choices_b@ =~= old(m).choices_b@.update(round as int, 0u8));
            },
            RoundOutcome::AWins => {
                m.score_a = m.score_a + 1;
                m.current_round = m.current_round + 1;
            },
            RoundOutcome::BWins => {
                m.score_b = m.score_b + 1;
                m.current_round = m.current_round + 1;
            },
        }
        if m.score_a >= 2 || m.score_b >= 2 {
            m.phase = MatchPhase::Finished;
            m.settled = true;
        }
    }
    Ok(())
}

/// A drawn round never changes the round index, the scores or the terminal
/// flag, and always resets both sides' commitment and choice slots for that
/// round to the empty sentinel.
pub proof fn lemma_draw_replays_round(pre: RpsMatch, post: RpsMatch, caller: [u8; 32], choice: u8)
    requires
        pre.wf(),
        !pre.settled,
        reveal_choice_transition(pre, post, caller, choice),
        ({
            let r = pre.current_round as int;
            let is_a = caller == pre.player_a;
            let a = if is_a {
                choice
            } else {
                pre.choices_a@[r]
            };
            let b = if is_a {
                pre.choices_b@[r]
            } else {
                choice
            };
            a != 0 && b != 0 && a == b
        }),
    ensures
        post.score_a == pre.score_a,
        post.score_b == pre.score_b,
        post.current_round == pre.current_round,
        post.settled == pre.settled,
        post.phase == pre.phase,
        post.choices_a@[pre.current_round as int] == 0,
        post.choices_b@[pre.current_round as int] == 0,
        post.commits_a@[pre.current_round as int] == zero32(),
        post.commits_b@[pre.current_round as int] == zero32(),
{
}

/// Of a settled match exactly one side has reached two round wins; the other
/// side stays at one or less, and the scores together never exceed the three
/// decisive rounds actually played.
pub proof fn lemma_settled_has_unique_winner(m: RpsMatch)
    requires
        m.wf(),
        m.settled,
    ensures
        (m.score_a == 2 && m.score_b <= 1) || (m.score_b == 2 && m.score_a <= 1),
        m.score_a + m.score_b <= 3,
        m.score_a + m.score_b == m.current_round,
{
}

} // verus!
