//! What holds of the game's rules across more than one step.

use vstd::prelude::*;
use crate::game::{capped_sum, Command, GameMode, StateView};
use crate::powerup::{
    aged_effects, doubles_score, ActivePowerUp, PowerUpType, DOUBLE_SCORE_DURATION,
};
use crate::rolls::{ObstacleRolls, Rolls};

verus! {

/// A shield takes exactly one hit. The hit that it takes costs no life, moves
/// nothing and leaves the game in its mode, but the shield is gone. The player
/// is then still hit, and a second resolution in the same tick costs a life:
/// the last one ends the game.
pub proof fn lemma_shield_absorbs_once(state: StateView, first: ObstacleRolls, second: ObstacleRolls)
    requires
        state.collides(),
        state.shield_active,
    ensures
        ({
            let absorbed = state.collisions_checked(first);
            let again = absorbed.collisions_checked(second);
            &&& absorbed == (StateView {
                shield_active: false,
                shield_timer: 0,
                combo_count: 0,
                ..state
            })
            &&& absorbed.collides()
            &&& again == absorbed.hit_taken(second)
            &&& !again.shield_active
            &&& state.lives > 1 ==> again.lives == state.lives - 1 && again.mode == state.mode
            &&& state.lives <= 1 ==> again.lives == 0 && again.mode == GameMode::End
        }),
{
}

/// The end of a tick ends the game exactly when the player is hit without a
/// shield and has no more than one life. The game then ends with no lives.
/// Lives are never negative.
pub proof fn lemma_game_over_without_lives(state: StateView, rolls: ObstacleRolls)
    requires
        state.lives >= 0,
        state.mode != GameMode::End,
    ensures
        ({
            let after = state.collisions_checked(rolls);
            &&& after.mode == GameMode::End <==> state.collides() && !state.shield_active
                && state.lives <= 1
            &&& after.mode == GameMode::End ==> after.lives == 0
            &&& after.mode != GameMode::End ==> after.mode == state.mode
            &&& after.lives >= 0
        }),
{
}

/// Once the game is over, a tick leaves the score, the lives and the level as
/// they are, unless it starts a new game. It hands the score out for storing
/// if that has not been done, and after it no later tick of this game does.
pub proof fn lemma_score_persisted_once(
    state: StateView,
    command: Option<Command>,
    elapsed: int,
    rolls: Rolls,
    next_command: Option<Command>,
)
    requires
        state.mode == GameMode::End,
    ensures
        ({
            let after = state.stepped(command, elapsed, rolls);
            &&& state.outcome(command).persist.is_some() == !state.score_saved
            &&& command != Some(Command::Replay) ==> {
                &&& after.score_saved
                &&& after.score == state.score
                &&& after.lives == state.lives
                &&& after.selected_difficulty == state.selected_difficulty
                &&& after.mode != GameMode::Playing
                &&& after.outcome(next_command).persist is None
            }
            &&& command == Some(Command::Replay) ==> {
                &&& after.mode == GameMode::Playing
                &&& !after.score_saved
                &&& after.score == 0
            }
        }),
{
}

/// The game is over only after a tick of play: no other mode leads there.
pub proof fn lemma_game_over_from_play_only(
    state: StateView,
    command: Option<Command>,
    elapsed: int,
    rolls: Rolls,
)
    requires
        state.mode != GameMode::End,
        state.mode != GameMode::Playing,
    ensures
        state.stepped(command, elapsed, rolls).mode != GameMode::End,
{
}

/// Every effect that is left after aging is one of the effects before, with
/// time left, and that much older.
pub proof fn lemma_aged_effects_from(effects: Seq<ActivePowerUp>, upto: nat, elapsed: int)
    requires
        upto <= effects.len(),
    ensures
        forall|j: int|
            0 <= j < aged_effects(effects, upto, elapsed).len() ==> exists|k: int|
                0 <= k < upto && effects[k].timer > elapsed && (#[trigger] aged_effects(
                    effects,
                    upto,
                    elapsed,
                )[j]) == effects[k].aged(elapsed),
    decreases upto,
{
    if upto > 0 {
        let rest = aged_effects(effects, (upto - 1) as nat, elapsed);
        let all = aged_effects(effects, upto, elapsed);
        lemma_aged_effects_from(effects, (upto - 1) as nat, elapsed);
        assert forall|j: int| 0 <= j < all.len() implies exists|k: int|
            0 <= k < upto && effects[k].timer > elapsed && (#[trigger] all[j]) == effects[k].aged(
                elapsed,
            ) by {
            if j < rest.len() {
                assert(all[j] == rest[j]);
                let k = choose|k: int|
                    0 <= k < upto - 1 && effects[k].timer > elapsed && rest[j] == effects[k].aged(
                        elapsed,
                    );
                assert(0 <= k < upto && effects[k].timer > elapsed && all[j] == effects[k].aged(
                    elapsed,
                ));
            } else {
                let k = upto - 1;
                assert(0 <= k < upto && effects[k].timer > elapsed && all[j] == effects[k].aged(
                    elapsed,
                ));
            }
        }
    }
}

/// While double scoring runs, a pass counts two points: collecting it makes
/// the next pass add two to the score.
pub proof fn lemma_double_score_counts_twice(state: StateView, rolls: ObstacleRolls)
    requires
        !state.collides(),
        state.passes(),
    ensures
        ({
            let doubled = state.activated(PowerUpType::DoubleScore);
            &&& doubles_score(doubled.active_powerups)
            &&& doubled.collisions_checked(rolls).score == capped_sum(state.score, 2)
            &&& !doubles_score(state.active_powerups) ==> state.collisions_checked(rolls).score
                == capped_sum(state.score, 1)
        }),
{
    let doubled = state.activated(PowerUpType::DoubleScore);
    let last = state.active_powerups.len() as int;
    assert(doubled.active_powerups[last].power_type == PowerUpType::DoubleScore);
}

/// Double scoring runs out: where no other effect doubles the score, a pass
/// counts one point again once the time of the collected one has passed.
pub proof fn lemma_double_score_runs_out(state: StateView, elapsed: int, rolls: ObstacleRolls)
    requires
        !state.collides(),
        state.passes(),
        !doubles_score(state.active_powerups),
        elapsed >= DOUBLE_SCORE_DURATION,
    ensures
        ({
            let expired = state.activated(PowerUpType::DoubleScore).effects_aged(elapsed);
            &&& !doubles_score(expired.active_powerups)
            &&& expired.collisions_checked(rolls).score == capped_sum(state.score, 1)
        }),
{
    let doubled = state.activated(PowerUpType::DoubleScore);
    let effects = doubled.active_powerups;
    let expired = doubled.effects_aged(elapsed);
    let left = expired.active_powerups;
    lemma_aged_effects_from(effects, effects.len(), elapsed);
    assert forall|j: int| 0 <= j < left.len() implies (#[trigger] left[j]).power_type
        != PowerUpType::DoubleScore by {
        let k = choose|k: int|
            0 <= k < effects.len() && effects[k].timer > elapsed && left[j] == effects[k].aged(
                elapsed,
            );
        if k < state.active_powerups.len() {
            assert(effects[k] == state.active_powerups[k]);
        }
    }
}

/// Aging in two parts is aging by their sum.
pub proof fn lemma_aging_adds_up(effects: Seq<ActivePowerUp>, upto: nat, first: int, second: int)
    requires
        upto <= effects.len(),
        first >= 0,
        second >= 0,
    ensures
        ({
            let once = aged_effects(effects, upto, first);
            aged_effects(once, once.len(), second) == aged_effects(effects, upto, first + second)
        }),
    decreases upto,
{
    let once = aged_effects(effects, upto, first);
    if upto == 0 {
        assert(aged_effects(once, once.len(), second) =~= aged_effects(
            effects,
            upto,
            first + second,
        ));
    } else {
        let rest = aged_effects(effects, (upto - 1) as nat, first);
        lemma_aging_adds_up(effects, (upto - 1) as nat, first, second);
        let aged = effects[upto - 1].aged(first);
        if aged.timer > 0 {
            assert(once == rest.push(aged));
            lemma_aged_prefix(once, rest, rest.len(), second);
            assert(aged.aged(second) == effects[upto - 1].aged(first + second));
        } else {
            assert(effects[upto - 1].aged(first + second).timer == 0);
        }
    }
}

/// Aging the beginning of a list looks at that beginning only.
pub proof fn lemma_aged_prefix(
    longer: Seq<ActivePowerUp>,
    shorter: Seq<ActivePowerUp>,
    upto: nat,
    elapsed: int,
)
    requires
        upto <= shorter.len() <= longer.len(),
        forall|i: int| 0 <= i < upto ==> longer[i] == shorter[i],
    ensures
        aged_effects(longer, upto, elapsed) == aged_effects(shorter, upto, elapsed),
    decreases upto,
{
    if upto > 0 {
        lemma_aged_prefix(longer, shorter, (upto - 1) as nat, elapsed);
    }
}

/// The order in which two effects start makes no difference, so power-ups
/// that are collected in the same tick are collected together.
pub proof fn lemma_effects_commute(state: StateView, first: PowerUpType, second: PowerUpType)
    requires
        state.lives >= 0,
    ensures
        state.activated(first).activated(second) == state.activated(second).activated(first),
{
    let one = state.activated(first).activated(second);
    let other = state.activated(second).activated(first);
    assert(one.active_powerups =~= other.active_powerups);
}

} // verus!
