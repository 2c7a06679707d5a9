//! Settlement: the committed choice against the drawn one, and what that does to the
//! balances.

use vstd::prelude::*;
use crate::account::{RpsAccount, RpsReward, Signer, verify_owner};
use crate::choice::{Choice, GameError, beats, spec_beats};
use crate::draw::{draw_choice, spec_draw};
use crate::lifecycle::GAME_REWARD;

verus! {

/// How a settlement ended for the player.
#[derive(Clone, Copy, PartialEq, Eq, Structural, Debug)]
pub enum Outcome {
    Win,
    Draw,
    Loss,
}

/// The records that a settlement touches.
#[derive(Clone, Copy, Debug)]
pub struct GetWinner {
    pub reward_account: RpsReward,
    pub rps_account: RpsAccount,
    pub signer: Signer,
}

/// The outcome for a player's choice against a drawn choice.
pub open spec fn spec_outcome(player: Choice, drawn: Choice) -> Outcome {
    if spec_beats(player, drawn) {
        Outcome::Win
    } else if player == drawn {
        Outcome::Draw
    } else {
        Outcome::Loss
    }
}

/// What a settlement against `drawn` returns: the ownership guard comes first, then the
/// sufficiency of the escrow where the player wins.
pub open spec fn spec_settle_result(ctx: GetWinner, drawn: Choice, reward: u64) -> Result<
    Outcome,
    GameError,
> {
    if ctx.signer.key@ != ctx.rps_account.owner@ {
        Err(GameError::InvalidSigner)
    } else if spec_beats(ctx.rps_account.answer, drawn) && ctx.reward_account.balance < reward {
        Err(GameError::InsufficientBalance)
    } else {
        Ok(spec_outcome(ctx.rps_account.answer, drawn))
    }
}

/// The records after a settlement against `drawn`: a win moves `reward` from the
/// escrow to the caller, everything else leaves them as they were.
pub open spec fn spec_settle_state(ctx: GetWinner, drawn: Choice, reward: u64) -> GetWinner {
    if spec_settle_result(ctx, drawn, reward) == Ok::<Outcome, GameError>(Outcome::Win) {
        GetWinner {
            reward_account: RpsReward { balance: (ctx.reward_account.balance - reward) as u64 },
            rps_account: ctx.rps_account,
            signer: Signer {
                key: ctx.signer.key,
                lamports: (ctx.signer.lamports + reward) as u64,
            },
        }
    } else {
        ctx
    }
}

/// Classifies a player's choice against a drawn choice.
pub fn classify(player: Choice, drawn: Choice) -> (r: Outcome)
    ensures
        r == spec_outcome(player, drawn),
        r == Outcome::Win <==> spec_beats(player, drawn),
        r == Outcome::Draw <==> player == drawn,
        r == Outcome::Loss <==> spec_beats(drawn, player),
{
    if beats(player, drawn) {
        Outcome::Win
    } else if player == drawn {
        Outcome::Draw
    } else {
        Outcome::Loss
    }
}

/// Settles a game against a choice that was already drawn, for a reward of `reward`.
///
/// A caller who is not the owner is rejected with `InvalidSigner`. A win pays exactly
/// `reward` out of the escrow to the caller, or is rejected with `InsufficientBalance`
/// where the escrow holds less. A draw and a loss move nothing. A rejected call changes
/// nothing, and no call changes the game account.
pub fn resolve(ctx: &mut GetWinner, drawn: Choice, reward: u64) -> (r: Result<Outcome, GameError>)
    requires
        spec_settle_result(*old(ctx), drawn, reward) == Ok::<Outcome, GameError>(Outcome::Win)
            ==> old(ctx).signer.lamports + reward <= u64::MAX,
    ensures
        r == spec_settle_result(*old(ctx), drawn, reward),
        *final(ctx) == spec_settle_state(*old(ctx), drawn, reward),
        final(ctx).rps_account == old(ctx).rps_account,
        final(ctx).signer.key == old(ctx).signer.key,
        r is Err ==> *final(ctx) == *old(ctx),
        old(ctx).signer.key@ != old(ctx).rps_account.owner@ ==> r == Err::<Outcome, GameError>(
            GameError::InvalidSigner,
        ),
        r == Ok::<Outcome, GameError>(Outcome::Win) ==> final(ctx).reward_account.balance == old(
            ctx,
        ).reward_account.balance - reward && final(ctx).signer.lamports == old(ctx).signer.lamports
            + reward,
        r == Ok::<Outcome, GameError>(Outcome::Draw) || r == Ok::<Outcome, GameError>(
            Outcome::Loss,
        ) ==> *final(ctx) == *old(ctx),
{
    match verify_owner(&ctx.signer.key, &ctx.rps_account) {
        Ok(()) => {},
        Err(e) => {
            return Err(e);
        },
    }
    let outcome: Outcome = classify(ctx.rps_account.answer, drawn);
    match outcome {
        Outcome::Win => {
            if ctx.reward_account.balance < reward {
                return Err(GameError::InsufficientBalance);
            }
            ctx.reward_account.balance = ctx.reward_account.balance - reward;
            ctx.signer.lamports = ctx.signer.lamports + reward;
        },
        Outcome::Draw => {},
        Outcome::Loss => {},
    }
    Ok(outcome)
}

/// Settles a game at a reading of the host clock, in seconds: draws the choice for
/// that reading and settles against it for the fixed reward, `GAME_REWARD`.
///
/// The caller's balance has to have room for the reward only where the reward is paid.
/// `try_get_winner` makes that test itself.
pub fn get_winner(ctx: &mut GetWinner, current_timestamp: i64) -> (r: Result<Outcome, GameError>)
    requires
        spec_settle_result(*old(ctx), spec_draw(current_timestamp), GAME_REWARD) == Ok::<
            Outcome,
            GameError,
        >(Outcome::Win) ==> old(ctx).signer.lamports + GAME_REWARD <= u64::MAX,
    ensures
        r == spec_settle_result(*old(ctx), spec_draw(current_timestamp), GAME_REWARD),
        *final(ctx) == spec_settle_state(*old(ctx), spec_draw(current_timestamp), GAME_REWARD),
        final(ctx).rps_account == old(ctx).rps_account,
        final(ctx).signer.key == old(ctx).signer.key,
        r is Err ==> *final(ctx) == *old(ctx),
        old(ctx).signer.key@ != old(ctx).rps_account.owner@ ==> r == Err::<Outcome, GameError>(
            GameError::InvalidSigner,
        ),
        r == Ok::<Outcome, GameError>(Outcome::Win) ==> final(ctx).reward_account.balance == old(
            ctx,
        ).reward_account.balance - GAME_REWARD && final(ctx).signer.lamports == old(
            ctx,
        ).signer.lamports + GAME_REWARD,
        r == Ok::<Outcome, GameError>(Outcome::Draw) || r == Ok::<Outcome, GameError>(
            Outcome::Loss,
        ) ==> *final(ctx) == *old(ctx),
{
    let drawn: Choice = draw_choice(current_timestamp);
    resolve(ctx, drawn, GAME_REWARD)
}

/// Settles a game at a reading of the host clock like `get_winner`, for any balances:
/// where the settlement would pay the reward and the caller's balance has no room for
/// it, nothing is settled, nothing changes and `None` is returned.
pub fn try_get_winner(ctx: &mut GetWinner, current_timestamp: i64) -> (r: Option<
    Result<Outcome, GameError>,
>)
    ensures
        r is None <==> spec_settle_result(*old(ctx), spec_draw(current_timestamp), GAME_REWARD)
            == Ok::<Outcome, GameError>(Outcome::Win) && old(ctx).signer.lamports + GAME_REWARD
            > u64::MAX,
        r is None ==> *final(ctx) == *old(ctx),
        r is Some ==> r->Some_0 == spec_settle_result(
            *old(ctx),
            spec_draw(current_timestamp),
            GAME_REWARD,
        ) && *final(ctx) == spec_settle_state(
            *old(ctx),
            spec_draw(current_timestamp),
            GAME_REWARD,
        ),
{
    let drawn: Choice = draw_choice(current_timestamp);
    let pays: bool = ctx.signer.key.same_as(&ctx.rps_account.owner) && beats(
        ctx.rps_account.answer,
        drawn,
    ) && ctx.reward_account.balance >= GAME_REWARD;
    if pays && ctx.signer.lamports > u64::MAX - GAME_REWARD {
        return None;
    }
    Some(get_winner(ctx, current_timestamp))
}

/// Ownership: for a caller who is not the owner, a settlement returns `InvalidSigner`
/// and leaves every record as it was, whatever was drawn.
pub proof fn lemma_stranger_changes_nothing(ctx: GetWinner, drawn: Choice, reward: u64)
    requires
        ctx.signer.key@ != ctx.rps_account.owner@,
    ensures
        spec_settle_result(ctx, drawn, reward) == Err::<Outcome, GameError>(
            GameError::InvalidSigner,
        ),
        spec_settle_state(ctx, drawn, reward) == ctx,
{
}

/// Conservation: a win lowers the escrow by exactly the reward and raises the caller's
/// balance by exactly the reward; a draw, a loss and a rejection leave both as they
/// were. Either way the two balances together hold what they held before.
pub proof fn lemma_settlement_conserves(ctx: GetWinner, drawn: Choice, reward: u64)
    requires
        spec_settle_result(ctx, drawn, reward) == Ok::<Outcome, GameError>(Outcome::Win)
            ==> ctx.signer.lamports + reward <= u64::MAX,
    ensures
        ({
            let after = spec_settle_state(ctx, drawn, reward);
            let result = spec_settle_result(ctx, drawn, reward);
            &&& result == Ok::<Outcome, GameError>(Outcome::Win) ==> after.reward_account.balance
                == ctx.reward_account.balance - reward && after.signer.lamports
                == ctx.signer.lamports + reward
            &&& result != Ok::<Outcome, GameError>(Outcome::Win) ==> after == ctx
            &&& after.reward_account.balance + after.signer.lamports == ctx.reward_account.balance
                + ctx.signer.lamports
        }),
{
}

/// The escrow never goes below zero: where the player wins and the escrow holds less
/// than the reward, the settlement is rejected with `InsufficientBalance` and the
/// balances stay.
pub proof fn lemma_short_escrow_is_kept(ctx: GetWinner, drawn: Choice, reward: u64)
    requires
        ctx.signer.key@ == ctx.rps_account.owner@,
        spec_beats(ctx.rps_account.answer, drawn),
        ctx.reward_account.balance < reward,
    ensures
        spec_settle_result(ctx, drawn, reward) == Err::<Outcome, GameError>(
            GameError::InsufficientBalance,
        ),
        spec_settle_state(ctx, drawn, reward) == ctx,
{
}

/// Determinism: two settlements of games with the same committed choice, at the same
/// reading of the clock, are classified alike; where both are accepted they return
/// the same outcome.
pub proof fn lemma_settlement_deterministic(a: GetWinner, b: GetWinner, timestamp: i64)
    requires
        a.rps_account.answer == b.rps_account.answer,
    ensures
        spec_outcome(a.rps_account.answer, spec_draw(timestamp)) == spec_outcome(
            b.rps_account.answer,
            spec_draw(timestamp),
        ),
        spec_settle_result(a, spec_draw(timestamp), GAME_REWARD) is Ok && spec_settle_result(
            b,
            spec_draw(timestamp),
            GAME_REWARD,
        ) is Ok ==> spec_settle_result(a, spec_draw(timestamp), GAME_REWARD) == spec_settle_result(
            b,
            spec_draw(timestamp),
            GAME_REWARD,
        ),
{
}

} // verus!
