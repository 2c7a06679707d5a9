//! Creating a game, changing the committed choice, and funding the escrow.

use vstd::prelude::*;
use crate::account::{RpsAccount, RpsReward, Signer, verify_owner};
use crate::choice::{Choice, GameError, parse, spec_parse};

verus! {

/// The smallest units of value in one whole native unit.
pub const LAMPORTS_PER_SOL: u64 = 1_000_000_000;

/// The fixed reward of a game: three whole native units.
pub const GAME_REWARD: u64 = LAMPORTS_PER_SOL * 3;

/// The records that creating or resetting a game touches.
#[derive(Clone, Copy, Debug)]
pub struct Initialize {
    pub new_rps_account: RpsAccount,
    pub reward_account: RpsReward,
    pub signer: Signer,
}

/// The records that a deposit touches.
#[derive(Clone, Copy, Debug)]
pub struct DepositReward {
    pub signer: Signer,
    pub reward_account: RpsReward,
}

/// The records that a change of choice touches.
#[derive(Clone, Copy, Debug)]
pub struct ChangeAnswer {
    pub rps_account: RpsAccount,
    pub signer: Signer,
}

/// Creates the caller's game, or resets it: the game account gets the caller as owner
/// and the named choice. A text that names no choice is rejected with
/// `WrongParameters` and nothing changes.
pub fn initialize(ctx: &mut Initialize, answer: String) -> (r: Result<(), GameError>)
    ensures
        spec_parse(answer@) is None ==> r == Err::<(), GameError>(GameError::WrongParameters)
            && *final(ctx) == *old(ctx),
        spec_parse(answer@) is Some ==> r == Ok::<(), GameError>(()) && *final(ctx) == (Initialize {
            new_rps_account: RpsAccount {
                answer: spec_parse(answer@)->Some_0,
                owner: old(ctx).signer.key,
            },
            reward_account: old(ctx).reward_account,
            signer: old(ctx).signer,
        }),
{
    let choice: Choice = match parse(answer.as_str()) {
        Ok(choice) => choice,
        Err(e) => {
            return Err(e);
        },
    };
    ctx.new_rps_account.answer = choice;
    ctx.new_rps_account.owner = ctx.signer.key;
    Ok(())
}

/// Replaces the committed choice of a game. Only the owner may do so: any other caller
/// is rejected with `InvalidSigner`, before the text is looked at. A text that names no
/// choice is rejected with `WrongParameters`. A rejected call changes nothing, and no
/// call changes the owner.
pub fn new_answer(ctx: &mut ChangeAnswer, answer: String) -> (r: Result<(), GameError>)
    ensures
        old(ctx).signer.key@ != old(ctx).rps_account.owner@ ==> r == Err::<(), GameError>(
            GameError::InvalidSigner,
        ) && *final(ctx) == *old(ctx),
        old(ctx).signer.key@ == old(ctx).rps_account.owner@ && spec_parse(answer@) is None ==> r
            == Err::<(), GameError>(GameError::WrongParameters) && *final(ctx) == *old(ctx),
        old(ctx).signer.key@ == old(ctx).rps_account.owner@ && spec_parse(answer@) is Some ==> r
            == Ok::<(), GameError>(()) && *final(ctx) == (ChangeAnswer {
            rps_account: RpsAccount {
                answer: spec_parse(answer@)->Some_0,
                owner: old(ctx).rps_account.owner,
            },
            signer: old(ctx).signer,
        }),
        final(ctx).rps_account.owner == old(ctx).rps_account.owner,
{
    match verify_owner(&ctx.signer.key, &ctx.rps_account) {
        Ok(()) => {},
        Err(e) => {
            return Err(e);
        },
    }
    let choice: Choice = match parse(answer.as_str()) {
        Ok(choice) => choice,
        Err(e) => {
            return Err(e);
        },
    };
    ctx.rps_account.answer = choice;
    Ok(())
}

/// Moves `amount` from the caller's own balance into the escrow. A caller who holds
/// less than `amount` is rejected with `InsufficientBalance` and nothing changes.
pub fn deposit(ctx: &mut DepositReward, amount: u64) -> (r: Result<(), GameError>)
    requires
        old(ctx).signer.lamports >= amount ==> old(ctx).reward_account.balance + amount
            <= u64::MAX,
    ensures
        old(ctx).signer.lamports < amount ==> r == Err::<(), GameError>(
            GameError::InsufficientBalance,
        ) && *final(ctx) == *old(ctx),
        old(ctx).signer.lamports >= amount ==> r == Ok::<(), GameError>(()) && *final(ctx) == (
        DepositReward {
            signer: Signer {
                key: old(ctx).signer.key,
                lamports: (old(ctx).signer.lamports - amount) as u64,
            },
            reward_account: RpsReward {
                balance: (old(ctx).reward_account.balance + amount) as u64,
            },
        }),
        final(ctx).signer.lamports + final(ctx).reward_account.balance == old(ctx).signer.lamports
            + old(ctx).reward_account.balance,
{
    if ctx.signer.lamports < amount {
        return Err(GameError::InsufficientBalance);
    }
    ctx.signer.lamports = ctx.signer.lamports - amount;
    ctx.reward_account.balance = ctx.reward_account.balance + amount;
    Ok(())
}

/// Funds the escrow with the fixed reward, `GAME_REWARD`, out of the caller's own
/// balance.
pub fn deposit_reward(ctx: &mut DepositReward) -> (r: Result<(), GameError>)
    requires
        old(ctx).signer.lamports >= GAME_REWARD ==> old(ctx).reward_account.balance
            + GAME_REWARD <= u64::MAX,
    ensures
        old(ctx).signer.lamports < GAME_REWARD ==> r == Err::<(), GameError>(
            GameError::InsufficientBalance,
        ) && *final(ctx) == *old(ctx),
        old(ctx).signer.lamports >= GAME_REWARD ==> r == Ok::<(), GameError>(()) && *final(ctx)
            == (DepositReward {
            signer: Signer {
                key: old(ctx).signer.key,
                lamports: (old(ctx).signer.lamports - GAME_REWARD) as u64,
            },
            reward_account: RpsReward {
                balance: (old(ctx).reward_account.balance + GAME_REWARD) as u64,
            },
        }),
        final(ctx).signer.lamports + final(ctx).reward_account.balance == old(ctx).signer.lamports
            + old(ctx).reward_account.balance,
        final(ctx).reward_account.balance == old(ctx).reward_account.balance
            || final(ctx).reward_account.balance == old(ctx).reward_account.balance + GAME_REWARD,
{
    deposit(ctx, GAME_REWARD)
}

} // verus!
