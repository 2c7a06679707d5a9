use rps_game::account::{verify_owner, Identity, RpsAccount, RpsReward, Signer};
use rps_game::choice::{Choice, GameError};
use rps_game::lifecycle::{
    deposit, deposit_reward, initialize, new_answer, ChangeAnswer, DepositReward, Initialize,
    GAME_REWARD, LAMPORTS_PER_SOL,
};

fn identity(tag: u8) -> Identity {
    let mut bytes = [0u8; 32];
    bytes[0] = tag;
    bytes[31] = tag;
    Identity::new(bytes)
}

fn fresh(caller: Identity, lamports: u64) -> Initialize {
    Initialize {
        new_rps_account: RpsAccount::new(Identity::new([0u8; 32]), Choice::Scissors),
        reward_account: RpsReward::new(),
        signer: Signer { key: caller, lamports },
    }
}

#[test]
fn reward_is_three_whole_units() {
    assert_eq!(LAMPORTS_PER_SOL, 1_000_000_000);
    assert_eq!(GAME_REWARD, 3_000_000_000);
    assert_eq!(
        LAMPORTS_PER_SOL,
        anchor_lang::solana_program::native_token::LAMPORTS_PER_SOL
    );
    assert_eq!(
        GAME_REWARD,
        anchor_lang::solana_program::native_token::LAMPORTS_PER_SOL * 3
    );
}

#[test]
fn identities_compare_byte_for_byte() {
    let a = identity(1);
    let mut bytes = a.bytes;
    assert!(a.same_as(&Identity::new(bytes)));
    bytes[31] = 2;
    assert!(!a.same_as(&Identity::new(bytes)));
    bytes[31] = 1;
    bytes[17] = 9;
    assert!(!a.same_as(&Identity::new(bytes)));
    bytes[17] = 0;
    bytes[0] = 0;
    assert!(!a.same_as(&Identity::new(bytes)));
}

#[test]
fn verify_owner_passes_for_the_owner_only() {
    let account = RpsAccount::new(identity(7), Choice::Rock);
    assert_eq!(verify_owner(&identity(7), &account), Ok(()));
    assert_eq!(verify_owner(&identity(8), &account), Err(GameError::InvalidSigner));
}

#[test]
fn new_reward_account_is_empty() {
    assert_eq!(RpsReward::new().balance, 0);
}

#[test]
fn initialize_sets_owner_and_choice() {
    let mut ctx = fresh(identity(3), 10);
    assert_eq!(initialize(&mut ctx, String::from("Rock")), Ok(()));
    assert_eq!(ctx.new_rps_account.answer, Choice::Rock);
    assert_eq!(ctx.new_rps_account.owner.bytes, identity(3).bytes);
    assert_eq!(ctx.reward_account.balance, 0);
    assert_eq!(ctx.signer.lamports, 10);
    assert_eq!(ctx.signer.key.bytes, identity(3).bytes);
}

#[test]
fn initialize_again_resets_the_choice() {
    let mut ctx = fresh(identity(3), 10);
    assert_eq!(initialize(&mut ctx, String::from("Rock")), Ok(()));
    assert_eq!(initialize(&mut ctx, String::from("Paper")), Ok(()));
    assert_eq!(ctx.new_rps_account.answer, Choice::Paper);
    assert_eq!(ctx.new_rps_account.owner.bytes, identity(3).bytes);
}

#[test]
fn initialize_with_lizard_is_rejected() {
    let mut ctx = fresh(identity(3), 10);
    assert_eq!(
        initialize(&mut ctx, String::from("Lizard")),
        Err(GameError::WrongParameters)
    );
    assert_eq!(ctx.new_rps_account.answer, Choice::Scissors);
    assert_eq!(ctx.new_rps_account.owner.bytes, [0u8; 32]);
    assert_eq!(ctx.reward_account.balance, 0);
    assert_eq!(ctx.signer.lamports, 10);
}

#[test]
fn owner_changes_the_choice() {
    let mut ctx = ChangeAnswer {
        rps_account: RpsAccount::new(identity(5), Choice::Rock),
        signer: Signer { key: identity(5), lamports: 1 },
    };
    assert_eq!(new_answer(&mut ctx, String::from("Scissors")), Ok(()));
    assert_eq!(ctx.rps_account.answer, Choice::Scissors);
    assert_eq!(ctx.rps_account.owner.bytes, identity(5).bytes);
    assert_eq!(new_answer(&mut ctx, String::from("Paper")), Ok(()));
    assert_eq!(ctx.rps_account.answer, Choice::Paper);
}

#[test]
fn stranger_cannot_change_the_choice() {
    let mut ctx = ChangeAnswer {
        rps_account: RpsAccount::new(identity(5), Choice::Rock),
        signer: Signer { key: identity(6), lamports: 1 },
    };
    assert_eq!(
        new_answer(&mut ctx, String::from("Paper")),
        Err(GameError::InvalidSigner)
    );
    assert_eq!(ctx.rps_account.answer, Choice::Rock);
    assert_eq!(ctx.rps_account.owner.bytes, identity(5).bytes);
}

#[test]
fn stranger_is_rejected_before_the_text_is_read() {
    let mut ctx = ChangeAnswer {
        rps_account: RpsAccount::new(identity(5), Choice::Rock),
        signer: Signer { key: identity(6), lamports: 1 },
    };
    assert_eq!(
        new_answer(&mut ctx, String::from("Lizard")),
        Err(GameError::InvalidSigner)
    );
    assert_eq!(ctx.rps_account.answer, Choice::Rock);
}

#[test]
fn owner_with_a_wrong_text_changes_nothing() {
    let mut ctx = ChangeAnswer {
        rps_account: RpsAccount::new(identity(5), Choice::Rock),
        signer: Signer { key: identity(5), lamports: 1 },
    };
    assert_eq!(
        new_answer(&mut ctx, String::from("paper")),
        Err(GameError::WrongParameters)
    );
    assert_eq!(ctx.rps_account.answer, Choice::Rock);
}

#[test]
fn deposit_reward_moves_the_fixed_amount() {
    let mut ctx = DepositReward {
        signer: Signer { key: identity(1), lamports: 5_000_000_000 },
        reward_account: RpsReward::new(),
    };
    assert_eq!(deposit_reward(&mut ctx), Ok(()));
    assert_eq!(ctx.reward_account.balance, 3_000_000_000);
    assert_eq!(ctx.signer.lamports, 2_000_000_000);
    assert_eq!(deposit_reward(&mut ctx), Err(GameError::InsufficientBalance));
    assert_eq!(ctx.reward_account.balance, 3_000_000_000);
    assert_eq!(ctx.signer.lamports, 2_000_000_000);
}

#[test]
fn deposit_of_the_whole_balance_is_accepted() {
    let mut ctx = DepositReward {
        signer: Signer { key: identity(1), lamports: 3_000_000_000 },
        reward_account: RpsReward { balance: 3_000_000_000 },
    };
    assert_eq!(deposit_reward(&mut ctx), Ok(()));
    assert_eq!(ctx.reward_account.balance, 6_000_000_000);
    assert_eq!(ctx.signer.lamports, 0);
}

#[test]
fn deposit_takes_any_amount() {
    let mut ctx = DepositReward {
        signer: Signer { key: identity(1), lamports: 10 },
        reward_account: RpsReward { balance: 4 },
    };
    assert_eq!(deposit(&mut ctx, 3), Ok(()));
    assert_eq!(ctx.reward_account.balance, 7);
    assert_eq!(ctx.signer.lamports, 7);
    assert_eq!(deposit(&mut ctx, 8), Err(GameError::InsufficientBalance));
    assert_eq!(ctx.reward_account.balance, 7);
    assert_eq!(ctx.signer.lamports, 7);
    assert_eq!(deposit(&mut ctx, 0), Ok(()));
    assert_eq!(ctx.reward_account.balance, 7);
}

#[test]
fn caller_who_cannot_pay_is_rejected_for_any_escrow() {
    let mut ctx = DepositReward {
        signer: Signer { key: identity(1), lamports: 2_999_999_999 },
        reward_account: RpsReward { balance: u64::MAX },
    };
    assert_eq!(deposit_reward(&mut ctx), Err(GameError::InsufficientBalance));
    assert_eq!(ctx.reward_account.balance, u64::MAX);
    assert_eq!(ctx.signer.lamports, 2_999_999_999);
    assert_eq!(deposit(&mut ctx, 3_000_000_000), Err(GameError::InsufficientBalance));
    assert_eq!(ctx.reward_account.balance, u64::MAX);
    assert_eq!(ctx.signer.lamports, 2_999_999_999);
}

#[test]
fn deposit_keeps_the_total_and_adds_nothing_or_the_reward() {
    for lamports in [0u64, 1, 2_999_999_999, 3_000_000_000, 3_000_000_001, 10_000_000_000] {
        for balance in [0u64, 5, 3_000_000_000] {
            let mut ctx = DepositReward {
                signer: Signer { key: identity(1), lamports },
                reward_account: RpsReward { balance },
            };
            let result = deposit_reward(&mut ctx);
            assert_eq!(result.is_ok(), lamports >= GAME_REWARD);
            assert_eq!(ctx.signer.lamports + ctx.reward_account.balance, lamports + balance);
            let grown = ctx.reward_account.balance - balance;
            assert_eq!(grown, if result.is_ok() { GAME_REWARD } else { 0 });
        }
    }
}
