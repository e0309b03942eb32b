use token_faucet::{
    claim, deposit_sol, deposit_usdc, initialize, Asset, Claim, DepositSol, DepositUsdc, Faucet,
    FaucetError, FaucetState, Identity, Initialize, TokenAccount, UserClaim, Wallet,
    SOL_CLAIM_AMOUNT, USDC_CLAIM_AMOUNT,
};

fn id(tag: u8) -> Identity {
    Identity::new([tag; 32])
}

fn admin() -> Identity {
    id(1)
}

fn mint() -> Identity {
    id(2)
}

fn request() -> Initialize {
    Initialize { admin: admin(), usdc_mint: mint(), usdc_vault: id(3), bump: 254, sol_vault_bump: 255 }
}

fn admin_wallet(lamports: u64) -> Wallet {
    Wallet { key: admin(), lamports }
}

fn admin_tokens(amount: u64) -> TokenAccount {
    TokenAccount { owner: admin(), mint: mint(), amount }
}

fn claimant(tag: u8) -> Claim {
    Claim {
        user: Wallet { key: id(tag), lamports: 0 },
        user_usdc_account: TokenAccount { owner: id(tag), mint: mint(), amount: 0 },
    }
}

fn funded(sol: u64, usdc: u64) -> Faucet {
    let mut faucet = Faucet::new();
    assert_eq!(initialize(&mut faucet, &request()), Ok(()));
    let mut sol_ctx = DepositSol { admin: admin_wallet(sol) };
    assert_eq!(deposit_sol(&mut faucet, &mut sol_ctx, sol), Ok(()));
    let mut usdc_ctx = DepositUsdc { admin: admin_wallet(0), admin_usdc_account: admin_tokens(usdc) };
    assert_eq!(deposit_usdc(&mut faucet, &mut usdc_ctx, usdc), Ok(()));
    faucet
}

#[test]
fn claim_amounts_are_fixed() {
    assert_eq!(SOL_CLAIM_AMOUNT, 100);
    assert_eq!(USDC_CLAIM_AMOUNT, 50);
}

#[test]
fn new_faucet_is_empty() {
    let faucet = Faucet::new();
    assert!(!faucet.is_initialized());
    assert_eq!(faucet.config(), None);
    assert_eq!(faucet.balance(Asset::Sol), 0);
    assert_eq!(faucet.balance(Asset::Usdc), 0);
    assert_eq!(faucet.claim_count(), 0);
    assert_eq!(faucet.claim_record(&id(9)), UserClaim { has_claimed: false });
}

#[test]
fn initialize_writes_config_and_opens_empty_vaults() {
    let mut faucet = Faucet::new();
    assert_eq!(initialize(&mut faucet, &request()), Ok(()));
    assert!(faucet.is_initialized());
    assert_eq!(
        faucet.config(),
        Some(FaucetState {
            admin: admin(),
            usdc_mint: mint(),
            usdc_vault: id(3),
            bump: 254,
            sol_vault_bump: 255,
        })
    );
    assert_eq!(faucet.balance(Asset::Sol), 0);
    assert_eq!(faucet.balance(Asset::Usdc), 0);
    assert_eq!(faucet.claim_count(), 0);
}

#[test]
fn deposit_then_claim_scenario() {
    let mut faucet = Faucet::new();
    assert_eq!(initialize(&mut faucet, &request()), Ok(()));

    let mut sol_ctx = DepositSol { admin: admin_wallet(5_000) };
    assert_eq!(deposit_sol(&mut faucet, &mut sol_ctx, 1000), Ok(()));
    assert_eq!(faucet.balance(Asset::Sol), 1000);
    assert_eq!(sol_ctx.admin.lamports, 4_000);

    let mut usdc_ctx = DepositUsdc { admin: admin_wallet(4_000), admin_usdc_account: admin_tokens(800) };
    assert_eq!(deposit_usdc(&mut faucet, &mut usdc_ctx, 500), Ok(()));
    assert_eq!(faucet.balance(Asset::Usdc), 500);
    assert_eq!(usdc_ctx.admin_usdc_account.amount, 300);
    assert_eq!(usdc_ctx.admin, admin_wallet(4_000));

    let mut u1 = claimant(10);
    assert_eq!(claim(&mut faucet, &mut u1), Ok(()));
    assert_eq!(faucet.balance(Asset::Sol), 1000 - SOL_CLAIM_AMOUNT);
    assert_eq!(faucet.balance(Asset::Usdc), 500 - USDC_CLAIM_AMOUNT);
    assert_eq!(faucet.balance(Asset::Sol), 900);
    assert_eq!(faucet.balance(Asset::Usdc), 450);
    assert_eq!(faucet.claim_record(&id(10)), UserClaim { has_claimed: true });
    assert_eq!(u1.user.lamports, 100);
    assert_eq!(u1.user_usdc_account.amount, 50);
    assert_eq!(u1.user.key, id(10));
    assert_eq!(u1.user_usdc_account.owner, id(10));
    assert_eq!(u1.user_usdc_account.mint, mint());
}

#[test]
fn two_claimants_scenario() {
    let mut faucet = funded(1000, 500);
    let mut u1 = claimant(10);
    let mut u2 = claimant(11);
    assert_eq!(claim(&mut faucet, &mut u1), Ok(()));
    assert_eq!(faucet.claim_record(&id(10)), UserClaim { has_claimed: true });
    assert_eq!(faucet.claim_record(&id(11)), UserClaim { has_claimed: false });
    assert_eq!(claim(&mut faucet, &mut u2), Ok(()));
    assert_eq!(faucet.balance(Asset::Sol), 1000 - 2 * SOL_CLAIM_AMOUNT);
    assert_eq!(faucet.balance(Asset::Usdc), 500 - 2 * USDC_CLAIM_AMOUNT);
    assert_eq!(faucet.claim_record(&id(10)), UserClaim { has_claimed: true });
    assert_eq!(faucet.claim_record(&id(11)), UserClaim { has_claimed: true });
    assert_eq!(faucet.claim_record(&id(12)), UserClaim { has_claimed: false });
    assert_eq!(faucet.claim_count(), 2);
    assert_eq!(u1.user.lamports, SOL_CLAIM_AMOUNT);
    assert_eq!(u2.user.lamports, SOL_CLAIM_AMOUNT);
    assert_eq!(u1.user_usdc_account.amount, USDC_CLAIM_AMOUNT);
    assert_eq!(u2.user_usdc_account.amount, USDC_CLAIM_AMOUNT);
}

#[test]
fn second_claim_is_rejected_and_pays_nothing() {
    let mut faucet = funded(1000, 500);
    let mut u1 = claimant(10);
    assert_eq!(claim(&mut faucet, &mut u1), Ok(()));
    let paid = u1;
    assert_eq!(claim(&mut faucet, &mut u1), Err(FaucetError::AlreadyClaimed));
    assert_eq!(u1, paid);
    assert_eq!(faucet.balance(Asset::Sol), 900);
    assert_eq!(faucet.balance(Asset::Usdc), 450);
    assert_eq!(faucet.claim_count(), 1);

    let mut other_accounts = Claim {
        user: Wallet { key: id(10), lamports: 77 },
        user_usdc_account: TokenAccount { owner: id(10), mint: mint(), amount: 5 },
    };
    assert_eq!(claim(&mut faucet, &mut other_accounts), Err(FaucetError::AlreadyClaimed));
    assert_eq!(other_accounts.user.lamports, 77);
    assert_eq!(other_accounts.user_usdc_account.amount, 5);
    assert_eq!(faucet.balance(Asset::Sol), 900);
    assert_eq!(faucet.balance(Asset::Usdc), 450);
}

#[test]
fn claim_from_underfunded_native_vault_is_rejected() {
    let mut faucet = funded(SOL_CLAIM_AMOUNT - 1, 500);
    let mut u1 = claimant(10);
    let before = u1;
    assert_eq!(claim(&mut faucet, &mut u1), Err(FaucetError::InsufficientSolBalance));
    assert_eq!(u1, before);
    assert_eq!(faucet.balance(Asset::Sol), SOL_CLAIM_AMOUNT - 1);
    assert_eq!(faucet.balance(Asset::Usdc), 500);
    assert_eq!(faucet.claim_record(&id(10)), UserClaim { has_claimed: false });
    assert_eq!(faucet.claim_count(), 0);
}

#[test]
fn claim_with_exactly_one_payout_left_succeeds() {
    let mut faucet = funded(SOL_CLAIM_AMOUNT, USDC_CLAIM_AMOUNT);
    let mut u1 = claimant(10);
    assert_eq!(claim(&mut faucet, &mut u1), Ok(()));
    assert_eq!(faucet.balance(Asset::Sol), 0);
    assert_eq!(faucet.balance(Asset::Usdc), 0);
    let mut u2 = claimant(11);
    assert_eq!(claim(&mut faucet, &mut u2), Err(FaucetError::InsufficientSolBalance));
    assert_eq!(faucet.claim_record(&id(11)), UserClaim { has_claimed: false });
}

#[test]
fn claim_before_initialization_finds_no_funds() {
    let mut faucet = Faucet::new();
    let mut u1 = claimant(10);
    let before = u1;
    assert_eq!(claim(&mut faucet, &mut u1), Err(FaucetError::InsufficientSolBalance));
    assert_eq!(u1, before);
    assert!(!faucet.is_initialized());
    assert_eq!(faucet.claim_count(), 0);
}

#[test]
fn already_claimed_is_reported_before_an_empty_vault() {
    let mut faucet = funded(SOL_CLAIM_AMOUNT, USDC_CLAIM_AMOUNT);
    let mut u1 = claimant(10);
    assert_eq!(claim(&mut faucet, &mut u1), Ok(()));
    assert_eq!(faucet.balance(Asset::Sol), 0);
    assert_eq!(claim(&mut faucet, &mut u1), Err(FaucetError::AlreadyClaimed));
}

#[test]
fn claim_from_underfunded_token_vault_fails_at_the_transfer() {
    let mut faucet = funded(1000, USDC_CLAIM_AMOUNT - 1);
    let mut u1 = claimant(10);
    let before = u1;
    assert_eq!(claim(&mut faucet, &mut u1), Err(FaucetError::InsufficientVaultBalance));
    assert_eq!(u1, before);
    assert_eq!(faucet.balance(Asset::Sol), 1000);
    assert_eq!(faucet.balance(Asset::Usdc), USDC_CLAIM_AMOUNT - 1);
    assert_eq!(faucet.claim_record(&id(10)), UserClaim { has_claimed: false });
}

#[test]
fn claim_into_token_account_of_another_mint_is_rejected() {
    let mut faucet = funded(1000, 500);
    let mut u1 = Claim {
        user: Wallet { key: id(10), lamports: 0 },
        user_usdc_account: TokenAccount { owner: id(10), mint: id(99), amount: 0 },
    };
    let before = u1;
    assert_eq!(claim(&mut faucet, &mut u1), Err(FaucetError::AccountMismatch));
    assert_eq!(u1, before);
    assert_eq!(faucet.balance(Asset::Sol), 1000);
    assert_eq!(faucet.balance(Asset::Usdc), 500);
    assert_eq!(faucet.claim_record(&id(10)), UserClaim { has_claimed: false });
}

#[test]
fn claim_into_token_account_of_another_owner_is_rejected() {
    let mut faucet = funded(1000, 500);
    let mut u1 = Claim {
        user: Wallet { key: id(10), lamports: 0 },
        user_usdc_account: TokenAccount { owner: id(11), mint: mint(), amount: 0 },
    };
    assert_eq!(claim(&mut faucet, &mut u1), Err(FaucetError::AccountMismatch));
    assert_eq!(faucet.balance(Asset::Sol), 1000);
    assert_eq!(faucet.claim_record(&id(10)), UserClaim { has_claimed: false });
    assert_eq!(faucet.claim_record(&id(11)), UserClaim { has_claimed: false });
}

#[test]
fn claim_that_would_overflow_the_wallet_is_rejected() {
    let mut faucet = funded(1000, 500);
    let mut u1 = Claim {
        user: Wallet { key: id(10), lamports: u64::MAX - SOL_CLAIM_AMOUNT + 1 },
        user_usdc_account: TokenAccount { owner: id(10), mint: mint(), amount: 0 },
    };
    let before = u1;
    assert_eq!(claim(&mut faucet, &mut u1), Err(FaucetError::BalanceOverflow));
    assert_eq!(u1, before);
    assert_eq!(faucet.balance(Asset::Sol), 1000);
    assert_eq!(faucet.balance(Asset::Usdc), 500);

    let mut fits = Claim {
        user: Wallet { key: id(10), lamports: u64::MAX - SOL_CLAIM_AMOUNT },
        user_usdc_account: TokenAccount { owner: id(10), mint: mint(), amount: 0 },
    };
    assert_eq!(claim(&mut faucet, &mut fits), Ok(()));
    assert_eq!(fits.user.lamports, u64::MAX);
}

#[test]
fn claim_that_would_overflow_the_token_account_is_rejected() {
    let mut faucet = funded(1000, 500);
    let mut u1 = Claim {
        user: Wallet { key: id(10), lamports: 0 },
        user_usdc_account: TokenAccount {
            owner: id(10),
            mint: mint(),
            amount: u64::MAX - USDC_CLAIM_AMOUNT + 1,
        },
    };
    let before = u1;
    assert_eq!(claim(&mut faucet, &mut u1), Err(FaucetError::BalanceOverflow));
    assert_eq!(u1, before);
    assert_eq!(faucet.balance(Asset::Sol), 1000);
    assert_eq!(faucet.balance(Asset::Usdc), 500);
    assert_eq!(faucet.claim_record(&id(10)), UserClaim { has_claimed: false });
}

#[test]
fn deposits_by_a_stranger_are_unauthorized() {
    let mut faucet = funded(1000, 500);
    let mut sol_ctx = DepositSol { admin: Wallet { key: id(42), lamports: 9_000 } };
    assert_eq!(deposit_sol(&mut faucet, &mut sol_ctx, 10), Err(FaucetError::Unauthorized));
    assert_eq!(sol_ctx.admin.lamports, 9_000);
    let mut usdc_ctx = DepositUsdc {
        admin: Wallet { key: id(42), lamports: 0 },
        admin_usdc_account: TokenAccount { owner: id(42), mint: mint(), amount: 9_000 },
    };
    assert_eq!(deposit_usdc(&mut faucet, &mut usdc_ctx, 10), Err(FaucetError::Unauthorized));
    assert_eq!(usdc_ctx.admin_usdc_account.amount, 9_000);
    assert_eq!(faucet.balance(Asset::Sol), 1000);
    assert_eq!(faucet.balance(Asset::Usdc), 500);
}

#[test]
fn deposits_before_initialization_are_unauthorized() {
    let mut faucet = Faucet::new();
    let mut sol_ctx = DepositSol { admin: admin_wallet(9_000) };
    assert_eq!(deposit_sol(&mut faucet, &mut sol_ctx, 10), Err(FaucetError::Unauthorized));
    let mut usdc_ctx = DepositUsdc { admin: admin_wallet(0), admin_usdc_account: admin_tokens(9_000) };
    assert_eq!(deposit_usdc(&mut faucet, &mut usdc_ctx, 10), Err(FaucetError::Unauthorized));
    assert_eq!(faucet.balance(Asset::Sol), 0);
    assert_eq!(faucet.balance(Asset::Usdc), 0);
    assert_eq!(sol_ctx.admin.lamports, 9_000);
    assert_eq!(usdc_ctx.admin_usdc_account.amount, 9_000);
}

#[test]
fn deposit_beyond_the_callers_balance_is_rejected() {
    let mut faucet = funded(1000, 500);
    let mut sol_ctx = DepositSol { admin: admin_wallet(9) };
    assert_eq!(deposit_sol(&mut faucet, &mut sol_ctx, 10), Err(FaucetError::InsufficientCallerBalance));
    assert_eq!(sol_ctx.admin.lamports, 9);
    let mut usdc_ctx = DepositUsdc { admin: admin_wallet(0), admin_usdc_account: admin_tokens(9) };
    assert_eq!(
        deposit_usdc(&mut faucet, &mut usdc_ctx, 10),
        Err(FaucetError::InsufficientCallerBalance)
    );
    assert_eq!(usdc_ctx.admin_usdc_account.amount, 9);
    assert_eq!(faucet.balance(Asset::Sol), 1000);
    assert_eq!(faucet.balance(Asset::Usdc), 500);
}

#[test]
fn deposit_of_the_whole_balance_empties_the_account() {
    let mut faucet = funded(0, 0);
    let mut sol_ctx = DepositSol { admin: admin_wallet(10) };
    assert_eq!(deposit_sol(&mut faucet, &mut sol_ctx, 10), Ok(()));
    assert_eq!(sol_ctx.admin.lamports, 0);
    assert_eq!(faucet.balance(Asset::Sol), 10);
    let mut none = DepositSol { admin: admin_wallet(0) };
    assert_eq!(deposit_sol(&mut faucet, &mut none, 0), Ok(()));
    assert_eq!(faucet.balance(Asset::Sol), 10);
}

#[test]
fn deposit_from_a_foreign_token_account_is_rejected() {
    let mut faucet = funded(1000, 500);
    let mut other_mint = DepositUsdc {
        admin: admin_wallet(0),
        admin_usdc_account: TokenAccount { owner: admin(), mint: id(99), amount: 100 },
    };
    assert_eq!(deposit_usdc(&mut faucet, &mut other_mint, 10), Err(FaucetError::AccountMismatch));
    let mut other_owner = DepositUsdc {
        admin: admin_wallet(0),
        admin_usdc_account: TokenAccount { owner: id(42), mint: mint(), amount: 100 },
    };
    assert_eq!(deposit_usdc(&mut faucet, &mut other_owner, 10), Err(FaucetError::AccountMismatch));
    assert_eq!(other_mint.admin_usdc_account.amount, 100);
    assert_eq!(other_owner.admin_usdc_account.amount, 100);
    assert_eq!(faucet.balance(Asset::Usdc), 500);
}

#[test]
fn deposit_that_would_overflow_the_vault_is_rejected() {
    let mut faucet = funded(u64::MAX, u64::MAX);
    assert_eq!(faucet.balance(Asset::Sol), u64::MAX);
    let mut sol_ctx = DepositSol { admin: admin_wallet(5) };
    assert_eq!(deposit_sol(&mut faucet, &mut sol_ctx, 1), Err(FaucetError::BalanceOverflow));
    assert_eq!(sol_ctx.admin.lamports, 5);
    let mut usdc_ctx = DepositUsdc { admin: admin_wallet(0), admin_usdc_account: admin_tokens(5) };
    assert_eq!(deposit_usdc(&mut faucet, &mut usdc_ctx, 1), Err(FaucetError::BalanceOverflow));
    assert_eq!(usdc_ctx.admin_usdc_account.amount, 5);
    assert_eq!(faucet.balance(Asset::Sol), u64::MAX);
    assert_eq!(faucet.balance(Asset::Usdc), u64::MAX);
}

#[test]
fn unauthorized_is_reported_before_a_short_balance() {
    let mut faucet = funded(1000, 500);
    let mut sol_ctx = DepositSol { admin: Wallet { key: id(42), lamports: 0 } };
    assert_eq!(deposit_sol(&mut faucet, &mut sol_ctx, 10), Err(FaucetError::Unauthorized));
    let mut usdc_ctx = DepositUsdc {
        admin: Wallet { key: id(42), lamports: 0 },
        admin_usdc_account: TokenAccount { owner: id(7), mint: id(8), amount: 0 },
    };
    assert_eq!(deposit_usdc(&mut faucet, &mut usdc_ctx, 10), Err(FaucetError::Unauthorized));
}

#[test]
fn second_initialize_is_rejected_and_keeps_the_config() {
    let mut faucet = funded(1000, 500);
    let mut u1 = claimant(10);
    assert_eq!(claim(&mut faucet, &mut u1), Ok(()));
    let config = faucet.config();
    let other = Initialize { admin: id(42), usdc_mint: id(43), usdc_vault: id(44), bump: 1, sol_vault_bump: 2 };
    assert_eq!(initialize(&mut faucet, &other), Err(FaucetError::AlreadyInitialized));
    assert_eq!(initialize(&mut faucet, &request()), Err(FaucetError::AlreadyInitialized));
    assert_eq!(faucet.config(), config);
    assert_eq!(faucet.balance(Asset::Sol), 900);
    assert_eq!(faucet.balance(Asset::Usdc), 450);
    assert_eq!(faucet.claim_record(&id(10)), UserClaim { has_claimed: true });
    let mut stranger = DepositSol { admin: Wallet { key: id(42), lamports: 100 } };
    assert_eq!(deposit_sol(&mut faucet, &mut stranger, 1), Err(FaucetError::Unauthorized));
}

#[test]
fn config_survives_deposits_and_claims() {
    let mut faucet = funded(1000, 500);
    let config = faucet.config();
    let mut u1 = claimant(10);
    assert_eq!(claim(&mut faucet, &mut u1), Ok(()));
    assert_eq!(claim(&mut faucet, &mut u1), Err(FaucetError::AlreadyClaimed));
    let mut sol_ctx = DepositSol { admin: admin_wallet(5) };
    assert_eq!(deposit_sol(&mut faucet, &mut sol_ctx, 5), Ok(()));
    assert_eq!(faucet.config(), config);
    assert_eq!(faucet.balance(Asset::Sol), 905);
}
