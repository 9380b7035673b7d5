use drift_client::context::{
    ClosePosition, DepositCollateral, Initialize, InitializeUser, OpenPosition, TokenHolding,
    UpstreamStateAccount, WithdrawCollateral,
};
use drift_client::error::ErrorCode;
use drift_client::forward::{
    ManagePositionOptionalAccounts, PositionDirection, UpstreamAccounts, UpstreamInstruction,
    UpstreamRequest,
};
use drift_client::identity::{derive_identity, find_derived_identity, Identity};
use drift_client::ops::{
    apply_deposit, apply_withdraw, close_position, deposit_collateral, initialize,
    initialize_user, open_position, record_user_refs, withdraw_collateral, CollateralBalances,
};
use drift_client::state::Config;

fn id(value: u64) -> Identity {
    Identity { value }
}

const PROGRAM: Identity = Identity { value: 8 };
const ADMIN: Identity = Identity { value: 11 };
const MINT: Identity = Identity { value: 22 };
const VAULT_KEY: Identity = Identity { value: 33 };
const ADMIN_ACCOUNT_KEY: Identity = Identity { value: 44 };
const STATE_KEY: Identity = Identity { value: 55 };
const USER: Identity = Identity { value: 66 };
const USER_POSITIONS: Identity = Identity { value: 77 };
const CUSTODY: Identity = Identity { value: 88 };
const MARKETS: Identity = Identity { value: 99 };
const DEPOSIT_HISTORY: Identity = Identity { value: 101 };
const FUNDING_PAYMENT_HISTORY: Identity = Identity { value: 102 };
const FUNDING_RATE_HISTORY: Identity = Identity { value: 103 };
const TRADE_HISTORY: Identity = Identity { value: 104 };
const ORACLE: Identity = Identity { value: 105 };
const INSURANCE: Identity = Identity { value: 106 };
const INSURANCE_AUTHORITY: Identity = Identity { value: 107 };
const CUSTODY_AUTHORITY: Identity = Identity { value: 108 };

fn authority_and_bump() -> (Identity, u8) {
    find_derived_identity(PROGRAM).expect("a canonical bump exists for the test seed")
}

fn upstream_state() -> UpstreamStateAccount {
    UpstreamStateAccount { key: STATE_KEY, owner: PROGRAM, collateral_mint: MINT }
}

fn fresh_config() -> Config {
    let (authority, bump) = authority_and_bump();
    Config {
        admin: ADMIN,
        collateral_vault: VAULT_KEY,
        authority,
        authority_nonce: bump,
        clearing_house_user: id(0),
        clearing_house_user_positions: id(0),
    }
}

fn user_config() -> Config {
    Config {
        clearing_house_user: USER,
        clearing_house_user_positions: USER_POSITIONS,
        ..fresh_config()
    }
}

fn initialize_ctx() -> Initialize {
    let (authority, _) = authority_and_bump();
    Initialize {
        admin: ADMIN,
        collateral_mint: MINT,
        collateral_vault: TokenHolding { key: VAULT_KEY, mint: MINT, owner: authority },
        authority,
        clearing_house_state: upstream_state(),
    }
}

fn initialize_user_ctx(config: Config) -> InitializeUser {
    let (authority, _) = authority_and_bump();
    InitializeUser {
        admin: ADMIN,
        config,
        clearing_house_state: upstream_state(),
        clearing_house_user: USER,
        clearing_house_user_positions: USER_POSITIONS,
        authority,
        clearing_house_program: PROGRAM,
    }
}

fn deposit_ctx(config: Config) -> DepositCollateral {
    let (authority, _) = authority_and_bump();
    DepositCollateral {
        admin: ADMIN,
        admin_collateral_account: TokenHolding {
            key: ADMIN_ACCOUNT_KEY,
            mint: MINT,
            owner: ADMIN,
        },
        config,
        collateral_vault: TokenHolding { key: VAULT_KEY, mint: MINT, owner: authority },
        authority,
        clearing_house_state: upstream_state(),
        clearing_house_user: USER,
        clearing_house_collateral_vault: CUSTODY,
        clearing_house_markets: MARKETS,
        clearing_house_user_positions: USER_POSITIONS,
        clearing_house_funding_payment_history: FUNDING_PAYMENT_HISTORY,
        clearing_house_deposit_history: DEPOSIT_HISTORY,
        clearing_house_program: PROGRAM,
    }
}

fn withdraw_ctx(config: Config) -> WithdrawCollateral {
    let (authority, _) = authority_and_bump();
    WithdrawCollateral {
        admin: ADMIN,
        admin_collateral_account: TokenHolding {
            key: ADMIN_ACCOUNT_KEY,
            mint: MINT,
            owner: ADMIN,
        },
        config,
        collateral_vault: TokenHolding { key: VAULT_KEY, mint: MINT, owner: authority },
        authority,
        clearing_house_state: upstream_state(),
        clearing_house_user: USER,
        clearing_house_collateral_vault: CUSTODY,
        clearing_house_collateral_vault_authority: CUSTODY_AUTHORITY,
        clearing_house_insurance_vault: INSURANCE,
        clearing_house_insurance_vault_authority: INSURANCE_AUTHORITY,
        clearing_house_markets: MARKETS,
        clearing_house_user_positions: USER_POSITIONS,
        clearing_house_funding_payment_history: FUNDING_PAYMENT_HISTORY,
        clearing_house_deposit_history: DEPOSIT_HISTORY,
        clearing_house_program: PROGRAM,
    }
}

fn open_ctx(config: Config) -> OpenPosition {
    let (authority, _) = authority_and_bump();
    OpenPosition {
        admin: ADMIN,
        config,
        authority,
        clearing_house_state: upstream_state(),
        clearing_house_user: USER,
        clearing_house_markets: MARKETS,
        oracle: ORACLE,
        clearing_house_user_positions: USER_POSITIONS,
        clearing_house_funding_payment_history: FUNDING_PAYMENT_HISTORY,
        clearing_house_funding_rate_history: FUNDING_RATE_HISTORY,
        clearing_house_trade_history: TRADE_HISTORY,
        clearing_house_program: PROGRAM,
        remaining_accounts: Vec::new(),
    }
}

fn close_ctx(config: Config) -> ClosePosition {
    let (authority, _) = authority_and_bump();
    ClosePosition {
        admin: ADMIN,
        config,
        authority,
        clearing_house_state: upstream_state(),
        clearing_house_user: USER,
        clearing_house_markets: MARKETS,
        oracle: ORACLE,
        clearing_house_user_positions: USER_POSITIONS,
        clearing_house_funding_payment_history: FUNDING_PAYMENT_HISTORY,
        clearing_house_funding_rate_history: FUNDING_RATE_HISTORY,
        clearing_house_trade_history: TRADE_HISTORY,
        clearing_house_program: PROGRAM,
        remaining_accounts: Vec::new(),
    }
}

/// A minimal stand-in for the upstream program: records what a forwarded
/// trade request carried.
struct UpstreamDouble {
    seen_direction: Option<PositionDirection>,
    seen_notional: Option<u128>,
    seen_market_index: Option<u64>,
    seen_limit_price: Option<u128>,
    seen_signer_seed: Option<Identity>,
    seen_signer_bump: Option<u8>,
}

impl UpstreamDouble {
    fn receive(req: &UpstreamRequest) -> UpstreamDouble {
        let mut double = UpstreamDouble {
            seen_direction: None,
            seen_notional: None,
            seen_market_index: None,
            seen_limit_price: None,
            seen_signer_seed: Some(req.proof.seed),
            seen_signer_bump: Some(req.proof.bump),
        };
        if let UpstreamInstruction::OpenPosition {
            direction,
            quote_asset_amount,
            market_index,
            limit_price,
            ..
        } = req.instruction
        {
            double.seen_direction = Some(direction);
            double.seen_notional = Some(quote_asset_amount);
            double.seen_market_index = Some(market_index);
            double.seen_limit_price = Some(limit_price);
        }
        double
    }
}

#[test]
fn initialize_creates_record() {
    let (authority, bump) = authority_and_bump();
    let cfg = initialize(&None, initialize_ctx(), 0, 0).expect("initialize succeeds");
    assert_eq!(cfg.admin, ADMIN);
    assert_eq!(cfg.collateral_vault, VAULT_KEY);
    assert_eq!(cfg.authority, authority);
    assert_eq!(cfg.authority_nonce, bump);
    assert_eq!(cfg.clearing_house_user, id(0));
    assert_eq!(cfg.clearing_house_user_positions, id(0));
}

#[test]
fn initialize_twice_fails_and_keeps_first_record() {
    let first = initialize(&None, initialize_ctx(), 0, 0).expect("first run succeeds");
    let stored = Some(first);
    let second = initialize(&stored, initialize_ctx(), 0, 0);
    assert_eq!(second, Err(ErrorCode::AlreadyInitialized));
    assert_eq!(stored, Some(first));
}

#[test]
fn initialize_rejects_wrong_authority() {
    let mut ctx = initialize_ctx();
    ctx.authority = id(123_456);
    assert_eq!(initialize(&None, ctx, 0, 0), Err(ErrorCode::InvalidAuthority));
}

#[test]
fn initialize_rejects_vault_not_owned_by_authority() {
    let mut ctx = initialize_ctx();
    ctx.collateral_vault.owner = ADMIN;
    assert_eq!(
        initialize(&None, ctx, 0, 0),
        Err(ErrorCode::InvalidCollateralAccountAuthority)
    );
}

#[test]
fn initialize_rejects_mint_mismatch() {
    let mut ctx = initialize_ctx();
    ctx.clearing_house_state.collateral_mint = id(999);
    assert_eq!(
        initialize(&None, ctx, 0, 0),
        Err(ErrorCode::InvalidCollateralAccountAuthority)
    );
}

#[test]
fn initialize_user_requires_admin() {
    let cfg = fresh_config();
    let mut ctx = initialize_user_ctx(cfg);
    ctx.admin = id(4242);
    assert_eq!(initialize_user(ctx, 3), Err(ErrorCode::Unauthorized));
    // The operation is pure: the record the caller holds is untouched.
    assert_eq!(cfg.clearing_house_user, id(0));
    assert_eq!(cfg.clearing_house_user_positions, id(0));
}

#[test]
fn initialize_user_builds_create_user_request() {
    let (authority, bump) = authority_and_bump();
    let req = initialize_user(initialize_user_ctx(fresh_config()), 3).expect("validation passes");
    assert_eq!(req.program, PROGRAM);
    assert_eq!(
        req.instruction,
        UpstreamInstruction::InitializeUser { user_nonce: 3, whitelist_token: false }
    );
    assert_eq!(
        req.accounts,
        UpstreamAccounts::CreateUser {
            state: STATE_KEY,
            user: USER,
            user_positions: USER_POSITIONS,
            authority,
            payer: ADMIN,
        }
    );
    assert_eq!(req.proof.seed, PROGRAM);
    assert_eq!(req.proof.bump, bump);
    assert_eq!(derive_identity(req.proof.seed, req.proof.bump), authority);
}

#[test]
fn initialize_user_rejects_foreign_authority() {
    let mut ctx = initialize_user_ctx(fresh_config());
    ctx.authority = id(0x5EED_0000_0000_0002);
    assert_eq!(initialize_user(ctx, 3), Err(ErrorCode::InvalidAuthority));
}

#[test]
fn initialize_user_rejects_assigned_refs() {
    let ctx = initialize_user_ctx(user_config());
    assert_eq!(initialize_user(ctx, 3), Err(ErrorCode::AlreadyInitialized));
}

#[test]
fn record_user_refs_stores_each_ref_in_its_own_field() {
    let cfg = fresh_config();
    let updated = record_user_refs(&cfg, USER, USER_POSITIONS).expect("refs are unset");
    assert_eq!(updated.clearing_house_user, USER);
    assert_eq!(updated.clearing_house_user_positions, USER_POSITIONS);
    assert_ne!(updated.clearing_house_user, updated.clearing_house_user_positions);
    assert_eq!(updated.admin, cfg.admin);
    assert_eq!(updated.collateral_vault, cfg.collateral_vault);
    assert_eq!(updated.authority, cfg.authority);
    assert_eq!(updated.authority_nonce, cfg.authority_nonce);
}

#[test]
fn record_user_refs_is_write_once() {
    let cfg = user_config();
    assert_eq!(
        record_user_refs(&cfg, id(1), id(2)),
        Err(ErrorCode::AlreadyInitialized)
    );
}

#[test]
fn deposit_builds_transfer_then_forward() {
    let (authority, bump) = authority_and_bump();
    let action = deposit_collateral(deposit_ctx(user_config()), 500).expect("validation passes");
    assert_eq!(action.transfer.from, ADMIN_ACCOUNT_KEY);
    assert_eq!(action.transfer.to, VAULT_KEY);
    assert_eq!(action.transfer.authority, ADMIN);
    assert_eq!(action.transfer.amount, 500);
    assert_eq!(action.forward.program, PROGRAM);
    assert_eq!(
        action.forward.instruction,
        UpstreamInstruction::DepositCollateral { amount: 500 }
    );
    assert_eq!(
        action.forward.accounts,
        UpstreamAccounts::Deposit {
            state: STATE_KEY,
            user: USER,
            user_positions: USER_POSITIONS,
            authority,
            collateral_vault: CUSTODY,
            user_collateral_account: VAULT_KEY,
            markets: MARKETS,
            deposit_history: DEPOSIT_HISTORY,
            funding_payment_history: FUNDING_PAYMENT_HISTORY,
        }
    );
    assert_eq!(action.forward.proof.seed, PROGRAM);
    assert_eq!(action.forward.proof.bump, bump);
}

#[test]
fn deposit_requires_admin() {
    let mut ctx = deposit_ctx(user_config());
    ctx.admin = id(4242);
    assert_eq!(deposit_collateral(ctx, 500), Err(ErrorCode::Unauthorized));
}

#[test]
fn deposit_rejects_wrong_vault_account() {
    let mut ctx = deposit_ctx(user_config());
    ctx.collateral_vault.key = id(4242);
    assert_eq!(
        deposit_collateral(ctx, 500),
        Err(ErrorCode::InvalidCollateralAccountAuthority)
    );
}

#[test]
fn deposit_rejects_foreign_authority_before_any_transfer() {
    let balances = CollateralBalances {
        admin_account: 1_000,
        collateral_vault: 0,
        upstream_custody: 0,
    };
    let mut ctx = deposit_ctx(user_config());
    // A freshly generated, unrelated identity presented as the authority.
    ctx.authority = id(0x5EED_0000_0000_0001);
    let r = deposit_collateral(ctx, 500);
    assert_eq!(r, Err(ErrorCode::InvalidAuthority));
    // No action was produced, so no balance moved.
    assert_eq!(balances.admin_account, 1_000);
    assert_eq!(balances.collateral_vault, 0);
    assert_eq!(balances.upstream_custody, 0);
}

#[test]
fn withdraw_builds_forward_then_transfer() {
    let (authority, bump) = authority_and_bump();
    let action = withdraw_collateral(withdraw_ctx(user_config()), 321).expect("validation passes");
    assert_eq!(
        action.forward.instruction,
        UpstreamInstruction::WithdrawCollateral { amount: 321 }
    );
    assert_eq!(
        action.forward.accounts,
        UpstreamAccounts::Withdraw {
            state: STATE_KEY,
            user: USER,
            user_positions: USER_POSITIONS,
            authority,
            collateral_vault: CUSTODY,
            collateral_vault_authority: CUSTODY_AUTHORITY,
            insurance_vault: INSURANCE,
            insurance_vault_authority: INSURANCE_AUTHORITY,
            user_collateral_account: VAULT_KEY,
            markets: MARKETS,
            deposit_history: DEPOSIT_HISTORY,
            funding_payment_history: FUNDING_PAYMENT_HISTORY,
        }
    );
    assert_eq!(action.forward.proof.bump, bump);
    // The outbound local transfer is signed by the derived authority,
    // not by the admin.
    assert_eq!(action.transfer.from, VAULT_KEY);
    assert_eq!(action.transfer.to, ADMIN_ACCOUNT_KEY);
    assert_eq!(action.transfer.authority, authority);
    assert_eq!(action.transfer.amount, 321);
}

#[test]
fn withdraw_requires_admin() {
    let mut ctx = withdraw_ctx(user_config());
    ctx.admin = id(4242);
    assert_eq!(withdraw_collateral(ctx, 1), Err(ErrorCode::Unauthorized));
}

#[test]
fn withdraw_rejects_foreign_authority() {
    let mut ctx = withdraw_ctx(user_config());
    ctx.authority = id(4242);
    assert_eq!(withdraw_collateral(ctx, 1), Err(ErrorCode::InvalidAuthority));
}

#[test]
fn open_position_forwards_exact_parameters() {
    let act = open_position(
        open_ctx(user_config()),
        PositionDirection::Short,
        1_000_000,
        0,
        0,
        ManagePositionOptionalAccounts::default(),
    )
    .expect("validation passes");
    let double = UpstreamDouble::receive(&act.forward);
    assert_eq!(double.seen_direction, Some(PositionDirection::Short));
    assert_eq!(double.seen_notional, Some(1_000_000));
    assert_eq!(double.seen_market_index, Some(0));
    assert_eq!(double.seen_limit_price, Some(0));
    assert_eq!(double.seen_signer_seed, Some(PROGRAM));
    assert_eq!(double.seen_signer_bump, Some(user_config().authority_nonce));
    assert!(act.remaining_accounts.is_empty());
}

#[test]
fn open_position_passes_remaining_accounts_through() {
    let mut ctx = open_ctx(user_config());
    ctx.remaining_accounts = vec![id(7001), id(7002)];
    let act = open_position(
        ctx,
        PositionDirection::Long,
        5,
        1,
        9,
        ManagePositionOptionalAccounts { discount_token: true, referrer: true },
    )
    .expect("validation passes");
    assert_eq!(act.remaining_accounts, vec![id(7001), id(7002)]);
    match act.forward.instruction {
        UpstreamInstruction::OpenPosition { optional_accounts, .. } => {
            assert!(optional_accounts.discount_token);
            assert!(optional_accounts.referrer);
        }
        other => panic!("unexpected instruction: {:?}", other),
    }
}

#[test]
fn open_position_rejects_foreign_authority() {
    let mut ctx = open_ctx(user_config());
    ctx.authority = id(4242);
    let r = open_position(
        ctx,
        PositionDirection::Long,
        5,
        1,
        0,
        ManagePositionOptionalAccounts::default(),
    );
    assert!(matches!(r, Err(ErrorCode::InvalidAuthority)));
}

#[test]
fn close_position_forwards_market_and_options() {
    let act = close_position(
        close_ctx(user_config()),
        6,
        ManagePositionOptionalAccounts { discount_token: false, referrer: true },
    )
    .expect("validation passes");
    assert_eq!(
        act.forward.instruction,
        UpstreamInstruction::ClosePosition {
            market_index: 6,
            optional_accounts: ManagePositionOptionalAccounts {
                discount_token: false,
                referrer: true
            },
        }
    );
    assert!(act.remaining_accounts.is_empty());
}

#[test]
fn close_position_requires_admin() {
    let mut ctx = close_ctx(user_config());
    ctx.admin = id(4242);
    let r = close_position(ctx, 6, ManagePositionOptionalAccounts::default());
    assert!(matches!(r, Err(ErrorCode::Unauthorized)));
}

#[test]
fn apply_deposit_moves_amount_to_custody() {
    let b = CollateralBalances { admin_account: 100, collateral_vault: 5, upstream_custody: 7 };
    let after = apply_deposit(b, 40, true).expect("deposit settles");
    assert_eq!(
        after,
        CollateralBalances { admin_account: 60, collateral_vault: 5, upstream_custody: 47 }
    );
}

#[test]
fn apply_deposit_rejects_insufficient_funds() {
    let b = CollateralBalances { admin_account: 10, collateral_vault: 0, upstream_custody: 0 };
    assert_eq!(apply_deposit(b, 11, true), Err(ErrorCode::TransferFailed));
}

#[test]
fn apply_deposit_propagates_upstream_refusal() {
    let b = CollateralBalances { admin_account: 100, collateral_vault: 0, upstream_custody: 0 };
    assert_eq!(apply_deposit(b, 40, false), Err(ErrorCode::UpstreamCallFailed));
    // The caller's balances stand exactly as before.
    assert_eq!(b.admin_account, 100);
    assert_eq!(b.collateral_vault, 0);
    assert_eq!(b.upstream_custody, 0);
}

#[test]
fn apply_withdraw_moves_amount_from_custody() {
    let b = CollateralBalances { admin_account: 1, collateral_vault: 2, upstream_custody: 50 };
    let after = apply_withdraw(b, 30, true).expect("withdrawal settles");
    assert_eq!(
        after,
        CollateralBalances { admin_account: 31, collateral_vault: 2, upstream_custody: 20 }
    );
}

#[test]
fn apply_withdraw_rejects_excessive_amount() {
    let b = CollateralBalances { admin_account: 0, collateral_vault: 0, upstream_custody: 5 };
    assert_eq!(apply_withdraw(b, 6, true), Err(ErrorCode::UpstreamCallFailed));
}

#[test]
fn apply_withdraw_propagates_upstream_refusal() {
    let b = CollateralBalances { admin_account: 0, collateral_vault: 0, upstream_custody: 50 };
    assert_eq!(apply_withdraw(b, 10, false), Err(ErrorCode::UpstreamCallFailed));
}

#[test]
fn apply_withdraw_reports_failed_local_transfer() {
    let b = CollateralBalances {
        admin_account: u64::MAX,
        collateral_vault: 0,
        upstream_custody: 50,
    };
    assert_eq!(apply_withdraw(b, 10, true), Err(ErrorCode::TransferFailed));
}

#[test]
fn deposit_then_withdraw_restores_all_balances() {
    let before = CollateralBalances {
        admin_account: 10_000,
        collateral_vault: 123,
        upstream_custody: 456,
    };
    let mid = apply_deposit(before, 2_500, true).expect("deposit settles");
    let after = apply_withdraw(mid, 2_500, true).expect("withdrawal settles");
    assert_eq!(after, before);
}

#[test]
fn position_direction_defaults_to_long() {
    assert_eq!(PositionDirection::default(), PositionDirection::Long);
}

#[test]
fn optional_accounts_default_to_none() {
    let opts = ManagePositionOptionalAccounts::default();
    assert!(!opts.discount_token);
    assert!(!opts.referrer);
}

#[test]
fn full_flow_initialize_to_withdraw() {
    let cfg = initialize(&None, initialize_ctx(), 0, 0).expect("initialize succeeds");
    let req = initialize_user(initialize_user_ctx(cfg), 3).expect("create-user validates");
    assert_eq!(req.program, PROGRAM);
    let cfg = record_user_refs(&cfg, USER, USER_POSITIONS).expect("refs recorded once");
    let deposit = deposit_collateral(deposit_ctx(cfg), 900).expect("deposit validates");
    assert_eq!(deposit.transfer.amount, 900);
    let balances =
        CollateralBalances { admin_account: 1_000, collateral_vault: 0, upstream_custody: 0 };
    let balances = apply_deposit(balances, 900, true).expect("deposit settles");
    assert_eq!(balances.upstream_custody, 900);
    let withdraw = withdraw_collateral(withdraw_ctx(cfg), 900).expect("withdraw validates");
    assert_eq!(withdraw.transfer.amount, 900);
    let balances = apply_withdraw(balances, 900, true).expect("withdrawal settles");
    assert_eq!(balances.admin_account, 1_000);
    assert_eq!(balances.upstream_custody, 0);
}
