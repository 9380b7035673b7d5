//! The six operations: validate, then build the action to apply.
//!
//! Each operation is a pure function from the accounts it reads to either
//! a validation error or the action the host is to apply: a configuration
//! record to store, a local transfer, a forwarded upstream request, or a
//! combination.  Validation is strictly side-effect-free and all-or-
//! nothing: a function that returns an error produces no action at all, so
//! nothing is ever left half-applied.  The settlement functions at the end
//! state how balances move when the host applies a deposit or withdrawal
//! action and reports the upstream verdict.

use vstd::prelude::*;

use crate::context::{
    ClosePosition, DepositCollateral, Initialize, InitializeUser, OpenPosition,
    WithdrawCollateral,
};
use crate::error::ErrorCode;
use crate::forward::{
    DepositAction, ManagePositionOptionalAccounts, PositionDirection, TradeAction,
    TransferRequest, UpstreamAccounts, UpstreamInstruction, UpstreamRequest, WithdrawAction,
};
use crate::identity::{
    canonical_search, find_derived_identity, spec_derive_identity, Identity, SignatureProof,
};
use crate::state::{config_wf, user_refs_unset, Config};

verus! {

/// Admin match: the caller signing a privileged operation must be the
/// configured administrator.
pub fn check_admin(caller: Identity, config: &Config) -> (r: Result<(), ErrorCode>)
    ensures
        r is Ok <==> caller == config.admin,
        r is Err ==> r == Err::<(), ErrorCode>(ErrorCode::Unauthorized),
{
    if caller == config.admin {
        Ok(())
    } else {
        Err(ErrorCode::Unauthorized)
    }
}

/// Authority match: the account presented as the vault's authority must be
/// the stored derived authority, exactly.
pub fn check_authority(presented: Identity, config: &Config) -> (r: Result<(), ErrorCode>)
    ensures
        r is Ok <==> presented == config.authority,
        r is Err ==> r == Err::<(), ErrorCode>(ErrorCode::InvalidAuthority),
{
    if presented == config.authority {
        Ok(())
    } else {
        Err(ErrorCode::InvalidAuthority)
    }
}

/// Vault holding-account match: the account presented as the vault's local
/// collateral holder must be the configured one.
pub fn check_vault_account(presented: Identity, config: &Config) -> (r: Result<(), ErrorCode>)
    ensures
        r is Ok <==> presented == config.collateral_vault,
        r is Err ==> r == Err::<(), ErrorCode>(ErrorCode::InvalidCollateralAccountAuthority),
{
    if presented == config.collateral_vault {
        Ok(())
    } else {
        Err(ErrorCode::InvalidCollateralAccountAuthority)
    }
}

/// The outcome of `initialize`: the record it creates, or the exact error.
pub open spec fn spec_initialize(existing: Option<Config>, ctx: Initialize) -> Result<
    Config,
    ErrorCode,
> {
    if existing is Some {
        Err(ErrorCode::AlreadyInitialized)
    } else if ctx.clearing_house_state.collateral_mint != ctx.collateral_mint
        || ctx.collateral_vault.mint != ctx.collateral_mint {
        Err(ErrorCode::InvalidCollateralAccountAuthority)
    } else {
        match canonical_search(ctx.clearing_house_state.owner, 255) {
            None => Err(ErrorCode::InvalidAuthority),
            Some(bump) => {
                if ctx.authority != spec_derive_identity(ctx.clearing_house_state.owner, bump) {
                    Err(ErrorCode::InvalidAuthority)
                } else if ctx.collateral_vault.owner != spec_derive_identity(
                    ctx.clearing_house_state.owner,
                    bump,
                ) {
                    Err(ErrorCode::InvalidCollateralAccountAuthority)
                } else {
                    Ok(
                        Config {
                            admin: ctx.admin,
                            collateral_vault: ctx.collateral_vault.key,
                            authority: ctx.authority,
                            authority_nonce: bump,
                            clearing_house_user: Identity { value: 0 },
                            clearing_house_user_positions: Identity { value: 0 },
                        },
                    )
                }
            },
        }
    }
}

/// Creates the vault's configuration record.
///
/// `existing` is the record slot at the vault's seed address: creation is
/// refused, never overwritten, when a record is already there.  The
/// derived authority is recomputed from the upstream program's identity;
/// the caller must have supplied exactly that identity, and the vault's
/// holding account must be owned by it and carry the upstream program's
/// collateral denomination.  The two seed parameters are the host-level
/// addressing nonces; the record's content does not depend on them.
pub fn initialize(
    existing: &Option<Config>,
    ctx: Initialize,
    _config_nonce: u8,
    _collateral_vault_nonce: u8,
) -> (r: Result<Config, ErrorCode>)
    ensures
        r == spec_initialize(*existing, ctx),
        existing is Some ==> r == Err::<Config, ErrorCode>(ErrorCode::AlreadyInitialized),
        r matches Ok(cfg) ==> config_wf(cfg, ctx.clearing_house_state.owner) && user_refs_unset(
            cfg,
        ) && cfg.admin == ctx.admin && cfg.collateral_vault == ctx.collateral_vault.key
            && cfg.authority == ctx.authority,
{
    if existing.is_some() {
        return Err(ErrorCode::AlreadyInitialized);
    }
    if ctx.clearing_house_state.collateral_mint != ctx.collateral_mint
        || ctx.collateral_vault.mint != ctx.collateral_mint {
        return Err(ErrorCode::InvalidCollateralAccountAuthority);
    }
    match find_derived_identity(ctx.clearing_house_state.owner) {
        None => Err(ErrorCode::InvalidAuthority),
        Some((authority, bump)) => {
            if ctx.authority != authority {
                return Err(ErrorCode::InvalidAuthority);
            }
            if ctx.collateral_vault.owner != authority {
                return Err(ErrorCode::InvalidCollateralAccountAuthority);
            }
            Ok(
                Config {
                    admin: ctx.admin,
                    collateral_vault: ctx.collateral_vault.key,
                    authority: ctx.authority,
                    authority_nonce: bump,
                    clearing_house_user: Identity { value: 0 },
                    clearing_house_user_positions: Identity { value: 0 },
                },
            )
        },
    }
}

/// The outcome of `initialize_user`: the create-user request, or the
/// exact error.
pub open spec fn spec_initialize_user(ctx: InitializeUser, user_nonce: u8) -> Result<
    UpstreamRequest,
    ErrorCode,
> {
    if ctx.admin != ctx.config.admin {
        Err(ErrorCode::Unauthorized)
    } else if ctx.authority != ctx.config.authority {
        Err(ErrorCode::InvalidAuthority)
    } else if !user_refs_unset(ctx.config) {
        Err(ErrorCode::AlreadyInitialized)
    } else {
        Ok(
            UpstreamRequest {
                program: ctx.clearing_house_program,
                accounts: UpstreamAccounts::CreateUser {
                    state: ctx.clearing_house_state.key,
                    user: ctx.clearing_house_user,
                    user_positions: ctx.clearing_house_user_positions,
                    authority: ctx.authority,
                    payer: ctx.admin,
                },
                instruction: UpstreamInstruction::InitializeUser {
                    user_nonce,
                    whitelist_token: false,
                },
                proof: SignatureProof {
                    seed: ctx.clearing_house_state.owner,
                    bump: ctx.config.authority_nonce,
                },
            },
        )
    }
}

/// Builds the forwarded create-user call for the vault.
///
/// Only the configured admin may call it, the presented authority must be
/// the stored one, and the upstream references must still be unassigned:
/// the one expected `initialize_user` call per vault makes duplicates
/// fail rather than overwrite.  On success the host relays the request
/// and, on upstream success, records the references with
/// [`record_user_refs`].
pub fn initialize_user(ctx: InitializeUser, user_nonce: u8) -> (r: Result<
    UpstreamRequest,
    ErrorCode,
>)
    ensures
        r == spec_initialize_user(ctx, user_nonce),
        ctx.admin != ctx.config.admin ==> r == Err::<UpstreamRequest, ErrorCode>(
            ErrorCode::Unauthorized,
        ),
{
    check_admin(ctx.admin, &ctx.config)?;
    check_authority(ctx.authority, &ctx.config)?;
    if !(ctx.config.clearing_house_user == Identity { value: 0 }
        && ctx.config.clearing_house_user_positions == Identity { value: 0 }) {
        return Err(ErrorCode::AlreadyInitialized);
    }
    Ok(
        UpstreamRequest {
            program: ctx.clearing_house_program,
            accounts: UpstreamAccounts::CreateUser {
                state: ctx.clearing_house_state.key,
                user: ctx.clearing_house_user,
                user_positions: ctx.clearing_house_user_positions,
                authority: ctx.authority,
                payer: ctx.admin,
            },
            instruction: UpstreamInstruction::InitializeUser { user_nonce, whitelist_token: false },
            proof: SignatureProof {
                seed: ctx.clearing_house_state.owner,
                bump: ctx.config.authority_nonce,
            },
        },
    )
}

/// The outcome of recording the upstream references: the extended record,
/// or the exact error.
pub open spec fn spec_record_user_refs(cfg: Config, user: Identity, user_positions: Identity)
    -> Result<Config, ErrorCode> {
    if !user_refs_unset(cfg) {
        Err(ErrorCode::AlreadyInitialized)
    } else {
        Ok(
            Config {
                admin: cfg.admin,
                collateral_vault: cfg.collateral_vault,
                authority: cfg.authority,
                authority_nonce: cfg.authority_nonce,
                clearing_house_user: user,
                clearing_house_user_positions: user_positions,
            },
        )
    }
}

/// Stores the upstream user and positions references into the record,
/// each in its own field; the host calls this once, after the forwarded
/// create-user call has succeeded.  The references are write-once: a
/// record whose references are already assigned is never changed.  All
/// other fields are kept as they are.
pub fn record_user_refs(cfg: &Config, user: Identity, user_positions: Identity) -> (r: Result<
    Config,
    ErrorCode,
>)
    ensures
        r == spec_record_user_refs(*cfg, user, user_positions),
        r matches Ok(c) ==> c.clearing_house_user == user && c.clearing_house_user_positions
            == user_positions && c.admin == cfg.admin && c.collateral_vault
            == cfg.collateral_vault && c.authority == cfg.authority && c.authority_nonce
            == cfg.authority_nonce,
        !user_refs_unset(*cfg) ==> r == Err::<Config, ErrorCode>(ErrorCode::AlreadyInitialized),
{
    if !(cfg.clearing_house_user == Identity { value: 0 }
        && cfg.clearing_house_user_positions == Identity { value: 0 }) {
        return Err(ErrorCode::AlreadyInitialized);
    }
    Ok(
        Config {
            admin: cfg.admin,
            collateral_vault: cfg.collateral_vault,
            authority: cfg.authority,
            authority_nonce: cfg.authority_nonce,
            clearing_house_user: user,
            clearing_house_user_positions: user_positions,
        },
    )
}

/// The outcome of `deposit_collateral`: the two-step action, or the exact
/// error.
pub open spec fn spec_deposit_collateral(ctx: DepositCollateral, amount: u64) -> Result<
    DepositAction,
    ErrorCode,
> {
    if ctx.admin != ctx.config.admin {
        Err(ErrorCode::Unauthorized)
    } else if ctx.collateral_vault.key != ctx.config.collateral_vault {
        Err(ErrorCode::InvalidCollateralAccountAuthority)
    } else if ctx.authority != ctx.config.authority {
        Err(ErrorCode::InvalidAuthority)
    } else {
        Ok(
            DepositAction {
                transfer: TransferRequest {
                    from: ctx.admin_collateral_account.key,
                    to: ctx.collateral_vault.key,
                    authority: ctx.admin,
                    amount,
                },
                forward: UpstreamRequest {
                    program: ctx.clearing_house_program,
                    accounts: UpstreamAccounts::Deposit {
                        state: ctx.clearing_house_state.key,
                        user: ctx.clearing_house_user,
                        user_positions: ctx.clearing_house_user_positions,
                        authority: ctx.authority,
                        collateral_vault: ctx.clearing_house_collateral_vault,
                        user_collateral_account: ctx.collateral_vault.key,
                        markets: ctx.clearing_house_markets,
                        deposit_history: ctx.clearing_house_deposit_history,
                        funding_payment_history: ctx.clearing_house_funding_payment_history,
                    },
                    instruction: UpstreamInstruction::DepositCollateral { amount },
                    proof: SignatureProof {
                        seed: ctx.clearing_house_state.owner,
                        bump: ctx.config.authority_nonce,
                    },
                },
            },
        )
    }
}

/// Builds the deposit action: a local transfer of `amount` from the
/// caller's external account into the vault's holding account, signed by
/// the admin, followed by the forwarded upstream deposit of the same
/// amount, signed by the derived authority.
pub fn deposit_collateral(ctx: DepositCollateral, amount: u64) -> (r: Result<
    DepositAction,
    ErrorCode,
>)
    requires
        amount > 0,
    ensures
        r == spec_deposit_collateral(ctx, amount),
        ctx.admin == ctx.config.admin && ctx.collateral_vault.key == ctx.config.collateral_vault
            && ctx.authority != ctx.config.authority ==> r == Err::<DepositAction, ErrorCode>(
            ErrorCode::InvalidAuthority,
        ),
{
    check_admin(ctx.admin, &ctx.config)?;
    check_vault_account(ctx.collateral_vault.key, &ctx.config)?;
    check_authority(ctx.authority, &ctx.config)?;
    Ok(
        DepositAction {
            transfer: TransferRequest {
                from: ctx.admin_collateral_account.key,
                to: ctx.collateral_vault.key,
                authority: ctx.admin,
                amount,
            },
            forward: UpstreamRequest {
                program: ctx.clearing_house_program,
                accounts: UpstreamAccounts::Deposit {
                    state: ctx.clearing_house_state.key,
                    user: ctx.clearing_house_user,
                    user_positions: ctx.clearing_house_user_positions,
                    authority: ctx.authority,
                    collateral_vault: ctx.clearing_house_collateral_vault,
                    user_collateral_account: ctx.collateral_vault.key,
                    markets: ctx.clearing_house_markets,
                    deposit_history: ctx.clearing_house_deposit_history,
                    funding_payment_history: ctx.clearing_house_funding_payment_history,
                },
                instruction: UpstreamInstruction::DepositCollateral { amount },
                proof: SignatureProof {
                    seed: ctx.clearing_house_state.owner,
                    bump: ctx.config.authority_nonce,
                },
            },
        },
    )
}

/// The outcome of `withdraw_collateral`: the two-step action, or the
/// exact error.
pub open spec fn spec_withdraw_collateral(ctx: WithdrawCollateral, amount: u64) -> Result<
    WithdrawAction,
    ErrorCode,
> {
    if ctx.admin != ctx.config.admin {
        Err(ErrorCode::Unauthorized)
    } else if ctx.collateral_vault.key != ctx.config.collateral_vault {
        Err(ErrorCode::InvalidCollateralAccountAuthority)
    } else if ctx.authority != ctx.config.authority {
        Err(ErrorCode::InvalidAuthority)
    } else {
        Ok(
            WithdrawAction {
                forward: UpstreamRequest {
                    program: ctx.clearing_house_program,
                    accounts: UpstreamAccounts::Withdraw {
                        state: ctx.clearing_house_state.key,
                        user: ctx.clearing_house_user,
                        user_positions: ctx.clearing_house_user_positions,
                        authority: ctx.authority,
                        collateral_vault: ctx.clearing_house_collateral_vault,
                        collateral_vault_authority:
                            ctx.clearing_house_collateral_vault_authority,
                        insurance_vault: ctx.clearing_house_insurance_vault,
                        insurance_vault_authority: ctx.clearing_house_insurance_vault_authority,
                        user_collateral_account: ctx.collateral_vault.key,
                        markets: ctx.clearing_house_markets,
                        deposit_history: ctx.clearing_house_deposit_history,
                        funding_payment_history: ctx.clearing_house_funding_payment_history,
                    },
                    instruction: UpstreamInstruction::WithdrawCollateral { amount },
                    proof: SignatureProof {
                        seed: ctx.clearing_house_state.owner,
                        bump: ctx.config.authority_nonce,
                    },
                },
                transfer: TransferRequest {
                    from: ctx.collateral_vault.key,
                    to: ctx.admin_collateral_account.key,
                    authority: ctx.authority,
                    amount,
                },
            },
        )
    }
}

/// Builds the withdrawal action: the forwarded upstream withdrawal of
/// `amount` into the vault's holding account runs first, signed by the
/// derived authority; the local transfer out to the caller's external
/// account follows, also signed by the derived authority.
pub fn withdraw_collateral(ctx: WithdrawCollateral, amount: u64) -> (r: Result<
    WithdrawAction,
    ErrorCode,
>)
    ensures
        r == spec_withdraw_collateral(ctx, amount),
        ctx.admin == ctx.config.admin && ctx.collateral_vault.key == ctx.config.collateral_vault
            && ctx.authority != ctx.config.authority ==> r == Err::<WithdrawAction, ErrorCode>(
            ErrorCode::InvalidAuthority,
        ),
{
    check_admin(ctx.admin, &ctx.config)?;
    check_vault_account(ctx.collateral_vault.key, &ctx.config)?;
    check_authority(ctx.authority, &ctx.config)?;
    Ok(
        WithdrawAction {
            forward: UpstreamRequest {
                program: ctx.clearing_house_program,
                accounts: UpstreamAccounts::Withdraw {
                    state: ctx.clearing_house_state.key,
                    user: ctx.clearing_house_user,
                    user_positions: ctx.clearing_house_user_positions,
                    authority: ctx.authority,
                    collateral_vault: ctx.clearing_house_collateral_vault,
                    collateral_vault_authority: ctx.clearing_house_collateral_vault_authority,
                    insurance_vault: ctx.clearing_house_insurance_vault,
                    insurance_vault_authority: ctx.clearing_house_insurance_vault_authority,
                    user_collateral_account: ctx.collateral_vault.key,
                    markets: ctx.clearing_house_markets,
                    deposit_history: ctx.clearing_house_deposit_history,
                    funding_payment_history: ctx.clearing_house_funding_payment_history,
                },
                instruction: UpstreamInstruction::WithdrawCollateral { amount },
                proof: SignatureProof {
                    seed: ctx.clearing_house_state.owner,
                    bump: ctx.config.authority_nonce,
                },
            },
            transfer: TransferRequest {
                from: ctx.collateral_vault.key,
                to: ctx.admin_collateral_account.key,
                authority: ctx.authority,
                amount,
            },
        },
    )
}

/// The fixed part of the outcome of `open_position`: the forwarded
/// request, or the exact error.
pub open spec fn spec_open_position(
    ctx: OpenPosition,
    direction: PositionDirection,
    quote_asset_amount: u128,
    market_index: u64,
    limit_price: u128,
    optional_accounts: ManagePositionOptionalAccounts,
) -> Result<UpstreamRequest, ErrorCode> {
    if ctx.admin != ctx.config.admin {
        Err(ErrorCode::Unauthorized)
    } else if ctx.authority != ctx.config.authority {
        Err(ErrorCode::InvalidAuthority)
    } else {
        Ok(
            UpstreamRequest {
                program: ctx.clearing_house_program,
                accounts: UpstreamAccounts::Trade {
                    state: ctx.clearing_house_state.key,
                    user: ctx.clearing_house_user,
                    user_positions: ctx.clearing_house_user_positions,
                    authority: ctx.authority,
                    markets: ctx.clearing_house_markets,
                    oracle: ctx.oracle,
                    trade_history: ctx.clearing_house_trade_history,
                    funding_payment_history: ctx.clearing_house_funding_payment_history,
                    funding_rate_history: ctx.clearing_house_funding_rate_history,
                },
                instruction: UpstreamInstruction::OpenPosition {
                    direction,
                    quote_asset_amount,
                    market_index,
                    limit_price,
                    optional_accounts,
                },
                proof: SignatureProof {
                    seed: ctx.clearing_house_state.owner,
                    bump: ctx.config.authority_nonce,
                },
            },
        )
    }
}

/// Builds the forwarded trade-open call with its full parameter set
/// relayed unchanged, plus the pass-through accounts.
pub fn open_position(
    ctx: OpenPosition,
    direction: PositionDirection,
    quote_asset_amount: u128,
    market_index: u64,
    limit_price: u128,
    optional_accounts: ManagePositionOptionalAccounts,
) -> (r: Result<TradeAction, ErrorCode>)
    ensures
        match spec_open_position(
            ctx,
            direction,
            quote_asset_amount,
            market_index,
            limit_price,
            optional_accounts,
        ) {
            Ok(req) => r matches Ok(act) && act.forward == req && act.remaining_accounts
                == ctx.remaining_accounts,
            Err(e) => r matches Err(e2) && e2 == e,
        },
{
    check_admin(ctx.admin, &ctx.config)?;
    check_authority(ctx.authority, &ctx.config)?;
    Ok(
        TradeAction {
            forward: UpstreamRequest {
                program: ctx.clearing_house_program,
                accounts: UpstreamAccounts::Trade {
                    state: ctx.clearing_house_state.key,
                    user: ctx.clearing_house_user,
                    user_positions: ctx.clearing_house_user_positions,
                    authority: ctx.authority,
                    markets: ctx.clearing_house_markets,
                    oracle: ctx.oracle,
                    trade_history: ctx.clearing_house_trade_history,
                    funding_payment_history: ctx.clearing_house_funding_payment_history,
                    funding_rate_history: ctx.clearing_house_funding_rate_history,
                },
                instruction: UpstreamInstruction::OpenPosition {
                    direction,
                    quote_asset_amount,
                    market_index,
                    limit_price,
                    optional_accounts,
                },
                proof: SignatureProof {
                    seed: ctx.clearing_house_state.owner,
                    bump: ctx.config.authority_nonce,
                },
            },
            remaining_accounts: ctx.remaining_accounts,
        },
    )
}

/// The fixed part of the outcome of `close_position`: the forwarded
/// request, or the exact error.
pub open spec fn spec_close_position(
    ctx: ClosePosition,
    market_index: u64,
    optional_accounts: ManagePositionOptionalAccounts,
) -> Result<UpstreamRequest, ErrorCode> {
    if ctx.admin != ctx.config.admin {
        Err(ErrorCode::Unauthorized)
    } else if ctx.authority != ctx.config.authority {
        Err(ErrorCode::InvalidAuthority)
    } else {
        Ok(
            UpstreamRequest {
                program: ctx.clearing_house_program,
                accounts: UpstreamAccounts::Trade {
                    state: ctx.clearing_house_state.key,
                    user: ctx.clearing_house_user,
                    user_positions: ctx.clearing_house_user_positions,
                    authority: ctx.authority,
                    markets: ctx.clearing_house_markets,
                    oracle: ctx.oracle,
                    trade_history: ctx.clearing_house_trade_history,
                    funding_payment_history: ctx.clearing_house_funding_payment_history,
                    funding_rate_history: ctx.clearing_house_funding_rate_history,
                },
                instruction: UpstreamInstruction::ClosePosition { market_index, optional_accounts },
                proof: SignatureProof {
                    seed: ctx.clearing_house_state.owner,
                    bump: ctx.config.authority_nonce,
                },
            },
        )
    }
}

/// Builds the forwarded trade-close call, plus the pass-through accounts.
pub fn close_position(
    ctx: ClosePosition,
    market_index: u64,
    optional_accounts: ManagePositionOptionalAccounts,
) -> (r: Result<TradeAction, ErrorCode>)
    ensures
        match spec_close_position(ctx, market_index, optional_accounts) {
            Ok(req) => r matches Ok(act) && act.forward == req && act.remaining_accounts
                == ctx.remaining_accounts,
            Err(e) => r matches Err(e2) && e2 == e,
        },
{
    check_admin(ctx.admin, &ctx.config)?;
    check_authority(ctx.authority, &ctx.config)?;
    Ok(
        TradeAction {
            forward: UpstreamRequest {
                program: ctx.clearing_house_program,
                accounts: UpstreamAccounts::Trade {
                    state: ctx.clearing_house_state.key,
                    user: ctx.clearing_house_user,
                    user_positions: ctx.clearing_house_user_positions,
                    authority: ctx.authority,
                    markets: ctx.clearing_house_markets,
                    oracle: ctx.oracle,
                    trade_history: ctx.clearing_house_trade_history,
                    funding_payment_history: ctx.clearing_house_funding_payment_history,
                    funding_rate_history: ctx.clearing_house_funding_rate_history,
                },
                instruction: UpstreamInstruction::ClosePosition { market_index, optional_accounts },
                proof: SignatureProof {
                    seed: ctx.clearing_house_state.owner,
                    bump: ctx.config.authority_nonce,
                },
            },
            remaining_accounts: ctx.remaining_accounts,
        },
    )
}

/// The three balances one deposit or withdrawal touches: the caller's
/// external account, the vault's local holding account, and the upstream
/// program's custody account.
#[derive(Clone, Copy, PartialEq, Eq, Structural, Debug)]
pub struct CollateralBalances {
    pub admin_account: u64,
    pub collateral_vault: u64,
    pub upstream_custody: u64,
}

/// How balances move when the host applies a deposit action and the
/// upstream verdict is `upstream_accepted`, or the exact error.
pub open spec fn spec_apply_deposit(
    b: CollateralBalances,
    amount: u64,
    upstream_accepted: bool,
) -> Result<CollateralBalances, ErrorCode> {
    if b.admin_account < amount {
        Err(ErrorCode::TransferFailed)
    } else if b.collateral_vault + amount > u64::MAX {
        Err(ErrorCode::TransferFailed)
    } else if !upstream_accepted {
        Err(ErrorCode::UpstreamCallFailed)
    } else if b.upstream_custody + amount > u64::MAX {
        Err(ErrorCode::UpstreamCallFailed)
    } else {
        Ok(
            CollateralBalances {
                admin_account: (b.admin_account - amount) as u64,
                collateral_vault: b.collateral_vault,
                upstream_custody: (b.upstream_custody + amount) as u64,
            },
        )
    }
}

/// Settles a deposit of `amount`: the local transfer credits the vault's
/// holding account, then the forwarded deposit moves the same amount on to
/// upstream custody.  The two steps commit atomically: on any error the
/// caller's balances stand exactly as before, so a refused forwarded call
/// leaves no local transfer applied.
pub fn apply_deposit(b: CollateralBalances, amount: u64, upstream_accepted: bool) -> (r: Result<
    CollateralBalances,
    ErrorCode,
>)
    ensures
        r == spec_apply_deposit(b, amount, upstream_accepted),
{
    if b.admin_account < amount {
        return Err(ErrorCode::TransferFailed);
    }
    if amount > u64::MAX - b.collateral_vault {
        return Err(ErrorCode::TransferFailed);
    }
    if !upstream_accepted {
        return Err(ErrorCode::UpstreamCallFailed);
    }
    if amount > u64::MAX - b.upstream_custody {
        return Err(ErrorCode::UpstreamCallFailed);
    }
    Ok(
        CollateralBalances {
            admin_account: b.admin_account - amount,
            collateral_vault: b.collateral_vault,
            upstream_custody: b.upstream_custody + amount,
        },
    )
}

/// How balances move when the host applies a withdrawal action and the
/// upstream verdict is `upstream_accepted`, or the exact error.
pub open spec fn spec_apply_withdraw(
    b: CollateralBalances,
    amount: u64,
    upstream_accepted: bool,
) -> Result<CollateralBalances, ErrorCode> {
    if !upstream_accepted {
        Err(ErrorCode::UpstreamCallFailed)
    } else if b.upstream_custody < amount {
        Err(ErrorCode::UpstreamCallFailed)
    } else if b.collateral_vault + amount > u64::MAX {
        Err(ErrorCode::UpstreamCallFailed)
    } else if b.admin_account + amount > u64::MAX {
        Err(ErrorCode::TransferFailed)
    } else {
        Ok(
            CollateralBalances {
                admin_account: (b.admin_account + amount) as u64,
                collateral_vault: b.collateral_vault,
                upstream_custody: (b.upstream_custody - amount) as u64,
            },
        )
    }
}

/// Settles a withdrawal of `amount`: the forwarded withdrawal moves the
/// amount from upstream custody into the vault's holding account, then the
/// local transfer moves it on to the caller's external account.  The
/// upstream call runs first and the whole operation is atomic: on any
/// error the balances stand exactly as before.
pub fn apply_withdraw(b: CollateralBalances, amount: u64, upstream_accepted: bool) -> (r: Result<
    CollateralBalances,
    ErrorCode,
>)
    ensures
        r == spec_apply_withdraw(b, amount, upstream_accepted),
{
    if !upstream_accepted {
        return Err(ErrorCode::UpstreamCallFailed);
    }
    if b.upstream_custody < amount {
        return Err(ErrorCode::UpstreamCallFailed);
    }
    if amount > u64::MAX - b.collateral_vault {
        return Err(ErrorCode::UpstreamCallFailed);
    }
    if amount > u64::MAX - b.admin_account {
        return Err(ErrorCode::TransferFailed);
    }
    Ok(
        CollateralBalances {
            admin_account: b.admin_account + amount,
            collateral_vault: b.collateral_vault,
            upstream_custody: b.upstream_custody - amount,
        },
    )
}

} // verus!
