//! The forwarding engine's request types.
//!
//! The upstream program exposes five fixed entry points.  A validated
//! operation is turned into a typed request: the entry point's argument
//! list, the ordered account set the call names, and the signature proof
//! of the derived authority.  The host relays a request verbatim and
//! reports the upstream verdict back; a failed forwarded call is terminal
//! for its invocation and is never retried.

use vstd::prelude::*;

use crate::identity::{Identity, SignatureProof};

verus! {

/// The side of a position forwarded to the upstream program.
#[derive(Clone, Copy, PartialEq, Eq, Structural, Debug)]
pub enum PositionDirection {
    Long,
    Short,
}

impl Default for PositionDirection {
    fn default() -> (r: Self)
        ensures
            r == PositionDirection::Long,
    {
        PositionDirection::Long
    }
}

/// Which optional accounts a trade instruction carries.
#[derive(Clone, Copy, PartialEq, Eq, Structural, Debug)]
pub struct ManagePositionOptionalAccounts {
    pub discount_token: bool,
    pub referrer: bool,
}

impl Default for ManagePositionOptionalAccounts {
    fn default() -> (r: Self)
        ensures
            r == (ManagePositionOptionalAccounts { discount_token: false, referrer: false }),
    {
        ManagePositionOptionalAccounts { discount_token: false, referrer: false }
    }
}

/// The argument list of one upstream entry point, relayed unchanged.
#[derive(Clone, Copy, PartialEq, Eq, Structural, Debug)]
pub enum UpstreamInstruction {
    InitializeUser { user_nonce: u8, whitelist_token: bool },
    DepositCollateral { amount: u64 },
    WithdrawCollateral { amount: u64 },
    OpenPosition {
        direction: PositionDirection,
        quote_asset_amount: u128,
        market_index: u64,
        limit_price: u128,
        optional_accounts: ManagePositionOptionalAccounts,
    },
    ClosePosition { market_index: u64, optional_accounts: ManagePositionOptionalAccounts },
}

/// The fixed account set an upstream entry point names.
#[derive(Clone, Copy, PartialEq, Eq, Structural, Debug)]
pub enum UpstreamAccounts {
    /// Accounts of the create-user entry point.
    CreateUser {
        state: Identity,
        user: Identity,
        user_positions: Identity,
        authority: Identity,
        payer: Identity,
    },
    /// Accounts of the deposit entry point.
    Deposit {
        state: Identity,
        user: Identity,
        user_positions: Identity,
        authority: Identity,
        collateral_vault: Identity,
        user_collateral_account: Identity,
        markets: Identity,
        deposit_history: Identity,
        funding_payment_history: Identity,
    },
    /// Accounts of the withdraw entry point.
    Withdraw {
        state: Identity,
        user: Identity,
        user_positions: Identity,
        authority: Identity,
        collateral_vault: Identity,
        collateral_vault_authority: Identity,
        insurance_vault: Identity,
        insurance_vault_authority: Identity,
        user_collateral_account: Identity,
        markets: Identity,
        deposit_history: Identity,
        funding_payment_history: Identity,
    },
    /// Accounts of the open-position and close-position entry points.
    Trade {
        state: Identity,
        user: Identity,
        user_positions: Identity,
        authority: Identity,
        markets: Identity,
        oracle: Identity,
        trade_history: Identity,
        funding_payment_history: Identity,
        funding_rate_history: Identity,
    },
}

/// One fully assembled upstream call: program, accounts, arguments, and
/// the derived-authority signature proof.
#[derive(Clone, Copy, PartialEq, Eq, Structural, Debug)]
pub struct UpstreamRequest {
    /// The upstream program invoked.
    pub program: Identity,
    /// The fixed account set the call names.
    pub accounts: UpstreamAccounts,
    /// The entry point's arguments, relayed unchanged.
    pub instruction: UpstreamInstruction,
    /// Signature proof of the derived authority, rebuilt from the seed
    /// material for this call alone.
    pub proof: SignatureProof,
}

/// A local value transfer between two token holding accounts.
#[derive(Clone, Copy, PartialEq, Eq, Structural, Debug)]
pub struct TransferRequest {
    pub from: Identity,
    pub to: Identity,
    /// The identity that signs the transfer.
    pub authority: Identity,
    pub amount: u64,
}

/// The action a validated deposit produces: first the local transfer into
/// the vault's holding account, then the forwarded upstream deposit.  The
/// two commit atomically; if the forwarded call fails, the transfer is not
/// left applied.
#[derive(Clone, Copy, PartialEq, Eq, Structural, Debug)]
pub struct DepositAction {
    pub transfer: TransferRequest,
    pub forward: UpstreamRequest,
}

/// The action a validated withdrawal produces: first the forwarded
/// upstream withdrawal into the vault's holding account, then the local
/// transfer out to the caller.  The order is part of the contract: the
/// upstream call runs first, so a refusal leaves nothing to revert.
#[derive(Clone, Copy, PartialEq, Eq, Structural, Debug)]
pub struct WithdrawAction {
    pub forward: UpstreamRequest,
    pub transfer: TransferRequest,
}

/// The action a validated trade produces: the forwarded call plus the
/// pass-through accounts appended to its account set.
pub struct TradeAction {
    pub forward: UpstreamRequest,
    /// Additional accounts relayed after the fixed set, unexamined.
    pub remaining_accounts: Vec<Identity>,
}

} // verus!
