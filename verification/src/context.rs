//! The account bundles each operation reads.
//!
//! Every operation receives the shared records it touches as one bundle of
//! plain values: identities of the accounts involved and the contents of
//! the accounts whose contents the validation reads.  The host assembles a
//! bundle per invocation and declares thereby exactly which records the
//! operation may read or write.

use vstd::prelude::*;

use crate::identity::Identity;
use crate::state::Config;

verus! {

/// A collateral token holding account: its address and the fields the
/// validation layer reads.
#[derive(Clone, Copy, PartialEq, Eq, Structural, Debug)]
pub struct TokenHolding {
    /// The account's own address.
    pub key: Identity,
    /// The collateral denomination the account holds.
    pub mint: Identity,
    /// The identity allowed to move the account's balance.
    pub owner: Identity,
}

/// The upstream program's global state account, as far as this proxy
/// reads it.
#[derive(Clone, Copy, PartialEq, Eq, Structural, Debug)]
pub struct UpstreamStateAccount {
    /// The state account's own address.
    pub key: Identity,
    /// The program that owns the state account: the upstream program's
    /// identity, the seed material of every derivation.
    pub owner: Identity,
    /// The collateral denomination the upstream program accepts.
    pub collateral_mint: Identity,
}

/// Accounts read by `initialize`.
pub struct Initialize {
    /// The caller creating the vault; becomes the configured admin.
    pub admin: Identity,
    /// The collateral denomination the vault is created for.
    pub collateral_mint: Identity,
    /// The freshly created local holding account of the vault.
    pub collateral_vault: TokenHolding,
    /// The candidate derived authority supplied by the caller.
    pub authority: Identity,
    /// The upstream program's global state.
    pub clearing_house_state: UpstreamStateAccount,
}

/// Accounts read by `initialize_user`.
pub struct InitializeUser {
    /// The caller, who must be the configured admin and pays upstream.
    pub admin: Identity,
    /// The vault's configuration record.
    pub config: Config,
    /// The upstream program's global state.
    pub clearing_house_state: UpstreamStateAccount,
    /// The address at which the upstream user record is to be created.
    pub clearing_house_user: Identity,
    /// The address at which the upstream positions record is to be created.
    pub clearing_house_user_positions: Identity,
    /// The account presented as the derived authority.
    pub authority: Identity,
    /// The upstream program to forward to.
    pub clearing_house_program: Identity,
}

/// Accounts read by `deposit_collateral`.
pub struct DepositCollateral {
    /// The caller, who must be the configured admin and signs the local
    /// transfer into the vault.
    pub admin: Identity,
    /// The caller's external collateral account, the source of the deposit.
    pub admin_collateral_account: TokenHolding,
    /// The vault's configuration record.
    pub config: Config,
    /// The vault's local holding account.
    pub collateral_vault: TokenHolding,
    /// The account presented as the derived authority.
    pub authority: Identity,
    /// The upstream program's global state.
    pub clearing_house_state: UpstreamStateAccount,
    /// The vault's user record upstream.
    pub clearing_house_user: Identity,
    /// The upstream program's own collateral custody account.
    pub clearing_house_collateral_vault: Identity,
    /// The upstream markets record.
    pub clearing_house_markets: Identity,
    /// The vault's positions record upstream.
    pub clearing_house_user_positions: Identity,
    /// The upstream funding payment history record.
    pub clearing_house_funding_payment_history: Identity,
    /// The upstream deposit history record.
    pub clearing_house_deposit_history: Identity,
    /// The upstream program to forward to.
    pub clearing_house_program: Identity,
}

/// Accounts read by `withdraw_collateral`.
pub struct WithdrawCollateral {
    /// The caller, who must be the configured admin.
    pub admin: Identity,
    /// The caller's external collateral account, the destination.
    pub admin_collateral_account: TokenHolding,
    /// The vault's configuration record.
    pub config: Config,
    /// The vault's local holding account.
    pub collateral_vault: TokenHolding,
    /// The account presented as the derived authority.
    pub authority: Identity,
    /// The upstream program's global state.
    pub clearing_house_state: UpstreamStateAccount,
    /// The vault's user record upstream.
    pub clearing_house_user: Identity,
    /// The upstream program's own collateral custody account.
    pub clearing_house_collateral_vault: Identity,
    /// The authority of the upstream custody account.
    pub clearing_house_collateral_vault_authority: Identity,
    /// The upstream insurance fund account.
    pub clearing_house_insurance_vault: Identity,
    /// The authority of the upstream insurance fund account.
    pub clearing_house_insurance_vault_authority: Identity,
    /// The upstream markets record.
    pub clearing_house_markets: Identity,
    /// The vault's positions record upstream.
    pub clearing_house_user_positions: Identity,
    /// The upstream funding payment history record.
    pub clearing_house_funding_payment_history: Identity,
    /// The upstream deposit history record.
    pub clearing_house_deposit_history: Identity,
    /// The upstream program to forward to.
    pub clearing_house_program: Identity,
}

/// Accounts read by `open_position`.
pub struct OpenPosition {
    /// The caller, who must be the configured admin.
    pub admin: Identity,
    /// The vault's configuration record.
    pub config: Config,
    /// The account presented as the derived authority.
    pub authority: Identity,
    /// The upstream program's global state.
    pub clearing_house_state: UpstreamStateAccount,
    /// The vault's user record upstream.
    pub clearing_house_user: Identity,
    /// The upstream markets record.
    pub clearing_house_markets: Identity,
    /// The price oracle the upstream call reads.
    pub oracle: Identity,
    /// The vault's positions record upstream.
    pub clearing_house_user_positions: Identity,
    /// The upstream funding payment history record.
    pub clearing_house_funding_payment_history: Identity,
    /// The upstream funding rate history record.
    pub clearing_house_funding_rate_history: Identity,
    /// The upstream trade history record.
    pub clearing_house_trade_history: Identity,
    /// The upstream program to forward to.
    pub clearing_house_program: Identity,
    /// Additional accounts the upstream call requires beyond the fixed
    /// set, passed through unexamined.
    pub remaining_accounts: Vec<Identity>,
}

/// Accounts read by `close_position`; the same set as for opening.
pub struct ClosePosition {
    /// The caller, who must be the configured admin.
    pub admin: Identity,
    /// The vault's configuration record.
    pub config: Config,
    /// The account presented as the derived authority.
    pub authority: Identity,
    /// The upstream program's global state.
    pub clearing_house_state: UpstreamStateAccount,
    /// The vault's user record upstream.
    pub clearing_house_user: Identity,
    /// The upstream markets record.
    pub clearing_house_markets: Identity,
    /// The price oracle the upstream call reads.
    pub oracle: Identity,
    /// The vault's positions record upstream.
    pub clearing_house_user_positions: Identity,
    /// The upstream funding payment history record.
    pub clearing_house_funding_payment_history: Identity,
    /// The upstream funding rate history record.
    pub clearing_house_funding_rate_history: Identity,
    /// The upstream trade history record.
    pub clearing_house_trade_history: Identity,
    /// The upstream program to forward to.
    pub clearing_house_program: Identity,
    /// Additional accounts the upstream call requires beyond the fixed
    /// set, passed through unexamined.
    pub remaining_accounts: Vec<Identity>,
}

} // verus!
