//! The library's laws: what holds across calls and for all inputs.

use vstd::prelude::*;

use crate::context::{ClosePosition, DepositCollateral, Initialize, InitializeUser, OpenPosition, WithdrawCollateral};
use crate::error::ErrorCode;
use crate::forward::{DepositAction, ManagePositionOptionalAccounts, PositionDirection, UpstreamRequest, WithdrawAction};
use crate::identity::{canonical_search, is_canonical_bump, signer_of, spec_derive_identity, spec_is_keyed, Identity, DERIVE_STEP};
use crate::ops::{spec_apply_deposit, spec_apply_withdraw, spec_close_position, spec_deposit_collateral, spec_initialize, spec_initialize_user, spec_open_position, spec_record_user_refs, spec_withdraw_collateral, CollateralBalances};
use crate::state::{config_wf, Config};

verus! {

/// Displacing one base by two different offsets, both under the wrap
/// bound, lands on two different points of the wrapped space.
proof fn lemma_mod_shift_distinct(s: int, x1: int, x2: int)
    requires
        0 <= s < 0x1_0000_0000_0000_0000,
        0 <= x1 < 0x1_0000_0000_0000_0000,
        0 <= x2 < 0x1_0000_0000_0000_0000,
        x1 != x2,
    ensures
        (s + x1) % 0x1_0000_0000_0000_0000 != (s + x2) % 0x1_0000_0000_0000_0000,
{
    let m: int = 0x1_0000_0000_0000_0000;
    if s + x1 < m {
        assert((s + x1) % m == s + x1);
    } else {
        assert((s + x1) % m == s + x1 - m);
    }
    if s + x2 < m {
        assert((s + x2) % m == s + x2);
    } else {
        assert((s + x2) % m == s + x2 - m);
    }
}

/// Derivation separates bumps: with the seed fixed, different bumps
/// derive different identities, so signing is identity-exact in the bump.
pub proof fn lemma_derive_identity_distinct_bumps(seed: Identity, b1: u8, b2: u8)
    requires
        b1 != b2,
    ensures
        spec_derive_identity(seed, b1) != spec_derive_identity(seed, b2),
{
    lemma_mod_shift_distinct(
        seed.value as int,
        (DERIVE_STEP as int) * (b1 as int),
        (DERIVE_STEP as int) * (b2 as int),
    );
}

/// Derivation separates seeds: with the bump fixed, different seeds
/// derive different identities.
pub proof fn lemma_derive_identity_distinct_seeds(s1: Identity, s2: Identity, bump: u8)
    requires
        s1 != s2,
    ensures
        spec_derive_identity(s1, bump) != spec_derive_identity(s2, bump),
{
    lemma_mod_shift_distinct(
        (DERIVE_STEP as int) * (bump as int),
        s1.value as int,
        s2.value as int,
    );
}

/// At most one bump is canonical for a seed: the canonical derivation is
/// unique.
pub proof fn lemma_canonical_bump_unique(seed: Identity, b1: u8, b2: u8)
    requires
        is_canonical_bump(seed, b1),
        is_canonical_bump(seed, b2),
    ensures
        b1 == b2,
{
    if b1 < b2 {
        assert(spec_is_keyed(spec_derive_identity(seed, b2)));
    } else if b2 < b1 {
        assert(spec_is_keyed(spec_derive_identity(seed, b1)));
    }
}

/// Signing is identity-exact in the bump: an authority derived from the
/// right seed but any bump other than the canonical one is a different
/// identity, and initialization rejects it with `InvalidAuthority`.
pub proof fn lemma_initialize_rejects_differing_bump(ctx: Initialize, bump: u8, supplied: u8)
    requires
        canonical_search(ctx.clearing_house_state.owner, 255) == Some(bump),
        supplied != bump,
        ctx.authority == spec_derive_identity(ctx.clearing_house_state.owner, supplied),
    ensures
        spec_initialize(None, ctx) is Err,
        ctx.clearing_house_state.collateral_mint == ctx.collateral_mint
            && ctx.collateral_vault.mint == ctx.collateral_mint ==> spec_initialize(None, ctx)
            == Err::<Config, ErrorCode>(ErrorCode::InvalidAuthority),
{
    lemma_derive_identity_distinct_bumps(ctx.clearing_house_state.owner, supplied, bump);
}

/// Creation at an occupied seed address fails with `AlreadyInitialized`
/// whatever the accounts presented; the error carries no new record, so
/// the stored one stands unmodified.
pub proof fn lemma_initialize_write_once(stored: Config, ctx: Initialize)
    ensures
        spec_initialize(Some(stored), ctx) == Err::<Config, ErrorCode>(
            ErrorCode::AlreadyInitialized,
        ),
{
}

/// A caller other than the configured admin is refused with
/// `Unauthorized` before any request is built, so neither the upstream
/// record nor the configuration's references can be touched.
pub proof fn lemma_initialize_user_requires_admin(ctx: InitializeUser, user_nonce: u8)
    requires
        ctx.admin != ctx.config.admin,
    ensures
        spec_initialize_user(ctx, user_nonce) == Err::<UpstreamRequest, ErrorCode>(
            ErrorCode::Unauthorized,
        ),
{
}

/// Recording the upstream references never changes the record's identity
/// fields, so a well-formed record stays well-formed.
pub proof fn lemma_record_user_refs_preserves_wf(
    cfg: Config,
    upstream_program: Identity,
    user: Identity,
    user_positions: Identity,
)
    requires
        config_wf(cfg, upstream_program),
    ensures
        spec_record_user_refs(cfg, user, user_positions) matches Ok(c) ==> config_wf(
            c,
            upstream_program,
        ),
{
}

/// Round trip: a settled deposit of `amount` followed by a settled
/// withdrawal of the same amount restores the external, vault and
/// upstream custody balances exactly; and the withdrawal is owed to
/// succeed whenever the deposit did and upstream accepts.
pub proof fn lemma_deposit_withdraw_round_trip(b: CollateralBalances, amount: u64)
    requires
        spec_apply_deposit(b, amount, true) is Ok,
    ensures
        spec_apply_deposit(b, amount, true) matches Ok(b1) && spec_apply_withdraw(
            b1,
            amount,
            true,
        ) == Ok::<CollateralBalances, ErrorCode>(b),
{
}

/// A deposit presenting a foreign authority fails with `InvalidAuthority`
/// and produces no action: no transfer and no upstream call.
pub proof fn lemma_deposit_rejects_foreign_authority(ctx: DepositCollateral, amount: u64)
    requires
        ctx.admin == ctx.config.admin,
        ctx.collateral_vault.key == ctx.config.collateral_vault,
        ctx.authority != ctx.config.authority,
    ensures
        spec_deposit_collateral(ctx, amount) == Err::<DepositAction, ErrorCode>(
            ErrorCode::InvalidAuthority,
        ),
{
}

/// A withdrawal presenting a foreign authority fails with
/// `InvalidAuthority` and produces no action.
pub proof fn lemma_withdraw_rejects_foreign_authority(ctx: WithdrawCollateral, amount: u64)
    requires
        ctx.admin == ctx.config.admin,
        ctx.collateral_vault.key == ctx.config.collateral_vault,
        ctx.authority != ctx.config.authority,
    ensures
        spec_withdraw_collateral(ctx, amount) == Err::<WithdrawAction, ErrorCode>(
            ErrorCode::InvalidAuthority,
        ),
{
}

/// A trade-open presenting a foreign authority fails with
/// `InvalidAuthority` and produces no forwarded call.
pub proof fn lemma_open_position_rejects_foreign_authority(
    ctx: OpenPosition,
    direction: PositionDirection,
    quote_asset_amount: u128,
    market_index: u64,
    limit_price: u128,
    optional_accounts: ManagePositionOptionalAccounts,
)
    requires
        ctx.admin == ctx.config.admin,
        ctx.authority != ctx.config.authority,
    ensures
        spec_open_position(
            ctx,
            direction,
            quote_asset_amount,
            market_index,
            limit_price,
            optional_accounts,
        ) == Err::<UpstreamRequest, ErrorCode>(ErrorCode::InvalidAuthority),
{
}

/// A trade-close presenting a foreign authority fails with
/// `InvalidAuthority` and produces no forwarded call.
pub proof fn lemma_close_position_rejects_foreign_authority(
    ctx: ClosePosition,
    market_index: u64,
    optional_accounts: ManagePositionOptionalAccounts,
)
    requires
        ctx.admin == ctx.config.admin,
        ctx.authority != ctx.config.authority,
    ensures
        spec_close_position(ctx, market_index, optional_accounts) == Err::<
            UpstreamRequest,
            ErrorCode,
        >(ErrorCode::InvalidAuthority),
{
}

/// A create-user call presenting a foreign authority fails with
/// `InvalidAuthority` and produces no forwarded call.
pub proof fn lemma_initialize_user_rejects_foreign_authority(ctx: InitializeUser, user_nonce: u8)
    requires
        ctx.admin == ctx.config.admin,
        ctx.authority != ctx.config.authority,
    ensures
        spec_initialize_user(ctx, user_nonce) == Err::<UpstreamRequest, ErrorCode>(
            ErrorCode::InvalidAuthority,
        ),
{
}

/// Every forwarded deposit is signed exactly as the stored derived
/// authority, provided the record is well-formed against the upstream
/// program the call goes to.
pub proof fn lemma_deposit_signs_as_stored_authority(ctx: DepositCollateral, amount: u64)
    requires
        config_wf(ctx.config, ctx.clearing_house_state.owner),
    ensures
        spec_deposit_collateral(ctx, amount) matches Ok(act) ==> signer_of(act.forward.proof)
            == ctx.config.authority,
{
}

/// Every forwarded withdrawal is signed exactly as the stored derived
/// authority.
pub proof fn lemma_withdraw_signs_as_stored_authority(ctx: WithdrawCollateral, amount: u64)
    requires
        config_wf(ctx.config, ctx.clearing_house_state.owner),
    ensures
        spec_withdraw_collateral(ctx, amount) matches Ok(act) ==> signer_of(act.forward.proof)
            == ctx.config.authority,
{
}

/// Every forwarded trade-open is signed exactly as the stored derived
/// authority.
pub proof fn lemma_open_position_signs_as_stored_authority(
    ctx: OpenPosition,
    direction: PositionDirection,
    quote_asset_amount: u128,
    market_index: u64,
    limit_price: u128,
    optional_accounts: ManagePositionOptionalAccounts,
)
    requires
        config_wf(ctx.config, ctx.clearing_house_state.owner),
    ensures
        spec_open_position(
            ctx,
            direction,
            quote_asset_amount,
            market_index,
            limit_price,
            optional_accounts,
        ) matches Ok(req) ==> signer_of(req.proof) == ctx.config.authority,
{
}

/// Every forwarded trade-close is signed exactly as the stored derived
/// authority.
pub proof fn lemma_close_position_signs_as_stored_authority(
    ctx: ClosePosition,
    market_index: u64,
    optional_accounts: ManagePositionOptionalAccounts,
)
    requires
        config_wf(ctx.config, ctx.clearing_house_state.owner),
    ensures
        spec_close_position(ctx, market_index, optional_accounts) matches Ok(req) ==> signer_of(
            req.proof,
        ) == ctx.config.authority,
{
}

/// Every forwarded create-user call is signed exactly as the stored
/// derived authority.
pub proof fn lemma_initialize_user_signs_as_stored_authority(ctx: InitializeUser, user_nonce: u8)
    requires
        config_wf(ctx.config, ctx.clearing_house_state.owner),
    ensures
        spec_initialize_user(ctx, user_nonce) matches Ok(req) ==> signer_of(req.proof)
            == ctx.config.authority,
{
}

} // verus!
