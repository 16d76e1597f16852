//! The store program: listing chickens for sale, taking them back, and
//! charging a buyer the price and the fees of a purchase.

use vstd::prelude::*;
use crate::cpi::{PdaAuthority, PdaSigner, PlainInstruction, TokenCpi, is_system_transfer, system_transfer};

verus! {

/// The store authority's account.
#[derive(Clone, Copy, Debug, PartialEq, Eq, Structural)]
pub struct AuthorityData {
    pub bump: u8,
}

/// The store's secondary authority account.
#[derive(Clone, Copy, Debug, PartialEq, Eq, Structural)]
pub struct SecondaryAuthorityData {
    pub bump: u8,
}

/// The sale details of one listed chicken.
#[derive(Clone, Copy, Debug, PartialEq, Eq)]
pub struct SaleDetails {
    pub list_price_lamports: u64,
    pub current_owner: [u8; 32],
    pub bump: u8,
}

/// The accounts of the store-authority initialisation that hold state.
#[derive(Clone, Copy, Debug, PartialEq, Eq, Structural)]
pub struct InitializeAuthority {
    pub authority_data: AuthorityData,
}

/// The accounts of the secondary-authority initialisation that hold state.
#[derive(Clone, Copy, Debug, PartialEq, Eq, Structural)]
pub struct InitializeSecondaryAuthority {
    pub authority_data: SecondaryAuthorityData,
}

/// The addresses of the accounts of a listing.
#[derive(Clone, Copy, Debug, PartialEq, Eq)]
pub struct ListForSaleDetails {
    pub token_owner: [u8; 32],
    pub owner_token_account: [u8; 32],
    pub store_token_account: [u8; 32],
    pub token_program: [u8; 32],
}

/// The accounts of a delisting: the store authority's state and the
/// addresses of the accounts the transfer is made with.
#[derive(Clone, Copy, Debug, PartialEq, Eq)]
pub struct DelistFromSaleDetails {
    pub store_authority: [u8; 32],
    pub owner_token_account: [u8; 32],
    pub store_token_account: [u8; 32],
    pub authority_data: AuthorityData,
    pub token_program: [u8; 32],
}

/// The addresses of the accounts between which buying charges move.
#[derive(Clone, Copy, Debug, PartialEq, Eq)]
pub struct DeductBuyingChargesDetails {
    pub seller: [u8; 32],
    pub buyer: [u8; 32],
    pub liquidity_account: [u8; 32],
}

/// The accounts of a purchase: the addresses between which the charges and
/// the chicken move, and the store authority that hands the chicken over.
#[derive(Clone, Copy, Debug, PartialEq, Eq)]
pub struct BuyChickenDetails {
    pub seller: [u8; 32],
    pub store_authority: [u8; 32],
    pub buyer: [u8; 32],
    pub liquidity_account: [u8; 32],
    pub buyer_token_account: [u8; 32],
    pub store_token_account: [u8; 32],
    pub authority_data: AuthorityData,
    pub token_program: [u8; 32],
}

/// Records the bump of the store authority.
pub fn initialize(ctx: &mut InitializeAuthority, auth_bump: u8)
    ensures
        final(ctx).authority_data.bump == auth_bump,
{
    ctx.authority_data.bump = auth_bump;
}

/// Records the bump of the store's secondary authority.
pub fn initialize_secondary(ctx: &mut InitializeSecondaryAuthority, auth_bump: u8)
    ensures
        final(ctx).authority_data.bump == auth_bump,
{
    ctx.authority_data.bump = auth_bump;
}

/// Listing a chicken moves its one token from the owner's token account to
/// the store's, authorised by the owner.
pub fn list_for_sale(ctx: &ListForSaleDetails) -> (r: TokenCpi)
    ensures
        r == (TokenCpi::Transfer {
            token_program: ctx.token_program,
            from: ctx.owner_token_account,
            to: ctx.store_token_account,
            authority: ctx.token_owner,
            amount: 1,
            signer: None,
        }),
{
    TokenCpi::Transfer {
        token_program: ctx.token_program,
        from: ctx.owner_token_account,
        to: ctx.store_token_account,
        authority: ctx.token_owner,
        amount: 1,
        signer: None,
    }
}

/// Delisting a chicken moves its one token from the store's token account
/// back to the owner's, authorised by the store authority, which the store
/// signs for.
pub fn delist_from_sale(ctx: &DelistFromSaleDetails) -> (r: TokenCpi)
    ensures
        r == (TokenCpi::Transfer {
            token_program: ctx.token_program,
            from: ctx.store_token_account,
            to: ctx.owner_token_account,
            authority: ctx.store_authority,
            amount: 1,
            signer: Some(PdaSigner { authority: PdaAuthority::Store, bump: ctx.authority_data.bump }),
        }),
{
    TokenCpi::Transfer {
        token_program: ctx.token_program,
        from: ctx.store_token_account,
        to: ctx.owner_token_account,
        authority: ctx.store_authority,
        amount: 1,
        signer: Some(PdaSigner { authority: PdaAuthority::Store, bump: ctx.authority_data.bump }),
    }
}

/// The charges of a purchase, in the order in which they are invoked: the
/// buyer pays the list price to the seller, then the fees to the liquidity
/// account, both through the system program.
pub open spec fn are_buying_charges(
    charges: (PlainInstruction, PlainInstruction),
    buyer: [u8; 32],
    seller: [u8; 32],
    liquidity_account: [u8; 32],
    list_price_lamports: u64,
    fees_lamports: u64,
) -> bool {
    &&& is_system_transfer(charges.0, buyer, seller, list_price_lamports)
    &&& is_system_transfer(charges.1, buyer, liquidity_account, fees_lamports)
}

/// The two system transfers with which a buyer pays a purchase: the list
/// price to the seller, then the fees to the liquidity account.
pub fn deduct_buying_charges(
    ctx: &DeductBuyingChargesDetails,
    list_price_lamports: u64,
    fees_lamports: u64,
) -> (r: (PlainInstruction, PlainInstruction))
    ensures
        are_buying_charges(r, ctx.buyer, ctx.seller, ctx.liquidity_account, list_price_lamports, fees_lamports),
{
    let ix = system_transfer(&ctx.buyer, &ctx.seller, list_price_lamports);
    let ix_liquidity = system_transfer(&ctx.buyer, &ctx.liquidity_account, fees_lamports);
    (ix, ix_liquidity)
}

/// A purchase: the buyer pays the list price to the seller and the fees to
/// the liquidity account, then the chicken's one token moves from the
/// store's token account to the buyer's, authorised by the store authority,
/// which the store signs for.
pub fn buy_chicken_from_store(
    ctx: &BuyChickenDetails,
    list_price_lamports: u64,
    fees_lamports: u64,
) -> (r: ((PlainInstruction, PlainInstruction), TokenCpi))
    ensures
        are_buying_charges(r.0, ctx.buyer, ctx.seller, ctx.liquidity_account, list_price_lamports, fees_lamports),
        r.1 == (TokenCpi::Transfer {
            token_program: ctx.token_program,
            from: ctx.store_token_account,
            to: ctx.buyer_token_account,
            authority: ctx.store_authority,
            amount: 1,
            signer: Some(PdaSigner { authority: PdaAuthority::Store, bump: ctx.authority_data.bump }),
        }),
{
    let ix = system_transfer(&ctx.buyer, &ctx.seller, list_price_lamports);
    let ix_liquidity = system_transfer(&ctx.buyer, &ctx.liquidity_account, fees_lamports);
    let hand_over = TokenCpi::Transfer {
        token_program: ctx.token_program,
        from: ctx.store_token_account,
        to: ctx.buyer_token_account,
        authority: ctx.store_authority,
        amount: 1,
        signer: Some(PdaSigner { authority: PdaAuthority::Store, bump: ctx.authority_data.bump }),
    };
    ((ix, ix_liquidity), hand_over)
}

} // verus!
