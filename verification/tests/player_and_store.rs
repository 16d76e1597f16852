use chicken_farm::cpi::{AccountRef, PdaAuthority, PdaSigner, PlainInstruction, TokenCpi};
use chicken_farm::player_proxy::{
    build_barn_space, buy_barn_space, initialize_barn_authority, initialize_player, update_player,
    BarnAuthorityData, BuildBarn, BuyBarn, Details, InitializeBarnAuthority, InitializePlayer, UpdatePlayer,
    BARN_PRICE,
};
use chicken_farm::store_proxy::{
    buy_chicken_from_store, deduct_buying_charges, delist_from_sale, initialize, initialize_secondary,
    list_for_sale, AuthorityData, BuyChickenDetails, DeductBuyingChargesDetails, DelistFromSaleDetails,
    InitializeAuthority, InitializeSecondaryAuthority, ListForSaleDetails, SecondaryAuthorityData,
};

fn details() -> Details {
    Details { username: "ada".to_string(), bump: 3, built_barns: 1, unbuilt_barns: 2 }
}

#[test]
fn player_initialisation_and_rename() {
    let mut i = InitializePlayer { details: details() };
    initialize_player(&mut i, 250);
    assert_eq!(i.details.bump, 250);
    assert_eq!(i.details.built_barns, 1);
    let mut u = UpdatePlayer { details: details() };
    update_player(&mut u, "grace".to_string());
    assert_eq!(u.details, Details { username: "grace".to_string(), bump: 3, built_barns: 0, unbuilt_barns: 0 });
}

#[test]
fn barns_are_bought_then_built() {
    let mut buy = BuyBarn {
        user_acf_account: [31u8; 32],
        collection_account: [32u8; 32],
        authority: [33u8; 32],
        token_program: [34u8; 32],
        details: details(),
        barn_authority: BarnAuthorityData { bump: 77 },
    };
    let t = buy_barn_space(&mut buy);
    assert_eq!(
        t,
        TokenCpi::Transfer {
            token_program: [34u8; 32],
            from: [31u8; 32],
            to: [32u8; 32],
            authority: [33u8; 32],
            amount: BARN_PRICE,
            signer: Some(PdaSigner { authority: PdaAuthority::Barn, bump: 77 }),
        }
    );
    assert_eq!(BARN_PRICE, 1_000_000_000);
    assert_eq!(buy.details.unbuilt_barns, 3);
    let mut build = BuildBarn { details: buy.details };
    for _ in 0..3 {
        build_barn_space(&mut build);
    }
    assert_eq!(build.details.built_barns, 4);
    assert_eq!(build.details.unbuilt_barns, 0);
    assert_eq!(build.details.built_barns + build.details.unbuilt_barns, 1 + 2 + 1);
}

#[test]
fn barn_authority_records_bump() {
    let mut a = InitializeBarnAuthority { authority_data: BarnAuthorityData { bump: 0 } };
    initialize_barn_authority(&mut a, 12);
    assert_eq!(a.authority_data.bump, 12);
}

fn transfer_data(lamports: u64) -> Vec<u8> {
    let mut d = vec![2u8, 0, 0, 0];
    d.extend_from_slice(&lamports.to_le_bytes());
    d
}

fn expect_transfer(ix: &PlainInstruction, from: [u8; 32], to: [u8; 32], lamports: u64) {
    assert_eq!(ix.program_id, [0u8; 32]);
    assert_eq!(
        ix.accounts,
        vec![
            AccountRef { pubkey: from, is_signer: true, is_writable: true },
            AccountRef { pubkey: to, is_signer: false, is_writable: true },
        ]
    );
    assert_eq!(ix.data, transfer_data(lamports));
}

#[test]
fn buying_charges_pay_seller_then_liquidity() {
    let ctx = DeductBuyingChargesDetails { seller: [1u8; 32], buyer: [2u8; 32], liquidity_account: [3u8; 32] };
    let (to_seller, to_liquidity) = deduct_buying_charges(&ctx, 1_500_000_000, 45_000_000);
    expect_transfer(&to_seller, [2u8; 32], [1u8; 32], 1_500_000_000);
    expect_transfer(&to_liquidity, [2u8; 32], [3u8; 32], 45_000_000);
}

#[test]
fn purchase_charges_and_hands_over_chicken() {
    let ctx = BuyChickenDetails {
        seller: [4u8; 32],
        store_authority: [40u8; 32],
        buyer: [5u8; 32],
        liquidity_account: [6u8; 32],
        buyer_token_account: [41u8; 32],
        store_token_account: [42u8; 32],
        authority_data: AuthorityData { bump: 201 },
        token_program: [43u8; 32],
    };
    let ((to_seller, to_liquidity), hand_over) = buy_chicken_from_store(&ctx, u64::MAX, 0);
    expect_transfer(&to_seller, [5u8; 32], [4u8; 32], u64::MAX);
    expect_transfer(&to_liquidity, [5u8; 32], [6u8; 32], 0);
    assert_eq!(
        hand_over,
        TokenCpi::Transfer {
            token_program: [43u8; 32],
            from: [42u8; 32],
            to: [41u8; 32],
            authority: [40u8; 32],
            amount: 1,
            signer: Some(PdaSigner { authority: PdaAuthority::Store, bump: 201 }),
        }
    );
    let plain = DeductBuyingChargesDetails { seller: ctx.seller, buyer: ctx.buyer, liquidity_account: ctx.liquidity_account };
    assert_eq!(deduct_buying_charges(&plain, u64::MAX, 0), (to_seller, to_liquidity));
}

#[test]
fn listing_and_delisting_move_one_token() {
    let list = ListForSaleDetails {
        token_owner: [50u8; 32],
        owner_token_account: [51u8; 32],
        store_token_account: [52u8; 32],
        token_program: [53u8; 32],
    };
    assert_eq!(
        list_for_sale(&list),
        TokenCpi::Transfer {
            token_program: [53u8; 32],
            from: [51u8; 32],
            to: [52u8; 32],
            authority: [50u8; 32],
            amount: 1,
            signer: None,
        }
    );
    let delist = DelistFromSaleDetails {
        store_authority: [54u8; 32],
        owner_token_account: [51u8; 32],
        store_token_account: [52u8; 32],
        authority_data: AuthorityData { bump: 8 },
        token_program: [53u8; 32],
    };
    assert_eq!(
        delist_from_sale(&delist),
        TokenCpi::Transfer {
            token_program: [53u8; 32],
            from: [52u8; 32],
            to: [51u8; 32],
            authority: [54u8; 32],
            amount: 1,
            signer: Some(PdaSigner { authority: PdaAuthority::Store, bump: 8 }),
        }
    );
}

#[test]
fn store_authorities_record_bump() {
    let mut a = InitializeAuthority { authority_data: AuthorityData { bump: 0 } };
    initialize(&mut a, 1);
    assert_eq!(a.authority_data.bump, 1);
    let mut s = InitializeSecondaryAuthority { authority_data: SecondaryAuthorityData { bump: 0 } };
    initialize_secondary(&mut s, 2);
    assert_eq!(s.authority_data.bump, 2);
}
