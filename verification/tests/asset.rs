use culling::asset::{
    vault_signer_seeds, AuthVault, BuyCard, BuyToken, ErrorCode, InitCard, Initialize, InitializeBumps,
    Creator, MetadataData, SetMetadata, TokenStandard, CARD_PRICE,
};
use culling::key::Key;

fn key(b: u8) -> Key {
    Key::new([b; 32])
}

fn vault(bump: u8) -> AuthVault {
    AuthVault { bump, mint_bump: 200 }
}

fn seeds_of(bump: u8) -> Vec<Vec<u8>> {
    vec![b"authVault".to_vec(), vec![bump]]
}

#[test]
fn vault_space() {
    assert_eq!(AuthVault::INIT_SPACE, 10);
}

#[test]
fn vault_seeds_are_name_and_bump() {
    assert_eq!(vault_signer_seeds(251), seeds_of(251));
}

#[test]
fn initialize_records_bumps() {
    let mut ctx = Initialize { signer: key(1), mint: key(2), vault_key: key(3), vault: AuthVault { bump: 0, mint_bump: 0 } };
    ctx.init(InitializeBumps { vault: 254, mint: 253 });
    assert_eq!((ctx.vault.bump, ctx.vault.mint_bump), (254, 253));
}

#[test]
fn init_card_accepts_owner_and_known_card() {
    let ctx = InitCard { signer: key(1), card: key(2), vault_owner: key(1), vault: vault(1) };
    assert!(ctx.init_card(0).is_ok());
    assert!(ctx.init_card(9).is_ok());
}

#[test]
fn init_card_refuses_unknown_card_first() {
    let ctx = InitCard { signer: key(5), card: key(2), vault_owner: key(1), vault: vault(1) };
    assert_eq!(ctx.init_card(10), Err(ErrorCode::InvalidCardId));
    assert_eq!(ctx.init_card(255), Err(ErrorCode::InvalidCardId));
}

#[test]
fn init_card_refuses_non_owner() {
    let ctx = InitCard { signer: key(5), card: key(2), vault_owner: key(1), vault: vault(1) };
    assert_eq!(ctx.init_card(3), Err(ErrorCode::NotOwner));
}

#[test]
fn buy_token_charges_thousand_lamports_per_unit() {
    let ctx = BuyToken { signer: key(1), mint: key(2), signer_ata: key(3), vault_key: key(4), vault: vault(250) };
    let (pay, mint) = ctx.buy_token(5);
    let mut data = vec![2u8, 0, 0, 0];
    data.extend_from_slice(&5000u64.to_le_bytes());
    assert_eq!(pay.data, data);
    assert_eq!(pay.program_id.bytes, [0u8; 32]);
    assert_eq!(pay.accounts[0].pubkey.bytes, [1u8; 32]);
    assert_eq!(pay.accounts[1].pubkey.bytes, [4u8; 32]);
    assert_eq!(mint.amount, 5);
    assert_eq!(mint.mint.bytes, [2u8; 32]);
    assert_eq!(mint.to.bytes, [3u8; 32]);
    assert_eq!(mint.authority.bytes, [4u8; 32]);
    assert_eq!(mint.signer_seeds, seeds_of(250));
}

#[test]
fn buy_token_largest_amount() {
    let ctx = BuyToken { signer: key(1), mint: key(2), signer_ata: key(3), vault_key: key(4), vault: vault(250) };
    let amount = u64::MAX / 1000;
    let (pay, mint) = ctx.buy_token(amount);
    assert_eq!(&pay.data[4..], &(amount * 1000).to_le_bytes());
    assert_eq!(mint.amount, amount);
}

#[test]
fn buy_card_costs_ten_tokens() {
    let ctx = BuyCard { signer: key(1), mint: key(2), card: key(3), signer_ata: key(4), vault_key: key(5), vault: vault(1), vault_ata: key(6) };
    let t = ctx.buy_card(4);
    assert_eq!(CARD_PRICE, 10_000_000);
    assert_eq!(t.amount, 10_000_000);
    assert_eq!(t.from.bytes, [4u8; 32]);
    assert_eq!(t.to.bytes, [6u8; 32]);
    assert_eq!(t.authority.bytes, [1u8; 32]);
}

fn metadata_ctx() -> SetMetadata {
    SetMetadata { signer: key(1), card: key(2), vault_key: key(3), vault: vault(249), metadata: key(4) }
}

#[test]
fn create_metadata_fields() {
    let c = metadata_ctx().create_metadata(2, "Card".to_string(), "CRD".to_string(), "https://x/2".to_string());
    assert_eq!(c.name, "Card");
    assert_eq!(c.symbol, "CRD");
    assert_eq!(c.uri, "https://x/2");
    assert_eq!(c.seller_fee_basis_points, 0);
    assert!(c.token_standard == TokenStandard::FungibleAsset);
    assert_eq!(c.metadata.bytes, [4u8; 32]);
    assert_eq!(c.mint.bytes, [2u8; 32]);
    assert!(!c.mint_is_signer);
    assert_eq!(c.authority.bytes, [3u8; 32]);
    assert_eq!(c.update_authority.bytes, [3u8; 32]);
    assert!(c.update_authority_is_signer);
    assert_eq!(c.payer.bytes, [1u8; 32]);
    assert_eq!(c.signer_seeds, seeds_of(249));
}

#[test]
fn update_metadata_fields() {
    let u = metadata_ctx().update_metadata(2, "New".to_string(), "NEW".to_string(), "https://y".to_string());
    assert_eq!(u.data.name, "New");
    assert_eq!(u.data.symbol, "NEW");
    assert_eq!(u.data.uri, "https://y");
    assert_eq!(u.data.seller_fee_basis_points, 10);
    let creators = u.data.creators.unwrap();
    assert_eq!(creators.len(), 1);
    assert_eq!(creators[0].address.bytes, [3u8; 32]);
    assert!(!creators[0].verified);
    assert_eq!(creators[0].share, 100);
    assert_eq!(u.mint.bytes, [2u8; 32]);
    assert_eq!(u.metadata.bytes, [4u8; 32]);
    assert_eq!(u.authority.bytes, [3u8; 32]);
    assert_eq!(u.payer.bytes, [1u8; 32]);
    assert_eq!(u.signer_seeds, seeds_of(249));
}

#[test]
fn asset_error_messages() {
    assert_eq!(ErrorCode::InvalidCardId.message(), "No such card id");
    assert_eq!(ErrorCode::NotOwner.message(), "You are not an owner of vault");
    assert_eq!(ErrorCode::CustomError.message(), "Custom error message");
}

#[test]
fn update_metadata_uri_keeps_everything_but_the_uri() {
    let current = MetadataData {
        name: "Old".to_string(),
        symbol: "OLD".to_string(),
        uri: "https://old".to_string(),
        seller_fee_basis_points: 42,
        creators: Some(vec![Creator { address: key(8), verified: true, share: 60 }]),
    };
    let u = metadata_ctx().update_metadata_uri(2, current, "https://new".to_string());
    assert_eq!(u.data.name, "Old");
    assert_eq!(u.data.symbol, "OLD");
    assert_eq!(u.data.uri, "https://new");
    assert_eq!(u.data.seller_fee_basis_points, 42);
    let creators = u.data.creators.unwrap();
    assert_eq!(creators.len(), 1);
    assert_eq!(creators[0].address.bytes, [8u8; 32]);
    assert!(creators[0].verified);
    assert_eq!(creators[0].share, 60);
    assert_eq!(u.mint.bytes, [2u8; 32]);
    assert_eq!(u.metadata.bytes, [4u8; 32]);
    assert_eq!(u.authority.bytes, [3u8; 32]);
    assert_eq!(u.payer.bytes, [1u8; 32]);
    assert_eq!(u.signer_seeds, seeds_of(249));
}

#[test]
fn update_metadata_uri_without_creators() {
    let current = MetadataData {
        name: "A".to_string(),
        symbol: "B".to_string(),
        uri: "c".to_string(),
        seller_fee_basis_points: 0,
        creators: None,
    };
    let u = metadata_ctx().update_metadata_uri(0, current, String::new());
    assert_eq!(u.data.uri, "");
    assert!(u.data.creators.is_none());
    assert_eq!(u.data.name, "A");
}

#[test]
fn two_purchases_cost_one_combined_purchase() {
    let ctx = BuyToken { signer: key(1), mint: key(2), signer_ata: key(3), vault_key: key(4), vault: vault(250) };
    let (pay_a, mint_a) = ctx.buy_token(3);
    let (pay_b, mint_b) = ctx.buy_token(4);
    let (pay_ab, mint_ab) = ctx.buy_token(7);
    let lamports = |d: &[u8]| u64::from_le_bytes(d[4..12].try_into().unwrap());
    assert_eq!(lamports(&pay_a.data) + lamports(&pay_b.data), lamports(&pay_ab.data));
    assert_eq!(mint_a.amount + mint_b.amount, mint_ab.amount);
}
