//! The card asset program: the vault that mints the game token, card mints, token sales,
//! card purchases and card metadata.
use vstd::prelude::*;

use crate::instruction::{Instruction, TokenTransfer, is_system_transfer, system_transfer};
use crate::key::Key;

verus! {

/// How rare a card is.
#[derive(Clone, Copy, Debug)]
pub enum Grade {
    Third,
    Second,
    First,
    Special,
}

/// A card's game attributes.
pub struct Card {
    pub hp: u8,
    pub grade: u8,
    pub property: String,
}

/// The vault that holds sale proceeds and has authority over the token mint.
pub struct AuthVault {
    pub bump: u8,
    pub mint_bump: u8,
}

impl AuthVault {
    /// Bytes an account needs to hold the vault.
    pub const INIT_SPACE: usize = 8 + 1 + 1;
}

/// Why an asset instruction is refused.
#[derive(Debug, PartialEq, Eq, Structural)]
pub enum ErrorCode {
    CustomError,
    InvalidCardId,
    NotOwner,
}

impl ErrorCode {
    /// The message shown for the error.
    pub fn message(&self) -> (m: &'static str)
        ensures
            m@ == (match *self {
                ErrorCode::CustomError => "Custom error message"@,
                ErrorCode::InvalidCardId => "No such card id"@,
                ErrorCode::NotOwner => "You are not an owner of vault"@,
            }),
    {
        match self {
            ErrorCode::CustomError => "Custom error message",
            ErrorCode::InvalidCardId => "No such card id",
            ErrorCode::NotOwner => "You are not an owner of vault",
        }
    }
}

/// The number of distinct cards: ids run from 0 below this.
pub const CARD_COUNT: u8 = 10;

/// Lamports paid for one base unit of the game token.
pub const LAMPORTS_PER_TOKEN_UNIT: u64 = 1000;

/// The lamports that `amount` base units of the token cost.
pub open spec fn token_price(amount: int) -> int {
    amount * LAMPORTS_PER_TOKEN_UNIT
}

/// The price of a card in base units of the game token: ten tokens of six decimals.
pub const CARD_PRICE: u64 = 10 * 1_000_000;

/// The bytes of the seed "authVault".
pub open spec fn vault_seed() -> Seq<u8> {
    seq![97u8, 117u8, 116u8, 104u8, 86u8, 97u8, 117u8, 108u8, 116u8]
}

/// The seeds by which the vault signs: "authVault" and its bump.
pub open spec fn is_vault_signer_seeds(seeds: Seq<Vec<u8>>, bump: u8) -> bool {
    &&& seeds.len() == 2
    &&& seeds[0]@ == vault_seed()
    &&& seeds[1]@ == seq![bump]
}

/// The seeds by which the vault signs, for a vault with bump `bump`.
pub fn vault_signer_seeds(bump: u8) -> (seeds: Vec<Vec<u8>>)
    ensures
        is_vault_signer_seeds(seeds@, bump),
        seeds@.len() == 2,
        seeds@[0]@ == seq![97u8, 117u8, 116u8, 104u8, 86u8, 97u8, 117u8, 108u8, 116u8],
        seeds@[1]@ == seq![bump],
{
    let name: Vec<u8> = vec![97u8, 117u8, 116u8, 104u8, 86u8, 97u8, 117u8, 108u8, 116u8];
    let bump_seed: Vec<u8> = vec![bump];
    let seeds: Vec<Vec<u8>> = vec![name, bump_seed];
    assert(seeds@[0]@ =~= vault_seed());
    assert(seeds@[1]@ =~= seq![bump]);
    seeds
}

/// Bump seeds found for `Initialize`.
pub struct InitializeBumps {
    pub vault: u8,
    pub mint: u8,
}

/// The accounts of the instruction that sets up the vault and the token mint.
pub struct Initialize {
    pub signer: Key,
    pub mint: Key,
    pub vault_key: Key,
    pub vault: AuthVault,
}

impl Initialize {
    /// Writes the vault with the bumps of its own address and of the mint.
    pub fn init(&mut self, bumps: InitializeBumps)
        ensures
            final(self).vault == (AuthVault { bump: bumps.vault, mint_bump: bumps.mint }),
            *final(self) == (Initialize { vault: final(self).vault, ..*old(self) }),
    {
        self.vault = AuthVault { bump: bumps.vault, mint_bump: bumps.mint };
    }
}

/// The accounts of the instruction that creates a card's mint.
pub struct InitCard {
    pub signer: Key,
    pub card: Key,
    pub vault_owner: Key,
    pub vault: AuthVault,
}

impl InitCard {
    /// Whether card `card_id` exists.
    pub open spec fn valid_card(card_id: u8) -> bool {
        card_id < CARD_COUNT
    }

    /// Checks a card creation: refused with `InvalidCardId` when `card_id` names no card,
    /// else with `NotOwner` when the signer does not own the vault.
    pub fn init_card(&self, card_id: u8) -> (r: Result<(), ErrorCode>)
        ensures
            !Self::valid_card(card_id) ==> r == Err::<(), ErrorCode>(ErrorCode::InvalidCardId),
            Self::valid_card(card_id) && self.signer != self.vault_owner
                ==> r == Err::<(), ErrorCode>(ErrorCode::NotOwner),
            Self::valid_card(card_id) && self.signer == self.vault_owner ==> r == Ok::<(), ErrorCode>(()),
            card_id >= 10 ==> r == Err::<(), ErrorCode>(ErrorCode::InvalidCardId),
            card_id < 10 && self.signer != self.vault_owner ==> r == Err::<(), ErrorCode>(ErrorCode::NotOwner),
            card_id < 10 && self.signer == self.vault_owner ==> r == Ok::<(), ErrorCode>(()),
    {
        if !(card_id < CARD_COUNT) {
            return Err(ErrorCode::InvalidCardId);
        }
        if !self.signer.same_as(&self.vault_owner) {
            return Err(ErrorCode::NotOwner);
        }
        Ok(())
    }
}

/// A mint of `amount` new tokens into `to`, authorised by `authority` signing with `signer_seeds`.
pub struct MintTo {
    pub mint: Key,
    pub to: Key,
    pub authority: Key,
    pub amount: u64,
    pub signer_seeds: Vec<Vec<u8>>,
}

/// The accounts of the instruction that sells game tokens for lamports.
pub struct BuyToken {
    pub signer: Key,
    pub mint: Key,
    pub signer_ata: Key,
    pub vault_key: Key,
    pub vault: AuthVault,
}

impl BuyToken {
    /// Sells `amount` base units of the token: returns the transfer of `amount` times the unit
    /// price in lamports from the signer to the vault, and the mint of `amount` units to the
    /// signer's token account under the vault's signature.
    pub fn buy_token(&self, amount: u64) -> (r: (Instruction, MintTo))
        requires
            token_price(amount as int) <= u64::MAX,
        ensures
            is_system_transfer(r.0, self.signer, self.vault_key, token_price(amount as int) as u64),
            r.1.mint == self.mint,
            r.1.to == self.signer_ata,
            r.1.authority == self.vault_key,
            r.1.amount == amount,
            is_vault_signer_seeds(r.1.signer_seeds@, self.vault.bump),
            is_system_transfer(r.0, self.signer, self.vault_key, (amount * 1000) as u64),
    {
        let lamports: u64 = amount * LAMPORTS_PER_TOKEN_UNIT;
        let pay = system_transfer(&self.signer, &self.vault_key, lamports);
        let mint = MintTo {
            mint: self.mint,
            to: self.signer_ata,
            authority: self.vault_key,
            amount,
            signer_seeds: vault_signer_seeds(self.vault.bump),
        };
        (pay, mint)
    }
}

/// The accounts of the instruction by which a wallet buys a card.
pub struct BuyCard {
    pub signer: Key,
    pub mint: Key,
    pub card: Key,
    pub signer_ata: Key,
    pub vault_key: Key,
    pub vault: AuthVault,
    pub vault_ata: Key,
}

impl BuyCard {
    /// Buys card `card_id`: returns the transfer of the card price in tokens from the signer's
    /// token account to the vault's.
    pub fn buy_card(&self, card_id: u8) -> (t: TokenTransfer)
        ensures
            t == (TokenTransfer { from: self.signer_ata, to: self.vault_ata, authority: self.signer, amount: CARD_PRICE }),
            t.amount == 10_000_000,
    {
        TokenTransfer { from: self.signer_ata, to: self.vault_ata, authority: self.signer, amount: CARD_PRICE }
    }
}

/// The kinds of token that metadata can describe.
#[derive(PartialEq, Eq, Structural)]
pub enum TokenStandard {
    NonFungible,
    FungibleAsset,
    Fungible,
    NonFungibleEdition,
    ProgrammableNonFungible,
    ProgrammableNonFungibleEdition,
}

/// A creator named in a card's metadata, with its share of royalties in percent.
pub struct Creator {
    pub address: Key,
    pub verified: bool,
    pub share: u8,
}

/// A card's metadata fields.
pub struct MetadataData {
    pub name: String,
    pub symbol: String,
    pub uri: String,
    pub seller_fee_basis_points: u16,
    pub creators: Option<Vec<Creator>>,
}

/// The creation of a card's metadata account, signed by the vault.
pub struct MetadataCreate {
    pub metadata: Key,
    pub mint: Key,
    pub mint_is_signer: bool,
    pub authority: Key,
    pub update_authority: Key,
    pub update_authority_is_signer: bool,
    pub payer: Key,
    pub name: String,
    pub symbol: String,
    pub uri: String,
    pub seller_fee_basis_points: u16,
    pub token_standard: TokenStandard,
    pub signer_seeds: Vec<Vec<u8>>,
}

/// The replacement of a card's metadata, signed by the vault.
pub struct MetadataUpdate {
    pub metadata: Key,
    pub mint: Key,
    pub authority: Key,
    pub payer: Key,
    pub data: MetadataData,
    pub signer_seeds: Vec<Vec<u8>>,
}

/// Royalty, in basis points, that an update of a card's metadata sets.
pub const UPDATED_SELLER_FEE_BASIS_POINTS: u16 = 10;

/// The accounts of the instructions that write a card's metadata.
pub struct SetMetadata {
    pub signer: Key,
    pub card: Key,
    pub vault_key: Key,
    pub vault: AuthVault,
    pub metadata: Key,
}

impl SetMetadata {
    /// Describes card `card_id` as a fungible asset named `name` with `symbol` and `uri`, no
    /// royalty, and the vault as authority and update authority; the signer pays.
    pub fn create_metadata(&self, card_id: u8, name: String, symbol: String, uri: String) -> (c: MetadataCreate)
        ensures
            c.metadata == self.metadata,
            c.mint == self.card,
            !c.mint_is_signer,
            c.authority == self.vault_key,
            c.update_authority == self.vault_key,
            c.update_authority_is_signer,
            c.payer == self.signer,
            c.name == name,
            c.symbol == symbol,
            c.uri == uri,
            c.seller_fee_basis_points == 0,
            c.token_standard == TokenStandard::FungibleAsset,
            is_vault_signer_seeds(c.signer_seeds@, self.vault.bump),
    {
        MetadataCreate {
            metadata: self.metadata,
            mint: self.card,
            mint_is_signer: false,
            authority: self.vault_key,
            update_authority: self.vault_key,
            update_authority_is_signer: true,
            payer: self.signer,
            name,
            symbol,
            uri,
            seller_fee_basis_points: 0,
            token_standard: TokenStandard::FungibleAsset,
            signer_seeds: vault_signer_seeds(self.vault.bump),
        }
    }

    /// Replaces card `card_id`'s metadata with `new_name`, `new_symbol` and `new_uri`, a royalty
    /// of ten basis points, and the vault as sole, unverified creator with the whole share.
    pub fn update_metadata(&self, card_id: u8, new_name: String, new_symbol: String, new_uri: String) -> (u: MetadataUpdate)
        ensures
            u.metadata == self.metadata,
            u.mint == self.card,
            u.authority == self.vault_key,
            u.payer == self.signer,
            u.data.name == new_name,
            u.data.symbol == new_symbol,
            u.data.uri == new_uri,
            u.data.seller_fee_basis_points == UPDATED_SELLER_FEE_BASIS_POINTS,
            u.data.seller_fee_basis_points == 10,
            u.data.creators matches Some(cs) && cs@.len() == 1 && cs@[0].address == self.vault_key
                && !cs@[0].verified && cs@[0].share == 100,
            is_vault_signer_seeds(u.signer_seeds@, self.vault.bump),
    {
        let creators: Vec<Creator> = vec![Creator { address: self.vault_key, verified: false, share: 100 }];
        let data = MetadataData {
            name: new_name,
            symbol: new_symbol,
            uri: new_uri,
            seller_fee_basis_points: UPDATED_SELLER_FEE_BASIS_POINTS,
            creators: Some(creators),
        };
        MetadataUpdate {
            metadata: self.metadata,
            mint: self.card,
            authority: self.vault_key,
            payer: self.signer,
            data,
            signer_seeds: vault_signer_seeds(self.vault.bump),
        }
    }

    /// Changes only the URI of card `card_id`'s metadata: `current` is what the metadata holds,
    /// and the update writes it back with `new_uri` in place of its URI, signed by the vault.
    pub fn update_metadata_uri(&self, card_id: u8, current: MetadataData, new_uri: String) -> (u: MetadataUpdate)
        ensures
            u.metadata == self.metadata,
            u.mint == self.card,
            u.authority == self.vault_key,
            u.payer == self.signer,
            u.data == (MetadataData { uri: new_uri, ..current }),
            is_vault_signer_seeds(u.signer_seeds@, self.vault.bump),
    {
        let data = MetadataData {
            name: current.name,
            symbol: current.symbol,
            uri: new_uri,
            seller_fee_basis_points: current.seller_fee_basis_points,
            creators: current.creators,
        };
        MetadataUpdate {
            metadata: self.metadata,
            mint: self.card,
            authority: self.vault_key,
            payer: self.signer,
            data,
            signer_seeds: vault_signer_seeds(self.vault.bump),
        }
    }
}

/// A card exists exactly when its id is below ten: every id from 0 to 9 names a card, and no
/// other does.
pub proof fn lemma_card_ids_are_zero_to_nine(card_id: u8)
    ensures
        InitCard::valid_card(card_id) <==> card_id < 10,
        CARD_COUNT == 10,
{
}

/// The seed by which the vault signs spells "authVault", byte for character.
pub proof fn lemma_vault_seed_spells_its_name()
    ensures
        vault_seed().len() == "authVault"@.len(),
        forall|i: int| 0 <= i < vault_seed().len() ==> vault_seed()[i] as char == #[trigger] "authVault"@[i],
{
    reveal_strlit("authVault");
}

/// Tokens cost a thousand lamports per base unit, and the price of a card is ten whole tokens
/// of six decimals.
pub proof fn lemma_prices(amount: int)
    ensures
        token_price(amount) == 1000 * amount,
        LAMPORTS_PER_TOKEN_UNIT == 1000,
        CARD_PRICE == 10 * 1_000_000,
{
}

/// Buying in two purchases costs what one combined purchase costs: the lamports that
/// `buy_token` asks for `a` and then for `b` units add up to what it asks for `a + b` units,
/// and the units minted add up likewise.
pub proof fn lemma_purchases_add_up(a: u64, b: u64)
    requires
        token_price(a + b) <= u64::MAX,
    ensures
        token_price(a as int) <= u64::MAX,
        token_price(b as int) <= u64::MAX,
        a + b <= u64::MAX,
        token_price(a as int) + token_price(b as int) == token_price(a + b),
{
}

} // verus!
