use culling::game::{
    Accept, AcceptGame, Config, Create, CreateBumps, CreateGame, ErrorCode, Game, InitConfig,
    InitConfigBumps, Initialize, Player, Resolve, ResolveGame,
};
use culling::key::Key;

fn key(b: u8) -> Key {
    Key::new([b; 32])
}

fn game(creator: u8, opponent: u8, stake: u64) -> Game {
    Game { id: 7, stake_amount: stake, creator: key(creator), opponent: key(opponent), accepted: false, bump: 254 }
}

fn player(owner: u8, won: u32, lost: u32) -> Player {
    Player { initiated: true, owner: key(owner), game_won: won, game_lost: lost }
}

fn blank_player() -> Player {
    Player { initiated: false, owner: key(0), game_won: 0, game_lost: 0 }
}

fn transfer_data(lamports: u64) -> Vec<u8> {
    let mut d = vec![2u8, 0, 0, 0];
    d.extend_from_slice(&lamports.to_le_bytes());
    d
}

#[test]
fn game_space_constants() {
    assert_eq!(Player::INIT_SPACE, 49);
    assert_eq!(Game::INIT_SPACE, 86);
    assert_eq!(Config::INIT_SPACE, 73);
}

#[test]
fn init_config_records_auth_and_owner() {
    let mut ctx = InitConfig { signer: key(1), auth: key(9), config: Config { auth: key(0), owner: key(0), bump: 0 } };
    ctx.init(InitConfigBumps { config: 253 });
    assert_eq!(ctx.config.auth.bytes, [9u8; 32]);
    assert_eq!(ctx.config.owner.bytes, [1u8; 32]);
    assert_eq!(ctx.config.bump, 253);
}

#[test]
fn no_op_instructions_succeed() {
    assert!(CreateGame { singer: key(1) }.create_game().is_ok());
    assert!(Initialize { signer: key(1) }.init_game().is_ok());
}

#[test]
fn create_writes_game_and_charges_half_stake_rounded_up() {
    let mut ctx = Create { signer: key(1), opponent: key(2), game_key: key(3), game: game(0, 0, 0) };
    let ix = ctx.create(42, 1001, CreateBumps { game: 250 });
    assert_eq!(ctx.game.id, 42);
    assert_eq!(ctx.game.stake_amount, 1001);
    assert_eq!(ctx.game.creator.bytes, [1u8; 32]);
    assert_eq!(ctx.game.opponent.bytes, [2u8; 32]);
    assert!(!ctx.game.accepted);
    assert_eq!(ctx.game.bump, 250);
    assert_eq!(ix.program_id.bytes, [0u8; 32]);
    assert_eq!(ix.accounts.len(), 2);
    assert_eq!(ix.accounts[0].pubkey.bytes, [1u8; 32]);
    assert!(ix.accounts[0].is_signer && ix.accounts[0].is_writable);
    assert_eq!(ix.accounts[1].pubkey.bytes, [3u8; 32]);
    assert!(!ix.accounts[1].is_signer && ix.accounts[1].is_writable);
    assert_eq!(ix.data, transfer_data(501));
}

#[test]
fn create_even_stake_deposit_is_exactly_half() {
    let mut ctx = Create { signer: key(1), opponent: key(2), game_key: key(3), game: game(0, 0, 0) };
    let ix = ctx.create(1, 1000, CreateBumps { game: 1 });
    assert_eq!(ix.data, transfer_data(500));
    let ix = ctx.create(1, 0, CreateBumps { game: 1 });
    assert_eq!(ix.data, transfer_data(0));
    let ix = ctx.create(1, u64::MAX, CreateBumps { game: 1 });
    assert_eq!(ix.data, transfer_data(u64::MAX / 2 + 1));
}

#[test]
fn transfer_matches_the_system_program() {
    let mut ctx = Create { signer: key(5), opponent: key(2), game_key: key(6), game: game(0, 0, 0) };
    let ix = ctx.create(1, 77, CreateBumps { game: 1 });
    let expected = anchor_lang::solana_program::system_instruction::transfer(
        &anchor_lang::prelude::Pubkey::new_from_array([5u8; 32]),
        &anchor_lang::prelude::Pubkey::new_from_array([6u8; 32]),
        39,
    );
    assert_eq!(ix.data, expected.data);
    assert_eq!(ix.program_id.bytes, expected.program_id.to_bytes());
}

#[test]
fn accept_by_opponent_pays_full_stake_and_starts_record() {
    let mut ctx = Accept { signer: key(2), initiator: key(1), game_key: key(3), game: game(1, 2, 900), player: blank_player() };
    let ix = ctx.accept(7).ok().unwrap();
    assert!(ctx.game.accepted);
    assert!(ctx.player.initiated);
    assert_eq!(ctx.player.owner.bytes, [2u8; 32]);
    assert_eq!((ctx.player.game_won, ctx.player.game_lost), (0, 0));
    assert_eq!(ix.accounts[0].pubkey.bytes, [2u8; 32]);
    assert_eq!(ix.accounts[1].pubkey.bytes, [3u8; 32]);
    assert_eq!(ix.data, transfer_data(900));
}

#[test]
fn accept_keeps_started_record() {
    let mut ctx = Accept { signer: key(2), initiator: key(1), game_key: key(3), game: game(1, 2, 900), player: player(2, 4, 5) };
    assert!(ctx.accept(7).is_ok());
    assert_eq!((ctx.player.game_won, ctx.player.game_lost), (4, 5));
    // accepting again leaves the accounts as they are
    assert!(ctx.accept(7).is_ok());
    assert!(ctx.game.accepted);
    assert_eq!((ctx.player.game_won, ctx.player.game_lost), (4, 5));
}

#[test]
fn accept_by_stranger_is_refused() {
    let mut ctx = Accept { signer: key(8), initiator: key(1), game_key: key(3), game: game(1, 2, 900), player: blank_player() };
    assert!(matches!(ctx.accept(7), Err(ErrorCode::NotGamePlayer)));
    assert!(!ctx.game.accepted);
    assert!(!ctx.player.initiated);
}

#[test]
fn accept_game_checks_opponent() {
    let mut ctx = AcceptGame { signer: key(1), initiator: key(1), game: game(1, 2, 10) };
    assert!(matches!(ctx.accept_game(7), Err(ErrorCode::NotGamePlayer)));
    assert!(!ctx.game.accepted);
    ctx.signer = key(2);
    assert!(ctx.accept_game(7).is_ok());
    assert!(ctx.game.accepted);
}

fn resolve_ctx(auth: u8, winner: u8) -> Resolve {
    Resolve {
        auth: key(auth),
        creator: key(1),
        winner: key(winner),
        config: Config { auth: key(9), owner: key(4), bump: 1 },
        game_key: key(3),
        game: game(1, 2, 10),
        creator_player: player(1, 3, 1),
        opponent_player: player(2, 0, 6),
    }
}

#[test]
fn resolve_credits_creator_win() {
    let mut ctx = resolve_ctx(9, 1);
    let close = ctx.resolve(7).ok().unwrap();
    assert_eq!((ctx.creator_player.game_won, ctx.creator_player.game_lost), (4, 1));
    assert_eq!((ctx.opponent_player.game_won, ctx.opponent_player.game_lost), (0, 7));
    assert_eq!(close.account.bytes, [3u8; 32]);
    assert_eq!(close.destination.bytes, [1u8; 32]);
}

#[test]
fn resolve_credits_opponent_win() {
    let mut ctx = resolve_ctx(9, 2);
    let close = ctx.resolve(7).ok().unwrap();
    assert_eq!((ctx.creator_player.game_won, ctx.creator_player.game_lost), (3, 2));
    assert_eq!((ctx.opponent_player.game_won, ctx.opponent_player.game_lost), (1, 6));
    assert_eq!(close.destination.bytes, [2u8; 32]);
}

#[test]
fn resolve_one_win_one_loss_in_total() {
    let mut ctx = resolve_ctx(9, 2);
    let before_won = ctx.creator_player.game_won + ctx.opponent_player.game_won;
    let before_lost = ctx.creator_player.game_lost + ctx.opponent_player.game_lost;
    ctx.resolve(7).ok().unwrap();
    assert_eq!(ctx.creator_player.game_won + ctx.opponent_player.game_won, before_won + 1);
    assert_eq!(ctx.creator_player.game_lost + ctx.opponent_player.game_lost, before_lost + 1);
}

#[test]
fn resolve_refuses_other_signer_before_checking_winner() {
    let mut ctx = resolve_ctx(8, 5);
    assert!(matches!(ctx.resolve(7), Err(ErrorCode::NotAuthority)));
    assert_eq!(ctx.creator_player.game_won, 3);
}

#[test]
fn resolve_refuses_outside_winner() {
    let mut ctx = resolve_ctx(9, 5);
    assert!(matches!(ctx.resolve(7), Err(ErrorCode::InvalidWinner)));
    assert_eq!((ctx.creator_player.game_won, ctx.opponent_player.game_lost), (3, 6));
}

#[test]
fn resolve_game_only_by_creator() {
    let ctx = ResolveGame { signer: key(2), game_key: key(3), game: game(1, 2, 10) };
    assert!(matches!(ctx.resolve_game(7), Err(ErrorCode::NotGameCreator)));
    let ctx = ResolveGame { signer: key(1), game_key: key(3), game: game(1, 2, 10) };
    let close = ctx.resolve_game(7).ok().unwrap();
    assert_eq!(close.account.bytes, [3u8; 32]);
    assert_eq!(close.destination.bytes, [1u8; 32]);
}

#[test]
fn new_game_waits_for_named_opponent() {
    let mut c = Create { signer: key(1), opponent: key(2), game_key: key(3), game: game(0, 0, 0) };
    c.create(11, 60, CreateBumps { game: 9 });
    let mut stranger = Accept { signer: key(7), initiator: key(1), game_key: key(3), game: c.game, player: blank_player() };
    assert!(stranger.accept(11).is_err());
    let mut a = Accept { signer: key(2), initiator: key(1), game_key: key(3), game: c.game, player: blank_player() };
    assert!(a.accept(11).is_ok());
    assert!(a.game.accepted);
    assert_eq!(a.game.stake_amount, 60);
}

#[test]
fn game_error_messages() {
    assert_eq!(ErrorCode::NotGamePlayer.message(), "You are not game's participant");
    assert_eq!(ErrorCode::NotGameCreator.message(), "You are not game's creator");
    assert_eq!(ErrorCode::NotAuthority.message(), "This instruction should be invoked only by auth");
    assert_eq!(ErrorCode::CustomError.message(), "Custom error message");
}

#[test]
fn keys_compare_by_every_byte() {
    let a = key(1);
    let mut bytes = [1u8; 32];
    bytes[31] = 2;
    assert!(a.same_as(&key(1)));
    assert!(!a.same_as(&Key::new(bytes)));
}
