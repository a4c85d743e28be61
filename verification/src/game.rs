//! The two-player game: configuration, player records, staked games, and the instructions
//! that create, accept and resolve them.
use vstd::prelude::*;

use crate::instruction::{is_system_transfer, system_transfer, Instruction};
use crate::key::Key;

verus! {

/// A wallet's record of games won and lost.
#[derive(Clone, Copy, Debug)]
pub struct Player {
    pub initiated: bool,
    pub owner: Key,
    pub game_won: u32,
    pub game_lost: u32,
}

impl Player {
    /// Bytes an account needs to hold a player record.
    pub const INIT_SPACE: usize = 8 + 32 + (4 * 2) + 1;

    /// The sum of games that the record counts, won or lost.
    pub open spec fn games_played(self) -> int {
        self.game_won + self.game_lost
    }
}

/// A game between its creator and an opponent, with the stake in lamports.
#[derive(Clone, Copy, Debug)]
pub struct Game {
    pub id: u32,
    pub stake_amount: u64,
    pub creator: Key,
    pub opponent: Key,
    pub accepted: bool,
    pub bump: u8,
}

impl Game {
    /// Bytes an account needs to hold a game.
    pub const INIT_SPACE: usize = 8 + 4 + 8 + (32 * 2) + 1 + 1;
}

/// The program's configuration: the wallet that approves results, and the owner.
#[derive(Clone, Copy, Debug)]
pub struct Config {
    pub auth: Key,
    pub owner: Key,
    pub bump: u8,
}

impl Config {
    /// Bytes an account needs to hold the configuration.
    pub const INIT_SPACE: usize = 8 + (32 * 2) + 1;
}

/// Why a game instruction is refused.
#[derive(Debug, PartialEq, Eq, Structural)]
pub enum ErrorCode {
    CustomError,
    NotGamePlayer,
    NotGameCreator,
    NotAuthority,
    InvalidWinner,
}

impl ErrorCode {
    /// The message shown for the error.
    pub fn message(&self) -> (m: &'static str)
        ensures
            m@ == (match *self {
                ErrorCode::CustomError => "Custom error message"@,
                ErrorCode::NotGamePlayer => "You are not game's participant"@,
                ErrorCode::NotGameCreator => "You are not game's creator"@,
                ErrorCode::NotAuthority => "This instruction should be invoked only by auth"@,
                ErrorCode::InvalidWinner => "Winner is neither the game's creator nor its opponent"@,
            }),
    {
        match self {
            ErrorCode::CustomError => "Custom error message",
            ErrorCode::NotGamePlayer => "You are not game's participant",
            ErrorCode::NotGameCreator => "You are not game's creator",
            ErrorCode::NotAuthority => "This instruction should be invoked only by auth",
            ErrorCode::InvalidWinner => "Winner is neither the game's creator nor its opponent",
        }
    }
}

/// That an account is to be closed, its lamports going to `destination`.
pub struct CloseAccount {
    pub account: Key,
    pub destination: Key,
}

/// What the creator puts into a game of stake `stake`: half of it, rounded up.
pub open spec fn creator_deposit(stake: u64) -> int {
    (stake + 1) / 2
}

/// The record of a player that starts out with no games.
pub open spec fn fresh_player(owner: Key) -> Player {
    Player { initiated: true, owner, game_won: 0, game_lost: 0 }
}

/// Bump seeds found for `InitConfig`.
pub struct InitConfigBumps {
    pub config: u8,
}

/// The accounts of the instruction that sets up the configuration.
pub struct InitConfig {
    pub signer: Key,
    pub auth: Key,
    pub config: Config,
}

impl InitConfig {
    /// Records `auth` as the wallet that approves results and the signer as owner.
    pub fn init(&mut self, bumps: InitConfigBumps)
        ensures
            final(self).config == (Config { auth: old(self).auth, owner: old(self).signer, bump: bumps.config }),
            final(self).signer == old(self).signer,
            final(self).auth == old(self).auth,
    {
        self.config = Config { auth: self.auth, owner: self.signer, bump: bumps.config };
    }
}

/// The accounts of the instruction that does nothing but check its signer.
pub struct CreateGame {
    pub singer: Key,
}

impl CreateGame {
    /// Succeeds, changing nothing.
    pub fn create_game(&self) -> (r: Result<(), ErrorCode>)
        ensures
            r == Ok::<(), ErrorCode>(()),
    {
        Ok(())
    }
}

/// The accounts of the program's no-op initialisation.
pub struct Initialize {
    pub signer: Key,
}

impl Initialize {
    /// Succeeds, changing nothing.
    pub fn init_game(&self) -> (r: Result<(), ErrorCode>)
        ensures
            r == Ok::<(), ErrorCode>(()),
    {
        Ok(())
    }
}

/// Bump seeds found for `Create`.
pub struct CreateBumps {
    pub game: u8,
}

/// The accounts of the instruction that opens a game.
pub struct Create {
    pub signer: Key,
    pub opponent: Key,
    pub game_key: Key,
    pub game: Game,
}

impl Create {
    /// The game that `create` writes.
    pub open spec fn created_game(self, game_id: u32, stake_lamports: u64, bumps: CreateBumps) -> Game {
        Game {
            id: game_id,
            stake_amount: stake_lamports,
            creator: self.signer,
            opponent: self.opponent,
            accepted: false,
            bump: bumps.game,
        }
    }

    /// Opens game `game_id` between the signer and the opponent with stake `stake_lamports`;
    /// returns the transfer of the creator's deposit (half the stake, rounded up) into the
    /// game account.
    pub fn create(&mut self, game_id: u32, stake_lamports: u64, bumps: CreateBumps) -> (ix: Instruction)
        ensures
            is_system_transfer(ix, old(self).signer, old(self).game_key, creator_deposit(stake_lamports) as u64),
            final(self).game == old(self).created_game(game_id, stake_lamports, bumps),
            final(self).signer == old(self).signer,
            final(self).opponent == old(self).opponent,
            final(self).game_key == old(self).game_key,
            is_system_transfer(ix, old(self).signer, old(self).game_key, ((stake_lamports as int + 1) / 2) as u64),
            final(self).game.id == game_id,
            final(self).game.stake_amount == stake_lamports,
            final(self).game.creator == old(self).signer,
            final(self).game.opponent == old(self).opponent,
            !final(self).game.accepted,
            final(self).game.bump == bumps.game,
    {
        let deposit: u64 = stake_lamports / 2 + stake_lamports % 2;
        let ix = system_transfer(&self.signer, &self.game_key, deposit);
        self.game = Game {
            id: game_id,
            stake_amount: stake_lamports,
            creator: self.signer,
            opponent: self.opponent,
            accepted: false,
            bump: bumps.game,
        };
        ix
    }
}

/// The accounts of the instruction by which the opponent joins a game and pays the stake.
pub struct Accept {
    pub signer: Key,
    pub initiator: Key,
    pub game_key: Key,
    pub game: Game,
    pub player: Player,
}

impl Accept {
    /// Whether the instruction passes its check: signed by the game's opponent.
    pub open spec fn admits(self) -> bool {
        self.signer == self.game.opponent
    }

    /// The accounts after an accepted game: the game is marked accepted, and the signer's
    /// player record is started unless it already was.
    pub open spec fn accepted(self) -> Accept {
        Accept {
            game: Game { accepted: true, ..self.game },
            player: if self.player.initiated { self.player } else { fresh_player(self.signer) },
            ..self
        }
    }

    /// Joins the game as its opponent. Refused with `NotGamePlayer`, nothing changed, when the
    /// signer is not the game's opponent; otherwise returns the transfer of the whole stake
    /// from the signer into the game account.
    pub fn accept(&mut self, game_id: u32) -> (r: Result<Instruction, ErrorCode>)
        ensures
            !old(self).admits() ==> r == Err::<Instruction, ErrorCode>(ErrorCode::NotGamePlayer)
                && *final(self) == *old(self),
            old(self).admits() ==> r is Ok && *final(self) == old(self).accepted(),
            r matches Ok(ix) ==> is_system_transfer(ix, old(self).signer, old(self).game_key, old(self).game.stake_amount),
            old(self).signer != old(self).game.opponent ==> r == Err::<Instruction, ErrorCode>(ErrorCode::NotGamePlayer)
                && *final(self) == *old(self),
            old(self).signer == old(self).game.opponent ==> r is Ok,
            r is Ok ==> final(self).game == (Game { accepted: true, ..old(self).game })
                && final(self).signer == old(self).signer
                && final(self).initiator == old(self).initiator
                && final(self).game_key == old(self).game_key,
            r is Ok && old(self).player.initiated ==> final(self).player == old(self).player,
            r is Ok && !old(self).player.initiated ==> final(self).player
                == (Player { initiated: true, owner: old(self).signer, game_won: 0, game_lost: 0 }),
    {
        if !self.game.opponent.same_as(&self.signer) {
            return Err(ErrorCode::NotGamePlayer);
        }
        let ix = system_transfer(&self.signer, &self.game_key, self.game.stake_amount);
        self.game.accepted = true;
        if !self.player.initiated {
            self.player = Player { initiated: true, owner: self.signer, game_won: 0, game_lost: 0 };
        }
        Ok(ix)
    }
}

/// The accounts of the instruction by which the opponent marks a game accepted.
pub struct AcceptGame {
    pub signer: Key,
    pub initiator: Key,
    pub game: Game,
}

impl AcceptGame {
    /// Whether the instruction passes its check: signed by the game's opponent.
    pub open spec fn admits(self) -> bool {
        self.signer == self.game.opponent
    }

    /// Marks the game accepted. Refused with `NotGamePlayer`, nothing changed, when the signer
    /// is not the game's opponent.
    pub fn accept_game(&mut self, game_id: u32) -> (r: Result<(), ErrorCode>)
        ensures
            !old(self).admits() ==> r == Err::<(), ErrorCode>(ErrorCode::NotGamePlayer)
                && *final(self) == *old(self),
            old(self).admits() ==> r == Ok::<(), ErrorCode>(())
                && *final(self) == (AcceptGame { game: Game { accepted: true, ..old(self).game }, ..*old(self) }),
            old(self).signer != old(self).game.opponent ==> r == Err::<(), ErrorCode>(ErrorCode::NotGamePlayer)
                && *final(self) == *old(self),
            old(self).signer == old(self).game.opponent ==> r == Ok::<(), ErrorCode>(())
                && final(self).game == (Game { accepted: true, ..old(self).game }),
    {
        if !self.game.opponent.same_as(&self.signer) {
            return Err(ErrorCode::NotGamePlayer);
        }
        self.game.accepted = true;
        Ok(())
    }
}

/// The accounts of the instruction by which the result approver settles a game.
pub struct Resolve {
    pub auth: Key,
    pub creator: Key,
    pub winner: Key,
    pub config: Config,
    pub game_key: Key,
    pub game: Game,
    pub creator_player: Player,
    pub opponent_player: Player,
}

impl Resolve {
    /// Whether the instruction passes its checks: signed by the configured approver, with the
    /// winner one of the two players.
    pub open spec fn admitted(self) -> bool {
        &&& self.auth == self.config.auth
        &&& (self.winner == self.game.creator || self.winner == self.game.opponent)
    }

    /// Whether the creator is the one credited with the win.
    pub open spec fn creator_wins(self) -> bool {
        self.winner == self.game.creator
    }

    /// Whether crediting the result would overflow a counter.
    pub open spec fn counters_full(self) -> bool {
        if self.creator_wins() {
            self.creator_player.game_won == u32::MAX || self.opponent_player.game_lost == u32::MAX
        } else {
            self.opponent_player.game_won == u32::MAX || self.creator_player.game_lost == u32::MAX
        }
    }

    /// The accounts after the result is credited: a win to the winner's record and a loss
    /// to the other.
    pub open spec fn credited(self) -> Resolve {
        if self.creator_wins() {
            Resolve {
                creator_player: Player { game_won: (self.creator_player.game_won + 1) as u32, ..self.creator_player },
                opponent_player: Player { game_lost: (self.opponent_player.game_lost + 1) as u32, ..self.opponent_player },
                ..self
            }
        } else {
            Resolve {
                opponent_player: Player { game_won: (self.opponent_player.game_won + 1) as u32, ..self.opponent_player },
                creator_player: Player { game_lost: (self.creator_player.game_lost + 1) as u32, ..self.creator_player },
                ..self
            }
        }
    }

    /// Settles the game: refused with `NotAuthority` when the signer is not the configured
    /// approver, else with `InvalidWinner` when the winner is neither player, nothing changed
    /// either way; otherwise credits a win to the winner and a loss to the other player and
    /// returns the closing of the game account in favour of the winner.
    pub fn resolve(&mut self, game_id: u32) -> (r: Result<CloseAccount, ErrorCode>)
        requires
            old(self).admitted() ==> !old(self).counters_full(),
        ensures
            old(self).auth != old(self).config.auth ==> r == Err::<CloseAccount, ErrorCode>(ErrorCode::NotAuthority)
                && *final(self) == *old(self),
            old(self).auth == old(self).config.auth && !old(self).admitted()
                ==> r == Err::<CloseAccount, ErrorCode>(ErrorCode::InvalidWinner) && *final(self) == *old(self),
            r is Ok ==> final(self).creator_player.game_won + final(self).opponent_player.game_won
                == old(self).creator_player.game_won + old(self).opponent_player.game_won + 1,
            r is Ok ==> final(self).creator_player.game_lost + final(self).opponent_player.game_lost
                == old(self).creator_player.game_lost + old(self).opponent_player.game_lost + 1,
            old(self).admitted() ==> *final(self) == old(self).credited()
                && r == Ok::<CloseAccount, ErrorCode>((CloseAccount { account: old(self).game_key, destination: old(self).winner })),
            old(self).auth == old(self).config.auth
                && (old(self).winner == old(self).game.creator || old(self).winner == old(self).game.opponent)
                ==> r == Ok::<CloseAccount, ErrorCode>((CloseAccount { account: old(self).game_key, destination: old(self).winner })),
            old(self).auth == old(self).config.auth && old(self).winner != old(self).game.creator
                && old(self).winner != old(self).game.opponent
                ==> r == Err::<CloseAccount, ErrorCode>(ErrorCode::InvalidWinner) && *final(self) == *old(self),
            r is Ok && old(self).winner == old(self).game.creator ==>
                final(self).creator_player == (Player { game_won: (old(self).creator_player.game_won + 1) as u32, ..old(self).creator_player })
                && final(self).opponent_player == (Player { game_lost: (old(self).opponent_player.game_lost + 1) as u32, ..old(self).opponent_player }),
            r is Ok && old(self).winner != old(self).game.creator ==>
                final(self).opponent_player == (Player { game_won: (old(self).opponent_player.game_won + 1) as u32, ..old(self).opponent_player })
                && final(self).creator_player == (Player { game_lost: (old(self).creator_player.game_lost + 1) as u32, ..old(self).creator_player }),
            r is Ok ==> final(self).game == old(self).game && final(self).config == old(self).config
                && final(self).auth == old(self).auth && final(self).winner == old(self).winner
                && final(self).creator == old(self).creator && final(self).game_key == old(self).game_key,
    {
        if !self.auth.same_as(&self.config.auth) {
            return Err(ErrorCode::NotAuthority);
        }
        let for_creator = self.winner.same_as(&self.game.creator);
        if !for_creator && !self.winner.same_as(&self.game.opponent) {
            return Err(ErrorCode::InvalidWinner);
        }
        if for_creator {
            self.creator_player.game_won = self.creator_player.game_won + 1;
            self.opponent_player.game_lost = self.opponent_player.game_lost + 1;
        } else {
            self.opponent_player.game_won = self.opponent_player.game_won + 1;
            self.creator_player.game_lost = self.creator_player.game_lost + 1;
        }
        Ok(CloseAccount { account: self.game_key, destination: self.winner })
    }
}

/// The accounts of the instruction by which the creator withdraws a game.
pub struct ResolveGame {
    pub signer: Key,
    pub game_key: Key,
    pub game: Game,
}

impl ResolveGame {
    /// Whether the instruction passes its check: signed by the game's creator.
    pub open spec fn admits(self) -> bool {
        self.signer == self.game.creator
    }

    /// Closes the game in favour of its creator. Refused with `NotGameCreator` when the signer
    /// is not the game's creator.
    pub fn resolve_game(&self, game_id: u32) -> (r: Result<CloseAccount, ErrorCode>)
        ensures
            !self.admits() ==> r == Err::<CloseAccount, ErrorCode>(ErrorCode::NotGameCreator),
            self.admits() ==> r == Ok::<CloseAccount, ErrorCode>((CloseAccount { account: self.game_key, destination: self.signer })),
            self.signer != self.game.creator ==> r == Err::<CloseAccount, ErrorCode>(ErrorCode::NotGameCreator),
            self.signer == self.game.creator
                ==> r == Ok::<CloseAccount, ErrorCode>((CloseAccount { account: self.game_key, destination: self.signer })),
    {
        if !self.game.creator.same_as(&self.signer) {
            return Err(ErrorCode::NotGameCreator);
        }
        Ok(CloseAccount { account: self.game_key, destination: self.signer })
    }
}

/// Whether a game is settled is decided by who signs and who is named winner alone: the
/// configured approver may settle a game in favour of its creator or its opponent, accepted or
/// not, and no one else may settle it, nor in favour of anyone else.
pub proof fn lemma_settlement_depends_on_signer_and_winner_only(s: Resolve, accepted: bool)
    ensures
        s.admitted() <==> (s.auth == s.config.auth && (s.winner == s.game.creator || s.winner == s.game.opponent)),
        (Resolve { game: Game { accepted, ..s.game }, ..s }).admitted() == s.admitted(),
        s.creator_wins() <==> s.winner == s.game.creator,
        s.counters_full() <==> (if s.winner == s.game.creator {
            s.creator_player.game_won == u32::MAX || s.opponent_player.game_lost == u32::MAX
        } else {
            s.opponent_player.game_won == u32::MAX || s.creator_player.game_lost == u32::MAX
        }),
{
}

/// A settled game credits the named winner: when the creator wins, its record gains a win and
/// the opponent's a loss; otherwise the opponent's record gains the win and the creator's the
/// loss; no other count changes.
pub proof fn lemma_the_winner_gets_the_win(s: Resolve)
    requires
        s.admitted(),
        !s.counters_full(),
    ensures
        s.winner == s.game.creator ==> s.credited().creator_player.game_won == s.creator_player.game_won + 1
            && s.credited().creator_player.game_lost == s.creator_player.game_lost
            && s.credited().opponent_player.game_lost == s.opponent_player.game_lost + 1
            && s.credited().opponent_player.game_won == s.opponent_player.game_won,
        s.winner != s.game.creator ==> s.credited().opponent_player.game_won == s.opponent_player.game_won + 1
            && s.credited().opponent_player.game_lost == s.opponent_player.game_lost
            && s.credited().creator_player.game_lost == s.creator_player.game_lost + 1
            && s.credited().creator_player.game_won == s.creator_player.game_won,
{
}

/// Only the named opponent is admitted to accept a game, and only the creator to withdraw it.
pub proof fn lemma_only_the_named_players_are_admitted(a: Accept, g: AcceptGame, w: ResolveGame)
    ensures
        a.admits() <==> a.signer == a.game.opponent,
        g.admits() <==> g.signer == g.game.opponent,
        w.admits() <==> w.signer == w.game.creator,
        a.admits() ==> a.accepted().game == (Game { accepted: true, ..a.game }),
        !a.player.initiated ==> a.accepted().player == (Player { initiated: true, owner: a.signer, game_won: 0, game_lost: 0 }),
{
}

/// A game written by `create` holds exactly the arguments: id, stake, the signer as creator,
/// the named opponent, not yet accepted, and the bump.
pub proof fn lemma_created_game_holds_its_arguments(c: Create, game_id: u32, stake_lamports: u64, bumps: CreateBumps)
    ensures
        c.created_game(game_id, stake_lamports, bumps).id == game_id,
        c.created_game(game_id, stake_lamports, bumps).stake_amount == stake_lamports,
        c.created_game(game_id, stake_lamports, bumps).creator == c.signer,
        c.created_game(game_id, stake_lamports, bumps).opponent == c.opponent,
        !c.created_game(game_id, stake_lamports, bumps).accepted,
        c.created_game(game_id, stake_lamports, bumps).bump == bumps.game,
{
}

/// The creator's deposit is half the stake, rounded up: twice it is the stake, or one more
/// when the stake is odd, and it never exceeds the stake.
pub proof fn lemma_creator_deposit_is_half_the_stake(stake: u64)
    ensures
        stake % 2 == 0 ==> 2 * creator_deposit(stake) == stake,
        stake % 2 == 1 ==> 2 * creator_deposit(stake) == stake + 1,
        0 <= creator_deposit(stake) <= stake,
{
}

/// A game just opened by `create` is not yet accepted, and only the opponent named at its
/// creation can accept it; once accepted, it keeps its stake, its two players and its id.
pub proof fn lemma_new_game_is_accepted_only_by_its_opponent(
    c: Create,
    game_id: u32,
    stake_lamports: u64,
    bumps: CreateBumps,
    a: Accept,
)
    requires
        a.game == c.created_game(game_id, stake_lamports, bumps),
    ensures
        !a.game.accepted,
        a.admits() <==> a.signer == c.opponent,
        a.admits() ==> {
            let g = a.accepted().game;
            &&& g.accepted
            &&& g.id == game_id
            &&& g.stake_amount == stake_lamports
            &&& g.creator == c.signer
            &&& g.opponent == c.opponent
        },
{
}

/// Accepting again changes no account further, and an already started player record is
/// never reset by an acceptance.
pub proof fn lemma_accept_settles_after_one_acceptance(a: Accept)
    requires
        a.admits(),
    ensures
        a.accepted().admits(),
        a.accepted().accepted() == a.accepted(),
        a.player.initiated ==> a.accepted().player == a.player,
        a.accepted().player.initiated,
{
}

/// Settling a game credits exactly one win and one loss: each player's record counts one more
/// game, the winner's record one more win, the other's one more loss, and nothing else in the
/// accounts changes.
pub proof fn lemma_resolution_credits_one_win_and_one_loss(s: Resolve)
    requires
        s.admitted(),
        !s.counters_full(),
    ensures
        s.credited().creator_player.games_played() == s.creator_player.games_played() + 1,
        s.credited().opponent_player.games_played() == s.opponent_player.games_played() + 1,
        s.credited().creator_player.game_won + s.credited().opponent_player.game_won
            == s.creator_player.game_won + s.opponent_player.game_won + 1,
        s.credited().creator_player.game_lost + s.credited().opponent_player.game_lost
            == s.creator_player.game_lost + s.opponent_player.game_lost + 1,
        s.creator_wins() ==> s.credited().creator_player.game_won == s.creator_player.game_won + 1,
        !s.creator_wins() ==> s.credited().opponent_player.game_won == s.opponent_player.game_won + 1,
        s.credited().game == s.game,
        s.credited().config == s.config,
        s.credited().winner == s.winner,
        s.credited().creator_player.owner == s.creator_player.owner,
        s.credited().opponent_player.owner == s.opponent_player.owner,
        s.credited().creator_player.initiated == s.creator_player.initiated,
        s.credited().opponent_player.initiated == s.opponent_player.initiated,
{
}

} // verus!
