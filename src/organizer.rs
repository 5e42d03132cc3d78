use vstd::prelude::*;

use crate::address::Address;
use crate::ata::{assert_is_ata, ata_error, AccountData};
use crate::error::WinError;
use crate::fees::{compute_fee_split, fee_split_of, FeeSplit};
use crate::merkle::may_create_game;
use crate::provenance::{check_wings_provenance, creators_of, has_verified_creator, metadata_error, NftMetadata};
use crate::state::{
    access_error, check_access, CoinType, FundsStatus, Game, GameStatus, UserDetails, UserWingsNftLocked, Win,
    WingsType,
};

verus! {

/// Most prize tokens one game can hold.
pub const MAX_PRIZES: usize = 5;

/// What an organizer presents to open a game.
#[derive(Clone, Debug)]
pub struct CreateGameArgs {
    pub ticket_token_address: Address,
    pub ticket_price: u64,
    pub minimum_cost: u64,
    /// Allow-list proof; needed only for an untiered game.
    pub proof: Vec<[u8; 32]>,
    pub game_time_stamp: u32,
    pub duration: u32,
    pub coin_type: CoinType,
    pub wings_type: WingsType,
    pub wings_nft_mint_address: Address,
}

/// The parties and records that opening a game reads.
#[derive(Clone, Copy, Debug)]
pub struct CreateGame {
    pub organizer_wallet: Address,
    pub bot_wallet: Address,
    /// The program authority that holds prizes in custody.
    pub nft_pool: Address,
    pub win: Win,
    pub user_details: UserDetails,
}

/// The accounts of one prize moved into custody: the organizer's token
/// account, the custody token account, and the prize token.
#[derive(Clone, Debug)]
pub struct PrizeAccounts {
    pub organizer_ata: AccountData,
    pub pool_ata: AccountData,
    pub mint: Address,
}

/// Why the accounts of the declared prizes are refused, if they are: the
/// first prize, in order, whose token is the all-zero identity (which marks
/// an unused slot), whose organizer account is not the organizer's
/// associated token account for it, or whose custody account is not the
/// custody's.
pub open spec fn prize_accounts_error(prizes: Seq<PrizeAccounts>, organizer: Address, pool: Address) -> Option<WinError>
    decreases prizes.len(),
{
    if prizes.len() == 0 {
        None
    } else if prizes[0].mint@ == Address::zero_spec() {
        Some(WinError::InvalidArgs)
    } else if ata_error(prizes[0].organizer_ata, organizer, prizes[0].mint) is Some {
        ata_error(prizes[0].organizer_ata, organizer, prizes[0].mint)
    } else if ata_error(prizes[0].pool_ata, pool, prizes[0].mint) is Some {
        ata_error(prizes[0].pool_ata, pool, prizes[0].mint)
    } else {
        prize_accounts_error(prizes.drop_first(), organizer, pool)
    }
}

/// The `i`-th prize slot of a new game: the `i`-th declared token, or the
/// all-zero identity past the declared ones.
pub open spec fn prize_slot(prizes: Seq<PrizeAccounts>, i: int) -> Seq<u8> {
    if i < prizes.len() {
        prizes[i].mint@
    } else {
        Address::zero_spec()
    }
}

/// A freshly created game, as `CreateGame::process` builds it.
pub open spec fn is_new_game(
    g: Game,
    organizer: Address,
    args: CreateGameArgs,
    prizes: Seq<PrizeAccounts>,
    bump: u8,
) -> bool {
    &&& g.nft_owner_wallet == organizer
    &&& g.ticket_token_address == args.ticket_token_address
    &&& g.ticket_price == args.ticket_price
    &&& g.minimum_cost == args.minimum_cost
    &&& g.opened_timestamp == args.game_time_stamp
    &&& g.duration == args.duration
    &&& g.current_total_tickets == 0
    &&& g.current_total_bonus_tickets == 0
    &&& g.coin_type == args.coin_type
    &&& !g.is_nft_unstaked
    &&& g.funds_status == FundsStatus::NotClaimed
    &&& g.wings_type == args.wings_type
    &&& g.bump == bump
    &&& g.wings_nft_mint_address == args.wings_nft_mint_address
    &&& g.winner_nft_count@ == seq![1u8, 0, 0, 0, 0]
    &&& g.winner_random_number@ == seq![0u32, 0, 0, 0, 0, 0]
    &&& forall|i: int| 0 <= i < 5 ==> #[trigger] g.nft_mint_address[i]@ == prize_slot(prizes, i)
}

impl CreateGame {
    /// Why opening a game is refused, if it is.
    pub open spec fn create_error(&self, args: CreateGameArgs, prizes: Seq<PrizeAccounts>) -> Option<WinError> {
        if access_error(self.win, self.bot_wallet) is Some {
            access_error(self.win, self.bot_wallet)
        } else if self.user_details.user_wallet@ != self.organizer_wallet@ {
            Some(WinError::AccessDenied)
        } else if !may_create_game(args.proof@, self.organizer_wallet, self.win.organizer_whitelist_merkle_root, args.wings_type) {
            Some(WinError::UnableToCreateGame)
        } else if args.minimum_cost == 0 || args.ticket_price == 0 {
            Some(WinError::WrongVaule)
        } else if prizes.len() > MAX_PRIZES {
            Some(WinError::InvalidArgs)
        } else {
            prize_accounts_error(prizes, self.organizer_wallet, self.nft_pool)
        }
    }

    /// Opens a game. `prizes` are the accounts of the prize tokens moved into
    /// custody, at most five: each moves one unit from the organizer's
    /// associated token account to the custody's. An untiered game needs the
    /// organizer's allow-list proof.
    pub fn process(&self, bump: u8, args: CreateGameArgs, prizes: &Vec<PrizeAccounts>) -> (r: Result<Game, WinError>)
        ensures
            match self.create_error(args, prizes@) {
                Some(e) => r == Err::<Game, WinError>(e),
                None => r matches Ok(g) && is_new_game(g, self.organizer_wallet, args, prizes@, bump) && g.wf(),
            },
    {
        match check_access(&self.win, &self.bot_wallet) {
            Err(e) => return Err(e),
            Ok(()) => {},
        }
        if !self.user_details.user_wallet.same(&self.organizer_wallet) {
            return Err(WinError::AccessDenied);
        }
        let ticket_token_address = args.ticket_token_address;
        let ticket_price = args.ticket_price;
        let minimum_cost = args.minimum_cost;
        let game_time_stamp = args.game_time_stamp;
        let duration = args.duration;
        let coin_type = args.coin_type;
        let wings_type = args.wings_type;
        let wings_nft_mint_address = args.wings_nft_mint_address;
        if !self.user_details.verify_create_game(
            args.proof,
            self.organizer_wallet,
            self.win.organizer_whitelist_merkle_root,
            wings_type,
        ) {
            return Err(WinError::UnableToCreateGame);
        }
        if minimum_cost == 0 || ticket_price == 0 {
            return Err(WinError::WrongVaule);
        }
        if prizes.len() > MAX_PRIZES {
            return Err(WinError::InvalidArgs);
        }
        match check_prize_accounts(prizes, &self.organizer_wallet, &self.nft_pool) {
            Err(e) => return Err(e),
            Ok(()) => {},
        }
        let nft_mint_address = [
            prize_slot_at(prizes, 0),
            prize_slot_at(prizes, 1),
            prize_slot_at(prizes, 2),
            prize_slot_at(prizes, 3),
            prize_slot_at(prizes, 4),
        ];
        let g = Game {
            nft_owner_wallet: self.organizer_wallet,
            ticket_token_address,
            ticket_price,
            minimum_cost,
            opened_timestamp: game_time_stamp,
            duration,
            current_total_tickets: 0,
            current_total_bonus_tickets: 0,
            coin_type,
            is_nft_unstaked: false,
            funds_status: FundsStatus::NotClaimed,
            wings_type,
            bump,
            wings_nft_mint_address,
            winner_nft_count: [1, 0, 0, 0, 0],
            winner_random_number: [0, 0, 0, 0, 0, 0],
            nft_mint_address,
        };
        assert(g.winner_nft_count@ =~= seq![1u8, 0, 0, 0, 0]);
        assert(g.winner_random_number@ =~= seq![0u32, 0, 0, 0, 0, 0]);
        proof { no_takings_yet(g); }
        Ok(g)
    }
}

/// A game without tickets sold has no takings.
proof fn no_takings_yet(g: Game)
    requires
        g.current_total_tickets == 0,
    ensures
        g.wf(),
{
    assert(g.ticket_price * g.current_total_tickets == 0) by (nonlinear_arith)
        requires
            g.current_total_tickets == 0,
    ;
}

/// Checks the accounts of the declared prizes (see `prize_accounts_error`).
pub fn check_prize_accounts(prizes: &Vec<PrizeAccounts>, organizer: &Address, pool: &Address) -> (r: Result<(), WinError>)
    ensures
        match prize_accounts_error(prizes@, *organizer, *pool) {
            Some(e) => r == Err::<(), WinError>(e),
            None => r is Ok,
        },
{
    let mut i: usize = 0;
    assert(prizes@.skip(0) =~= prizes@);
    while i < prizes.len()
        invariant
            0 <= i <= prizes@.len(),
            prize_accounts_error(prizes@, *organizer, *pool) == prize_accounts_error(prizes@.skip(i as int), *organizer, *pool),
        decreases prizes@.len() - i,
    {
        let p = &prizes[i];
        assert(prizes@.skip(i as int)[0] == *p);
        assert(prizes@.skip(i as int).drop_first() =~= prizes@.skip(i + 1));
        if p.mint.is_zero() {
            return Err(WinError::InvalidArgs);
        }
        match assert_is_ata(&p.organizer_ata, organizer, &p.mint) {
            Err(e) => return Err(e),
            Ok(_) => {},
        }
        match assert_is_ata(&p.pool_ata, pool, &p.mint) {
            Err(e) => return Err(e),
            Ok(_) => {},
        }
        i = i + 1;
    }
    assert(prizes@.skip(i as int).len() == 0);
    Ok(())
}

fn prize_slot_at(prizes: &Vec<PrizeAccounts>, i: usize) -> (r: Address)
    ensures
        r@ == prize_slot(prizes@, i as int),
{
    if i < prizes.len() {
        prizes[i].mint
    } else {
        Address::zero()
    }
}

/// The draw seed an organizer supplies when ending a game early.
#[derive(Clone, Copy, Debug)]
pub struct EndGameArgs {
    pub random_number: [u32; 6],
}

/// The parties and records that ending a game early reads.
#[derive(Clone, Copy, Debug)]
pub struct EndGame {
    pub organizer_wallet: Address,
    pub bot_wallet: Address,
    pub game: Game,
    pub win: Win,
}

impl EndGame {
    /// The game after ending it early at `now`, or the refusal.
    pub open spec fn outcome(&self, args: EndGameArgs, now: u32) -> Result<Game, WinError> {
        let g = self.game;
        if access_error(self.win, self.bot_wallet) is Some {
            Err(access_error(self.win, self.bot_wallet)->0)
        } else if g.nft_owner_wallet@ != self.organizer_wallet@ {
            Err(WinError::AccessDenied)
        } else if g.current_total_tickets == 0 {
            Err(WinError::NoTicketAmount)
        } else if g.deadline() > u32::MAX {
            Err(WinError::NumericalOverflow)
        } else if now > g.deadline() {
            Err(WinError::AlreadyGameEnd)
        } else if now < g.opened_timestamp {
            Err(WinError::NumericalOverflow)
        } else if g.total_earn() > u64::MAX {
            Err(WinError::NumericalOverflow)
        } else {
            Ok(Game {
                duration: (now - g.opened_timestamp) as u32,
                minimum_cost: g.total_earn() as u64,
                winner_random_number: args.random_number,
                ..g
            })
        }
    }

    /// Ends a game at `now`, before or at its deadline: the window closes at
    /// once and whatever has been sold becomes the funding threshold, so the
    /// game will settle as a success. Stores the draw seed.
    pub fn process(&mut self, args: EndGameArgs, now: u32) -> (r: Result<(), WinError>)
        ensures
            match old(self).outcome(args, now) {
                Ok(g) => r is Ok && *final(self) == (EndGame { game: g, ..*old(self) }),
                Err(e) => r == Err::<(), WinError>(e) && *final(self) == *old(self),
            },
    {
        match check_access(&self.win, &self.bot_wallet) {
            Err(e) => return Err(e),
            Ok(()) => {},
        }
        if !self.game.nft_owner_wallet.same(&self.organizer_wallet) {
            return Err(WinError::AccessDenied);
        }
        if self.game.current_total_tickets == 0 {
            return Err(WinError::NoTicketAmount);
        }
        let end = match self.game.opened_timestamp.checked_add(self.game.duration) {
            Some(v) => v,
            None => return Err(WinError::NumericalOverflow),
        };
        if now > end {
            return Err(WinError::AlreadyGameEnd);
        }
        let duration = match now.checked_sub(self.game.opened_timestamp) {
            Some(v) => v,
            None => return Err(WinError::NumericalOverflow),
        };
        let earn = match self.game.checked_total_earn() {
            Ok(v) => v,
            Err(e) => return Err(e),
        };
        self.game.duration = duration;
        self.game.minimum_cost = earn;
        self.game.winner_random_number = args.random_number;
        Ok(())
    }
}

/// What an organizer presents to reopen a cancelled game.
#[derive(Clone, Debug)]
pub struct RecreateGameArgs {
    pub proof: Vec<[u8; 32]>,
    pub game_time_stamp: u32,
    pub wings_type: WingsType,
    pub wings_nft_mint_address: Address,
    pub duration: u32,
}

/// The parties and records that reopening a cancelled game reads.
#[derive(Clone, Copy, Debug)]
pub struct RecreateGame {
    pub organizer_wallet: Address,
    pub bot_wallet: Address,
    pub old_game: Game,
    pub win: Win,
    pub user_details: UserDetails,
}

/// A game reopened from `old`: same price, asset, threshold and prize
/// tokens, a new schedule and tier, fresh totals.
pub open spec fn is_reopened_game(g: Game, old: Game, organizer: Address, args: RecreateGameArgs, bump: u8) -> bool {
    &&& g.nft_owner_wallet == organizer
    &&& g.ticket_token_address == old.ticket_token_address
    &&& g.ticket_price == old.ticket_price
    &&& g.minimum_cost == old.minimum_cost
    &&& g.opened_timestamp == args.game_time_stamp
    &&& g.duration == args.duration
    &&& g.current_total_tickets == 0
    &&& g.current_total_bonus_tickets == 0
    &&& g.coin_type == old.coin_type
    &&& !g.is_nft_unstaked
    &&& g.funds_status == FundsStatus::NotClaimed
    &&& g.wings_type == args.wings_type
    &&& g.wings_nft_mint_address == args.wings_nft_mint_address
    &&& g.bump == bump
    &&& g.nft_mint_address == old.nft_mint_address
    &&& g.winner_nft_count == old.winner_nft_count
    &&& g.winner_random_number@ == seq![0u32, 0, 0, 0, 0, 0]
}

impl RecreateGame {
    /// Why reopening is refused at `now`, if it is.
    pub open spec fn recreate_error(&self, args: RecreateGameArgs, now: u32) -> Option<WinError> {
        if access_error(self.win, self.bot_wallet) is Some {
            access_error(self.win, self.bot_wallet)
        } else if self.old_game.nft_owner_wallet@ != self.organizer_wallet@ {
            Some(WinError::IncorrectOwner)
        } else if self.old_game.is_nft_unstaked {
            Some(WinError::NoGameNft)
        } else if self.user_details.user_wallet@ != self.organizer_wallet@ {
            Some(WinError::AccessDenied)
        } else if !may_create_game(args.proof@, self.organizer_wallet, self.win.organizer_whitelist_merkle_root, args.wings_type) {
            Some(WinError::UnableToCreateGame)
        } else if self.old_game.status_at(now) is Err {
            Some(self.old_game.status_at(now)->Err_0)
        } else if self.old_game.status_at(now) != Ok::<GameStatus, WinError>(GameStatus::Cancelled) {
            Some(WinError::GameIsNotCancelledStatus)
        } else {
            None
        }
    }

    /// Reopens a cancelled game whose prizes are still in custody: the new
    /// game takes them over, and the old one is marked as handed on.
    pub fn process(&mut self, bump: u8, args: RecreateGameArgs, now: u32) -> (r: Result<Game, WinError>)
        ensures
            match old(self).recreate_error(args, now) {
                Some(e) => r == Err::<Game, WinError>(e) && *final(self) == *old(self),
                None => r matches Ok(g) && is_reopened_game(g, old(self).old_game, old(self).organizer_wallet, args, bump) && g.wf()
                    && *final(self) == (RecreateGame {
                        old_game: Game { is_nft_unstaked: true, funds_status: FundsStatus::Retransfer, ..old(self).old_game },
                        ..*old(self)
                    }),
            },
    {
        match check_access(&self.win, &self.bot_wallet) {
            Err(e) => return Err(e),
            Ok(()) => {},
        }
        if !self.old_game.nft_owner_wallet.same(&self.organizer_wallet) {
            return Err(WinError::IncorrectOwner);
        }
        if self.old_game.is_nft_unstaked {
            return Err(WinError::NoGameNft);
        }
        if !self.user_details.user_wallet.same(&self.organizer_wallet) {
            return Err(WinError::AccessDenied);
        }
        let game_time_stamp = args.game_time_stamp;
        let wings_type = args.wings_type;
        let wings_nft_mint_address = args.wings_nft_mint_address;
        let duration = args.duration;
        if !self.user_details.verify_create_game(
            args.proof,
            self.organizer_wallet,
            self.win.organizer_whitelist_merkle_root,
            wings_type,
        ) {
            return Err(WinError::UnableToCreateGame);
        }
        match self.old_game.status(now) {
            Err(e) => return Err(e),
            Ok(GameStatus::Cancelled) => {},
            Ok(_) => return Err(WinError::GameIsNotCancelledStatus),
        }
        let old = self.old_game;
        let g = Game {
            nft_owner_wallet: self.organizer_wallet,
            ticket_token_address: old.ticket_token_address,
            ticket_price: old.ticket_price,
            minimum_cost: old.minimum_cost,
            opened_timestamp: game_time_stamp,
            duration,
            current_total_tickets: 0,
            current_total_bonus_tickets: 0,
            coin_type: old.coin_type,
            is_nft_unstaked: false,
            funds_status: FundsStatus::NotClaimed,
            wings_type,
            bump,
            wings_nft_mint_address,
            winner_nft_count: old.winner_nft_count,
            winner_random_number: [0, 0, 0, 0, 0, 0],
            nft_mint_address: old.nft_mint_address,
        };
        assert(g.winner_random_number@ =~= seq![0u32, 0, 0, 0, 0, 0]);
        proof { no_takings_yet(g); }
        self.old_game.is_nft_unstaked = true;
        self.old_game.funds_status = FundsStatus::Retransfer;
        Ok(g)
    }
}

/// The parties and records that returning a cancelled game's prizes reads.
#[derive(Clone, Copy, Debug)]
pub struct OrganizerGetBackNft {
    pub organizer_wallet: Address,
    pub bot_wallet: Address,
    /// The program authority that holds prizes in custody.
    pub nft_pool: Address,
    pub game: Game,
    pub win: Win,
}

/// The accounts through which one declared prize goes back: the organizer's
/// token account and the custody token account.
#[derive(Clone, Debug)]
pub struct PrizeReturnAccounts {
    pub organizer_ata: AccountData,
    pub pool_ata: AccountData,
}

/// Why the accounts given for returning the prizes `mints` are refused, if
/// they are: one pair per prize, in order, each the organizer's and the
/// custody's associated token account for that prize.
pub open spec fn return_accounts_error(
    accounts: Seq<PrizeReturnAccounts>,
    mints: Seq<Address>,
    organizer: Address,
    pool: Address,
) -> Option<WinError>
    decreases accounts.len(),
{
    if accounts.len() != mints.len() {
        Some(WinError::InvalidArgs)
    } else if accounts.len() == 0 {
        None
    } else if ata_error(accounts[0].organizer_ata, organizer, mints[0]) is Some {
        ata_error(accounts[0].organizer_ata, organizer, mints[0])
    } else if ata_error(accounts[0].pool_ata, pool, mints[0]) is Some {
        ata_error(accounts[0].pool_ata, pool, mints[0])
    } else {
        return_accounts_error(accounts.drop_first(), mints.drop_first(), organizer, pool)
    }
}

/// Checks the accounts given for returning the prizes `mints`.
pub fn check_return_accounts(
    accounts: &Vec<PrizeReturnAccounts>,
    mints: &Vec<Address>,
    organizer: &Address,
    pool: &Address,
) -> (r: Result<(), WinError>)
    ensures
        match return_accounts_error(accounts@, mints@, *organizer, *pool) {
            Some(e) => r == Err::<(), WinError>(e),
            None => r is Ok,
        },
{
    if accounts.len() != mints.len() {
        return Err(WinError::InvalidArgs);
    }
    let mut i: usize = 0;
    assert(accounts@.skip(0) =~= accounts@);
    assert(mints@.skip(0) =~= mints@);
    while i < accounts.len()
        invariant
            0 <= i <= accounts@.len(),
            accounts@.len() == mints@.len(),
            return_accounts_error(accounts@, mints@, *organizer, *pool)
                == return_accounts_error(accounts@.skip(i as int), mints@.skip(i as int), *organizer, *pool),
        decreases accounts@.len() - i,
    {
        let a = &accounts[i];
        let m = &mints[i];
        assert(accounts@.skip(i as int)[0] == *a);
        assert(mints@.skip(i as int)[0] == *m);
        assert(accounts@.skip(i as int).drop_first() =~= accounts@.skip(i + 1));
        assert(mints@.skip(i as int).drop_first() =~= mints@.skip(i + 1));
        match assert_is_ata(&a.organizer_ata, organizer, m) {
            Err(e) => return Err(e),
            Ok(_) => {},
        }
        match assert_is_ata(&a.pool_ata, pool, m) {
            Err(e) => return Err(e),
            Ok(_) => {},
        }
        i = i + 1;
    }
    assert(accounts@.skip(i as int).len() == 0);
    Ok(())
}

impl OrganizerGetBackNft {
    /// Why returning the prizes is refused at `now`, if it is.
    pub open spec fn get_back_error(&self, now: u32, accounts: Seq<PrizeReturnAccounts>) -> Option<WinError> {
        if self.game.is_nft_unstaked {
            Some(WinError::NftAlreadyClaimed)
        } else if access_error(self.win, self.bot_wallet) is Some {
            access_error(self.win, self.bot_wallet)
        } else if self.game.nft_owner_wallet@ != self.organizer_wallet@ {
            Some(WinError::InvalidTokenOwner)
        } else if self.game.status_at(now) is Err {
            Some(self.game.status_at(now)->Err_0)
        } else if self.game.status_at(now) != Ok::<GameStatus, WinError>(GameStatus::Cancelled) {
            Some(WinError::GameIsNotCancelledStatus)
        } else {
            return_accounts_error(accounts, self.game.declared_prizes(), self.organizer_wallet, self.nft_pool)
        }
    }

    /// Releases a cancelled game's prizes back to its organizer, once.
    /// `accounts` holds one pair per declared prize, in slot order. Returns
    /// every declared prize token: the caller moves one unit of each from
    /// the custody account of its pair to the organizer's.
    pub fn process(&mut self, now: u32, accounts: &Vec<PrizeReturnAccounts>) -> (r: Result<Vec<Address>, WinError>)
        ensures
            match old(self).get_back_error(now, accounts@) {
                Some(e) => r == Err::<Vec<Address>, WinError>(e) && *final(self) == *old(self),
                None => r matches Ok(mints) && mints@ == old(self).game.declared_prizes()
                    && *final(self) == (OrganizerGetBackNft {
                        game: Game { is_nft_unstaked: true, ..old(self).game },
                        ..*old(self)
                    }),
            },
    {
        if self.game.is_nft_unstaked {
            return Err(WinError::NftAlreadyClaimed);
        }
        match check_access(&self.win, &self.bot_wallet) {
            Err(e) => return Err(e),
            Ok(()) => {},
        }
        if !self.game.nft_owner_wallet.same(&self.organizer_wallet) {
            return Err(WinError::InvalidTokenOwner);
        }
        match self.game.status(now) {
            Err(e) => return Err(e),
            Ok(GameStatus::Cancelled) => {},
            Ok(_) => return Err(WinError::GameIsNotCancelledStatus),
        }
        let mints = self.game.prize_mints();
        match check_return_accounts(accounts, &mints, &self.organizer_wallet, &self.nft_pool) {
            Err(e) => return Err(e),
            Ok(()) => {},
        }
        self.game.is_nft_unstaked = true;
        Ok(mints)
    }
}

/// Settlement of a successful game: the fee split to pay out, or the refusal.
/// `balance` is what the game's vault of that asset holds.
pub open spec fn settle_outcome(
    win: Win,
    bot: Address,
    organizer: Address,
    game: Game,
    coin: CoinType,
    balance: u64,
    now: u32,
) -> Result<FeeSplit, WinError> {
    if game.funds_status != FundsStatus::NotClaimed {
        Err(WinError::ClaimedAlready)
    } else if access_error(win, bot) is Some {
        Err(access_error(win, bot)->0)
    } else if game.nft_owner_wallet@ != organizer@ {
        Err(WinError::AccessDenied)
    } else if game.coin_type != coin {
        Err(WinError::InvalidAccount)
    } else if game.total_earn() > u64::MAX {
        Err(WinError::NumericalOverflow)
    } else if balance < game.total_earn() {
        Err(match coin {
            CoinType::SOL => WinError::InsufficientSolBalance,
            CoinType::TOKEN => WinError::InsufficientTokenBalance,
        })
    } else if game.status_at(now) is Err {
        Err(game.status_at(now)->Err_0)
    } else if game.status_at(now) != Ok::<GameStatus, WinError>(GameStatus::Succeeded) {
        Err(WinError::GameIsNotClosedStatus)
    } else {
        fee_split_of(game.total_earn() as u64, win.community_fee, game.wings_type)
    }
}

/// Settles a successful game (see `settle_outcome`).
pub fn settle(win: &Win, bot: &Address, organizer: &Address, game: &Game, coin: CoinType, balance: u64, now: u32) -> (r: Result<FeeSplit, WinError>)
    ensures
        r == settle_outcome(*win, *bot, *organizer, *game, coin, balance, now),
{
    if game.funds_status != FundsStatus::NotClaimed {
        return Err(WinError::ClaimedAlready);
    }
    match check_access(win, bot) {
        Err(e) => return Err(e),
        Ok(()) => {},
    }
    if !game.nft_owner_wallet.same(organizer) {
        return Err(WinError::AccessDenied);
    }
    if game.coin_type != coin {
        return Err(WinError::InvalidAccount);
    }
    let earn = match game.checked_total_earn() {
        Ok(v) => v,
        Err(e) => return Err(e),
    };
    if balance < earn {
        return Err(match coin {
            CoinType::SOL => WinError::InsufficientSolBalance,
            CoinType::TOKEN => WinError::InsufficientTokenBalance,
        });
    }
    match game.status(now) {
        Err(e) => return Err(e),
        Ok(GameStatus::Succeeded) => {},
        Ok(_) => return Err(WinError::GameIsNotClosedStatus),
    }
    compute_fee_split(earn, win.community_fee, game.wings_type)
}

/// The parties and records that settling a native-currency game reads.
#[derive(Clone, Copy, Debug)]
pub struct OrganizerProcessGameSol {
    pub organizer_wallet: Address,
    pub bot_wallet: Address,
    pub game: Game,
    pub win: Win,
}

impl OrganizerProcessGameSol {
    /// Settles a successful native-currency game once: returns the fee split
    /// to pay out of the game's vault (`pool_balance` is what it holds) and
    /// marks the game withdrawn.
    pub fn process(&mut self, pool_balance: u64, now: u32) -> (r: Result<FeeSplit, WinError>)
        ensures
            match settle_outcome(old(self).win, old(self).bot_wallet, old(self).organizer_wallet, old(self).game, CoinType::SOL, pool_balance, now) {
                Ok(split) => r == Ok::<FeeSplit, WinError>(split) && *final(self) == (OrganizerProcessGameSol {
                    game: Game { funds_status: FundsStatus::Withdrawed, ..old(self).game },
                    ..*old(self)
                }),
                Err(e) => r == Err::<FeeSplit, WinError>(e) && *final(self) == *old(self),
            },
    {
        let r = settle(&self.win, &self.bot_wallet, &self.organizer_wallet, &self.game, CoinType::SOL, pool_balance, now);
        if r.is_ok() {
            self.game.funds_status = FundsStatus::Withdrawed;
        }
        r
    }
}

/// The parties and records that settling a fungible-asset game reads.
#[derive(Clone, Copy, Debug)]
pub struct OrganizerProcessGameToken {
    pub organizer_wallet: Address,
    pub bot_wallet: Address,
    pub game: Game,
    pub win: Win,
}

impl OrganizerProcessGameToken {
    /// Settles a successful fungible-asset game once: returns the fee split
    /// to pay out of the game's token vault (`pool_balance` is what it holds)
    /// and marks the game withdrawn.
    pub fn process(&mut self, pool_balance: u64, now: u32) -> (r: Result<FeeSplit, WinError>)
        ensures
            match settle_outcome(old(self).win, old(self).bot_wallet, old(self).organizer_wallet, old(self).game, CoinType::TOKEN, pool_balance, now) {
                Ok(split) => r == Ok::<FeeSplit, WinError>(split) && *final(self) == (OrganizerProcessGameToken {
                    game: Game { funds_status: FundsStatus::Withdrawed, ..old(self).game },
                    ..*old(self)
                }),
                Err(e) => r == Err::<FeeSplit, WinError>(e) && *final(self) == *old(self),
            },
    {
        let r = settle(&self.win, &self.bot_wallet, &self.organizer_wallet, &self.game, CoinType::TOKEN, pool_balance, now);
        if r.is_ok() {
            self.game.funds_status = FundsStatus::Withdrawed;
        }
        r
    }
}

/// The parties and records that locking a prize-category token reads.
#[derive(Clone, Copy, Debug)]
pub struct LockWingsNft {
    pub organizer_wallet: Address,
    pub bot_wallet: Address,
    pub mint_nft: Address,
    pub user_details: UserDetails,
    pub win: Win,
}

impl LockWingsNft {
    /// Why the lock is refused, if it is.
    pub open spec fn lock_error(&self, metadata: Option<NftMetadata>) -> Option<WinError> {
        if access_error(self.win, self.bot_wallet) is Some {
            access_error(self.win, self.bot_wallet)
        } else if metadata_error(metadata, self.mint_nft) {
            Some(WinError::WrongMetadata)
        } else if !has_verified_creator(creators_of(metadata->0), self.win.wings_creator) {
            Some(WinError::NoWingsNft)
        } else if self.user_details.wings_locked_count == u16::MAX {
            Some(WinError::NumericalOverflow)
        } else {
            None
        }
    }

    /// Takes a prize-category token into custody: its metadata must name the
    /// configured creator as a verified creator. Counts the lock on the
    /// organizer's profile and returns the lock record.
    pub fn process(&mut self, metadata: &Option<NftMetadata>) -> (r: Result<UserWingsNftLocked, WinError>)
        ensures
            match old(self).lock_error(*metadata) {
                Some(e) => r == Err::<UserWingsNftLocked, WinError>(e) && *final(self) == *old(self),
                None => r == Ok::<UserWingsNftLocked, WinError>(UserWingsNftLocked {
                    user_wallet: old(self).organizer_wallet,
                    wings_nft_mint: old(self).mint_nft,
                }) && *final(self) == (LockWingsNft {
                    user_details: UserDetails {
                        wings_locked_count: (old(self).user_details.wings_locked_count + 1) as u16,
                        ..old(self).user_details
                    },
                    ..*old(self)
                }),
            },
    {
        match check_access(&self.win, &self.bot_wallet) {
            Err(e) => return Err(e),
            Ok(()) => {},
        }
        match check_wings_provenance(metadata, &self.mint_nft, &self.win.wings_creator) {
            Err(e) => return Err(e),
            Ok(()) => {},
        }
        let count = match self.user_details.wings_locked_count.checked_add(1) {
            Some(v) => v,
            None => return Err(WinError::NumericalOverflow),
        };
        self.user_details.wings_locked_count = count;
        Ok(UserWingsNftLocked { user_wallet: self.organizer_wallet, wings_nft_mint: self.mint_nft })
    }
}

/// The parties and records that unlocking a prize-category token reads.
#[derive(Clone, Copy, Debug)]
pub struct UnlockWingsNft {
    pub organizer_wallet: Address,
    pub bot_wallet: Address,
    pub mint_nft: Address,
    pub user_details: UserDetails,
    pub win: Win,
    pub user_wings_nft_locked: UserWingsNftLocked,
}

impl UnlockWingsNft {
    /// Why the unlock is refused, if it is.
    pub open spec fn unlock_error(&self) -> Option<WinError> {
        if access_error(self.win, self.bot_wallet) is Some {
            access_error(self.win, self.bot_wallet)
        } else if self.user_wings_nft_locked.user_wallet@ != self.organizer_wallet@
            || self.user_wings_nft_locked.wings_nft_mint@ != self.mint_nft@ {
            Some(WinError::InvalidAccount)
        } else if self.user_details.wings_locked_count == 0 {
            Some(WinError::NumericalOverflow)
        } else {
            None
        }
    }

    /// Returns a locked prize-category token to its organizer and uncounts
    /// the lock; the lock record must be this organizer's, for this token.
    pub fn process(&mut self) -> (r: Result<(), WinError>)
        ensures
            match old(self).unlock_error() {
                Some(e) => r == Err::<(), WinError>(e) && *final(self) == *old(self),
                None => r is Ok && *final(self) == (UnlockWingsNft {
                    user_details: UserDetails {
                        wings_locked_count: (old(self).user_details.wings_locked_count - 1) as u16,
                        ..old(self).user_details
                    },
                    ..*old(self)
                }),
            },
    {
        match check_access(&self.win, &self.bot_wallet) {
            Err(e) => return Err(e),
            Ok(()) => {},
        }
        if !self.user_wings_nft_locked.user_wallet.same(&self.organizer_wallet)
            || !self.user_wings_nft_locked.wings_nft_mint.same(&self.mint_nft) {
            return Err(WinError::InvalidAccount);
        }
        let count = match self.user_details.wings_locked_count.checked_sub(1) {
            Some(v) => v,
            None => return Err(WinError::NumericalOverflow),
        };
        self.user_details.wings_locked_count = count;
        Ok(())
    }
}

} // verus!
