use vstd::prelude::*;

use crate::address::Address;
use crate::bid::{first_bid, first_bid_outcome, next_bid, next_bid_outcome};
use crate::error::WinError;
use crate::freely::{in_lock_period, within_lock_period};
use crate::provenance::{check_freely_provenance, creators_of, freely_category, metadata_error, NftMetadata};
use crate::state::{
    access_error, check_access, checked_product, CoinType, FundsStatus, Game, GameStatus, UserBid, UserDetails, Win,
};

verus! {

/// What a user presents with a first bid on a game.
#[derive(Clone, Copy, Debug)]
pub struct CreateUserGlobalBidPdaSolArgs {
    pub ticket_amount: u32,
    pub bonus_ticket_amount: u32,
    pub random_number: [u32; 6],
}

/// The parties and records that a first bid paid in the native currency reads.
#[derive(Clone, Copy, Debug)]
pub struct CreateUserGlobalBidPdaSol {
    pub user_wallet: Address,
    pub bot_wallet: Address,
    pub game: Game,
    /// Identity of the game record.
    pub game_address: Address,
    pub user_details: UserDetails,
    pub win: Win,
}

impl CreateUserGlobalBidPdaSol {
    /// A user's first bid on an open game: creates the user's global ledger
    /// and returns it with the amount to pay into the game's vault
    /// (`user_balance` is what the payer holds). Bonus tickets come from the
    /// freely allowance; a spend past the configured threshold provisions the
    /// ledger's shared bonus pool.
    pub fn process(&mut self, bump: u8, args: CreateUserGlobalBidPdaSolArgs, user_balance: u64, now: u32) -> (r: Result<(UserBid, u64), WinError>)
        ensures
            match first_bid_outcome(
                old(self).win,
                old(self).bot_wallet,
                CoinType::SOL,
                old(self).game,
                old(self).user_details,
                old(self).user_wallet,
                old(self).game_address,
                args.ticket_amount,
                args.bonus_ticket_amount,
                args.random_number,
                user_balance,
                now,
                bump,
            ) {
                Ok((g, u, ledger, spend)) => r == Ok::<(UserBid, u64), WinError>((ledger, spend))
                    && *final(self) == (CreateUserGlobalBidPdaSol { game: g, user_details: u, ..*old(self) }),
                Err(e) => r == Err::<(UserBid, u64), WinError>(e) && *final(self) == *old(self),
            },
    {
        match first_bid(
            &self.win,
            &self.bot_wallet,
            CoinType::SOL,
            &self.game,
            &self.user_details,
            &self.user_wallet,
            &self.game_address,
            args.ticket_amount,
            args.bonus_ticket_amount,
            args.random_number,
            user_balance,
            now,
            bump,
        ) {
            Ok((g, u, ledger, spend)) => {
                self.game = g;
                self.user_details = u;
                Ok((ledger, spend))
            },
            Err(e) => Err(e),
        }
    }
}

/// What a user presents with a first bid on a game.
#[derive(Clone, Copy, Debug)]
pub struct CreateUserGlobalBidPdaTokenArgs {
    pub ticket_amount: u32,
    pub bonus_ticket_amount: u32,
    pub random_number: [u32; 6],
}

/// The parties and records that a first bid paid in the game's fungible asset reads.
#[derive(Clone, Copy, Debug)]
pub struct CreateUserGlobalBidPdaToken {
    pub user_wallet: Address,
    pub bot_wallet: Address,
    pub game: Game,
    /// Identity of the game record.
    pub game_address: Address,
    pub user_details: UserDetails,
    pub win: Win,
}

impl CreateUserGlobalBidPdaToken {
    /// A user's first bid on an open game: creates the user's global ledger
    /// and returns it with the amount to pay into the game's vault
    /// (`user_balance` is what the payer holds). Bonus tickets come from the
    /// freely allowance; a spend past the configured threshold provisions the
    /// ledger's shared bonus pool.
    pub fn process(&mut self, bump: u8, args: CreateUserGlobalBidPdaTokenArgs, user_balance: u64, now: u32) -> (r: Result<(UserBid, u64), WinError>)
        ensures
            match first_bid_outcome(
                old(self).win,
                old(self).bot_wallet,
                CoinType::TOKEN,
                old(self).game,
                old(self).user_details,
                old(self).user_wallet,
                old(self).game_address,
                args.ticket_amount,
                args.bonus_ticket_amount,
                args.random_number,
                user_balance,
                now,
                bump,
            ) {
                Ok((g, u, ledger, spend)) => r == Ok::<(UserBid, u64), WinError>((ledger, spend))
                    && *final(self) == (CreateUserGlobalBidPdaToken { game: g, user_details: u, ..*old(self) }),
                Err(e) => r == Err::<(UserBid, u64), WinError>(e) && *final(self) == *old(self),
            },
    {
        match first_bid(
            &self.win,
            &self.bot_wallet,
            CoinType::TOKEN,
            &self.game,
            &self.user_details,
            &self.user_wallet,
            &self.game_address,
            args.ticket_amount,
            args.bonus_ticket_amount,
            args.random_number,
            user_balance,
            now,
            bump,
        ) {
            Ok((g, u, ledger, spend)) => {
                self.game = g;
                self.user_details = u;
                Ok((ledger, spend))
            },
            Err(e) => Err(e),
        }
    }
}

/// What a user presents with a subsequent bid on a game.
#[derive(Clone, Copy, Debug)]
pub struct UserGameBidSolArgs {
    pub ticket_amount: u32,
    pub bonus_ticket_amount: u32,
    pub random_number: [u32; 6],
    /// Must be the ledger's bid count plus one.
    pub bid_number: u8,
}

/// The parties and records that a subsequent bid paid in the native currency reads.
#[derive(Clone, Copy, Debug)]
pub struct UserGameBidSol {
    pub user_wallet: Address,
    pub bot_wallet: Address,
    /// The user's global ledger for this game.
    pub user_global_bid: UserBid,
    pub game: Game,
    /// Identity of the game record.
    pub game_address: Address,
    pub user_details: UserDetails,
    pub win: Win,
}

impl UserGameBidSol {
    /// A user's subsequent bid on an open game, numbered one past the
    /// ledger's bid count. Bonus tickets come from the shared pool first,
    /// then from the freely allowance; asking for more than both hold is
    /// refused. Returns the bid's record and the amount to pay
    /// (`user_balance` is what the payer holds), and provisions the pool
    /// once the aggregate spend passes the threshold.
    pub fn process(&mut self, args: UserGameBidSolArgs, user_balance: u64, now: u32) -> (r: Result<(UserBid, u64), WinError>)
        ensures
            match next_bid_outcome(
                old(self).win,
                old(self).bot_wallet,
                CoinType::SOL,
                old(self).game,
                old(self).user_details,
                old(self).user_global_bid,
                old(self).user_wallet,
                old(self).game_address,
                args.ticket_amount,
                args.bonus_ticket_amount,
                args.random_number,
                args.bid_number,
                user_balance,
                now,
            ) {
                Ok((g, u, global, record, spend)) => r == Ok::<(UserBid, u64), WinError>((record, spend))
                    && *final(self) == (UserGameBidSol { game: g, user_details: u, user_global_bid: global, ..*old(self) }),
                Err(e) => r == Err::<(UserBid, u64), WinError>(e) && *final(self) == *old(self),
            },
    {
        match next_bid(
            &self.win,
            &self.bot_wallet,
            CoinType::SOL,
            &self.game,
            &self.user_details,
            &self.user_global_bid,
            &self.user_wallet,
            &self.game_address,
            args.ticket_amount,
            args.bonus_ticket_amount,
            args.random_number,
            args.bid_number,
            user_balance,
            now,
        ) {
            Ok((g, u, global, record, spend)) => {
                self.game = g;
                self.user_details = u;
                self.user_global_bid = global;
                Ok((record, spend))
            },
            Err(e) => Err(e),
        }
    }
}

/// What a user presents with a subsequent bid on a game.
#[derive(Clone, Copy, Debug)]
pub struct UserGameBidTokenArgs {
    pub ticket_amount: u32,
    pub bonus_ticket_amount: u32,
    pub random_number: [u32; 6],
    /// Must be the ledger's bid count plus one.
    pub bid_number: u8,
}

/// The parties and records that a subsequent bid paid in the game's fungible asset reads.
#[derive(Clone, Copy, Debug)]
pub struct UserGameBidToken {
    pub user_wallet: Address,
    pub bot_wallet: Address,
    /// The user's global ledger for this game.
    pub user_global_bid: UserBid,
    pub game: Game,
    /// Identity of the game record.
    pub game_address: Address,
    pub user_details: UserDetails,
    pub win: Win,
}

impl UserGameBidToken {
    /// A user's subsequent bid on an open game, numbered one past the
    /// ledger's bid count. Bonus tickets come from the shared pool first,
    /// then from the freely allowance; asking for more than both hold is
    /// refused. Returns the bid's record and the amount to pay
    /// (`user_balance` is what the payer holds), and provisions the pool
    /// once the aggregate spend passes the threshold.
    pub fn process(&mut self, args: UserGameBidTokenArgs, user_balance: u64, now: u32) -> (r: Result<(UserBid, u64), WinError>)
        ensures
            match next_bid_outcome(
                old(self).win,
                old(self).bot_wallet,
                CoinType::TOKEN,
                old(self).game,
                old(self).user_details,
                old(self).user_global_bid,
                old(self).user_wallet,
                old(self).game_address,
                args.ticket_amount,
                args.bonus_ticket_amount,
                args.random_number,
                args.bid_number,
                user_balance,
                now,
            ) {
                Ok((g, u, global, record, spend)) => r == Ok::<(UserBid, u64), WinError>((record, spend))
                    && *final(self) == (UserGameBidToken { game: g, user_details: u, user_global_bid: global, ..*old(self) }),
                Err(e) => r == Err::<(UserBid, u64), WinError>(e) && *final(self) == *old(self),
            },
    {
        match next_bid(
            &self.win,
            &self.bot_wallet,
            CoinType::TOKEN,
            &self.game,
            &self.user_details,
            &self.user_global_bid,
            &self.user_wallet,
            &self.game_address,
            args.ticket_amount,
            args.bonus_ticket_amount,
            args.random_number,
            args.bid_number,
            user_balance,
            now,
        ) {
            Ok((g, u, global, record, spend)) => {
                self.game = g;
                self.user_details = u;
                self.user_global_bid = global;
                Ok((record, spend))
            },
            Err(e) => Err(e),
        }
    }
}

/// A refund of a cancelled game's bidder: the amount to pay, or the refusal.
/// `balance` is what the game's vault of that asset holds.
pub open spec fn refund_outcome(
    win: Win,
    bot: Address,
    user: Address,
    receiver: Address,
    global: UserBid,
    game: Game,
    coin: CoinType,
    balance: u64,
    now: u32,
) -> Result<u64, WinError> {
    let amount = global.gbl_total_ticket_amount * game.ticket_price;
    if global.funds_status != FundsStatus::NotClaimed {
        Err(WinError::ClaimedAlready)
    } else if access_error(win, bot) is Some {
        Err(access_error(win, bot)->0)
    } else if receiver@ != user@ {
        Err(WinError::AccessDenied)
    } else if game.coin_type != coin {
        Err(WinError::InvalidAccount)
    } else if game.status_at(now) is Err {
        Err(game.status_at(now)->Err_0)
    } else if game.status_at(now) != Ok::<GameStatus, WinError>(GameStatus::Cancelled) {
        Err(WinError::GameIsNotCancelledStatus)
    } else if global.gbl_total_ticket_amount == 0 {
        Err(WinError::NoTicketAmount)
    } else if amount > u64::MAX {
        Err(WinError::NumericalOverflow)
    } else if balance < amount {
        Err(match coin {
            CoinType::SOL => WinError::InsufficientGameMoney,
            CoinType::TOKEN => WinError::InsufficientTokenBalance,
        })
    } else {
        Ok(amount as u64)
    }
}

/// A refund of a cancelled game's bidder (see `refund_outcome`).
pub fn refund(
    win: &Win,
    bot: &Address,
    user: &Address,
    receiver: &Address,
    global: &UserBid,
    game: &Game,
    coin: CoinType,
    balance: u64,
    now: u32,
) -> (r: Result<u64, WinError>)
    ensures
        r == refund_outcome(*win, *bot, *user, *receiver, *global, *game, coin, balance, now),
{
    if global.funds_status != FundsStatus::NotClaimed {
        return Err(WinError::ClaimedAlready);
    }
    match check_access(win, bot) {
        Err(e) => return Err(e),
        Ok(()) => {},
    }
    if !receiver.same(user) {
        return Err(WinError::AccessDenied);
    }
    if game.coin_type != coin {
        return Err(WinError::InvalidAccount);
    }
    match game.status(now) {
        Err(e) => return Err(e),
        Ok(GameStatus::Cancelled) => {},
        Ok(_) => return Err(WinError::GameIsNotCancelledStatus),
    }
    if global.gbl_total_ticket_amount == 0 {
        return Err(WinError::NoTicketAmount);
    }
    let amount = match checked_product(game.ticket_price, global.gbl_total_ticket_amount) {
        Ok(v) => v,
        Err(e) => return Err(e),
    };
    if balance < amount {
        return Err(match coin {
            CoinType::SOL => WinError::InsufficientGameMoney,
            CoinType::TOKEN => WinError::InsufficientTokenBalance,
        });
    }
    Ok(amount)
}

/// The parties and records that a refund in the native currency reads.
#[derive(Clone, Copy, Debug)]
pub struct UserWithdrawFundsSol {
    pub user_wallet: Address,
    pub bot_wallet: Address,
    /// The receiving address; it must be the caller's own.
    pub rec_wallet: Address,
    /// The user's global ledger for this game.
    pub user_global_bid: UserBid,
    pub game: Game,
    pub win: Win,
}

impl UserWithdrawFundsSol {
    /// Refunds a bidder of a cancelled game: returns the amount to pay out of
    /// the game's vault (`pool_balance` is what it holds), the bidder's
    /// aggregate tickets times the price, and marks the ledger withdrawn. A
    /// ledger without bought tickets has nothing to refund and is refused.
    pub fn process(&mut self, pool_balance: u64, now: u32) -> (r: Result<u64, WinError>)
        ensures
            match refund_outcome(
                old(self).win,
                old(self).bot_wallet,
                old(self).user_wallet,
                old(self).rec_wallet,
                old(self).user_global_bid,
                old(self).game,
                CoinType::SOL,
                pool_balance,
                now,
            ) {
                Ok(amount) => r == Ok::<u64, WinError>(amount) && *final(self) == (UserWithdrawFundsSol {
                    user_global_bid: UserBid { funds_status: FundsStatus::Withdrawed, ..old(self).user_global_bid },
                    ..*old(self)
                }),
                Err(e) => r == Err::<u64, WinError>(e) && *final(self) == *old(self),
            },
    {
        let r = refund(
            &self.win,
            &self.bot_wallet,
            &self.user_wallet,
            &self.rec_wallet,
            &self.user_global_bid,
            &self.game,
            CoinType::SOL,
            pool_balance,
            now,
        );
        if r.is_ok() {
            self.user_global_bid.funds_status = FundsStatus::Withdrawed;
        }
        r
    }
}

/// The parties and records that a refund in the game's fungible asset reads.
#[derive(Clone, Copy, Debug)]
pub struct UserWithdrawFundsToken {
    pub user_wallet: Address,
    pub bot_wallet: Address,
    /// The receiving address; it must be the caller's own.
    pub rec_wallet: Address,
    /// The user's global ledger for this game.
    pub user_global_bid: UserBid,
    pub game: Game,
    pub win: Win,
}

impl UserWithdrawFundsToken {
    /// Refunds a bidder of a cancelled game: returns the amount to pay out of
    /// the game's vault (`pool_balance` is what it holds), the bidder's
    /// aggregate tickets times the price, and marks the ledger withdrawn. A
    /// ledger without bought tickets has nothing to refund and is refused.
    pub fn process(&mut self, pool_balance: u64, now: u32) -> (r: Result<u64, WinError>)
        ensures
            match refund_outcome(
                old(self).win,
                old(self).bot_wallet,
                old(self).user_wallet,
                old(self).rec_wallet,
                old(self).user_global_bid,
                old(self).game,
                CoinType::TOKEN,
                pool_balance,
                now,
            ) {
                Ok(amount) => r == Ok::<u64, WinError>(amount) && *final(self) == (UserWithdrawFundsToken {
                    user_global_bid: UserBid { funds_status: FundsStatus::Withdrawed, ..old(self).user_global_bid },
                    ..*old(self)
                }),
                Err(e) => r == Err::<u64, WinError>(e) && *final(self) == *old(self),
            },
    {
        let r = refund(
            &self.win,
            &self.bot_wallet,
            &self.user_wallet,
            &self.rec_wallet,
            &self.user_global_bid,
            &self.game,
            CoinType::TOKEN,
            pool_balance,
            now,
        );
        if r.is_ok() {
            self.user_global_bid.funds_status = FundsStatus::Withdrawed;
        }
        r
    }
}

/// The parties and records that a winner's prize claim reads.
#[derive(Clone, Copy, Debug)]
pub struct WinnerClaimNft {
    pub winner_wallet: Address,
    pub bot_wallet: Address,
    /// The prize token claimed.
    pub winner_nft: Address,
    pub game: Game,
    /// The winner's global ledger for this game.
    pub user_global_bid: UserBid,
    pub win: Win,
}

impl WinnerClaimNft {
    /// Why the claim is refused at `now`, if it is.
    pub open spec fn claim_error(&self, now: u32) -> Option<WinError> {
        if self.user_global_bid.winner_nft_claim {
            Some(WinError::NftAlreadyClaimed)
        } else if access_error(self.win, self.bot_wallet) is Some {
            access_error(self.win, self.bot_wallet)
        } else if self.game.status_at(now) is Err {
            Some(self.game.status_at(now)->Err_0)
        } else if self.game.status_at(now) != Ok::<GameStatus, WinError>(GameStatus::Succeeded) {
            Some(WinError::GameIsNotClosedStatus)
        } else if !self.game.is_declared_prize(self.winner_nft) {
            Some(WinError::AccessDenied)
        } else {
            None
        }
    }

    /// A winner of a successful game claims one unit of a declared prize
    /// token, once per ledger.
    pub fn process(&mut self, now: u32) -> (r: Result<(), WinError>)
        ensures
            match old(self).claim_error(now) {
                Some(e) => r == Err::<(), WinError>(e) && *final(self) == *old(self),
                None => r is Ok && *final(self) == (WinnerClaimNft {
                    user_global_bid: UserBid { winner_nft_claim: true, ..old(self).user_global_bid },
                    ..*old(self)
                }),
            },
    {
        if self.user_global_bid.winner_nft_claim {
            return Err(WinError::NftAlreadyClaimed);
        }
        match check_access(&self.win, &self.bot_wallet) {
            Err(e) => return Err(e),
            Ok(()) => {},
        }
        match self.game.status(now) {
            Err(e) => return Err(e),
            Ok(GameStatus::Succeeded) => {},
            Ok(_) => return Err(WinError::GameIsNotClosedStatus),
        }
        if !self.game.has_prize(&self.winner_nft) {
            return Err(WinError::AccessDenied);
        }
        self.user_global_bid.winner_nft_claim = true;
        Ok(())
    }
}

/// The parties and records that staking a freely token reads.
#[derive(Clone, Copy, Debug)]
pub struct StakeFreelyNft {
    pub user_wallet: Address,
    pub bot_wallet: Address,
    pub mint_nft: Address,
    pub user_details: UserDetails,
    pub win: Win,
}

impl StakeFreelyNft {
    /// Why the stake is refused, if it is.
    pub open spec fn stake_error(&self, metadata: Option<NftMetadata>) -> Option<WinError> {
        if access_error(self.win, self.bot_wallet) is Some {
            access_error(self.win, self.bot_wallet)
        } else if self.user_details.is_freely_nft_staked {
            Some(WinError::AccessDenied)
        } else if metadata_error(metadata, self.mint_nft) {
            Some(WinError::WrongMetadata)
        } else if freely_category(creators_of(metadata->0), self.win.freely_ticket_nft_creators) is None {
            Some(WinError::NoFreelyTicketNft)
        } else {
            None
        }
    }

    /// Stakes a freely token at `now`: its category is that of the first
    /// verified freely creator in its metadata, and the profile receives that
    /// category's ticket allowance.
    pub fn process(&mut self, metadata: &Option<NftMetadata>, now: u32) -> (r: Result<(), WinError>)
        ensures
            match old(self).stake_error(*metadata) {
                Some(e) => r == Err::<(), WinError>(e) && *final(self) == *old(self),
                None => {
                    let j = freely_category(creators_of(metadata->0), old(self).win.freely_ticket_nft_creators)->0;
                    &&& r is Ok
                    &&& 0 <= j < 3
                    &&& *final(self) == (StakeFreelyNft {
                        user_details: UserDetails {
                            freely_ticket_amount: old(self).win.freely_ticket_amount[j],
                            freely_nft_staked_time: now,
                            freely_nft_mint_address: old(self).mint_nft,
                            freely_nft_type: j as u8,
                            is_freely_nft_staked: true,
                            ..old(self).user_details
                        },
                        ..*old(self)
                    })
                },
            },
    {
        match check_access(&self.win, &self.bot_wallet) {
            Err(e) => return Err(e),
            Ok(()) => {},
        }
        if self.user_details.is_freely_nft_staked {
            return Err(WinError::AccessDenied);
        }
        let j = match check_freely_provenance(metadata, &self.mint_nft, &self.win.freely_ticket_nft_creators) {
            Ok(j) => j,
            Err(e) => return Err(e),
        };
        self.user_details.freely_ticket_amount = self.win.freely_ticket_amount[j];
        self.user_details.freely_nft_staked_time = now;
        self.user_details.freely_nft_mint_address = self.mint_nft;
        self.user_details.freely_nft_type = j as u8;
        self.user_details.is_freely_nft_staked = true;
        Ok(())
    }
}

/// The parties and records that unstaking a freely token reads.
#[derive(Clone, Copy, Debug)]
pub struct UnstakeFreelyNft {
    pub user_wallet: Address,
    pub bot_wallet: Address,
    pub user_details: UserDetails,
    pub win: Win,
}

impl UnstakeFreelyNft {
    /// Why the unstake is refused at `now`, if it is.
    pub open spec fn unstake_error(&self, now: u32) -> Option<WinError> {
        if access_error(self.win, self.bot_wallet) is Some {
            access_error(self.win, self.bot_wallet)
        } else if !self.user_details.is_freely_nft_staked {
            Some(WinError::AccessDenied)
        } else if within_lock_period(self.user_details, self.win, now) {
            Some(WinError::NoUnstakeFreelyTicketNft)
        } else {
            None
        }
    }

    /// Ends a freely stake once its lock period is over; the allowance goes.
    pub fn process(&mut self, now: u32) -> (r: Result<(), WinError>)
        ensures
            match old(self).unstake_error(now) {
                Some(e) => r == Err::<(), WinError>(e) && *final(self) == *old(self),
                None => r is Ok && *final(self) == (UnstakeFreelyNft {
                    user_details: UserDetails {
                        freely_ticket_amount: 0,
                        is_freely_nft_staked: false,
                        freely_nft_type: 0,
                        ..old(self).user_details
                    },
                    ..*old(self)
                }),
            },
    {
        match check_access(&self.win, &self.bot_wallet) {
            Err(e) => return Err(e),
            Ok(()) => {},
        }
        if !self.user_details.is_freely_nft_staked {
            return Err(WinError::AccessDenied);
        }
        if in_lock_period(&self.user_details, &self.win, now) {
            return Err(WinError::NoUnstakeFreelyTicketNft);
        }
        self.user_details.freely_ticket_amount = 0;
        self.user_details.is_freely_nft_staked = false;
        self.user_details.freely_nft_type = 0;
        Ok(())
    }
}

/// The parties and records that creating a user profile reads.
#[derive(Clone, Copy, Debug)]
pub struct CreateUserDetailsByUser {
    pub user_wallet: Address,
    pub win: Win,
}

/// A fresh profile of `wallet` created at `now`.
pub open spec fn is_new_profile(u: UserDetails, wallet: Address, now: u32, bump: u8) -> bool {
    &&& u.user_wallet == wallet
    &&& u.win_airdrop_reward_amount == 0
    &&& u.win_game_reward_amount == 0
    &&& u.win_dao_reward_amount == 0
    &&& u.win_contributors_reward_amount == 0
    &&& u.win_last_reward_claimed_date == 0
    &&& u.freely_nft_staked_time == 0
    &&& u.freely_ticket_amount == 0
    &&& u.last_game_distribute_time == now
    &&& u.wings_locked_count == 0
    &&& u.freely_nft_type == 0
    &&& !u.is_freely_nft_staked
    &&& u.bump == bump
    &&& u.freely_nft_mint_address@ == Address::zero_spec()
}

impl CreateUserDetailsByUser {
    /// Creates a user's profile at `now`, with nothing accrued or staked.
    pub fn process(&self, bump: u8, now: u32) -> (r: Result<UserDetails, WinError>)
        ensures
            self.win.is_emergency_flag ==> r == Err::<UserDetails, WinError>(WinError::EmergencyStatus),
            !self.win.is_emergency_flag ==> (r matches Ok(u) && is_new_profile(u, self.user_wallet, now, bump)),
    {
        if self.win.is_emergency_flag {
            return Err(WinError::EmergencyStatus);
        }
        Ok(UserDetails {
            user_wallet: self.user_wallet,
            win_airdrop_reward_amount: 0,
            win_game_reward_amount: 0,
            win_dao_reward_amount: 0,
            win_contributors_reward_amount: 0,
            win_last_reward_claimed_date: 0,
            freely_nft_staked_time: 0,
            freely_ticket_amount: 0,
            last_game_distribute_time: now,
            wings_locked_count: 0,
            freely_nft_type: 0,
            is_freely_nft_staked: false,
            bump,
            freely_nft_mint_address: Address::zero(),
        })
    }
}

} // verus!
