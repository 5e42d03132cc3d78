use vstd::prelude::*;

use crate::address::Address;
use crate::error::WinError;

verus! {

/// Seconds in one day; freely lock periods are counted in days.
pub const SECONDS_PER_DAY: u32 = 86400;

/// The asset in which a game's tickets are paid.
#[derive(Clone, Copy, Debug, PartialEq, Eq, Structural)]
pub enum CoinType {
    SOL,
    TOKEN,
}

/// Settlement status of a game, and refund status of a bid ledger.
#[derive(Clone, Copy, Debug, PartialEq, Eq, Structural)]
pub enum FundsStatus {
    NotClaimed,
    Withdrawed,
    Retransfer,
}

/// Which accrued reward balance of a user an operation touches.
#[derive(Clone, Copy, Debug, PartialEq, Eq, Structural)]
pub enum RewardType {
    ClaimAirdrop,
    GameRewardAirdrop,
    DaoAirdrop,
    ContributorsAirdrop,
}

/// The treasury vaults of the back office.
#[derive(Clone, Copy, Debug, PartialEq, Eq, Structural)]
pub enum PdaType {
    Contributors,
    Airdrop,
    Dao,
    Pte,
}

/// Prize tier of a game; a higher tier discounts the settlement fee.
#[derive(Clone, Copy, Debug, PartialEq, Eq, Structural)]
pub enum WingsType {
    NoWings,
    Gold,
    Silver,
    Bronze,
}

/// The global configuration: role principals, fee rate, emergency flag,
/// bonus-ticket thresholds, freely categories and allow-list roots.
#[derive(Clone, Copy, Debug)]
pub struct Win {
    pub admin_wallet: Address,
    pub bot_wallet: Address,
    pub dev_wallet: Address,
    pub fund_wallet: Address,
    pub win_mint_address: Address,
    pub wings_creator: Address,
    /// Native spend of one ledger that provisions its bonus pool.
    pub sol_amount_for_bonus_tickets: u64,
    /// Ticket count of one ledger that provisions its bonus pool (fungible games).
    pub token_amount_for_bonus_tickets: u32,
    /// Size of a freshly provisioned bonus pool.
    pub game_bonus_ticket_amount: u32,
    /// Fee rate, in ten-thousandths before the tier multiplier.
    pub community_fee: u16,
    pub freely_ticket_nft_creators: [Address; 3],
    pub freely_ticket_amount: [u32; 3],
    /// Lock period of each freely category, in days.
    pub freely_ticket_nft_staking_lock_period: [u8; 3],
    pub is_emergency_flag: bool,
    pub bump: u8,
    pub organizer_whitelist_merkle_root: [u8; 32],
    pub holder_whitelist_merkle_root: [u8; 32],
}

/// One participant's profile: accrued rewards and the freely stake.
#[derive(Clone, Copy, Debug)]
pub struct UserDetails {
    pub user_wallet: Address,
    pub win_airdrop_reward_amount: u64,
    pub win_game_reward_amount: u64,
    pub win_dao_reward_amount: u64,
    pub win_contributors_reward_amount: u64,
    pub win_last_reward_claimed_date: u32,
    pub freely_nft_staked_time: u32,
    /// Remaining freely allowance of bonus tickets.
    pub freely_ticket_amount: u32,
    pub last_game_distribute_time: u32,
    pub wings_locked_count: u16,
    /// Freely category of the staked token (an index below 3).
    pub freely_nft_type: u8,
    pub is_freely_nft_staked: bool,
    pub bump: u8,
    pub freely_nft_mint_address: Address,
}

/// A game: its owner, price, funding threshold, schedule, running totals,
/// settlement status, prize tier and prize tokens.
#[derive(Clone, Copy, Debug)]
pub struct Game {
    pub nft_owner_wallet: Address,
    pub ticket_token_address: Address,
    pub ticket_price: u64,
    pub minimum_cost: u64,
    pub opened_timestamp: u32,
    pub duration: u32,
    pub current_total_tickets: u32,
    pub current_total_bonus_tickets: u32,
    pub coin_type: CoinType,
    /// Set once the prizes have gone back to the organizer or to a new game.
    pub is_nft_unstaked: bool,
    pub funds_status: FundsStatus,
    pub wings_type: WingsType,
    pub bump: u8,
    pub wings_nft_mint_address: Address,
    pub winner_nft_count: [u8; 5],
    /// The externally supplied draw seed.
    pub winner_random_number: [u32; 6],
    /// Identifiers of the staked prize tokens.
    pub nft_mint_address: [Address; 5],
}

/// A bid record. The record with sequence number 1 is the user's global
/// ledger for one game (aggregate tickets, shared bonus pool, bid count,
/// refund and claim flags); later records hold one bid transaction each.
#[derive(Clone, Copy, Debug)]
pub struct UserBid {
    pub user_wallet: Address,
    pub game_pda_address: Address,
    pub opened_timestamp: u32,
    /// Aggregate tickets bought over all bids (global ledger only).
    pub gbl_total_ticket_amount: u32,
    /// Tickets bought in this transaction.
    pub bought_ticket_amount: u32,
    /// Remaining shared bonus pool (global ledger only).
    pub gbl_bonus_ticket_amount: u32,
    /// Bonus tickets taken from the shared pool in this transaction.
    pub bonus_ticket_amount: u32,
    /// Bonus tickets taken from the freely allowance in this transaction.
    pub freely_ticket_amount: u32,
    /// Number of bid transactions so far (global ledger only).
    pub total_bid_number: u8,
    pub bid_number: u8,
    pub funds_status: FundsStatus,
    pub winner_nft_claim: bool,
    /// Whether the shared pool has been provisioned (global ledger only).
    pub gbl_has_distirbuted_bonus: bool,
    pub bump: u8,
}

/// Records that an organizer's prize-category token is held in custody.
#[derive(Clone, Copy, Debug)]
pub struct UserWingsNftLocked {
    pub user_wallet: Address,
    pub wings_nft_mint: Address,
}

/// A game's status as derived from its schedule and funding at a given time.
#[derive(Clone, Copy, Debug, PartialEq, Eq, Structural)]
pub enum GameStatus {
    /// Bidding is possible: `now < deadline`.
    Open,
    /// The single instant `now == deadline`: neither open nor resolved.
    AtDeadline,
    /// Past the deadline with the funding threshold reached.
    Succeeded,
    /// Past the deadline with the funding threshold missed.
    Cancelled,
}

impl Game {
    /// End of the bidding window.
    pub open spec fn deadline(&self) -> int {
        self.opened_timestamp + self.duration
    }

    /// Everything sold so far, in the ticket asset.
    pub open spec fn total_earn(&self) -> int {
        self.ticket_price * self.current_total_tickets
    }

    /// Well-formedness: the takings `ticketsSold * ticketPrice` fit a `u64`.
    pub open spec fn wf(&self) -> bool {
        self.total_earn() <= u64::MAX
    }

    /// The derived status at `now`; the error when the deadline or the
    /// takings do not fit their machine types.
    pub open spec fn status_at(&self, now: u32) -> Result<GameStatus, WinError> {
        if self.deadline() > u32::MAX {
            Err(WinError::NumericalOverflow)
        } else if now < self.deadline() {
            Ok(GameStatus::Open)
        } else if now == self.deadline() {
            Ok(GameStatus::AtDeadline)
        } else if self.total_earn() > u64::MAX {
            Err(WinError::NumericalOverflow)
        } else if self.total_earn() >= self.minimum_cost {
            Ok(GameStatus::Succeeded)
        } else {
            Ok(GameStatus::Cancelled)
        }
    }

    /// The takings, computed wide and narrowed with a check.
    pub fn checked_total_earn(&self) -> (r: Result<u64, WinError>)
        ensures
            match r {
                Ok(v) => v == self.total_earn(),
                Err(e) => e == WinError::NumericalOverflow && self.total_earn() > u64::MAX,
            },
    {
        checked_product(self.ticket_price, self.current_total_tickets)
    }

    /// Whether bidding is open at `now`.
    pub fn verify_game_time(&self, now: u32) -> (r: bool)
        ensures
            r == (self.status_at(now) == Ok::<GameStatus, WinError>(GameStatus::Open)),
    {
        let end = self.opened_timestamp as u64 + self.duration as u64;
        end <= u32::MAX as u64 && (now as u64) < end
    }

    /// The derived status at `now`.
    pub fn status(&self, now: u32) -> (r: Result<GameStatus, WinError>)
        ensures
            r == self.status_at(now),
    {
        let end = self.opened_timestamp as u64 + self.duration as u64;
        if end > u32::MAX as u64 {
            return Err(WinError::NumericalOverflow);
        }
        if (now as u64) < end {
            return Ok(GameStatus::Open);
        }
        if now as u64 == end {
            return Ok(GameStatus::AtDeadline);
        }
        match self.checked_total_earn() {
            Err(e) => Err(e),
            Ok(earn) => {
                if earn >= self.minimum_cost {
                    Ok(GameStatus::Succeeded)
                } else {
                    Ok(GameStatus::Cancelled)
                }
            },
        }
    }

    /// Slot `i` holds a declared prize: unused slots hold the all-zero identity.
    pub open spec fn slot_declared(&self, i: int) -> bool {
        self.nft_mint_address[i]@ != Address::zero_spec()
    }

    /// `mint` is one of the game's declared prize tokens.
    pub open spec fn is_declared_prize(&self, mint: Address) -> bool {
        exists|i: int| 0 <= i < 5 && self.slot_declared(i) && #[trigger] self.nft_mint_address[i]@ == mint@
    }

    /// The declared prize tokens among the first `n` slots, in slot order.
    pub open spec fn declared_prizes_upto(&self, n: int) -> Seq<Address>
        decreases n,
    {
        if n <= 0 {
            Seq::empty()
        } else if self.slot_declared(n - 1) {
            self.declared_prizes_upto(n - 1).push(self.nft_mint_address[n - 1])
        } else {
            self.declared_prizes_upto(n - 1)
        }
    }

    /// The game's declared prize tokens, in slot order.
    pub open spec fn declared_prizes(&self) -> Seq<Address> {
        self.declared_prizes_upto(5)
    }

    /// Whether `mint` is one of the game's declared prize tokens.
    pub fn has_prize(&self, mint: &Address) -> (r: bool)
        ensures
            r == self.is_declared_prize(*mint),
    {
        let mut i: usize = 0;
        while i < 5
            invariant
                0 <= i <= 5,
                forall|j: int| 0 <= j < i ==> !(self.slot_declared(j) && #[trigger] self.nft_mint_address[j]@ == mint@),
            decreases 5 - i,
        {
            if !self.nft_mint_address[i].is_zero() && self.nft_mint_address[i].same(mint) {
                assert(self.slot_declared(i as int) && self.nft_mint_address[i as int]@ == mint@);
                return true;
            }
            i = i + 1;
        }
        false
    }

    /// The game's declared prize tokens, in slot order.
    pub fn prize_mints(&self) -> (r: Vec<Address>)
        ensures
            r@ == self.declared_prizes(),
    {
        let mut r: Vec<Address> = Vec::new();
        let mut i: usize = 0;
        while i < 5
            invariant
                0 <= i <= 5,
                r@ == self.declared_prizes_upto(i as int),
            decreases 5 - i,
        {
            if !self.nft_mint_address[i].is_zero() {
                r.push(self.nft_mint_address[i]);
            }
            i = i + 1;
        }
        r
    }
}

/// `a * b` as a `u64`, or `NumericalOverflow` when it does not fit.
pub fn checked_product(a: u64, b: u32) -> (r: Result<u64, WinError>)
    ensures
        match r {
            Ok(v) => v == a * b,
            Err(e) => e == WinError::NumericalOverflow && a * b > u64::MAX,
        },
{
    assert((a as u128) * (b as u128) <= u64::MAX * u32::MAX) by (nonlinear_arith);
    let wide: u128 = (a as u128) * (b as u128);
    if wide > u64::MAX as u128 {
        Err(WinError::NumericalOverflow)
    } else {
        Ok(wide as u64)
    }
}

/// The refusal shared by every operation run through the bot principal:
/// the emergency flag first, then the bot's identity.
pub open spec fn access_error(win: Win, bot: Address) -> Option<WinError> {
    if win.is_emergency_flag {
        Some(WinError::EmergencyStatus)
    } else if bot@ != win.bot_wallet@ {
        Some(WinError::AccessDenied)
    } else {
        None
    }
}

/// Checks the emergency flag and the bot principal.
pub fn check_access(win: &Win, bot: &Address) -> (r: Result<(), WinError>)
    ensures
        match access_error(*win, *bot) {
            Some(e) => r == Err::<(), WinError>(e),
            None => r is Ok,
        },
{
    if win.is_emergency_flag {
        Err(WinError::EmergencyStatus)
    } else if !bot.same(&win.bot_wallet) {
        Err(WinError::AccessDenied)
    } else {
        Ok(())
    }
}

} // verus!
