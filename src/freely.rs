use vstd::prelude::*;

use crate::state::{UserDetails, Win, SECONDS_PER_DAY};

verus! {

/// The lock period, in seconds, of a freely category (none for an unknown one).
pub open spec fn lock_period_secs(win: Win, category: u8) -> int {
    if category < 3 {
        win.freely_ticket_nft_staking_lock_period[category as int] * SECONDS_PER_DAY
    } else {
        0
    }
}

/// Time since the freely token was staked (none if the clock reads earlier).
pub open spec fn staked_elapsed(user: UserDetails, now: u32) -> int {
    if now >= user.freely_nft_staked_time {
        now - user.freely_nft_staked_time
    } else {
        0
    }
}

/// The stake is live and still inside its lock period.
pub open spec fn within_lock_period(user: UserDetails, win: Win, now: u32) -> bool {
    staked_elapsed(user, now) < lock_period_secs(win, user.freely_nft_type)
}

/// The freely allowance that a bid may draw on at `now`: the remaining
/// allowance while the stake is live and inside its lock period, else none.
pub open spec fn available_freely(user: UserDetails, win: Win, now: u32) -> int {
    if user.is_freely_nft_staked && within_lock_period(user, win, now) {
        user.freely_ticket_amount as int
    } else {
        0
    }
}

/// Whether the stake is still inside its lock period at `now`.
pub fn in_lock_period(user: &UserDetails, win: &Win, now: u32) -> (r: bool)
    ensures
        r == within_lock_period(*user, *win, now),
{
    let category = user.freely_nft_type;
    let period: u64 = if category < 3 {
        win.freely_ticket_nft_staking_lock_period[category as usize] as u64 * SECONDS_PER_DAY as u64
    } else {
        0
    };
    let elapsed: u64 = if now >= user.freely_nft_staked_time {
        (now - user.freely_nft_staked_time) as u64
    } else {
        0
    };
    elapsed < period
}

/// The freely allowance that a bid may draw on at `now`.
pub fn available_freely_tickets(user: &UserDetails, win: &Win, now: u32) -> (r: u32)
    ensures
        r == available_freely(*user, *win, now),
{
    if user.is_freely_nft_staked && in_lock_period(user, win, now) {
        user.freely_ticket_amount
    } else {
        0
    }
}

} // verus!
