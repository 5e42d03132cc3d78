use vstd::prelude::*;

use crate::address::Address;
use crate::error::WinError;
use crate::freely::{available_freely, available_freely_tickets};
use crate::state::{
    access_error, check_access, checked_product, CoinType, FundsStatus, Game, GameStatus, UserBid,
    UserDetails, Win,
};

verus! {

/// The refusal for a payer that cannot cover a bid, by asset.
pub open spec fn insufficient_balance_error(coin: CoinType) -> WinError {
    match coin {
        CoinType::SOL => WinError::InsufficientSolBalance,
        CoinType::TOKEN => WinError::InsufficientTokenBalance,
    }
}

/// A ledger whose aggregate spend is `spend` earns the shared bonus pool:
/// a native spend threshold, or a ticket-count threshold for fungible games.
pub open spec fn pool_provisioned(spend: int, win: Win, game: Game) -> bool {
    match game.coin_type {
        CoinType::SOL => spend >= win.sol_amount_for_bonus_tickets,
        CoinType::TOKEN => spend >= win.token_amount_for_bonus_tickets * game.ticket_price,
    }
}

/// The game after a bid of `tickets` bought and `bonus` free tickets.
pub open spec fn game_after_bid(game: Game, tickets: u32, bonus: u32, seed: [u32; 6]) -> Game {
    Game {
        current_total_tickets: (game.current_total_tickets + tickets) as u32,
        current_total_bonus_tickets: (game.current_total_bonus_tickets + bonus) as u32,
        winner_random_number: seed,
        ..game
    }
}

/// A bid would push the game's totals, or its takings, past their types.
pub open spec fn bid_totals_overflow(game: Game, tickets: u32, bonus: u32) -> bool {
    game.current_total_tickets + tickets > u32::MAX
        || game.current_total_bonus_tickets + bonus > u32::MAX
        || game.ticket_price * (game.current_total_tickets + tickets) > u64::MAX
}

/// The refusals that every bid checks first, in order.
pub open spec fn bid_entry_error(win: Win, bot: Address, coin: CoinType, game: Game, tickets: u32, bonus: u32, now: u32) -> Option<WinError> {
    if access_error(win, bot) is Some {
        access_error(win, bot)
    } else if game.coin_type != coin {
        Some(WinError::InvalidAccount)
    } else if game.status_at(now) != Ok::<GameStatus, WinError>(GameStatus::Open) {
        Some(WinError::GameIsNotOpenedStatus)
    } else if tickets + bonus > u32::MAX {
        Some(WinError::NumericalOverflow)
    } else if tickets + bonus == 0 {
        Some(WinError::NoTicketAmount)
    } else {
        None
    }
}

/// A user's first bid on a game: the new game, profile, global ledger and
/// the amount to pay, or the refusal. Bonus tickets of a first bid come from
/// the freely allowance alone, which is debited.
pub open spec fn first_bid_outcome(
    win: Win,
    bot: Address,
    coin: CoinType,
    game: Game,
    user: UserDetails,
    wallet: Address,
    game_key: Address,
    tickets: u32,
    bonus: u32,
    seed: [u32; 6],
    balance: u64,
    now: u32,
    bump: u8,
) -> Result<(Game, UserDetails, UserBid, u64), WinError> {
    let spend = game.ticket_price * tickets;
    let provisioned = pool_provisioned(spend, win, game);
    if bid_entry_error(win, bot, coin, game, tickets, bonus, now) is Some {
        Err(bid_entry_error(win, bot, coin, game, tickets, bonus, now)->0)
    } else if bonus > available_freely(user, win, now) {
        Err(WinError::InvalidBonusTicketAmount)
    } else if spend > u64::MAX {
        Err(WinError::NumericalOverflow)
    } else if balance < spend {
        Err(insufficient_balance_error(coin))
    } else if bid_totals_overflow(game, tickets, bonus) {
        Err(WinError::NumericalOverflow)
    } else {
        Ok((
            game_after_bid(game, tickets, bonus, seed),
            UserDetails { freely_ticket_amount: (user.freely_ticket_amount - bonus) as u32, ..user },
            UserBid {
                user_wallet: wallet,
                game_pda_address: game_key,
                opened_timestamp: now,
                gbl_total_ticket_amount: tickets,
                bought_ticket_amount: tickets,
                gbl_bonus_ticket_amount: if provisioned { win.game_bonus_ticket_amount } else { 0 },
                bonus_ticket_amount: 0,
                freely_ticket_amount: bonus,
                total_bid_number: 1,
                bid_number: 1,
                funds_status: FundsStatus::NotClaimed,
                winner_nft_claim: false,
                gbl_has_distirbuted_bonus: provisioned,
                bump,
            },
            spend as u64,
        ))
    }
}

/// What is left of a ledger's shared bonus pool.
pub open spec fn remaining_pool(ledger: UserBid) -> int {
    if ledger.gbl_has_distirbuted_bonus {
        ledger.gbl_bonus_ticket_amount as int
    } else {
        0
    }
}

/// Bonus tickets of a subsequent bid drawn from the shared pool: the pool
/// first, up to what is left of it.
pub open spec fn pool_draw(global: UserBid, bonus: u32) -> int {
    if bonus <= remaining_pool(global) {
        bonus as int
    } else {
        remaining_pool(global)
    }
}

/// A user's subsequent bid on a game: the new game, profile, global ledger,
/// the bid's own record and the amount to pay, or the refusal.
pub open spec fn next_bid_outcome(
    win: Win,
    bot: Address,
    coin: CoinType,
    game: Game,
    user: UserDetails,
    global: UserBid,
    wallet: Address,
    game_key: Address,
    tickets: u32,
    bonus: u32,
    seed: [u32; 6],
    bid_number: u8,
    balance: u64,
    now: u32,
) -> Result<(Game, UserDetails, UserBid, UserBid, u64), WinError> {
    let spend = game.ticket_price * tickets;
    let from_pool = pool_draw(global, bonus);
    let from_freely = bonus - from_pool;
    let aggregate = global.gbl_total_ticket_amount + tickets;
    let provision_now = !global.gbl_has_distirbuted_bonus && pool_provisioned(
        game.ticket_price * aggregate,
        win,
        game,
    );
    if bid_number != global.total_bid_number + 1 {
        Err(WinError::InvalidSequence)
    } else if bid_entry_error(win, bot, coin, game, tickets, bonus, now) is Some {
        Err(bid_entry_error(win, bot, coin, game, tickets, bonus, now)->0)
    } else if bonus > available_freely(user, win, now) + remaining_pool(global) {
        Err(WinError::InvalidBonusTicketAmount)
    } else if spend > u64::MAX {
        Err(WinError::NumericalOverflow)
    } else if balance < spend {
        Err(insufficient_balance_error(coin))
    } else if bid_totals_overflow(game, tickets, bonus) || aggregate > u32::MAX {
        Err(WinError::NumericalOverflow)
    } else {
        Ok((
            game_after_bid(game, tickets, bonus, seed),
            UserDetails { freely_ticket_amount: (user.freely_ticket_amount - from_freely) as u32, ..user },
            UserBid {
                gbl_total_ticket_amount: aggregate as u32,
                total_bid_number: bid_number,
                gbl_bonus_ticket_amount: if provision_now {
                    win.game_bonus_ticket_amount
                } else if global.gbl_has_distirbuted_bonus {
                    (global.gbl_bonus_ticket_amount - from_pool) as u32
                } else {
                    global.gbl_bonus_ticket_amount
                },
                gbl_has_distirbuted_bonus: global.gbl_has_distirbuted_bonus || provision_now,
                ..global
            },
            UserBid {
                user_wallet: wallet,
                game_pda_address: game_key,
                opened_timestamp: now,
                gbl_total_ticket_amount: 0,
                bought_ticket_amount: tickets,
                gbl_bonus_ticket_amount: 0,
                bonus_ticket_amount: from_pool as u32,
                freely_ticket_amount: from_freely as u32,
                total_bid_number: 0,
                bid_number,
                funds_status: FundsStatus::NotClaimed,
                winner_nft_claim: false,
                gbl_has_distirbuted_bonus: false,
                bump: 0,
            },
            spend as u64,
        ))
    }
}

fn insufficient_balance(coin: CoinType) -> (r: WinError)
    ensures
        r == insufficient_balance_error(coin),
{
    match coin {
        CoinType::SOL => WinError::InsufficientSolBalance,
        CoinType::TOKEN => WinError::InsufficientTokenBalance,
    }
}

/// Whether an aggregate spend earns the shared bonus pool.
pub fn provisions_pool(spend: u128, win: &Win, game: &Game) -> (r: bool)
    ensures
        r == pool_provisioned(spend as int, *win, *game),
{
    match game.coin_type {
        CoinType::SOL => spend >= win.sol_amount_for_bonus_tickets as u128,
        CoinType::TOKEN => {
            assert((win.token_amount_for_bonus_tickets as u128) * (game.ticket_price as u128) <= u32::MAX * u64::MAX)
                by (nonlinear_arith);
            spend >= (win.token_amount_for_bonus_tickets as u128) * (game.ticket_price as u128)
        },
    }
}

/// The refusals that every bid checks first.
fn check_bid_entry(win: &Win, bot: &Address, coin: CoinType, game: &Game, tickets: u32, bonus: u32, now: u32) -> (r: Result<(), WinError>)
    ensures
        match bid_entry_error(*win, *bot, coin, *game, tickets, bonus, now) {
            Some(e) => r == Err::<(), WinError>(e),
            None => r is Ok,
        },
{
    match check_access(win, bot) {
        Err(e) => return Err(e),
        Ok(()) => {},
    }
    if game.coin_type != coin {
        return Err(WinError::InvalidAccount);
    }
    if !game.verify_game_time(now) {
        return Err(WinError::GameIsNotOpenedStatus);
    }
    match tickets.checked_add(bonus) {
        None => Err(WinError::NumericalOverflow),
        Some(0) => Err(WinError::NoTicketAmount),
        Some(_) => Ok(()),
    }
}

/// The game's totals after a bid, or `NumericalOverflow`.
fn game_totals_after_bid(game: &Game, tickets: u32, bonus: u32, seed: [u32; 6]) -> (r: Result<Game, WinError>)
    ensures
        bid_totals_overflow(*game, tickets, bonus) ==> r == Err::<Game, WinError>(WinError::NumericalOverflow),
        !bid_totals_overflow(*game, tickets, bonus) ==> r == Ok::<Game, WinError>(game_after_bid(*game, tickets, bonus, seed)),
{
    let total_tickets = match game.current_total_tickets.checked_add(tickets) {
        Some(v) => v,
        None => return Err(WinError::NumericalOverflow),
    };
    let total_bonus = match game.current_total_bonus_tickets.checked_add(bonus) {
        Some(v) => v,
        None => return Err(WinError::NumericalOverflow),
    };
    match checked_product(game.ticket_price, total_tickets) {
        Err(e) => return Err(e),
        Ok(_) => {},
    }
    Ok(Game {
        current_total_tickets: total_tickets,
        current_total_bonus_tickets: total_bonus,
        winner_random_number: seed,
        ..*game
    })
}

/// A user's first bid on a game (see `first_bid_outcome`).
pub fn first_bid(
    win: &Win,
    bot: &Address,
    coin: CoinType,
    game: &Game,
    user: &UserDetails,
    wallet: &Address,
    game_key: &Address,
    tickets: u32,
    bonus: u32,
    seed: [u32; 6],
    balance: u64,
    now: u32,
    bump: u8,
) -> (r: Result<(Game, UserDetails, UserBid, u64), WinError>)
    ensures
        r == first_bid_outcome(*win, *bot, coin, *game, *user, *wallet, *game_key, tickets, bonus, seed, balance, now, bump),
{
    match check_bid_entry(win, bot, coin, game, tickets, bonus, now) {
        Err(e) => return Err(e),
        Ok(()) => {},
    }
    let available = available_freely_tickets(user, win, now);
    if bonus > available {
        return Err(WinError::InvalidBonusTicketAmount);
    }
    let spend = match checked_product(game.ticket_price, tickets) {
        Ok(v) => v,
        Err(e) => return Err(e),
    };
    if balance < spend {
        return Err(insufficient_balance(coin));
    }
    let new_game = match game_totals_after_bid(game, tickets, bonus, seed) {
        Ok(g) => g,
        Err(e) => return Err(e),
    };
    let provisioned = provisions_pool(spend as u128, win, game);
    let new_user = UserDetails { freely_ticket_amount: user.freely_ticket_amount - bonus, ..*user };
    let ledger = UserBid {
        user_wallet: *wallet,
        game_pda_address: *game_key,
        opened_timestamp: now,
        gbl_total_ticket_amount: tickets,
        bought_ticket_amount: tickets,
        gbl_bonus_ticket_amount: if provisioned { win.game_bonus_ticket_amount } else { 0 },
        bonus_ticket_amount: 0,
        freely_ticket_amount: bonus,
        total_bid_number: 1,
        bid_number: 1,
        funds_status: FundsStatus::NotClaimed,
        winner_nft_claim: false,
        gbl_has_distirbuted_bonus: provisioned,
        bump,
    };
    Ok((new_game, new_user, ledger, spend))
}

/// A user's subsequent bid on a game (see `next_bid_outcome`).
pub fn next_bid(
    win: &Win,
    bot: &Address,
    coin: CoinType,
    game: &Game,
    user: &UserDetails,
    global: &UserBid,
    wallet: &Address,
    game_key: &Address,
    tickets: u32,
    bonus: u32,
    seed: [u32; 6],
    bid_number: u8,
    balance: u64,
    now: u32,
) -> (r: Result<(Game, UserDetails, UserBid, UserBid, u64), WinError>)
    ensures
        r == next_bid_outcome(*win, *bot, coin, *game, *user, *global, *wallet, *game_key, tickets, bonus, seed, bid_number, balance, now),
{
    if bid_number as u16 != global.total_bid_number as u16 + 1 {
        return Err(WinError::InvalidSequence);
    }
    match check_bid_entry(win, bot, coin, game, tickets, bonus, now) {
        Err(e) => return Err(e),
        Ok(()) => {},
    }
    let available = available_freely_tickets(user, win, now);
    let pool: u32 = if global.gbl_has_distirbuted_bonus { global.gbl_bonus_ticket_amount } else { 0 };
    if bonus as u64 > available as u64 + pool as u64 {
        return Err(WinError::InvalidBonusTicketAmount);
    }
    let spend = match checked_product(game.ticket_price, tickets) {
        Ok(v) => v,
        Err(e) => return Err(e),
    };
    if balance < spend {
        return Err(insufficient_balance(coin));
    }
    let new_game = match game_totals_after_bid(game, tickets, bonus, seed) {
        Ok(g) => g,
        Err(e) => return Err(e),
    };
    let aggregate = match global.gbl_total_ticket_amount.checked_add(tickets) {
        Some(v) => v,
        None => return Err(WinError::NumericalOverflow),
    };
    let from_pool: u32 = if bonus <= pool { bonus } else { pool };
    let from_freely: u32 = bonus - from_pool;
    assert((aggregate as u128) * (game.ticket_price as u128) <= u32::MAX * u64::MAX) by (nonlinear_arith);
    let provision_now = !global.gbl_has_distirbuted_bonus && provisions_pool(
        (game.ticket_price as u128) * (aggregate as u128),
        win,
        game,
    );
    let pool_after: u32 = if provision_now {
        win.game_bonus_ticket_amount
    } else if global.gbl_has_distirbuted_bonus {
        global.gbl_bonus_ticket_amount - from_pool
    } else {
        global.gbl_bonus_ticket_amount
    };
    let new_user = UserDetails { freely_ticket_amount: user.freely_ticket_amount - from_freely, ..*user };
    let new_global = UserBid {
        gbl_total_ticket_amount: aggregate,
        total_bid_number: bid_number,
        gbl_bonus_ticket_amount: pool_after,
        gbl_has_distirbuted_bonus: global.gbl_has_distirbuted_bonus || provision_now,
        ..*global
    };
    let record = UserBid {
        user_wallet: *wallet,
        game_pda_address: *game_key,
        opened_timestamp: now,
        gbl_total_ticket_amount: 0,
        bought_ticket_amount: tickets,
        gbl_bonus_ticket_amount: 0,
        bonus_ticket_amount: from_pool,
        freely_ticket_amount: from_freely,
        total_bid_number: 0,
        bid_number,
        funds_status: FundsStatus::NotClaimed,
        winner_nft_claim: false,
        gbl_has_distirbuted_bonus: false,
        bump: 0,
    };
    Ok((new_game, new_user, new_global, record, spend))
}

/// Bonus tickets granted to a ledger's shared pool by one bid: the configured
/// grant when the bid provisions the pool, else none.
pub open spec fn pool_grant(before: UserBid, after: UserBid, grant: u32) -> int {
    if !before.gbl_has_distirbuted_bonus && after.gbl_has_distirbuted_bonus {
        grant as int
    } else {
        0
    }
}

/// How one subsequent bid moves a ledger's shared pool: what its record took
/// from the pool plus what is left equals what was left plus what was granted;
/// a provisioned pool stays provisioned.
pub open spec fn pool_step(before: UserBid, record: UserBid, after: UserBid, grant: u32) -> bool {
    &&& remaining_pool(after) + record.bonus_ticket_amount == remaining_pool(before) + pool_grant(before, after, grant)
    &&& (before.gbl_has_distirbuted_bonus ==> after.gbl_has_distirbuted_bonus)
}

/// Bonus tickets that a run of bid records took from the shared pool.
pub open spec fn sum_pool_draws(records: Seq<UserBid>) -> int
    decreases records.len(),
{
    if records.len() == 0 {
        0
    } else {
        sum_pool_draws(records.drop_last()) + records.last().bonus_ticket_amount
    }
}

/// Bonus tickets granted to the pool over a run of bids.
pub open spec fn sum_pool_grants(ledgers: Seq<UserBid>, grants: Seq<u32>) -> int
    decreases grants.len(),
{
    if grants.len() == 0 {
        0
    } else {
        sum_pool_grants(ledgers.drop_last(), grants.drop_last())
            + pool_grant(ledgers[grants.len() - 1], ledgers[grants.len() as int], grants.last())
    }
}

/// Every subsequent bid moves the pool as `pool_step` says.
pub proof fn lemma_next_bid_pool_step(
    win: Win,
    bot: Address,
    coin: CoinType,
    game: Game,
    user: UserDetails,
    global: UserBid,
    wallet: Address,
    game_key: Address,
    tickets: u32,
    bonus: u32,
    seed: [u32; 6],
    bid_number: u8,
    balance: u64,
    now: u32,
)
    ensures
        next_bid_outcome(win, bot, coin, game, user, global, wallet, game_key, tickets, bonus, seed, bid_number, balance, now)
            matches Ok((_g, _u, after, record, _spend))
            ==> pool_step(global, record, after, win.game_bonus_ticket_amount),
{
}

/// Conservation of the shared bonus pool: over any run of subsequent bids on
/// one ledger, the bonus tickets that the records took from the pool plus
/// what is left of it equal everything ever provisioned to it (at the first
/// bid and since), so the draws never exceed the provisioning. A pool that
/// was provisioned at the start receives nothing more.
pub proof fn lemma_bonus_pool_conservation(ledgers: Seq<UserBid>, records: Seq<UserBid>, grants: Seq<u32>)
    requires
        ledgers.len() == records.len() + 1,
        grants.len() == records.len(),
        forall|i: int| 0 <= i < records.len() ==> #[trigger] pool_step(ledgers[i], records[i], ledgers[i + 1], grants[i]),
    ensures
        sum_pool_draws(records) + remaining_pool(ledgers.last()) == remaining_pool(ledgers[0]) + sum_pool_grants(ledgers, grants),
        ledgers[0].gbl_has_distirbuted_bonus ==> sum_pool_grants(ledgers, grants) == 0,
    decreases records.len(),
{
    if records.len() > 0 {
        let n = records.len() - 1;
        let l2 = ledgers.drop_last();
        let r2 = records.drop_last();
        let g2 = grants.drop_last();
        assert forall|i: int| 0 <= i < r2.len() implies #[trigger] pool_step(l2[i], r2[i], l2[i + 1], g2[i]) by {
            assert(pool_step(ledgers[i], records[i], ledgers[i + 1], grants[i]));
        }
        lemma_bonus_pool_conservation(l2, r2, g2);
        assert(pool_step(ledgers[n], records[n], ledgers[n + 1], grants[n]));
        assert(l2.last() == ledgers[n]);
        if ledgers[0].gbl_has_distirbuted_bonus {
            lemma_provisioned_stays(ledgers, records, grants, n);
        }
    }
}

proof fn lemma_provisioned_stays(ledgers: Seq<UserBid>, records: Seq<UserBid>, grants: Seq<u32>, k: int)
    requires
        ledgers.len() == records.len() + 1,
        grants.len() == records.len(),
        forall|i: int| 0 <= i < records.len() ==> #[trigger] pool_step(ledgers[i], records[i], ledgers[i + 1], grants[i]),
        ledgers[0].gbl_has_distirbuted_bonus,
        0 <= k <= records.len(),
    ensures
        ledgers[k].gbl_has_distirbuted_bonus,
    decreases k,
{
    if k > 0 {
        lemma_provisioned_stays(ledgers, records, grants, k - 1);
        let j = k - 1;
        assert(pool_step(ledgers[j], records[j], ledgers[j + 1], grants[j]));
    }
}

/// Sequencing: a subsequent bid whose sequence number is not the ledger's bid
/// count plus one always fails with `InvalidSequence`, whatever its ticket
/// amounts and whatever else holds.
pub proof fn lemma_sequence_enforced(
    win: Win,
    bot: Address,
    coin: CoinType,
    game: Game,
    user: UserDetails,
    global: UserBid,
    wallet: Address,
    game_key: Address,
    tickets: u32,
    bonus: u32,
    seed: [u32; 6],
    bid_number: u8,
    balance: u64,
    now: u32,
)
    requires
        bid_number != global.total_bid_number + 1,
    ensures
        next_bid_outcome(win, bot, coin, game, user, global, wallet, game_key, tickets, bonus, seed, bid_number, balance, now)
            == Err::<(Game, UserDetails, UserBid, UserBid, u64), WinError>(WinError::InvalidSequence),
{
}

} // verus!
