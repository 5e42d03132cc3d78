use vstd::prelude::*;

use crate::address::Address;
use crate::bid::{first_bid_outcome, next_bid_outcome};
use crate::error::WinError;
use crate::fees::FeeSplit;
use crate::organizer::{
    settle_outcome, EndGame, EndGameArgs, OrganizerGetBackNft, PrizeReturnAccounts, RecreateGame, RecreateGameArgs,
};
use crate::state::{access_error, CoinType, FundsStatus, Game, GameStatus, UserBid, UserDetails, Win};
use crate::user::{refund_outcome, WinnerClaimNft};

verus! {

/// A refund succeeds at most once per ledger: once a ledger has been
/// refunded, every later refund from it fails with `ClaimedAlready`, whatever
/// the configuration, caller, game, asset, balance or time.
pub proof fn lemma_refund_at_most_once(
    win: Win,
    bot: Address,
    user: Address,
    receiver: Address,
    global: UserBid,
    game: Game,
    coin: CoinType,
    balance: u64,
    now: u32,
    later_win: Win,
    later_bot: Address,
    later_user: Address,
    later_receiver: Address,
    later_game: Game,
    later_coin: CoinType,
    later_balance: u64,
    later_now: u32,
)
    requires
        refund_outcome(win, bot, user, receiver, global, game, coin, balance, now) is Ok,
    ensures
        global.gbl_total_ticket_amount > 0,
        refund_outcome(
            later_win,
            later_bot,
            later_user,
            later_receiver,
            UserBid { funds_status: FundsStatus::Withdrawed, ..global },
            later_game,
            later_coin,
            later_balance,
            later_now,
        ) == Err::<u64, WinError>(WinError::ClaimedAlready),
{
}

/// A prize claim succeeds at most once per ledger: once a ledger has
/// claimed, every later claim with it fails with `NftAlreadyClaimed`, for any
/// prize id, configuration or time.
pub proof fn lemma_claim_at_most_once(first: WinnerClaimNft, now: u32, later: WinnerClaimNft, later_now: u32)
    requires
        first.claim_error(now) is None,
        later.user_global_bid == (UserBid { winner_nft_claim: true, ..first.user_global_bid }),
    ensures
        later.claim_error(later_now) == Some(WinError::NftAlreadyClaimed),
{
}

/// Settlement succeeds at most once per game: once settled, the game refuses
/// every later settlement with `ClaimedAlready`.
pub proof fn lemma_settle_at_most_once(
    win: Win,
    bot: Address,
    organizer: Address,
    game: Game,
    coin: CoinType,
    balance: u64,
    now: u32,
    later_win: Win,
    later_bot: Address,
    later_organizer: Address,
    later_coin: CoinType,
    later_balance: u64,
    later_now: u32,
)
    requires
        settle_outcome(win, bot, organizer, game, coin, balance, now) is Ok,
    ensures
        settle_outcome(
            later_win,
            later_bot,
            later_organizer,
            Game { funds_status: FundsStatus::Withdrawed, ..game },
            later_coin,
            later_balance,
            later_now,
        ) == Err::<FeeSplit, WinError>(WinError::ClaimedAlready),
{
}

/// At the single instant `now == deadline` a game is neither open nor
/// resolved.
pub proof fn lemma_deadline_instant_status(game: Game, now: u32)
    requires
        game.deadline() == now,
    ensures
        game.status_at(now) == Ok::<GameStatus, WinError>(GameStatus::AtDeadline),
{
}

/// At the instant `now == deadline` no bid is accepted, first or later; past
/// the sequence check, the emergency flag, the bot check and the asset check,
/// the refusal is `GameIsNotOpenedStatus`.
pub proof fn lemma_deadline_instant_no_bid(
    win: Win,
    bot: Address,
    coin: CoinType,
    game: Game,
    user: UserDetails,
    global: UserBid,
    wallet: Address,
    game_key: Address,
    tickets: u32,
    bonus: u32,
    seed: [u32; 6],
    bid_number: u8,
    balance: u64,
    now: u32,
    bump: u8,
)
    requires
        game.deadline() == now,
    ensures
        first_bid_outcome(win, bot, coin, game, user, wallet, game_key, tickets, bonus, seed, balance, now, bump) is Err,
        next_bid_outcome(win, bot, coin, game, user, global, wallet, game_key, tickets, bonus, seed, bid_number, balance, now) is Err,
        access_error(win, bot) is None && game.coin_type == coin ==> first_bid_outcome(
            win,
            bot,
            coin,
            game,
            user,
            wallet,
            game_key,
            tickets,
            bonus,
            seed,
            balance,
            now,
            bump,
        ) == Err::<(Game, UserDetails, UserBid, u64), WinError>(WinError::GameIsNotOpenedStatus),
        access_error(win, bot) is None && game.coin_type == coin && bid_number == global.total_bid_number + 1
            ==> next_bid_outcome(win, bot, coin, game, user, global, wallet, game_key, tickets, bonus, seed, bid_number, balance, now)
            == Err::<(Game, UserDetails, UserBid, UserBid, u64), WinError>(WinError::GameIsNotOpenedStatus),
{
}

/// At the instant `now == deadline` neither the success branch (settlement,
/// prize claims) nor the cancellation branch (refunds, prize return,
/// reopening) is reachable. Past the checks each operation makes first, the
/// refusal is the lifecycle one: `GameIsNotClosedStatus` for settlement and
/// claims, `GameIsNotCancelledStatus` for refunds, prize return and reopening.
pub proof fn lemma_deadline_instant_unresolved(
    win: Win,
    bot: Address,
    person: Address,
    receiver: Address,
    global: UserBid,
    game: Game,
    coin: CoinType,
    balance: u64,
    now: u32,
    claim: WinnerClaimNft,
    get_back: OrganizerGetBackNft,
    return_accounts: Seq<PrizeReturnAccounts>,
    recreate: RecreateGame,
    recreate_args: RecreateGameArgs,
)
    requires
        game.deadline() == now,
        claim.game == game,
        get_back.game == game,
        recreate.old_game == game,
    ensures
        settle_outcome(win, bot, person, game, coin, balance, now) is Err,
        refund_outcome(win, bot, person, receiver, global, game, coin, balance, now) is Err,
        claim.claim_error(now) is Some,
        get_back.get_back_error(now, return_accounts) is Some,
        recreate.recreate_error(recreate_args, now) is Some,
        ({
            &&& game.funds_status == FundsStatus::NotClaimed
            &&& access_error(win, bot) is None
            &&& game.nft_owner_wallet@ == person@
            &&& game.coin_type == coin
            &&& game.total_earn() <= balance
        }) ==> settle_outcome(win, bot, person, game, coin, balance, now) == Err::<FeeSplit, WinError>(
            WinError::GameIsNotClosedStatus,
        ),
        ({
            &&& global.funds_status == FundsStatus::NotClaimed
            &&& access_error(win, bot) is None
            &&& receiver@ == person@
            &&& game.coin_type == coin
        }) ==> refund_outcome(win, bot, person, receiver, global, game, coin, balance, now) == Err::<u64, WinError>(
            WinError::GameIsNotCancelledStatus,
        ),
        !claim.user_global_bid.winner_nft_claim && access_error(claim.win, claim.bot_wallet) is None
            ==> claim.claim_error(now) == Some(WinError::GameIsNotClosedStatus),
        ({
            &&& !game.is_nft_unstaked
            &&& access_error(get_back.win, get_back.bot_wallet) is None
            &&& game.nft_owner_wallet@ == get_back.organizer_wallet@
        }) ==> get_back.get_back_error(now, return_accounts) == Some(WinError::GameIsNotCancelledStatus),
{
}

/// Ending a game early guarantees its success: from the next instant on, the
/// game is past its deadline with its takings equal to its threshold. The
/// game stays well formed.
pub proof fn lemma_end_game_guarantees_success(accounts: EndGame, args: EndGameArgs, now: u32, later: u32)
    requires
        accounts.outcome(args, now) is Ok,
        later > now,
    ensures
        accounts.outcome(args, now)->Ok_0.status_at(later) == Ok::<GameStatus, WinError>(GameStatus::Succeeded),
        accounts.outcome(args, now)->Ok_0.wf(),
{
}

/// Bids keep a game well formed: no accepted bid, first or later, leaves
/// `ticketsSold * ticketPrice` past a `u64`.
pub proof fn lemma_bids_keep_game_wf(
    win: Win,
    bot: Address,
    coin: CoinType,
    game: Game,
    user: UserDetails,
    global: UserBid,
    wallet: Address,
    game_key: Address,
    tickets: u32,
    bonus: u32,
    seed: [u32; 6],
    bid_number: u8,
    balance: u64,
    now: u32,
    bump: u8,
)
    ensures
        first_bid_outcome(win, bot, coin, game, user, wallet, game_key, tickets, bonus, seed, balance, now, bump)
            matches Ok((g, _u, _l, _s)) ==> g.wf(),
        next_bid_outcome(win, bot, coin, game, user, global, wallet, game_key, tickets, bonus, seed, bid_number, balance, now)
            matches Ok((g, _u, _l, _r, _s)) ==> g.wf(),
{
}

} // verus!
