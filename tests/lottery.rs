use anchor_lang::solana_program::pubkey::Pubkey;

use winto::address::Address;
use winto::ata::AccountData;
use winto::error::WinError;
use winto::fees::FeeSplit;
use winto::organizer::{
    CreateGame, CreateGameArgs, EndGame, EndGameArgs, OrganizerGetBackNft, OrganizerProcessGameSol,
    OrganizerProcessGameToken, PrizeAccounts, PrizeReturnAccounts, RecreateGame, RecreateGameArgs,
};
use winto::state::{CoinType, FundsStatus, Game, GameStatus, UserBid, UserDetails, Win, WingsType};
use winto::user::{
    CreateUserGlobalBidPdaSol, CreateUserGlobalBidPdaSolArgs, CreateUserGlobalBidPdaToken,
    CreateUserGlobalBidPdaTokenArgs, UserGameBidSol, UserGameBidSolArgs, UserWithdrawFundsSol,
    UserWithdrawFundsToken, WinnerClaimNft,
};

const START: u32 = 1_000_000;
const DURATION: u32 = 3_600;
const DEADLINE: u32 = START + DURATION;

fn addr(n: u8) -> Address {
    Address::new([n; 32])
}

fn bot() -> Address {
    addr(200)
}

fn organizer() -> Address {
    addr(10)
}

fn config() -> Win {
    Win {
        admin_wallet: addr(201),
        bot_wallet: bot(),
        dev_wallet: addr(202),
        fund_wallet: addr(203),
        win_mint_address: addr(204),
        wings_creator: addr(205),
        sol_amount_for_bonus_tickets: 1_000,
        token_amount_for_bonus_tickets: 10,
        game_bonus_ticket_amount: 4,
        community_fee: 100,
        freely_ticket_nft_creators: [addr(211), addr(212), addr(213)],
        freely_ticket_amount: [5, 7, 9],
        freely_ticket_nft_staking_lock_period: [30, 30, 30],
        is_emergency_flag: false,
        bump: 1,
        organizer_whitelist_merkle_root: [0; 32],
        holder_whitelist_merkle_root: [0; 32],
    }
}

fn profile(wallet: Address) -> UserDetails {
    UserDetails {
        user_wallet: wallet,
        win_airdrop_reward_amount: 0,
        win_game_reward_amount: 0,
        win_dao_reward_amount: 0,
        win_contributors_reward_amount: 0,
        win_last_reward_claimed_date: 0,
        freely_nft_staked_time: 0,
        freely_ticket_amount: 0,
        last_game_distribute_time: 0,
        wings_locked_count: 0,
        freely_nft_type: 0,
        is_freely_nft_staked: false,
        bump: 0,
        freely_nft_mint_address: addr(0),
    }
}

fn pool() -> Address {
    addr(199)
}

/// An initialized associated token account of `wallet` for `mint`.
fn token_account(wallet: &Address, mint: &Address) -> AccountData {
    let key = anchor_spl::associated_token::get_associated_token_address(
        &Pubkey::new_from_array(wallet.bytes),
        &Pubkey::new_from_array(mint.bytes),
    );
    let mut data = vec![0u8; 165];
    data[0..32].copy_from_slice(&mint.bytes);
    data[32..64].copy_from_slice(&wallet.bytes);
    data[108] = 1;
    AccountData { key: Address::new(key.to_bytes()), owner: Address::new(anchor_spl::token::ID.to_bytes()), data }
}

fn prize(mint: Address) -> PrizeAccounts {
    PrizeAccounts { organizer_ata: token_account(&organizer(), &mint), pool_ata: token_account(&pool(), &mint), mint }
}

fn prizes() -> Vec<PrizeAccounts> {
    vec![prize(addr(101)), prize(addr(102))]
}

fn prize_returns() -> Vec<PrizeReturnAccounts> {
    [addr(101), addr(102)]
        .iter()
        .map(|m| PrizeReturnAccounts { organizer_ata: token_account(&organizer(), m), pool_ata: token_account(&pool(), m) })
        .collect()
}

fn creator(user_details: UserDetails, win: Win, bot_wallet: Address) -> CreateGame {
    CreateGame { organizer_wallet: organizer(), bot_wallet, nft_pool: pool(), win, user_details }
}

fn new_game(coin: CoinType, wings: WingsType, price: u64, minimum: u64) -> Game {
    let accounts = creator(profile(organizer()), config(), bot());
    let args = CreateGameArgs {
        ticket_token_address: addr(150),
        ticket_price: price,
        minimum_cost: minimum,
        proof: vec![],
        game_time_stamp: START,
        duration: DURATION,
        coin_type: coin,
        wings_type: wings,
        wings_nft_mint_address: addr(151),
    };
    accounts.process(7, args, &prizes()).unwrap()
}

/// Places a first bid of `tickets` by `user` and returns the game and ledger.
fn first_bid(game: Game, user: Address, tickets: u32, now: u32) -> (Game, UserBid) {
    let mut accounts = CreateUserGlobalBidPdaSol {
        user_wallet: user,
        bot_wallet: bot(),
        game,
        game_address: addr(160),
        user_details: profile(user),
        win: config(),
    };
    let args = CreateUserGlobalBidPdaSolArgs { ticket_amount: tickets, bonus_ticket_amount: 0, random_number: [1; 6] };
    let (ledger, spend) = accounts.process(3, args, u64::MAX, now).unwrap();
    assert_eq!(spend, game.ticket_price * tickets as u64);
    (accounts.game, ledger)
}

fn settle_sol(game: Game, balance: u64, now: u32) -> (Result<FeeSplit, WinError>, Game) {
    let mut accounts = OrganizerProcessGameSol { organizer_wallet: organizer(), bot_wallet: bot(), game, win: config() };
    let r = accounts.process(balance, now);
    (r, accounts.game)
}

fn withdraw_sol(game: Game, user: Address, ledger: UserBid, balance: u64, now: u32) -> (Result<u64, WinError>, UserBid) {
    let mut accounts = UserWithdrawFundsSol {
        user_wallet: user,
        bot_wallet: bot(),
        rec_wallet: user,
        user_global_bid: ledger,
        game,
        win: config(),
    };
    let r = accounts.process(balance, now);
    (r, accounts.user_global_bid)
}

fn claim(game: Game, user: Address, ledger: UserBid, prize: Address, now: u32) -> (Result<(), WinError>, UserBid) {
    let mut accounts = WinnerClaimNft {
        winner_wallet: user,
        bot_wallet: bot(),
        winner_nft: prize,
        game,
        user_global_bid: ledger,
        win: config(),
    };
    let r = accounts.process(now);
    (r, accounts.user_global_bid)
}

#[test]
fn create_game_records_schedule_and_prizes() {
    let g = new_game(CoinType::SOL, WingsType::Gold, 100, 1000);
    assert!(g.nft_owner_wallet == organizer());
    assert_eq!(g.ticket_price, 100);
    assert_eq!(g.minimum_cost, 1000);
    assert_eq!(g.opened_timestamp, START);
    assert_eq!(g.duration, DURATION);
    assert_eq!(g.current_total_tickets, 0);
    assert_eq!(g.funds_status, FundsStatus::NotClaimed);
    assert!(g.nft_mint_address[0] == addr(101));
    assert!(g.nft_mint_address[1] == addr(102));
    assert!(g.nft_mint_address[2] == addr(0));
    assert_eq!(g.winner_nft_count, [1, 0, 0, 0, 0]);
    assert_eq!(g.status(START), Ok(GameStatus::Open));
}

#[test]
fn create_game_rejects_zero_price_and_too_many_prizes() {
    let accounts = creator(profile(organizer()), config(), bot());
    let mut args = CreateGameArgs {
        ticket_token_address: addr(150),
        ticket_price: 0,
        minimum_cost: 1000,
        proof: vec![],
        game_time_stamp: START,
        duration: DURATION,
        coin_type: CoinType::SOL,
        wings_type: WingsType::Silver,
        wings_nft_mint_address: addr(151),
    };
    assert!(matches!(accounts.process(1, args.clone(), &prizes()), Err(WinError::WrongVaule)));
    args.ticket_price = 100;
    let six: Vec<PrizeAccounts> = (1..=6).map(|n| prize(addr(n))).collect();
    assert!(matches!(accounts.process(1, args.clone(), &six), Err(WinError::InvalidArgs)));
    let unused_slot = vec![prize(addr(101)), prize(addr(0))];
    assert!(matches!(accounts.process(1, args.clone(), &unused_slot), Err(WinError::InvalidArgs)));
    let mut foreign = prize(addr(101));
    foreign.organizer_ata = token_account(&addr(55), &addr(101));
    assert!(matches!(accounts.process(1, args.clone(), &vec![foreign]), Err(WinError::PublicKeyMismatch)));
    let mut wrong_custody = prize(addr(101));
    wrong_custody.pool_ata = token_account(&pool(), &addr(102));
    assert!(matches!(accounts.process(1, args.clone(), &vec![wrong_custody]), Err(WinError::PublicKeyMismatch)));
    let g = accounts.process(1, args, &vec![]).unwrap();
    assert!(g.nft_mint_address[0] == addr(0));
}

#[test]
fn create_game_refused_when_paused_or_wrong_bot() {
    let mut paused = config();
    paused.is_emergency_flag = true;
    let args = CreateGameArgs {
        ticket_token_address: addr(150),
        ticket_price: 100,
        minimum_cost: 1000,
        proof: vec![],
        game_time_stamp: START,
        duration: DURATION,
        coin_type: CoinType::SOL,
        wings_type: WingsType::Bronze,
        wings_nft_mint_address: addr(151),
    };
    let accounts = creator(profile(organizer()), paused, bot());
    assert!(matches!(accounts.process(1, args.clone(), &prizes()), Err(WinError::EmergencyStatus)));
    let accounts = creator(profile(organizer()), config(), addr(99));
    assert!(matches!(accounts.process(1, args, &prizes()), Err(WinError::AccessDenied)));
}

#[test]
fn untiered_game_needs_allow_list_proof() {
    let accounts = creator(profile(organizer()), config(), bot());
    let args = CreateGameArgs {
        ticket_token_address: addr(150),
        ticket_price: 100,
        minimum_cost: 1000,
        proof: vec![[3; 32]],
        game_time_stamp: START,
        duration: DURATION,
        coin_type: CoinType::SOL,
        wings_type: WingsType::NoWings,
        wings_nft_mint_address: addr(151),
    };
    assert!(matches!(accounts.process(1, args, &prizes()), Err(WinError::UnableToCreateGame)));
}

#[test]
fn successful_game_settles_claims_and_refuses_refunds() {
    let g = new_game(CoinType::SOL, WingsType::Gold, 100, 1000);
    let (g, ledger_a) = first_bid(g, addr(20), 7, START + 10);
    let (g, ledger_b) = first_bid(g, addr(21), 5, START + 20);
    assert_eq!(g.current_total_tickets, 12);
    let after = DEADLINE + 1;
    assert_eq!(g.status(after), Ok(GameStatus::Succeeded));

    // 1200 sold; Gold discounts the 1% rate to 0.7%: 84 to the community.
    let (r, settled) = settle_sol(g, 1200, after);
    assert_eq!(r, Ok(FeeSplit { community_fee: 84, organizer_fee: 1116 }));
    assert_eq!(settled.funds_status, FundsStatus::Withdrawed);
    let (again, _) = settle_sol(settled, 1200, after);
    assert_eq!(again, Err(WinError::ClaimedAlready));

    let (r, claimed) = claim(g, addr(20), ledger_a, addr(102), after);
    assert_eq!(r, Ok(()));
    assert!(claimed.winner_nft_claim);
    let (again, _) = claim(g, addr(20), claimed, addr(102), after);
    assert_eq!(again, Err(WinError::NftAlreadyClaimed));
    let (wrong, _) = claim(g, addr(21), ledger_b, addr(77), after);
    assert_eq!(wrong, Err(WinError::AccessDenied));

    let (refund, _) = withdraw_sol(g, addr(21), ledger_b, 1200, after);
    assert_eq!(refund, Err(WinError::GameIsNotCancelledStatus));
}

#[test]
fn settlement_fee_follows_tier() {
    let cases = [
        (WingsType::Gold, 84u64),
        (WingsType::Silver, 96),
        (WingsType::Bronze, 108),
        (WingsType::NoWings, 120),
    ];
    for (tier, community) in cases {
        let mut g = new_game(CoinType::SOL, WingsType::Gold, 100, 1000);
        g.wings_type = tier;
        let (g, _) = first_bid(g, addr(20), 12, START + 1);
        let (r, _) = settle_sol(g, 5000, DEADLINE + 1);
        assert_eq!(r, Ok(FeeSplit { community_fee: community, organizer_fee: 1200 - community }));
    }
}

#[test]
fn settlement_needs_funds_and_matching_asset() {
    let g = new_game(CoinType::SOL, WingsType::Gold, 100, 1000);
    let (g, _) = first_bid(g, addr(20), 12, START + 1);
    let (r, _) = settle_sol(g, 1199, DEADLINE + 1);
    assert_eq!(r, Err(WinError::InsufficientSolBalance));
    let mut token = OrganizerProcessGameToken { organizer_wallet: organizer(), bot_wallet: bot(), game: g, win: config() };
    assert_eq!(token.process(5000, DEADLINE + 1), Err(WinError::InvalidAccount));
    let mut other = OrganizerProcessGameSol { organizer_wallet: addr(55), bot_wallet: bot(), game: g, win: config() };
    assert_eq!(other.process(5000, DEADLINE + 1), Err(WinError::AccessDenied));
}

#[test]
fn cancelled_game_refunds_each_bidder_and_returns_prizes_once() {
    let g = new_game(CoinType::SOL, WingsType::Gold, 100, 1000);
    let (g, ledger_a) = first_bid(g, addr(20), 3, START + 10);
    let (g, ledger_b) = first_bid(g, addr(21), 2, START + 20);
    assert_eq!(g.current_total_tickets, 5);
    let after = DEADLINE + 5;
    assert_eq!(g.status(after), Ok(GameStatus::Cancelled));

    let (r, _) = settle_sol(g, 500, after);
    assert_eq!(r, Err(WinError::GameIsNotClosedStatus));

    let mut back = OrganizerGetBackNft { organizer_wallet: organizer(), bot_wallet: bot(), nft_pool: pool(), game: g, win: config() };
    let partial = vec![prize_returns()[0].clone()];
    assert_eq!(back.process(after, &partial).map(|_| ()), Err(WinError::InvalidArgs));
    assert!(!back.game.is_nft_unstaked);
    let mints = back.process(after, &prize_returns()).unwrap();
    assert!(mints == vec![addr(101), addr(102)]);
    assert!(back.game.is_nft_unstaked);
    assert_eq!(back.process(after, &prize_returns()).map(|_| ()), Err(WinError::NftAlreadyClaimed));

    let (r, refunded_a) = withdraw_sol(g, addr(20), ledger_a, 500, after);
    assert_eq!(r, Ok(300));
    assert_eq!(refunded_a.funds_status, FundsStatus::Withdrawed);
    let (r, _) = withdraw_sol(g, addr(21), ledger_b, 200, after);
    assert_eq!(r, Ok(200));
    let (again, _) = withdraw_sol(g, addr(20), refunded_a, 500, after);
    assert_eq!(again, Err(WinError::ClaimedAlready));
    let (short, _) = withdraw_sol(g, addr(21), ledger_b, 199, after);
    assert_eq!(short, Err(WinError::InsufficientGameMoney));

    let (r, _) = claim(g, addr(20), ledger_a, addr(101), after);
    assert_eq!(r, Err(WinError::GameIsNotClosedStatus));
}

#[test]
fn refund_goes_only_to_the_caller() {
    let g = new_game(CoinType::SOL, WingsType::Gold, 100, 1000);
    let (g, ledger) = first_bid(g, addr(20), 3, START + 10);
    let mut accounts = UserWithdrawFundsSol {
        user_wallet: addr(20),
        bot_wallet: bot(),
        rec_wallet: addr(66),
        user_global_bid: ledger,
        game: g,
        win: config(),
    };
    assert_eq!(accounts.process(1000, DEADLINE + 1), Err(WinError::AccessDenied));
}

#[test]
fn token_refund_uses_token_errors() {
    let g = new_game(CoinType::TOKEN, WingsType::Gold, 100, 1000);
    let mut bid = CreateUserGlobalBidPdaToken {
        user_wallet: addr(20),
        bot_wallet: bot(),
        game: g,
        game_address: addr(160),
        user_details: profile(addr(20)),
        win: config(),
    };
    let args = CreateUserGlobalBidPdaTokenArgs { ticket_amount: 4, bonus_ticket_amount: 0, random_number: [0; 6] };
    let (ledger, spend) = bid.process(1, args, 400, START + 1).unwrap();
    assert_eq!(spend, 400);
    let mut accounts = UserWithdrawFundsToken {
        user_wallet: addr(20),
        bot_wallet: bot(),
        rec_wallet: addr(20),
        user_global_bid: ledger,
        game: bid.game,
        win: config(),
    };
    assert_eq!(accounts.process(399, DEADLINE + 1), Err(WinError::InsufficientTokenBalance));
    assert_eq!(accounts.process(400, DEADLINE + 1), Ok(400));
}

#[test]
fn deadline_instant_is_a_dead_zone() {
    let g = new_game(CoinType::SOL, WingsType::Gold, 100, 1000);
    let (g, ledger) = first_bid(g, addr(20), 12, START + 1);
    let (g5, ledger5) = first_bid(new_game(CoinType::SOL, WingsType::Gold, 100, 1000), addr(20), 5, START + 1);
    assert_eq!(g.status(DEADLINE), Ok(GameStatus::AtDeadline));
    assert!(!g.verify_game_time(DEADLINE));
    assert!(g.verify_game_time(DEADLINE - 1));

    let mut bid = CreateUserGlobalBidPdaSol {
        user_wallet: addr(30),
        bot_wallet: bot(),
        game: g,
        game_address: addr(160),
        user_details: profile(addr(30)),
        win: config(),
    };
    let args = CreateUserGlobalBidPdaSolArgs { ticket_amount: 1, bonus_ticket_amount: 0, random_number: [0; 6] };
    assert_eq!(bid.process(1, args, 1000, DEADLINE).map(|_| ()), Err(WinError::GameIsNotOpenedStatus));
    let (r, _) = settle_sol(g, 5000, DEADLINE);
    assert_eq!(r, Err(WinError::GameIsNotClosedStatus));
    let (r, _) = claim(g, addr(20), ledger, addr(101), DEADLINE);
    assert_eq!(r, Err(WinError::GameIsNotClosedStatus));
    let (r, _) = withdraw_sol(g5, addr(20), ledger5, 5000, DEADLINE);
    assert_eq!(r, Err(WinError::GameIsNotCancelledStatus));
    let mut back = OrganizerGetBackNft { organizer_wallet: organizer(), bot_wallet: bot(), nft_pool: pool(), game: g5, win: config() };
    assert_eq!(back.process(DEADLINE, &prize_returns()).map(|_| ()), Err(WinError::GameIsNotCancelledStatus));
}

#[test]
fn bids_close_after_deadline() {
    let g = new_game(CoinType::SOL, WingsType::Gold, 100, 1000);
    let mut bid = CreateUserGlobalBidPdaSol {
        user_wallet: addr(30),
        bot_wallet: bot(),
        game: g,
        game_address: addr(160),
        user_details: profile(addr(30)),
        win: config(),
    };
    let args = CreateUserGlobalBidPdaSolArgs { ticket_amount: 1, bonus_ticket_amount: 0, random_number: [0; 6] };
    assert_eq!(bid.process(1, args, 1000, DEADLINE + 1).map(|_| ()), Err(WinError::GameIsNotOpenedStatus));
}

#[test]
fn end_game_early_freezes_takings_as_threshold() {
    let g = new_game(CoinType::SOL, WingsType::Gold, 100, 100_000);
    let (g, _) = first_bid(g, addr(20), 3, START + 10);
    let mut end = EndGame { organizer_wallet: organizer(), bot_wallet: bot(), game: g, win: config() };
    assert_eq!(end.process(EndGameArgs { random_number: [9; 6] }, START + 100), Ok(()));
    assert_eq!(end.game.duration, 100);
    assert_eq!(end.game.minimum_cost, 300);
    assert_eq!(end.game.winner_random_number, [9; 6]);
    assert_eq!(end.game.status(START + 101), Ok(GameStatus::Succeeded));
    assert_eq!(end.game.status(START + 100), Ok(GameStatus::AtDeadline));
}

#[test]
fn end_game_refusals() {
    let g = new_game(CoinType::SOL, WingsType::Gold, 100, 1000);
    let mut empty = EndGame { organizer_wallet: organizer(), bot_wallet: bot(), game: g, win: config() };
    assert_eq!(empty.process(EndGameArgs { random_number: [0; 6] }, START + 1), Err(WinError::NoTicketAmount));
    let (g, _) = first_bid(g, addr(20), 3, START + 10);
    let mut late = EndGame { organizer_wallet: organizer(), bot_wallet: bot(), game: g, win: config() };
    assert_eq!(late.process(EndGameArgs { random_number: [0; 6] }, DEADLINE + 1), Err(WinError::AlreadyGameEnd));
    let mut stranger = EndGame { organizer_wallet: addr(77), bot_wallet: bot(), game: g, win: config() };
    assert_eq!(stranger.process(EndGameArgs { random_number: [0; 6] }, START + 20), Err(WinError::AccessDenied));
    let mut at_deadline = EndGame { organizer_wallet: organizer(), bot_wallet: bot(), game: g, win: config() };
    assert_eq!(at_deadline.process(EndGameArgs { random_number: [0; 6] }, DEADLINE), Ok(()));
}

#[test]
fn recreate_cancelled_game_carries_prizes_over() {
    let g = new_game(CoinType::SOL, WingsType::Gold, 100, 1000);
    let (g, _) = first_bid(g, addr(20), 5, START + 10);
    let mut re = RecreateGame { organizer_wallet: organizer(), bot_wallet: bot(), old_game: g, win: config(), user_details: profile(organizer()) };
    let args = RecreateGameArgs { proof: vec![], game_time_stamp: DEADLINE + 100, wings_type: WingsType::Silver, wings_nft_mint_address: addr(152), duration: 50 };
    assert_eq!(re.process(4, args.clone(), DEADLINE).map(|_| ()), Err(WinError::GameIsNotCancelledStatus));
    let fresh = re.process(4, args.clone(), DEADLINE + 1).unwrap();
    assert_eq!(fresh.ticket_price, 100);
    assert_eq!(fresh.minimum_cost, 1000);
    assert_eq!(fresh.opened_timestamp, DEADLINE + 100);
    assert_eq!(fresh.duration, 50);
    assert_eq!(fresh.current_total_tickets, 0);
    assert_eq!(fresh.wings_type, WingsType::Silver);
    assert!(fresh.nft_mint_address[0] == addr(101));
    assert!(re.old_game.is_nft_unstaked);
    assert_eq!(re.old_game.funds_status, FundsStatus::Retransfer);
    assert_eq!(re.process(4, args, DEADLINE + 1).map(|_| ()), Err(WinError::NoGameNft));
}

#[test]
fn subsequent_bid_with_wrong_sequence_fails() {
    let g = new_game(CoinType::SOL, WingsType::Gold, 100, 1000);
    let (g, ledger) = first_bid(g, addr(20), 1, START + 10);
    for n in [0u8, 1, 3, 200] {
        for tickets in [0u32, 1, 50] {
            let mut bid = UserGameBidSol {
                user_wallet: addr(20),
                bot_wallet: bot(),
                user_global_bid: ledger,
                game: g,
                game_address: addr(160),
                user_details: profile(addr(20)),
                win: config(),
            };
            let args = UserGameBidSolArgs { ticket_amount: tickets, bonus_ticket_amount: 0, random_number: [0; 6], bid_number: n };
            assert_eq!(bid.process(args, u64::MAX, START + 11).map(|_| ()), Err(WinError::InvalidSequence));
        }
    }
    let mut bid = UserGameBidSol {
        user_wallet: addr(20),
        bot_wallet: bot(),
        user_global_bid: ledger,
        game: g,
        game_address: addr(160),
        user_details: profile(addr(20)),
        win: config(),
    };
    let args = UserGameBidSolArgs { ticket_amount: 2, bonus_ticket_amount: 0, random_number: [0; 6], bid_number: 2 };
    let (record, spend) = bid.process(args, u64::MAX, START + 11).unwrap();
    assert_eq!(spend, 200);
    assert_eq!(record.bid_number, 2);
    assert_eq!(bid.user_global_bid.total_bid_number, 2);
    assert_eq!(bid.user_global_bid.gbl_total_ticket_amount, 3);
    assert_eq!(bid.game.current_total_tickets, 3);
}

#[test]
fn bonus_pool_is_provisioned_then_drawn_before_freely() {
    // A spend of 1000 provisions a pool of 4 bonus tickets.
    let g = new_game(CoinType::SOL, WingsType::Gold, 100, 1000);
    let mut staker = profile(addr(20));
    staker.is_freely_nft_staked = true;
    staker.freely_nft_staked_time = START;
    staker.freely_ticket_amount = 5;
    let mut first = CreateUserGlobalBidPdaSol {
        user_wallet: addr(20),
        bot_wallet: bot(),
        game: g,
        game_address: addr(160),
        user_details: staker,
        win: config(),
    };
    let args = CreateUserGlobalBidPdaSolArgs { ticket_amount: 10, bonus_ticket_amount: 2, random_number: [0; 6] };
    let (ledger, spend) = first.process(1, args, 1000, START + 1).unwrap();
    assert_eq!(spend, 1000);
    assert!(ledger.gbl_has_distirbuted_bonus);
    assert_eq!(ledger.gbl_bonus_ticket_amount, 4);
    assert_eq!(ledger.freely_ticket_amount, 2);
    assert_eq!(first.user_details.freely_ticket_amount, 3);
    assert_eq!(first.game.current_total_bonus_tickets, 2);

    // Asking for 6: 4 from the pool, 2 from the freely allowance.
    let mut next = UserGameBidSol {
        user_wallet: addr(20),
        bot_wallet: bot(),
        user_global_bid: ledger,
        game: first.game,
        game_address: addr(160),
        user_details: first.user_details,
        win: config(),
    };
    let args = UserGameBidSolArgs { ticket_amount: 0, bonus_ticket_amount: 6, random_number: [0; 6], bid_number: 2 };
    let (record, spend) = next.process(args, 0, START + 2).unwrap();
    assert_eq!(spend, 0);
    assert_eq!(record.bonus_ticket_amount, 4);
    assert_eq!(record.freely_ticket_amount, 2);
    assert_eq!(next.user_global_bid.gbl_bonus_ticket_amount, 0);
    assert_eq!(next.user_details.freely_ticket_amount, 1);
    // Pool draws plus what is left never exceed what was provisioned.
    assert!(record.bonus_ticket_amount + next.user_global_bid.gbl_bonus_ticket_amount <= 4);

    // Nothing left but one freely ticket: asking for two is refused whole.
    let saved = next;
    let args = UserGameBidSolArgs { ticket_amount: 0, bonus_ticket_amount: 2, random_number: [0; 6], bid_number: 3 };
    assert_eq!(next.process(args, 0, START + 3).map(|_| ()), Err(WinError::InvalidBonusTicketAmount));
    assert_eq!(next.user_details.freely_ticket_amount, saved.user_details.freely_ticket_amount);
    assert_eq!(next.user_global_bid.total_bid_number, saved.user_global_bid.total_bid_number);
}

#[test]
fn pool_is_provisioned_by_aggregate_spend() {
    let g = new_game(CoinType::SOL, WingsType::Gold, 100, 1000);
    let (g, ledger) = first_bid(g, addr(20), 6, START + 1);
    assert!(!ledger.gbl_has_distirbuted_bonus);
    let mut next = UserGameBidSol {
        user_wallet: addr(20),
        bot_wallet: bot(),
        user_global_bid: ledger,
        game: g,
        game_address: addr(160),
        user_details: profile(addr(20)),
        win: config(),
    };
    let args = UserGameBidSolArgs { ticket_amount: 4, bonus_ticket_amount: 0, random_number: [0; 6], bid_number: 2 };
    let (record, _) = next.process(args, 400, START + 2).unwrap();
    assert_eq!(record.bonus_ticket_amount, 0);
    assert!(next.user_global_bid.gbl_has_distirbuted_bonus);
    assert_eq!(next.user_global_bid.gbl_bonus_ticket_amount, 4);
}

#[test]
fn first_bid_refusals() {
    let g = new_game(CoinType::SOL, WingsType::Gold, 100, 1000);
    let mut bid = CreateUserGlobalBidPdaSol {
        user_wallet: addr(30),
        bot_wallet: bot(),
        game: g,
        game_address: addr(160),
        user_details: profile(addr(30)),
        win: config(),
    };
    let zero = CreateUserGlobalBidPdaSolArgs { ticket_amount: 0, bonus_ticket_amount: 0, random_number: [0; 6] };
    assert_eq!(bid.process(1, zero, 1000, START + 1).map(|_| ()), Err(WinError::NoTicketAmount));
    let bonus = CreateUserGlobalBidPdaSolArgs { ticket_amount: 1, bonus_ticket_amount: 1, random_number: [0; 6] };
    assert_eq!(bid.process(1, bonus, 1000, START + 1).map(|_| ()), Err(WinError::InvalidBonusTicketAmount));
    let poor = CreateUserGlobalBidPdaSolArgs { ticket_amount: 3, bonus_ticket_amount: 0, random_number: [0; 6] };
    assert_eq!(bid.process(1, poor, 299, START + 1).map(|_| ()), Err(WinError::InsufficientSolBalance));
    let wraps = CreateUserGlobalBidPdaSolArgs { ticket_amount: u32::MAX, bonus_ticket_amount: 1, random_number: [0; 6] };
    assert_eq!(bid.process(1, wraps, u64::MAX, START + 1).map(|_| ()), Err(WinError::NumericalOverflow));
    assert_eq!(bid.game.current_total_tickets, 0);
    let mut token = CreateUserGlobalBidPdaToken {
        user_wallet: addr(30),
        bot_wallet: bot(),
        game: g,
        game_address: addr(160),
        user_details: profile(addr(30)),
        win: config(),
    };
    let args = CreateUserGlobalBidPdaTokenArgs { ticket_amount: 1, bonus_ticket_amount: 0, random_number: [0; 6] };
    assert_eq!(token.process(1, args, 1000, START + 1).map(|_| ()), Err(WinError::InvalidAccount));
}

#[test]
fn expired_freely_stake_gives_no_bonus() {
    let g = new_game(CoinType::SOL, WingsType::Gold, 100, 1000);
    let mut staker = profile(addr(20));
    staker.is_freely_nft_staked = true;
    staker.freely_nft_staked_time = 0;
    staker.freely_ticket_amount = 5;
    let mut bid = CreateUserGlobalBidPdaSol {
        user_wallet: addr(20),
        bot_wallet: bot(),
        game: g,
        game_address: addr(160),
        user_details: staker,
        win: Win { freely_ticket_nft_staking_lock_period: [10, 10, 10], ..config() },
    };
    // Staked at time 0 with a 10-day lock: at START + 1 the period is over.
    let args = CreateUserGlobalBidPdaSolArgs { ticket_amount: 1, bonus_ticket_amount: 1, random_number: [0; 6] };
    assert_eq!(bid.process(1, args, 1000, START + 1).map(|_| ()), Err(WinError::InvalidBonusTicketAmount));
}

#[test]
fn refund_refuses_ledger_without_bought_tickets() {
    let g = new_game(CoinType::SOL, WingsType::Gold, 100, 1000);
    let mut staker = profile(addr(20));
    staker.is_freely_nft_staked = true;
    staker.freely_nft_staked_time = START;
    staker.freely_ticket_amount = 5;
    let mut bid = CreateUserGlobalBidPdaSol {
        user_wallet: addr(20),
        bot_wallet: bot(),
        game: g,
        game_address: addr(160),
        user_details: staker,
        win: config(),
    };
    let args = CreateUserGlobalBidPdaSolArgs { ticket_amount: 0, bonus_ticket_amount: 1, random_number: [0; 6] };
    let (ledger, spend) = bid.process(1, args, 0, START + 1).unwrap();
    assert_eq!(spend, 0);
    let (r, after) = withdraw_sol(bid.game, addr(20), ledger, 1000, DEADLINE + 1);
    assert_eq!(r, Err(WinError::NoTicketAmount));
    assert_eq!(after.funds_status, FundsStatus::NotClaimed);
}

#[test]
fn unused_prize_slot_cannot_be_claimed() {
    let g = new_game(CoinType::SOL, WingsType::Gold, 100, 1000);
    let (g, ledger) = first_bid(g, addr(20), 12, START + 1);
    let (r, after) = claim(g, addr(20), ledger, addr(0), DEADLINE + 1);
    assert_eq!(r, Err(WinError::AccessDenied));
    assert!(!after.winner_nft_claim);
}
