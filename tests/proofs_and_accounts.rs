use anchor_lang::solana_program::keccak::hashv;
use anchor_lang::solana_program::pubkey::Pubkey;

use winto::address::Address;
use winto::ata::{assert_is_ata, assert_keys_equal, AccountData};
use winto::error::WinError;
use winto::fees::{compute_fee_split, fee_multiplier, FeeSplit};
use winto::merkle::{bytes32_le, merkle_tree_verify, organizer_leaf_bytes};
use winto::organizer::{CreateGame, CreateGameArgs, LockWingsNft, PrizeAccounts, UnlockWingsNft};
use winto::provenance::{Creator, NftMetadata};
use winto::state::{CoinType, UserDetails, UserWingsNftLocked, Win, WingsType};
use winto::user::{CreateUserDetailsByUser, StakeFreelyNft, UnstakeFreelyNft};

fn addr(n: u8) -> Address {
    Address::new([n; 32])
}

fn config() -> Win {
    Win {
        admin_wallet: addr(201),
        bot_wallet: addr(200),
        dev_wallet: addr(202),
        fund_wallet: addr(203),
        win_mint_address: addr(204),
        wings_creator: addr(205),
        sol_amount_for_bonus_tickets: 1_000,
        token_amount_for_bonus_tickets: 10,
        game_bonus_ticket_amount: 4,
        community_fee: 100,
        freely_ticket_nft_creators: [addr(211), addr(212), addr(213)],
        freely_ticket_amount: [5, 7, 9],
        freely_ticket_nft_staking_lock_period: [1, 2, 3],
        is_emergency_flag: false,
        bump: 1,
        organizer_whitelist_merkle_root: [0; 32],
        holder_whitelist_merkle_root: [0; 32],
    }
}

fn fresh_profile(wallet: Address) -> UserDetails {
    CreateUserDetailsByUser { user_wallet: wallet, win: config() }.process(2, 50).unwrap()
}

fn sorted_pair_hash(a: [u8; 32], b: [u8; 32]) -> [u8; 32] {
    if a <= b {
        hashv(&[&a, &b]).0
    } else {
        hashv(&[&b, &a]).0
    }
}

#[test]
fn organizer_leaf_is_keccak_of_tagged_wallet() {
    let org = addr(10);
    let expected = hashv(&[b"win-whitelist-user", &org.bytes]).0;
    assert_eq!(organizer_leaf_bytes(&org), expected);
    assert_ne!(organizer_leaf_bytes(&org), org.bytes);
}

#[test]
fn merkle_proof_of_two_levels_verifies() {
    let leaf = [5u8; 32];
    let s1 = [9u8; 32];
    let s2 = [1u8; 32];
    let root = sorted_pair_hash(sorted_pair_hash(leaf, s1), s2);
    assert!(merkle_tree_verify(vec![s1, s2], root, leaf));
    assert!(!merkle_tree_verify(vec![s2, s1], root, leaf));
    assert!(!merkle_tree_verify(vec![s1], root, leaf));
    assert!(merkle_tree_verify(vec![], leaf, leaf));
}

#[test]
fn byte_order_is_lexicographic() {
    let mut a = [0u8; 32];
    let mut b = [0u8; 32];
    a[3] = 1;
    b[3] = 2;
    a[4] = 200;
    assert!(bytes32_le(&a, &b));
    assert!(!bytes32_le(&b, &a));
    assert!(bytes32_le(&a, &a));
}

#[test]
fn allow_listed_organizer_creates_untiered_game() {
    let org = addr(10);
    let other = [77u8; 32];
    let root = sorted_pair_hash(organizer_leaf_bytes(&org), other);
    let mut win = config();
    win.organizer_whitelist_merkle_root = root;
    let accounts = CreateGame { organizer_wallet: org, bot_wallet: addr(200), nft_pool: addr(199), win, user_details: fresh_profile(org) };
    let token_program = Address::new(anchor_spl::token::ID.to_bytes());
    let mint = addr(101);
    let prizes = vec![PrizeAccounts {
        organizer_ata: AccountData { key: derived_ata(&org, &mint), owner: token_program, data: token_account_data(&mint, &org, 1) },
        pool_ata: AccountData { key: derived_ata(&addr(199), &mint), owner: token_program, data: token_account_data(&mint, &addr(199), 1) },
        mint,
    }];
    let args = CreateGameArgs {
        ticket_token_address: addr(150),
        ticket_price: 10,
        minimum_cost: 100,
        proof: vec![other],
        game_time_stamp: 100,
        duration: 100,
        coin_type: CoinType::SOL,
        wings_type: WingsType::NoWings,
        wings_nft_mint_address: addr(0),
    };
    let g = accounts.process(1, args.clone(), &prizes).unwrap();
    assert!(g.nft_owner_wallet == org);
    let stranger = CreateGame { organizer_wallet: addr(11), bot_wallet: addr(200), nft_pool: addr(199), win, user_details: fresh_profile(addr(11)) };
    assert!(matches!(stranger.process(1, args, &prizes), Err(WinError::UnableToCreateGame)));
}

#[test]
fn fee_split_per_tier_and_overflow() {
    assert_eq!(fee_multiplier(WingsType::Gold), 7);
    assert_eq!(fee_multiplier(WingsType::Silver), 8);
    assert_eq!(fee_multiplier(WingsType::Bronze), 9);
    assert_eq!(fee_multiplier(WingsType::NoWings), 10);
    assert_eq!(compute_fee_split(1200, 100, WingsType::Gold), Ok(FeeSplit { community_fee: 84, organizer_fee: 1116 }));
    assert_eq!(compute_fee_split(999, 250, WingsType::NoWings), Ok(FeeSplit { community_fee: 249, organizer_fee: 750 }));
    assert_eq!(compute_fee_split(0, 1000, WingsType::NoWings), Ok(FeeSplit { community_fee: 0, organizer_fee: 0 }));
    assert_eq!(compute_fee_split(u64::MAX, 1000, WingsType::NoWings), Ok(FeeSplit { community_fee: u64::MAX, organizer_fee: 0 }));
    assert_eq!(compute_fee_split(100, 7000, WingsType::NoWings), Err(WinError::NumericalOverflow));
    assert_eq!(compute_fee_split(100, 2000, WingsType::NoWings), Err(WinError::NumericalOverflow));
    for total in [0u64, 1, 7, 1200, 10_001, u64::MAX] {
        for tier in [WingsType::Gold, WingsType::Silver, WingsType::Bronze, WingsType::NoWings] {
            let s = compute_fee_split(total, 1000, tier).unwrap();
            assert_eq!(s.community_fee + s.organizer_fee, total);
        }
    }
}

fn token_account_data(mint: &Address, owner: &Address, state: u8) -> Vec<u8> {
    let mut data = vec![0u8; 165];
    data[0..32].copy_from_slice(&mint.bytes);
    data[32..64].copy_from_slice(&owner.bytes);
    data[108] = state;
    data
}

fn derived_ata(wallet: &Address, mint: &Address) -> Address {
    let key = anchor_spl::associated_token::get_associated_token_address(
        &Pubkey::new_from_array(wallet.bytes),
        &Pubkey::new_from_array(mint.bytes),
    );
    Address::new(key.to_bytes())
}

#[test]
fn associated_token_account_checks() {
    let wallet = addr(20);
    let mint = addr(30);
    let token_program = Address::new(anchor_spl::token::ID.to_bytes());
    let good = AccountData { key: derived_ata(&wallet, &mint), owner: token_program, data: token_account_data(&mint, &wallet, 1) };
    let v = assert_is_ata(&good, &wallet, &mint).unwrap();
    assert!(v.owner == wallet && v.mint == mint && v.initialized);

    let foreign = AccountData { owner: addr(1), ..good.clone() };
    assert_eq!(assert_is_ata(&foreign, &wallet, &mint).map(|_| ()), Err(WinError::IncorrectOwner));
    let short = AccountData { data: vec![0u8; 100], ..good.clone() };
    assert_eq!(assert_is_ata(&short, &wallet, &mint).map(|_| ()), Err(WinError::InvalidAccount));
    let mut bad_tag = token_account_data(&mint, &wallet, 1);
    bad_tag[72] = 2;
    let malformed = AccountData { data: bad_tag, ..good.clone() };
    assert_eq!(assert_is_ata(&malformed, &wallet, &mint).map(|_| ()), Err(WinError::InvalidAccount));
    let bad_state = AccountData { data: token_account_data(&mint, &wallet, 3), ..good.clone() };
    assert_eq!(assert_is_ata(&bad_state, &wallet, &mint).map(|_| ()), Err(WinError::InvalidAccount));
    let mut delegated = token_account_data(&mint, &wallet, 2);
    delegated[72] = 1;
    let frozen_delegated = AccountData { data: delegated, ..good.clone() };
    assert!(assert_is_ata(&frozen_delegated, &wallet, &mint).is_ok());
    let fresh = AccountData { data: token_account_data(&mint, &wallet, 0), ..good.clone() };
    assert_eq!(assert_is_ata(&fresh, &wallet, &mint).map(|_| ()), Err(WinError::UninitializedAccount));
    let elsewhere = AccountData { key: addr(3), ..good.clone() };
    assert_eq!(assert_is_ata(&elsewhere, &wallet, &mint).map(|_| ()), Err(WinError::PublicKeyMismatch));
    assert_eq!(assert_is_ata(&good, &addr(21), &mint).map(|_| ()), Err(WinError::PublicKeyMismatch));
    assert_eq!(assert_keys_equal(&wallet, &wallet), Ok(()));
    assert_eq!(assert_keys_equal(&wallet, &mint), Err(WinError::PublicKeyMismatch));
}

fn metadata(mint: Address, creators: Vec<Creator>) -> Option<NftMetadata> {
    Some(NftMetadata { mint, creators: Some(creators) })
}

#[test]
fn staking_freely_token_takes_first_verified_category() {
    let user = addr(20);
    let mint = addr(40);
    let mut stake = StakeFreelyNft { user_wallet: user, bot_wallet: addr(200), mint_nft: mint, user_details: fresh_profile(user), win: config() };
    let creators = vec![
        Creator { address: addr(213), verified: false, share: 0 },
        Creator { address: addr(212), verified: true, share: 50 },
        Creator { address: addr(211), verified: true, share: 50 },
    ];
    assert_eq!(stake.process(&metadata(mint, creators), 1_000), Ok(()));
    let u = stake.user_details;
    assert!(u.is_freely_nft_staked);
    assert_eq!(u.freely_nft_type, 1);
    assert_eq!(u.freely_ticket_amount, 7);
    assert_eq!(u.freely_nft_staked_time, 1_000);
    assert!(u.freely_nft_mint_address == mint);
    assert_eq!(stake.process(&metadata(mint, vec![]), 1_000), Err(WinError::AccessDenied));

    let mut unstake = UnstakeFreelyNft { user_wallet: user, bot_wallet: addr(200), user_details: u, win: config() };
    // Category 1 locks for two days.
    assert_eq!(unstake.process(1_000 + 2 * 86_400 - 1), Err(WinError::NoUnstakeFreelyTicketNft));
    assert_eq!(unstake.process(1_000 + 2 * 86_400), Ok(()));
    assert!(!unstake.user_details.is_freely_nft_staked);
    assert_eq!(unstake.user_details.freely_ticket_amount, 0);
}

#[test]
fn staking_refuses_foreign_or_unreadable_metadata() {
    let user = addr(20);
    let mint = addr(40);
    let mut stake = StakeFreelyNft { user_wallet: user, bot_wallet: addr(200), mint_nft: mint, user_details: fresh_profile(user), win: config() };
    assert_eq!(stake.process(&None, 1), Err(WinError::WrongMetadata));
    assert_eq!(stake.process(&metadata(addr(41), vec![]), 1), Err(WinError::WrongMetadata));
    let unverified = vec![Creator { address: addr(211), verified: false, share: 100 }];
    assert_eq!(stake.process(&metadata(mint, unverified), 1), Err(WinError::NoFreelyTicketNft));
    assert_eq!(stake.process(&Some(NftMetadata { mint, creators: None }), 1), Err(WinError::NoFreelyTicketNft));
    assert!(!stake.user_details.is_freely_nft_staked);
}

#[test]
fn prize_category_lock_and_unlock() {
    let org = addr(10);
    let mint = addr(45);
    let mut lock = LockWingsNft { organizer_wallet: org, bot_wallet: addr(200), mint_nft: mint, user_details: fresh_profile(org), win: config() };
    let wrong = vec![Creator { address: addr(99), verified: true, share: 100 }];
    assert!(matches!(lock.process(&metadata(mint, wrong)), Err(WinError::NoWingsNft)));
    let right = vec![Creator { address: addr(205), verified: true, share: 100 }];
    let record = lock.process(&metadata(mint, right)).unwrap();
    assert!(record.user_wallet == org && record.wings_nft_mint == mint);
    assert_eq!(lock.user_details.wings_locked_count, 1);

    let mut unlock = UnlockWingsNft {
        organizer_wallet: org,
        bot_wallet: addr(200),
        mint_nft: mint,
        user_details: lock.user_details,
        win: config(),
        user_wings_nft_locked: record,
    };
    assert_eq!(unlock.process(), Ok(()));
    assert_eq!(unlock.user_details.wings_locked_count, 0);
    assert_eq!(unlock.process(), Err(WinError::NumericalOverflow));
    let mut foreign = UnlockWingsNft { user_wings_nft_locked: UserWingsNftLocked { user_wallet: addr(11), wings_nft_mint: mint }, ..unlock };
    assert_eq!(foreign.process(), Err(WinError::InvalidAccount));
}

#[test]
fn new_profile_is_empty() {
    let u = fresh_profile(addr(20));
    assert!(u.user_wallet == addr(20));
    assert_eq!(u.last_game_distribute_time, 50);
    assert_eq!(u.freely_ticket_amount, 0);
    assert!(!u.is_freely_nft_staked);
    assert_eq!(u.bump, 2);
    let mut paused = config();
    paused.is_emergency_flag = true;
    assert!(matches!(CreateUserDetailsByUser { user_wallet: addr(20), win: paused }.process(2, 50), Err(WinError::EmergencyStatus)));
}
