use winto::address::Address;
use winto::admin::{
    AirdropToken, AirdropTokenArgs, AssetsDistribution, AssetsDistributionArgs, Initialize, InitializeArgs,
    UpdateByAdminWallet, UpdateByAdminWalletArgs, UpdateByDevWallet, UpdateByDevWalletArgs, UpdateMerkleWhitelist,
    UpdateMerkleWhitelistArgs, UpdateUserReward, UpdateUserRewardArgs, UserClaimAirdropWin, UserClaimAirdropWinArgs,
    WithdrawFromPda, WithdrawFromPdaArgs, WithdrawPdaSol, WithdrawPdaSolArgs, WithdrawPdaToken, WithdrawPdaTokenArgs,
};
use winto::error::WinError;
use winto::state::{PdaType, RewardType, Win};
use winto::user::CreateUserDetailsByUser;

fn addr(n: u8) -> Address {
    Address::new([n; 32])
}

fn initial() -> Win {
    let init = Initialize { admin_wallet: addr(1), token_mint_address: addr(2) };
    init.process(
        9,
        InitializeArgs {
            bot_wallet: addr(3),
            dev_wallet: addr(4),
            fund_wallet: addr(5),
            wings_creator: addr(6),
            freely_ticket_nft_creators: [addr(7), addr(8), addr(9)],
        },
    )
}

fn admin_args() -> UpdateByAdminWalletArgs {
    UpdateByAdminWalletArgs {
        fund_wallet: addr(15),
        wings_creator: addr(16),
        sol_amount_for_bonus_tickets: 500,
        token_amount_for_bonus_tickets: 5,
        game_bonus_ticket_amount: 3,
        freely_ticket_nft_creators: [addr(17), addr(18), addr(19)],
        freely_ticket_amount: [1, 2, 3],
        freely_ticket_nft_staking_lock_period: [4, 5, 6],
        community_fee: 250,
        is_emergency_flag: false,
    }
}

#[test]
fn initialize_sets_principals_and_zero_settings() {
    let w = initial();
    assert!(w.admin_wallet == addr(1) && w.win_mint_address == addr(2) && w.bot_wallet == addr(3));
    assert_eq!(w.community_fee, 0);
    assert_eq!(w.freely_ticket_amount, [0, 0, 0]);
    assert!(!w.is_emergency_flag);
    assert_eq!(w.bump, 9);
}

#[test]
fn admin_update_validates_freely_settings() {
    let mut up = UpdateByAdminWallet { admin_wallet: addr(1), win: initial() };
    assert_eq!(up.process(admin_args()), Ok(()));
    assert_eq!(up.win.community_fee, 250);
    assert_eq!(up.win.freely_ticket_nft_staking_lock_period, [4, 5, 6]);
    assert!(up.win.fund_wallet == addr(15));
    let mut zero = admin_args();
    zero.freely_ticket_amount = [1, 0, 3];
    assert_eq!(up.process(zero), Err(WinError::InvalidArgs));
    let mut zero = admin_args();
    zero.freely_ticket_nft_staking_lock_period = [0, 5, 6];
    assert_eq!(up.process(zero), Err(WinError::InvalidArgs));
    let mut stranger = UpdateByAdminWallet { admin_wallet: addr(4), win: initial() };
    assert_eq!(stranger.process(admin_args()), Err(WinError::AccessDenied));
}

#[test]
fn dev_and_allow_list_updates() {
    let mut dev = UpdateByDevWallet { dev_wallet: addr(4), win: initial() };
    let args = UpdateByDevWalletArgs { bot_wallet: addr(30), wings_creator: addr(31), is_emergency_flag: true, freely_ticket_nft_creators: [addr(32); 3] };
    assert_eq!(dev.process(args), Ok(()));
    assert!(dev.win.bot_wallet == addr(30) && dev.win.is_emergency_flag);
    let mut not_dev = UpdateByDevWallet { dev_wallet: addr(1), win: initial() };
    assert_eq!(not_dev.process(args), Err(WinError::AccessDenied));

    let mut root = UpdateMerkleWhitelist { admin_wallet: addr(1), win: initial() };
    assert_eq!(root.process(UpdateMerkleWhitelistArgs { organizer_whitelist_merkle_root: [8; 32] }), Ok(()));
    assert_eq!(root.win.organizer_whitelist_merkle_root, [8; 32]);
    let mut not_admin = UpdateMerkleWhitelist { admin_wallet: addr(3), win: initial() };
    assert_eq!(not_admin.process(UpdateMerkleWhitelistArgs { organizer_whitelist_merkle_root: [8; 32] }), Err(WinError::AccessDenied));
}

#[test]
fn rewards_are_credited_and_claimed() {
    let win = initial();
    let user = CreateUserDetailsByUser { user_wallet: addr(40), win }.process(1, 100).unwrap();
    let mut credit = UpdateUserReward { bot_wallet: addr(3), user_wallet: addr(40), user_details: user, win };
    let game = UpdateUserRewardArgs { reward_amount: 70, last_game_distribute_time: 200, reward_type: RewardType::GameRewardAirdrop };
    assert_eq!(credit.process(game), Ok(()));
    assert_eq!(credit.user_details.win_game_reward_amount, 70);
    assert_eq!(credit.user_details.last_game_distribute_time, 200);
    let stale = UpdateUserRewardArgs { reward_amount: 5, last_game_distribute_time: 150, reward_type: RewardType::DaoAirdrop };
    assert_eq!(credit.process(stale), Err(WinError::AlreadyReceivedGameDistribution));
    let nothing = UpdateUserRewardArgs { reward_amount: 0, last_game_distribute_time: 300, reward_type: RewardType::DaoAirdrop };
    assert_eq!(credit.process(nothing), Err(WinError::InvalidAmount));
    credit.user_details.win_dao_reward_amount = u64::MAX;
    let huge = UpdateUserRewardArgs { reward_amount: 1, last_game_distribute_time: 300, reward_type: RewardType::DaoAirdrop };
    assert_eq!(credit.process(huge), Err(WinError::NumericalOverflow));

    let mut claim = UserClaimAirdropWin { user_wallet: addr(40), bot_wallet: addr(3), user_details: credit.user_details, win };
    let args = UserClaimAirdropWinArgs { reward_type: RewardType::GameRewardAirdrop };
    assert_eq!(claim.process(args, 69, 400), Err(WinError::InsufficientTokenBalance));
    assert_eq!(claim.process(args, 1000, 400), Ok(70));
    assert_eq!(claim.user_details.win_game_reward_amount, 0);
    assert_eq!(claim.user_details.win_last_reward_claimed_date, 400);
}

#[test]
fn treasury_movements() {
    let win = initial();
    let airdrop = AirdropToken { bot_wallet: addr(3), win };
    assert_eq!(airdrop.process(AirdropTokenArgs { airdrop_amount: 10, pda_type: PdaType::Dao }, 9), Err(WinError::InsufficientTokenBalance));
    assert_eq!(airdrop.process(AirdropTokenArgs { airdrop_amount: 10, pda_type: PdaType::Dao }, 10), Ok(10));
    let wrong_bot = AirdropToken { bot_wallet: addr(4), win };
    assert_eq!(wrong_bot.process(AirdropTokenArgs { airdrop_amount: 10, pda_type: PdaType::Pte }, 10), Err(WinError::AccessDenied));

    let pda = WithdrawFromPda { dev_wallet: addr(4), win };
    assert_eq!(pda.process(WithdrawFromPdaArgs { withdraw_amount: 0, pda_type: PdaType::Airdrop }, 10), Err(WinError::InvalidAmount));
    assert_eq!(pda.process(WithdrawFromPdaArgs { withdraw_amount: 11, pda_type: PdaType::Airdrop }, 10), Err(WinError::InsufficientTokenBalance));
    assert_eq!(pda.process(WithdrawFromPdaArgs { withdraw_amount: 10, pda_type: PdaType::Contributors }, 10), Ok(10));

    let sol = WithdrawPdaSol { dev_wallet: addr(4), fund_wallet: addr(5), win };
    assert_eq!(sol.process(WithdrawPdaSolArgs { withdraw_amount: 11 }, 10), Err(WinError::InsufficientSolBalance));
    assert_eq!(sol.process(WithdrawPdaSolArgs { withdraw_amount: 10 }, 10), Ok(10));
    let elsewhere = WithdrawPdaSol { dev_wallet: addr(4), fund_wallet: addr(6), win };
    assert_eq!(elsewhere.process(WithdrawPdaSolArgs { withdraw_amount: 1 }, 10), Err(WinError::AccessDenied));

    let token = WithdrawPdaToken { dev_wallet: addr(1), win };
    assert_eq!(token.process(WithdrawPdaTokenArgs { withdraw_amount: 1 }, 10), Err(WinError::AccessDenied));

    let deposit = AssetsDistribution { admin_wallet: addr(1), win };
    assert_eq!(deposit.process(AssetsDistributionArgs { amount: 0 }), Err(WinError::InvalidAmount));
    assert_eq!(deposit.process(AssetsDistributionArgs { amount: 5 }), Ok(5));
}
