use vstd::prelude::*;

use crate::address::Address;
use crate::error::WinError;
use crate::state::{access_error, check_access, PdaType, RewardType, UserDetails, Win};

verus! {

/// The principals and creators that set up the global configuration.
#[derive(Clone, Copy, Debug)]
pub struct InitializeArgs {
    pub bot_wallet: Address,
    pub dev_wallet: Address,
    pub fund_wallet: Address,
    pub wings_creator: Address,
    pub freely_ticket_nft_creators: [Address; 3],
}

/// The parties that set up the global configuration.
#[derive(Clone, Copy, Debug)]
pub struct Initialize {
    pub admin_wallet: Address,
    pub token_mint_address: Address,
}

/// A global configuration as `Initialize::process` builds it: the given
/// principals, no thresholds, fees or allowances, not paused.
pub open spec fn is_initial_config(w: Win, admin: Address, mint: Address, args: InitializeArgs, bump: u8) -> bool {
    &&& w.admin_wallet == admin
    &&& w.bot_wallet == args.bot_wallet
    &&& w.dev_wallet == args.dev_wallet
    &&& w.fund_wallet == args.fund_wallet
    &&& w.win_mint_address == mint
    &&& w.wings_creator == args.wings_creator
    &&& w.sol_amount_for_bonus_tickets == 0
    &&& w.token_amount_for_bonus_tickets == 0
    &&& w.game_bonus_ticket_amount == 0
    &&& w.community_fee == 0
    &&& w.freely_ticket_nft_creators == args.freely_ticket_nft_creators
    &&& w.freely_ticket_amount@ == seq![0u32, 0, 0]
    &&& w.freely_ticket_nft_staking_lock_period@ == seq![0u8, 0, 0]
    &&& !w.is_emergency_flag
    &&& w.bump == bump
    &&& w.organizer_whitelist_merkle_root@ == Seq::new(32, |_i: int| 0u8)
    &&& w.holder_whitelist_merkle_root@ == Seq::new(32, |_i: int| 0u8)
}

impl Initialize {
    /// Builds the global configuration.
    pub fn process(&self, bump: u8, args: InitializeArgs) -> (r: Win)
        ensures
            is_initial_config(r, self.admin_wallet, self.token_mint_address, args, bump),
    {
        let w = Win {
            admin_wallet: self.admin_wallet,
            bot_wallet: args.bot_wallet,
            dev_wallet: args.dev_wallet,
            fund_wallet: args.fund_wallet,
            win_mint_address: self.token_mint_address,
            wings_creator: args.wings_creator,
            sol_amount_for_bonus_tickets: 0,
            token_amount_for_bonus_tickets: 0,
            game_bonus_ticket_amount: 0,
            community_fee: 0,
            freely_ticket_nft_creators: args.freely_ticket_nft_creators,
            freely_ticket_amount: [0, 0, 0],
            freely_ticket_nft_staking_lock_period: [0, 0, 0],
            is_emergency_flag: false,
            bump,
            organizer_whitelist_merkle_root: [0u8; 32],
            holder_whitelist_merkle_root: [0u8; 32],
        };
        assert(w.freely_ticket_amount@ =~= seq![0u32, 0, 0]);
        assert(w.freely_ticket_nft_staking_lock_period@ =~= seq![0u8, 0, 0]);
        assert(w.organizer_whitelist_merkle_root@ =~= Seq::new(32, |_i: int| 0u8));
        assert(w.holder_whitelist_merkle_root@ =~= Seq::new(32, |_i: int| 0u8));
        w
    }
}

/// The settings that the admin principal may change.
#[derive(Clone, Copy, Debug)]
pub struct UpdateByAdminWalletArgs {
    pub fund_wallet: Address,
    pub wings_creator: Address,
    pub sol_amount_for_bonus_tickets: u64,
    pub token_amount_for_bonus_tickets: u32,
    pub game_bonus_ticket_amount: u32,
    pub freely_ticket_nft_creators: [Address; 3],
    pub freely_ticket_amount: [u32; 3],
    pub freely_ticket_nft_staking_lock_period: [u8; 3],
    pub community_fee: u16,
    pub is_emergency_flag: bool,
}

/// The admin principal and the configuration it changes.
#[derive(Clone, Copy, Debug)]
pub struct UpdateByAdminWallet {
    pub admin_wallet: Address,
    pub win: Win,
}

impl UpdateByAdminWallet {
    /// Why the admin update is refused, if it is.
    pub open spec fn update_error(&self, args: UpdateByAdminWalletArgs) -> Option<WinError> {
        if self.win.admin_wallet@ != self.admin_wallet@ {
            Some(WinError::AccessDenied)
        } else if exists|i: int| 0 <= i < 3 && #[trigger] args.freely_ticket_amount[i] == 0 {
            Some(WinError::InvalidArgs)
        } else if exists|i: int| 0 <= i < 3 && #[trigger] args.freely_ticket_nft_staking_lock_period[i] == 0 {
            Some(WinError::InvalidArgs)
        } else {
            None
        }
    }

    /// The admin sets the fee rate, thresholds, freely categories (each with
    /// a nonzero allowance and lock period), fund wallet and emergency flag.
    pub fn process(&mut self, args: UpdateByAdminWalletArgs) -> (r: Result<(), WinError>)
        ensures
            match old(self).update_error(args) {
                Some(e) => r == Err::<(), WinError>(e) && *final(self) == *old(self),
                None => r is Ok && *final(self) == (UpdateByAdminWallet {
                    win: Win {
                        fund_wallet: args.fund_wallet,
                        wings_creator: args.wings_creator,
                        sol_amount_for_bonus_tickets: args.sol_amount_for_bonus_tickets,
                        token_amount_for_bonus_tickets: args.token_amount_for_bonus_tickets,
                        game_bonus_ticket_amount: args.game_bonus_ticket_amount,
                        freely_ticket_nft_creators: args.freely_ticket_nft_creators,
                        freely_ticket_amount: args.freely_ticket_amount,
                        freely_ticket_nft_staking_lock_period: args.freely_ticket_nft_staking_lock_period,
                        community_fee: args.community_fee,
                        is_emergency_flag: args.is_emergency_flag,
                        ..old(self).win
                    },
                    ..*old(self)
                }),
            },
    {
        if !self.win.admin_wallet.same(&self.admin_wallet) {
            return Err(WinError::AccessDenied);
        }
        let mut i: usize = 0;
        while i < 3
            invariant
                0 <= i <= 3,
                forall|k: int| 0 <= k < i ==> args.freely_ticket_amount[k] != 0,
                *self == *old(self),
                self.win.admin_wallet@ == self.admin_wallet@,
            decreases 3 - i,
        {
            if args.freely_ticket_amount[i] == 0 {
                assert(args.freely_ticket_amount[i as int] == 0);
                return Err(WinError::InvalidArgs);
            }
            i = i + 1;
        }
        let mut j: usize = 0;
        while j < 3
            invariant
                0 <= j <= 3,
                forall|k: int| 0 <= k < j ==> args.freely_ticket_nft_staking_lock_period[k] != 0,
                forall|k: int| 0 <= k < 3 ==> args.freely_ticket_amount[k] != 0,
                *self == *old(self),
                self.win.admin_wallet@ == self.admin_wallet@,
            decreases 3 - j,
        {
            if args.freely_ticket_nft_staking_lock_period[j] == 0 {
                assert(args.freely_ticket_nft_staking_lock_period[j as int] == 0);
                return Err(WinError::InvalidArgs);
            }
            j = j + 1;
        }
        self.win.fund_wallet = args.fund_wallet;
        self.win.wings_creator = args.wings_creator;
        self.win.sol_amount_for_bonus_tickets = args.sol_amount_for_bonus_tickets;
        self.win.token_amount_for_bonus_tickets = args.token_amount_for_bonus_tickets;
        self.win.game_bonus_ticket_amount = args.game_bonus_ticket_amount;
        self.win.freely_ticket_nft_creators = args.freely_ticket_nft_creators;
        self.win.freely_ticket_amount = args.freely_ticket_amount;
        self.win.freely_ticket_nft_staking_lock_period = args.freely_ticket_nft_staking_lock_period;
        self.win.community_fee = args.community_fee;
        self.win.is_emergency_flag = args.is_emergency_flag;
        Ok(())
    }
}

/// The settings that the dev principal may change.
#[derive(Clone, Copy, Debug)]
pub struct UpdateByDevWalletArgs {
    pub bot_wallet: Address,
    pub wings_creator: Address,
    pub is_emergency_flag: bool,
    pub freely_ticket_nft_creators: [Address; 3],
}

/// The dev principal and the configuration it changes.
#[derive(Clone, Copy, Debug)]
pub struct UpdateByDevWallet {
    pub dev_wallet: Address,
    pub win: Win,
}

impl UpdateByDevWallet {
    /// The dev principal sets the bot principal, the prize-category creator,
    /// the freely creators and the emergency flag.
    pub fn process(&mut self, args: UpdateByDevWalletArgs) -> (r: Result<(), WinError>)
        ensures
            old(self).win.dev_wallet@ != old(self).dev_wallet@ ==> r == Err::<(), WinError>(WinError::AccessDenied)
                && *final(self) == *old(self),
            old(self).win.dev_wallet@ == old(self).dev_wallet@ ==> r is Ok && *final(self) == (UpdateByDevWallet {
                win: Win {
                    bot_wallet: args.bot_wallet,
                    wings_creator: args.wings_creator,
                    is_emergency_flag: args.is_emergency_flag,
                    freely_ticket_nft_creators: args.freely_ticket_nft_creators,
                    ..old(self).win
                },
                ..*old(self)
            }),
    {
        if !self.win.dev_wallet.same(&self.dev_wallet) {
            return Err(WinError::AccessDenied);
        }
        self.win.bot_wallet = args.bot_wallet;
        self.win.wings_creator = args.wings_creator;
        self.win.is_emergency_flag = args.is_emergency_flag;
        self.win.freely_ticket_nft_creators = args.freely_ticket_nft_creators;
        Ok(())
    }
}

/// A new organizer allow-list root.
#[derive(Clone, Copy, Debug)]
pub struct UpdateMerkleWhitelistArgs {
    pub organizer_whitelist_merkle_root: [u8; 32],
}

/// The admin principal and the configuration whose root it changes.
#[derive(Clone, Copy, Debug)]
pub struct UpdateMerkleWhitelist {
    pub admin_wallet: Address,
    pub win: Win,
}

impl UpdateMerkleWhitelist {
    /// The admin replaces the organizer allow-list root.
    pub fn process(&mut self, args: UpdateMerkleWhitelistArgs) -> (r: Result<(), WinError>)
        ensures
            old(self).win.admin_wallet@ != old(self).admin_wallet@ ==> r == Err::<(), WinError>(WinError::AccessDenied)
                && *final(self) == *old(self),
            old(self).win.admin_wallet@ == old(self).admin_wallet@ ==> r is Ok && *final(self) == (UpdateMerkleWhitelist {
                win: Win { organizer_whitelist_merkle_root: args.organizer_whitelist_merkle_root, ..old(self).win },
                ..*old(self)
            }),
    {
        if !self.win.admin_wallet.same(&self.admin_wallet) {
            return Err(WinError::AccessDenied);
        }
        self.win.organizer_whitelist_merkle_root = args.organizer_whitelist_merkle_root;
        Ok(())
    }
}

/// The reward balance of `kind` in a profile.
pub open spec fn reward_balance(u: UserDetails, kind: RewardType) -> u64 {
    match kind {
        RewardType::ClaimAirdrop => u.win_airdrop_reward_amount,
        RewardType::GameRewardAirdrop => u.win_game_reward_amount,
        RewardType::DaoAirdrop => u.win_dao_reward_amount,
        RewardType::ContributorsAirdrop => u.win_contributors_reward_amount,
    }
}

/// The profile with the reward balance of `kind` replaced by `v`.
pub open spec fn with_reward_balance(u: UserDetails, kind: RewardType, v: u64) -> UserDetails {
    match kind {
        RewardType::ClaimAirdrop => UserDetails { win_airdrop_reward_amount: v, ..u },
        RewardType::GameRewardAirdrop => UserDetails { win_game_reward_amount: v, ..u },
        RewardType::DaoAirdrop => UserDetails { win_dao_reward_amount: v, ..u },
        RewardType::ContributorsAirdrop => UserDetails { win_contributors_reward_amount: v, ..u },
    }
}

fn get_reward_balance(u: &UserDetails, kind: RewardType) -> (r: u64)
    ensures
        r == reward_balance(*u, kind),
{
    match kind {
        RewardType::ClaimAirdrop => u.win_airdrop_reward_amount,
        RewardType::GameRewardAirdrop => u.win_game_reward_amount,
        RewardType::DaoAirdrop => u.win_dao_reward_amount,
        RewardType::ContributorsAirdrop => u.win_contributors_reward_amount,
    }
}

fn set_reward_balance(u: &mut UserDetails, kind: RewardType, v: u64)
    ensures
        *final(u) == with_reward_balance(*old(u), kind, v),
{
    match kind {
        RewardType::ClaimAirdrop => u.win_airdrop_reward_amount = v,
        RewardType::GameRewardAirdrop => u.win_game_reward_amount = v,
        RewardType::DaoAirdrop => u.win_dao_reward_amount = v,
        RewardType::ContributorsAirdrop => u.win_contributors_reward_amount = v,
    }
}

/// A reward credited to a user by the bot principal.
#[derive(Clone, Copy, Debug)]
pub struct UpdateUserRewardArgs {
    pub reward_amount: u64,
    pub last_game_distribute_time: u32,
    pub reward_type: RewardType,
}

/// The parties and records that crediting a reward reads.
#[derive(Clone, Copy, Debug)]
pub struct UpdateUserReward {
    pub bot_wallet: Address,
    pub user_wallet: Address,
    pub user_details: UserDetails,
    pub win: Win,
}

impl UpdateUserReward {
    /// Why crediting is refused, if it is.
    pub open spec fn credit_error(&self, args: UpdateUserRewardArgs) -> Option<WinError> {
        if access_error(self.win, self.bot_wallet) is Some {
            access_error(self.win, self.bot_wallet)
        } else if self.user_details.user_wallet@ != self.user_wallet@ {
            Some(WinError::AccessDenied)
        } else if self.user_details.last_game_distribute_time > args.last_game_distribute_time {
            Some(WinError::AlreadyReceivedGameDistribution)
        } else if args.reward_amount == 0 {
            Some(WinError::InvalidAmount)
        } else if reward_balance(self.user_details, args.reward_type) + args.reward_amount > u64::MAX {
            Some(WinError::NumericalOverflow)
        } else {
            None
        }
    }

    /// Credits a nonzero reward to one of the user's balances; a game reward
    /// also records the distribution time.
    pub fn process(&mut self, args: UpdateUserRewardArgs) -> (r: Result<(), WinError>)
        ensures
            match old(self).credit_error(args) {
                Some(e) => r == Err::<(), WinError>(e) && *final(self) == *old(self),
                None => {
                    let credited = with_reward_balance(
                        old(self).user_details,
                        args.reward_type,
                        (reward_balance(old(self).user_details, args.reward_type) + args.reward_amount) as u64,
                    );
                    &&& r is Ok
                    &&& *final(self) == (UpdateUserReward {
                        user_details: if args.reward_type == RewardType::GameRewardAirdrop {
                            UserDetails { last_game_distribute_time: args.last_game_distribute_time, ..credited }
                        } else {
                            credited
                        },
                        ..*old(self)
                    })
                },
            },
    {
        match check_access(&self.win, &self.bot_wallet) {
            Err(e) => return Err(e),
            Ok(()) => {},
        }
        if !self.user_details.user_wallet.same(&self.user_wallet) {
            return Err(WinError::AccessDenied);
        }
        if self.user_details.last_game_distribute_time > args.last_game_distribute_time {
            return Err(WinError::AlreadyReceivedGameDistribution);
        }
        if args.reward_amount == 0 {
            return Err(WinError::InvalidAmount);
        }
        let balance = get_reward_balance(&self.user_details, args.reward_type);
        let credited = match balance.checked_add(args.reward_amount) {
            Some(v) => v,
            None => return Err(WinError::NumericalOverflow),
        };
        set_reward_balance(&mut self.user_details, args.reward_type, credited);
        if args.reward_type == RewardType::GameRewardAirdrop {
            self.user_details.last_game_distribute_time = args.last_game_distribute_time;
        }
        Ok(())
    }
}

/// Which reward balance a user claims.
#[derive(Clone, Copy, Debug)]
pub struct UserClaimAirdropWinArgs {
    pub reward_type: RewardType,
}

/// The parties and records that claiming a reward reads.
#[derive(Clone, Copy, Debug)]
pub struct UserClaimAirdropWin {
    pub user_wallet: Address,
    pub bot_wallet: Address,
    pub user_details: UserDetails,
    pub win: Win,
}

impl UserClaimAirdropWin {
    /// Pays out one of the user's reward balances in full at `now`: returns
    /// the amount to move from that reward vault (`vault_balance` is what it
    /// holds), empties the balance and records the claim time.
    pub fn process(&mut self, args: UserClaimAirdropWinArgs, vault_balance: u64, now: u32) -> (r: Result<u64, WinError>)
        ensures
            access_error(old(self).win, old(self).bot_wallet) is Some ==> r == Err::<u64, WinError>(
                access_error(old(self).win, old(self).bot_wallet)->0,
            ) && *final(self) == *old(self),
            access_error(old(self).win, old(self).bot_wallet) is None && vault_balance < reward_balance(
                old(self).user_details,
                args.reward_type,
            ) ==> r == Err::<u64, WinError>(WinError::InsufficientTokenBalance) && *final(self) == *old(self),
            access_error(old(self).win, old(self).bot_wallet) is None && vault_balance >= reward_balance(
                old(self).user_details,
                args.reward_type,
            ) ==> r == Ok::<u64, WinError>(reward_balance(old(self).user_details, args.reward_type))
                && *final(self) == (UserClaimAirdropWin {
                user_details: UserDetails {
                    win_last_reward_claimed_date: now,
                    ..with_reward_balance(old(self).user_details, args.reward_type, 0)
                },
                ..*old(self)
            }),
    {
        match check_access(&self.win, &self.bot_wallet) {
            Err(e) => return Err(e),
            Ok(()) => {},
        }
        let amount = get_reward_balance(&self.user_details, args.reward_type);
        if vault_balance < amount {
            return Err(WinError::InsufficientTokenBalance);
        }
        set_reward_balance(&mut self.user_details, args.reward_type, 0);
        self.user_details.win_last_reward_claimed_date = now;
        Ok(amount)
    }
}

/// An airdrop from one of the treasury vaults.
#[derive(Clone, Copy, Debug)]
pub struct AirdropTokenArgs {
    pub airdrop_amount: u64,
    pub pda_type: PdaType,
}

/// The parties and configuration that an airdrop reads.
#[derive(Clone, Copy, Debug)]
pub struct AirdropToken {
    pub bot_wallet: Address,
    pub win: Win,
}

impl AirdropToken {
    /// The bot principal airdrops from a treasury vault (`vault_balance` is
    /// what the vault of `args.pda_type` holds): returns the amount to move.
    pub fn process(&self, args: AirdropTokenArgs, vault_balance: u64) -> (r: Result<u64, WinError>)
        ensures
            access_error(self.win, self.bot_wallet) is Some ==> r == Err::<u64, WinError>(access_error(self.win, self.bot_wallet)->0),
            access_error(self.win, self.bot_wallet) is None && vault_balance < args.airdrop_amount
                ==> r == Err::<u64, WinError>(WinError::InsufficientTokenBalance),
            access_error(self.win, self.bot_wallet) is None && vault_balance >= args.airdrop_amount
                ==> r == Ok::<u64, WinError>(args.airdrop_amount),
    {
        match check_access(&self.win, &self.bot_wallet) {
            Err(e) => return Err(e),
            Ok(()) => {},
        }
        if vault_balance < args.airdrop_amount {
            return Err(WinError::InsufficientTokenBalance);
        }
        Ok(args.airdrop_amount)
    }
}

/// A withdrawal from one of the treasury vaults.
#[derive(Clone, Copy, Debug)]
pub struct WithdrawFromPdaArgs {
    pub withdraw_amount: u64,
    pub pda_type: PdaType,
}

/// The dev principal and the configuration that a treasury withdrawal reads.
#[derive(Clone, Copy, Debug)]
pub struct WithdrawFromPda {
    pub dev_wallet: Address,
    pub win: Win,
}

/// A withdrawal by the dev principal of a nonzero `amount` from a vault that
/// holds `balance`: the amount, or the refusal.
pub open spec fn dev_withdraw_outcome(win: Win, dev: Address, amount: u64, balance: u64, short: WinError) -> Result<u64, WinError> {
    if win.dev_wallet@ != dev@ {
        Err(WinError::AccessDenied)
    } else if amount == 0 {
        Err(WinError::InvalidAmount)
    } else if balance < amount {
        Err(short)
    } else {
        Ok(amount)
    }
}

fn dev_withdraw(win: &Win, dev: &Address, amount: u64, balance: u64, short: WinError) -> (r: Result<u64, WinError>)
    ensures
        r == dev_withdraw_outcome(*win, *dev, amount, balance, short),
{
    if !win.dev_wallet.same(dev) {
        return Err(WinError::AccessDenied);
    }
    if amount == 0 {
        return Err(WinError::InvalidAmount);
    }
    if balance < amount {
        return Err(short);
    }
    Ok(amount)
}

impl WithdrawFromPda {
    /// The dev principal withdraws a nonzero amount from a treasury vault
    /// (`vault_balance` is what it holds) to the fund wallet.
    pub fn process(&self, args: WithdrawFromPdaArgs, vault_balance: u64) -> (r: Result<u64, WinError>)
        ensures
            r == dev_withdraw_outcome(self.win, self.dev_wallet, args.withdraw_amount, vault_balance, WinError::InsufficientTokenBalance),
    {
        dev_withdraw(&self.win, &self.dev_wallet, args.withdraw_amount, vault_balance, WinError::InsufficientTokenBalance)
    }
}

/// A withdrawal from the community treasury.
#[derive(Clone, Copy, Debug)]
pub struct WithdrawPdaSolArgs {
    pub withdraw_amount: u64,
}

/// The parties and configuration that a native community withdrawal reads.
#[derive(Clone, Copy, Debug)]
pub struct WithdrawPdaSol {
    pub dev_wallet: Address,
    pub fund_wallet: Address,
    pub win: Win,
}

impl WithdrawPdaSol {
    /// The dev principal withdraws a nonzero amount of the native currency
    /// from the community treasury (`vault_balance` is what it holds) to the
    /// configured fund wallet.
    pub fn process(&self, args: WithdrawPdaSolArgs, vault_balance: u64) -> (r: Result<u64, WinError>)
        ensures
            self.fund_wallet@ != self.win.fund_wallet@ ==> r == Err::<u64, WinError>(WinError::AccessDenied),
            self.fund_wallet@ == self.win.fund_wallet@ ==> r == dev_withdraw_outcome(
                self.win,
                self.dev_wallet,
                args.withdraw_amount,
                vault_balance,
                WinError::InsufficientSolBalance,
            ),
    {
        if !self.fund_wallet.same(&self.win.fund_wallet) {
            return Err(WinError::AccessDenied);
        }
        dev_withdraw(&self.win, &self.dev_wallet, args.withdraw_amount, vault_balance, WinError::InsufficientSolBalance)
    }
}

/// A withdrawal of the community treasury's fungible asset.
#[derive(Clone, Copy, Debug)]
pub struct WithdrawPdaTokenArgs {
    pub withdraw_amount: u64,
}

/// The dev principal and the configuration that a fungible community
/// withdrawal reads.
#[derive(Clone, Copy, Debug)]
pub struct WithdrawPdaToken {
    pub dev_wallet: Address,
    pub win: Win,
}

impl WithdrawPdaToken {
    /// The dev principal withdraws a nonzero amount of a fungible asset from
    /// the community treasury (`vault_balance` is what it holds).
    pub fn process(&self, args: WithdrawPdaTokenArgs, vault_balance: u64) -> (r: Result<u64, WinError>)
        ensures
            r == dev_withdraw_outcome(self.win, self.dev_wallet, args.withdraw_amount, vault_balance, WinError::InsufficientTokenBalance),
    {
        dev_withdraw(&self.win, &self.dev_wallet, args.withdraw_amount, vault_balance, WinError::InsufficientTokenBalance)
    }
}

/// A deposit into a treasury vault.
#[derive(Clone, Copy, Debug)]
pub struct AssetsDistributionArgs {
    pub amount: u64,
}

/// The admin principal and the configuration that a deposit reads.
#[derive(Clone, Copy, Debug)]
pub struct AssetsDistribution {
    pub admin_wallet: Address,
    pub win: Win,
}

impl AssetsDistribution {
    /// The admin deposits a nonzero amount into a treasury vault: returns
    /// the amount to move.
    pub fn process(&self, args: AssetsDistributionArgs) -> (r: Result<u64, WinError>)
        ensures
            self.win.admin_wallet@ != self.admin_wallet@ ==> r == Err::<u64, WinError>(WinError::AccessDenied),
            self.win.admin_wallet@ == self.admin_wallet@ && args.amount == 0 ==> r == Err::<u64, WinError>(WinError::InvalidAmount),
            self.win.admin_wallet@ == self.admin_wallet@ && args.amount != 0 ==> r == Ok::<u64, WinError>(args.amount),
    {
        if !self.win.admin_wallet.same(&self.admin_wallet) {
            return Err(WinError::AccessDenied);
        }
        if args.amount == 0 {
            return Err(WinError::InvalidAmount);
        }
        Ok(args.amount)
    }
}

} // verus!
