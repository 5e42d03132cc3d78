use vstd::prelude::*;

use anchor_lang::solana_program::program_pack::{IsInitialized, Pack};
use anchor_lang::solana_program::pubkey::Pubkey;

use crate::address::Address;
use crate::error::WinError;

verus! {

/// What the token-account checks read of one account: its address, the
/// program that owns it, and its data.
#[derive(Clone, Debug)]
pub struct AccountData {
    pub key: Address,
    pub owner: Address,
    pub data: Vec<u8>,
}

/// What the checks read of a decoded token account.
#[derive(Clone, Copy, Debug)]
pub struct TokenAccountView {
    pub mint: Address,
    pub owner: Address,
    pub initialized: bool,
}

/// Length of a token account's data.
pub const TOKEN_ACCOUNT_LEN: usize = 165;

/// Position of the state byte in a token account's data.
pub const TOKEN_ACCOUNT_STATE_AT: usize = 108;

/// Identity of the token program, TokenkegQfeZyiNwAJbNbGKPFXCWuBvf9Ss623VQ5DA.
pub open spec fn token_program_key() -> Seq<u8> {
    seq![
        6u8, 221, 246, 225, 215, 101, 161, 147, 217, 203, 225, 70, 206, 235, 121, 172,
        28, 180, 133, 237, 95, 91, 55, 145, 58, 140, 245, 133, 126, 255, 0, 169,
    ]
}

/// The associated token account address of a wallet for a mint.
pub uninterp spec fn associated_token_address(wallet: Seq<u8>, mint: Seq<u8>) -> Seq<u8>;

/// Relies on `spl_token::id()` (through anchor_spl): the token program's identity.
#[verifier::external_body]
fn token_program_id() -> (r: Address)
    ensures
        r@ == token_program_key(),
{
    Address::new(anchor_spl::token::ID.to_bytes())
}

/// Relies on `spl_associated_token_account::get_associated_token_address`
/// (through anchor_spl): the derived address depends on wallet and mint alone.
#[verifier::external_body]
fn get_associated_token_address(wallet: &Address, mint: &Address) -> (r: Address)
    ensures
        r@ == associated_token_address(wallet@, mint@),
{
    let w = Pubkey::new_from_array(wallet.bytes);
    let m = Pubkey::new_from_array(mint.bytes);
    Address::new(anchor_spl::associated_token::get_associated_token_address(&w, &m).to_bytes())
}

/// A present-or-absent tag of the token account layout at `at`: `0` or `1`
/// followed by three zero bytes.
pub open spec fn option_tag_ok(data: Seq<u8>, at: int) -> bool {
    &&& (data[at] == 0 || data[at] == 1)
    &&& data[at + 1] == 0
    &&& data[at + 2] == 0
    &&& data[at + 3] == 0
}

/// Data that decodes as a token account: 165 bytes, well-formed tags for the
/// delegate (at 72), the native amount (at 109) and the close authority (at
/// 129), and a state byte (at 108) of at most 2.
pub open spec fn decodes_as_token_account(data: Seq<u8>) -> bool {
    &&& data.len() == TOKEN_ACCOUNT_LEN
    &&& option_tag_ok(data, 72)
    &&& data[TOKEN_ACCOUNT_STATE_AT as int] <= 2
    &&& option_tag_ok(data, 109)
    &&& option_tag_ok(data, 129)
}

/// Relies on `spl_token::state::Account::unpack_unchecked` and its
/// `is_initialized`: decoding succeeds exactly on data as
/// `decodes_as_token_account` describes; the mint is bytes 0..32, the owner
/// bytes 32..64, and the account is initialized when its state byte is not 0.
#[verifier::external_body]
fn unpack_token_account(data: &[u8]) -> (r: Option<TokenAccountView>)
    ensures
        r is Some <==> decodes_as_token_account(data@),
        r matches Some(v) ==> {
            &&& v.mint@ == data@.subrange(0, 32)
            &&& v.owner@ == data@.subrange(32, 64)
            &&& v.initialized == (data@[TOKEN_ACCOUNT_STATE_AT as int] != 0)
        },
{
    match anchor_spl::token::spl_token::state::Account::unpack_unchecked(data) {
        Ok(a) => Some(TokenAccountView {
            mint: Address::new(a.mint.to_bytes()),
            owner: Address::new(a.owner.to_bytes()),
            initialized: a.is_initialized(),
        }),
        Err(_) => None,
    }
}

/// Refuses two different identities.
pub fn assert_keys_equal(key1: &Address, key2: &Address) -> (r: Result<(), WinError>)
    ensures
        key1@ == key2@ ==> r is Ok,
        key1@ != key2@ ==> r == Err::<(), WinError>(WinError::PublicKeyMismatch),
{
    if !key1.same(key2) {
        Err(WinError::PublicKeyMismatch)
    } else {
        Ok(())
    }
}

/// Refuses an account that `owner` does not own.
pub fn assert_owned_by(account: &AccountData, owner: &Address) -> (r: Result<(), WinError>)
    ensures
        account.owner@ == owner@ ==> r is Ok,
        account.owner@ != owner@ ==> r == Err::<(), WinError>(WinError::IncorrectOwner),
{
    if !account.owner.same(owner) {
        Err(WinError::IncorrectOwner)
    } else {
        Ok(())
    }
}

/// Decodes a token account and refuses one that is not initialized; data
/// that does not decode is refused as an invalid account.
pub fn assert_initialized(account: &AccountData) -> (r: Result<TokenAccountView, WinError>)
    ensures
        !decodes_as_token_account(account.data@) ==> r == Err::<TokenAccountView, WinError>(WinError::InvalidAccount),
        decodes_as_token_account(account.data@) && account.data@[TOKEN_ACCOUNT_STATE_AT as int] == 0
            ==> r == Err::<TokenAccountView, WinError>(WinError::UninitializedAccount),
        decodes_as_token_account(account.data@) && account.data@[TOKEN_ACCOUNT_STATE_AT as int] != 0 ==> (r matches Ok(v) && {
            &&& v.mint@ == account.data@.subrange(0, 32)
            &&& v.owner@ == account.data@.subrange(32, 64)
            &&& v.initialized
        }),
{
    match unpack_token_account(account.data.as_slice()) {
        None => Err(WinError::InvalidAccount),
        Some(v) => {
            if !v.initialized {
                Err(WinError::UninitializedAccount)
            } else {
                Ok(v)
            }
        },
    }
}

/// Why `ata` is not the initialized associated token account of `wallet`
/// for `mint`, if it is not.
pub open spec fn ata_error(ata: AccountData, wallet: Address, mint: Address) -> Option<WinError> {
    if ata.owner@ != token_program_key() {
        Some(WinError::IncorrectOwner)
    } else if !decodes_as_token_account(ata.data@) {
        Some(WinError::InvalidAccount)
    } else if ata.data@[TOKEN_ACCOUNT_STATE_AT as int] == 0 {
        Some(WinError::UninitializedAccount)
    } else if ata.data@.subrange(32, 64) != wallet@ || ata.data@.subrange(0, 32) != mint@
        || ata.key@ != associated_token_address(wallet@, mint@) {
        Some(WinError::PublicKeyMismatch)
    } else {
        None
    }
}

/// Checks that `ata` is the initialized associated token account of
/// `wallet` for `mint`: owned by the token program, holding that owner and
/// mint, at the derived address.
pub fn assert_is_ata(ata: &AccountData, wallet: &Address, mint: &Address) -> (r: Result<TokenAccountView, WinError>)
    ensures
        match ata_error(*ata, *wallet, *mint) {
            Some(e) => r == Err::<TokenAccountView, WinError>(e),
            None => r matches Ok(v) && v.owner@ == wallet@ && v.mint@ == mint@ && v.initialized,
        },
{
    let program = token_program_id();
    match assert_owned_by(ata, &program) {
        Err(e) => return Err(e),
        Ok(()) => {},
    }
    let account = match assert_initialized(ata) {
        Ok(v) => v,
        Err(e) => return Err(e),
    };
    match assert_keys_equal(&account.owner, wallet) {
        Err(e) => return Err(e),
        Ok(()) => {},
    }
    match assert_keys_equal(&account.mint, mint) {
        Err(e) => return Err(e),
        Ok(()) => {},
    }
    let derived = get_associated_token_address(wallet, mint);
    match assert_keys_equal(&derived, &ata.key) {
        Err(e) => return Err(e),
        Ok(()) => {},
    }
    Ok(account)
}

} // verus!
