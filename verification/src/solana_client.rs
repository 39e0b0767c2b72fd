//! What the client asks the node about, and what it makes of the answers.
//! The asking itself is the caller's business.

use crate::address::{
    associated_token_address, derive_associated_address_with_program, token_program,
    token_program_id, Address,
};
use crate::transactions::{address_of, read_address, BuildError};
use vstd::prelude::*;

verus! {

/// The account whose existence tells whether the wallet written in `wallet`
/// can receive tokens of the mint written in `mint`: the wallet's holding
/// account for the mint.
pub open spec fn account_to_check(wallet: Seq<char>, mint: Seq<char>) -> Result<
    Seq<u8>,
    BuildError,
> {
    match address_of(wallet) {
        Err(e) => Err(e),
        Ok(wallet) => match address_of(mint) {
            Err(e) => Err(e),
            Ok(mint) => match associated_token_address(wallet, mint, token_program()) {
                None => Err(BuildError::NoAssociatedAddress),
                Some(account) => Ok(account),
            },
        },
    }
}

/// The account that holds the tokens of the mint written in `mint` for
/// `payer`.
pub open spec fn account_to_read(payer: Seq<u8>, mint: Seq<char>) -> Result<Seq<u8>, BuildError> {
    match address_of(mint) {
        Err(e) => Err(e),
        Ok(mint) => match associated_token_address(payer, mint, token_program()) {
            None => Err(BuildError::NoAssociatedAddress),
            Some(account) => Ok(account),
        },
    }
}

/// The whole tokens in a holding account, given what the node says it
/// holds: nothing where there is no such account.
pub open spec fn balance_of(holding: Option<u64>) -> u64 {
    match holding {
        Some(tokens) => tokens,
        None => 0,
    }
}

/// Finds the account to look for before tokens are sent to a wallet.
pub fn associated_token_account(wallet_address: &str, mint_address: &str) -> (r: Result<
    Address,
    BuildError,
>)
    ensures
        match r {
            Ok(account) => account_to_check(wallet_address@, mint_address@) == Ok::<
                Seq<u8>,
                BuildError,
            >(account@),
            Err(e) => account_to_check(wallet_address@, mint_address@) == Err::<
                Seq<u8>,
                BuildError,
            >(e),
        },
{
    let wallet = match read_address(wallet_address) {
        Ok(a) => a,
        Err(e) => { return Err(e); },
    };
    let mint = match read_address(mint_address) {
        Ok(a) => a,
        Err(e) => { return Err(e); },
    };
    match derive_associated_address_with_program(&wallet, &mint, &token_program_id()) {
        None => Err(BuildError::NoAssociatedAddress),
        Some(account) => Ok(account),
    }
}

/// Finds the account to read the payer's balance from.
pub fn token_account(payer: &Address, mint_address: &str) -> (r: Result<Address, BuildError>)
    ensures
        match r {
            Ok(account) => account_to_read(payer@, mint_address@) == Ok::<Seq<u8>, BuildError>(
                account@,
            ),
            Err(e) => account_to_read(payer@, mint_address@) == Err::<Seq<u8>, BuildError>(e),
        },
{
    let mint = match read_address(mint_address) {
        Ok(a) => a,
        Err(e) => { return Err(e); },
    };
    match derive_associated_address_with_program(payer, &mint, &token_program_id()) {
        None => Err(BuildError::NoAssociatedAddress),
        Some(account) => Ok(account),
    }
}

/// The balance to report, given what the node says the account holds. An
/// account that does not exist holds nothing; that is no error.
pub fn token_account_balance(holding: Option<u64>) -> (balance: u64)
    ensures
        balance == balance_of(holding),
        holding is None ==> balance == 0,
{
    match holding {
        Some(tokens) => tokens,
        None => 0,
    }
}

} // verus!
