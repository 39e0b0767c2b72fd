use solana_sdk::pubkey::Pubkey;
use spl_token_cli::address::{Address, AddressError};
use spl_token_cli::solana_client::{
    associated_token_account, token_account, token_account_balance,
};
use spl_token_cli::transactions::BuildError;

const MINT: &str = "So11111111111111111111111111111111111111112";
const WALLET: &str = "TokenkegQfeZyiNwAJbNbGKPFXCWuBvf9Ss623VQ5DA";

#[test]
fn the_account_looked_up_is_the_wallets_holding_account() {
    let wallet = Address::parse(WALLET).unwrap();
    let mint = Address::parse(MINT).unwrap();
    let expected = spl_associated_token_account::get_associated_token_address_with_program_id(
        &Pubkey::new_from_array(wallet.bytes),
        &Pubkey::new_from_array(mint.bytes),
        &spl_token::id(),
    );
    assert_eq!(associated_token_account(WALLET, MINT).unwrap().bytes, expected.to_bytes());
}

#[test]
fn a_malformed_wallet_is_reported_before_a_malformed_mint() {
    assert_eq!(
        associated_token_account("0OIl", "abc"),
        Err(BuildError::MalformedAddress(AddressError::Invalid))
    );
    assert_eq!(
        associated_token_account(WALLET, "abc"),
        Err(BuildError::MalformedAddress(AddressError::WrongSize))
    );
}

#[test]
fn the_account_read_is_the_payers_holding_account() {
    let payer = Address { bytes: [5u8; 32] };
    let mint = Address::parse(MINT).unwrap();
    let expected = spl_associated_token_account::get_associated_token_address(
        &Pubkey::new_from_array(payer.bytes),
        &Pubkey::new_from_array(mint.bytes),
    );
    assert_eq!(token_account(&payer, MINT).unwrap().bytes, expected.to_bytes());
    assert_eq!(
        token_account(&payer, "not an address"),
        Err(BuildError::MalformedAddress(AddressError::Invalid))
    );
}

#[test]
fn a_missing_account_holds_nothing() {
    assert_eq!(token_account_balance(None), 0);
}

#[test]
fn an_account_holds_what_the_node_says() {
    assert_eq!(token_account_balance(Some(0)), 0);
    assert_eq!(token_account_balance(Some(42)), 42);
    assert_eq!(token_account_balance(Some(u64::MAX)), u64::MAX);
}

#[test]
fn the_balance_is_the_same_when_asked_twice() {
    let first = token_account_balance(Some(17));
    let second = token_account_balance(Some(17));
    assert_eq!(first, second);
    assert_eq!(token_account_balance(None), token_account_balance(None));
}
