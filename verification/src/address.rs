//! Account addresses: 32 bytes, written in base 58.

use solana_sdk::pubkey::{ParsePubkeyError, Pubkey};
use std::str::FromStr;
use vstd::prelude::*;

verus! {

/// A public identifier of an account on the ledger.
#[derive(Clone, Copy, Debug, PartialEq, Eq, Hash)]
pub struct Address {
    pub bytes: [u8; 32],
}

impl View for Address {
    type V = Seq<u8>;

    open spec fn view(&self) -> Seq<u8> {
        self.bytes@
    }
}

impl DeepView for Address {
    type V = Seq<u8>;

    open spec fn deep_view(&self) -> Seq<u8> {
        self.bytes@
    }
}

/// Why a text is not an address.
#[derive(Clone, Copy, Debug, PartialEq, Eq, Structural)]
pub enum AddressError {
    /// The text has more than 44 characters, or it decodes to fewer than 32
    /// bytes.
    WrongSize,
    /// The text is not base 58, or it has at most 44 characters and decodes
    /// to more than 32 bytes.
    Invalid,
}

/// What `Pubkey::from_str` makes of a text: the 32 bytes it decodes to, or
/// the reason it does not decode.
pub uninterp spec fn decoded_address(text: Seq<char>) -> Result<Seq<u8>, AddressError>;

/// The base-58 text that `Pubkey::to_string` gives for 32 bytes.
pub uninterp spec fn address_text(bytes: Seq<u8>) -> Seq<char>;

/// Calls `solana_sdk::pubkey::Pubkey::from_str`. The contract claims only
/// that the outcome is a function of the text, named `decoded_address`.
#[verifier::external_body]
fn pubkey_from_str(text: &str) -> (r: Result<Address, AddressError>)
    ensures
        match r {
            Ok(a) => decoded_address(text@) == Ok::<Seq<u8>, AddressError>(a@),
            Err(e) => decoded_address(text@) == Err::<Seq<u8>, AddressError>(e),
        },
{
    match Pubkey::from_str(text) {
        Ok(key) => Ok(Address { bytes: key.to_bytes() }),
        Err(ParsePubkeyError::WrongSize) => Err(AddressError::WrongSize),
        Err(ParsePubkeyError::Invalid) => Err(AddressError::Invalid),
    }
}

/// Calls `Pubkey::to_string`, the base-58 rendering of the 32 bytes. The
/// contract claims only that the text is a function of the bytes, named
/// `address_text`.
#[verifier::external_body]
fn pubkey_to_string(address: &Address) -> (text: String)
    ensures
        text@ == address_text(address@),
{
    Pubkey::new_from_array(address.bytes).to_string()
}

/// The token program: the 32 bytes of
/// `TokenkegQfeZyiNwAJbNbGKPFXCWuBvf9Ss623VQ5DA`.
pub open spec fn token_program() -> Seq<u8> {
    seq![
        6u8, 221, 246, 225, 215, 101, 161, 147, 217, 203, 225, 70, 206, 235, 121, 172,
        28, 180, 133, 237, 95, 91, 55, 145, 58, 140, 245, 133, 126, 255, 0, 169,
    ]
}

/// The associated-token-account program: the 32 bytes of
/// `ATokenGPvbdGVxr1b2hvZbsiqW5xWH25efTNsLJA8knL`.
pub open spec fn associated_token_program() -> Seq<u8> {
    seq![
        140u8, 151, 37, 143, 78, 36, 137, 241, 187, 61, 16, 41, 20, 142, 13, 131,
        11, 90, 19, 153, 218, 255, 16, 132, 4, 142, 123, 216, 219, 233, 248, 89,
    ]
}

/// The system program: 32 zero bytes.
pub open spec fn system_program() -> Seq<u8> {
    Seq::new(32, |i: int| 0u8)
}

/// The address that `Pubkey::try_find_program_address` derives from seeds
/// and a program, if it finds one.
pub uninterp spec fn program_address(seeds: Seq<Seq<u8>>, program: Seq<u8>) -> Option<Seq<u8>>;

/// The holding account of `wallet` for the tokens of `mint` under
/// `token_program`: the program address of the seeds wallet, token program
/// and mint, in this order, under the associated-token-account program. It
/// is `None` where no such address exists.
pub open spec fn associated_token_address(
    wallet: Seq<u8>,
    mint: Seq<u8>,
    token_program: Seq<u8>,
) -> Option<Seq<u8>> {
    program_address(seq![wallet, token_program, mint], associated_token_program())
}

/// Calls `spl_token::id`. The contract claims that it is the 32 bytes
/// written out in `token_program`.
#[verifier::external_body]
pub(crate) fn token_program_id() -> (id: Address)
    ensures
        id@ == token_program(),
{
    Address { bytes: spl_token::id().to_bytes() }
}

/// Calls `spl_associated_token_account::id`. The contract claims that it is
/// the 32 bytes written out in `associated_token_program`.
#[verifier::external_body]
fn associated_token_program_id() -> (id: Address)
    ensures
        id@ == associated_token_program(),
{
    Address { bytes: spl_associated_token_account::id().to_bytes() }
}

/// Calls `Pubkey::try_find_program_address` and keeps the address, dropping
/// the bump seed. The search is a function of seeds and program alone; the
/// contract names its outcome `program_address` and claims nothing else.
#[verifier::external_body]
fn try_find_program_address(seeds: &Vec<Address>, program: &Address) -> (r: Option<Address>)
    ensures
        r.deep_view() == program_address(seeds.deep_view(), program@),
{
    let parts: Vec<&[u8]> = seeds.iter().map(|seed| seed.bytes.as_slice()).collect();
    Pubkey::try_find_program_address(&parts, &Pubkey::new_from_array(program.bytes))
        .map(|(key, _)| Address { bytes: key.to_bytes() })
}

/// Calls `spl_associated_token_account::get_associated_token_address`, which
/// is `get_associated_token_address_with_program_id` for the token program.
/// It panics where the search for a program address finds none, so the
/// contract asks that one exists.
#[verifier::external_body]
fn get_associated_token_address(wallet: &Address, mint: &Address) -> (r: Address)
    requires
        associated_token_address(wallet@, mint@, token_program()) is Some,
    ensures
        Some(r@) == associated_token_address(wallet@, mint@, token_program()),
{
    let key = spl_associated_token_account::get_associated_token_address(
        &Pubkey::new_from_array(wallet.bytes),
        &Pubkey::new_from_array(mint.bytes),
    );
    Address { bytes: key.to_bytes() }
}

/// Calls
/// `spl_associated_token_account::get_associated_token_address_with_program_id`:
/// the first part of `Pubkey::find_program_address` on the seeds wallet,
/// token program and mint under the associated-token-account program. It
/// panics where that search finds no address, so the contract asks that one
/// exists.
#[verifier::external_body]
fn get_associated_token_address_with_program_id(
    wallet: &Address,
    mint: &Address,
    token_program: &Address,
) -> (r: Address)
    requires
        associated_token_address(wallet@, mint@, token_program@) is Some,
    ensures
        Some(r@) == associated_token_address(wallet@, mint@, token_program@),
{
    let key = spl_associated_token_account::get_associated_token_address_with_program_id(
        &Pubkey::new_from_array(wallet.bytes),
        &Pubkey::new_from_array(mint.bytes),
        &Pubkey::new_from_array(token_program.bytes),
    );
    Address { bytes: key.to_bytes() }
}

/// Whether `wallet` has a holding-account address for `mint` under
/// `token_program`.
fn has_derived_address(wallet: &Address, mint: &Address, token_program: &Address) -> (b: bool)
    ensures
        b == (associated_token_address(wallet@, mint@, token_program@) is Some),
{
    let seeds = vec![*wallet, *token_program, *mint];
    let found = try_find_program_address(&seeds, &associated_token_program_id());
    proof {
        assert(seeds.deep_view() =~= seq![wallet@, token_program@, mint@]);
    }
    found.is_some()
}

/// The holding account of `wallet` for the tokens of `mint`, under the token
/// program; `None` where the derivation finds no address.
pub fn derive_associated_address(wallet: &Address, mint: &Address) -> (r: Option<Address>)
    ensures
        r.deep_view() == associated_token_address(wallet@, mint@, token_program()),
{
    let program = token_program_id();
    if has_derived_address(wallet, mint, &program) {
        Some(get_associated_token_address(wallet, mint))
    } else {
        None
    }
}

/// As `derive_associated_address`, for the token program given.
pub fn derive_associated_address_with_program(
    wallet: &Address,
    mint: &Address,
    token_program: &Address,
) -> (r: Option<Address>)
    ensures
        r.deep_view() == associated_token_address(wallet@, mint@, token_program@),
{
    if has_derived_address(wallet, mint, token_program) {
        Some(get_associated_token_address_with_program_id(wallet, mint, token_program))
    } else {
        None
    }
}

impl Address {
    /// Reads an address from its base-58 text.
    pub fn parse(text: &str) -> (r: Result<Address, AddressError>)
        ensures
            match r {
                Ok(a) => decoded_address(text@) == Ok::<Seq<u8>, AddressError>(a@),
                Err(e) => decoded_address(text@) == Err::<Seq<u8>, AddressError>(e),
            },
    {
        pubkey_from_str(text)
    }

    /// The base-58 text of the address.
    pub fn to_text(&self) -> (text: String)
        ensures
            text@ == address_text(self@),
    {
        pubkey_to_string(self)
    }
}

} // verus!
