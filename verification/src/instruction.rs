//! Instructions: the atomic operations that a transaction carries, and the
//! six kinds of them that the token operations are made of.

use crate::address::{
    associated_token_address, associated_token_program, system_program, token_program, Address,
};
use solana_sdk::pubkey::Pubkey;
use vstd::arithmetic::div_mod::lemma_breakdown;
use vstd::arithmetic::power::{lemma_pow_positive, pow};
use vstd::prelude::*;

verus! {

/// An account that an instruction refers to, and how it uses it.
#[derive(Clone, Copy, Debug, PartialEq, Eq)]
pub struct AccountMeta {
    pub pubkey: Address,
    /// The account's key must sign the transaction.
    pub is_signer: bool,
    /// The instruction may change the account.
    pub is_writable: bool,
}

/// The mathematical value of an `AccountMeta`.
#[verifier::ext_equal]
pub struct AccountMetaView {
    pub pubkey: Seq<u8>,
    pub is_signer: bool,
    pub is_writable: bool,
}

impl View for AccountMeta {
    type V = AccountMetaView;

    open spec fn view(&self) -> AccountMetaView {
        AccountMetaView {
            pubkey: self.pubkey@,
            is_signer: self.is_signer,
            is_writable: self.is_writable,
        }
    }
}

impl DeepView for AccountMeta {
    type V = AccountMetaView;

    open spec fn deep_view(&self) -> AccountMetaView {
        self@
    }
}

/// One operation addressed to a program on the ledger.
#[derive(Clone, Debug, PartialEq, Eq)]
pub struct Instruction {
    /// The program that executes the instruction.
    pub program_id: Address,
    /// The accounts it reads or changes, in the order the program expects.
    pub accounts: Vec<AccountMeta>,
    /// The payload, in the program's own encoding.
    pub data: Vec<u8>,
}

/// The mathematical value of an `Instruction`.
#[verifier::ext_equal]
pub struct InstructionView {
    pub program_id: Seq<u8>,
    pub accounts: Seq<AccountMetaView>,
    pub data: Seq<u8>,
}

impl View for Instruction {
    type V = InstructionView;

    open spec fn view(&self) -> InstructionView {
        InstructionView {
            program_id: self.program_id@,
            accounts: self.accounts.deep_view(),
            data: self.data@,
        }
    }
}

impl DeepView for Instruction {
    type V = InstructionView;

    open spec fn deep_view(&self) -> InstructionView {
        self@
    }
}

/// An account that the instruction may change.
pub open spec fn writable(pubkey: Seq<u8>, is_signer: bool) -> AccountMetaView {
    AccountMetaView { pubkey, is_signer, is_writable: true }
}

/// An account that the instruction only reads.
pub open spec fn readonly(pubkey: Seq<u8>, is_signer: bool) -> AccountMetaView {
    AccountMetaView { pubkey, is_signer, is_writable: false }
}

/// The first `width` bytes of `value`, least significant first.
pub open spec fn le_bytes(value: nat, width: nat) -> Seq<u8>
    decreases width,
{
    if width == 0 {
        Seq::empty()
    } else {
        seq![(value % 256) as u8] + le_bytes(value / 256, (width - 1) as nat)
    }
}

/// The number that bytes denote, least significant first.
pub open spec fn le_value(bytes: Seq<u8>) -> nat
    decreases bytes.len(),
{
    if bytes.len() == 0 {
        0
    } else {
        bytes[0] as nat + 256 * le_value(bytes.drop_first())
    }
}

/// `le_bytes` gives `width` bytes, and they denote the value as far as it
/// fits in them.
pub proof fn lemma_le_bytes(value: nat, width: nat)
    ensures
        le_bytes(value, width).len() == width,
        le_value(le_bytes(value, width)) == value % (pow(256, width) as nat),
    decreases width,
{
    reveal_with_fuel(pow, 2);
    if width > 0 {
        let high = pow(256, (width - 1) as nat);
        lemma_le_bytes(value / 256, (width - 1) as nat);
        lemma_pow_positive(256, (width - 1) as nat);
        lemma_breakdown(value as int, 256, high);
        assert(le_bytes(value, width).drop_first() =~= le_bytes(value / 256, (width - 1) as nat));
    }
}

/// The 8 bytes of a 64-bit number denote it.
pub proof fn lemma_le_bytes_of_u64(value: u64)
    ensures
        le_bytes(value as nat, 8).len() == 8,
        le_value(le_bytes(value as nat, 8)) == value,
{
    lemma_le_bytes(value as nat, 8);
    reveal_with_fuel(pow, 9);
    assert(pow(256, 4) == 0x1_0000_0000);
    assert(pow(256, 8) == 0x1_0000_0000_0000_0000);
    assert((value as nat) % 0x1_0000_0000_0000_0000nat == value as nat);
}

/// Moves `amount` base units from `source` to `destination`, both holding
/// accounts of `mint`, on the word of `authority`; the program checks
/// `decimals` against the mint.
pub open spec fn transfer_checked_instruction(
    source: Seq<u8>,
    mint: Seq<u8>,
    destination: Seq<u8>,
    authority: Seq<u8>,
    amount: u64,
    decimals: u8,
) -> InstructionView {
    InstructionView {
        program_id: token_program(),
        accounts: seq![
            writable(source, false),
            readonly(mint, false),
            writable(destination, false),
            readonly(authority, true),
        ],
        data: seq![12u8] + le_bytes(amount as nat, 8) + seq![decimals],
    }
}

/// Creates `amount` base units of `mint` in the holding account `account`,
/// on the word of the mint authority `owner`.
pub open spec fn mint_to_instruction(
    mint: Seq<u8>,
    account: Seq<u8>,
    owner: Seq<u8>,
    amount: u64,
) -> InstructionView {
    InstructionView {
        program_id: token_program(),
        accounts: seq![writable(mint, false), writable(account, false), readonly(owner, true)],
        data: seq![7u8] + le_bytes(amount as nat, 8),
    }
}

/// Destroys `amount` base units of `mint` held in `account`, on the word of
/// `authority`.
pub open spec fn burn_instruction(
    account: Seq<u8>,
    mint: Seq<u8>,
    authority: Seq<u8>,
    amount: u64,
) -> InstructionView {
    InstructionView {
        program_id: token_program(),
        accounts: seq![
            writable(account, false),
            writable(mint, false),
            readonly(authority, true),
        ],
        data: seq![8u8] + le_bytes(amount as nat, 8),
    }
}

/// Makes the account `mint` a token mint with `decimals` decimal places,
/// `mint_authority` as the one who may mint, and nobody who may freeze.
pub open spec fn initialize_mint_instruction(
    mint: Seq<u8>,
    mint_authority: Seq<u8>,
    decimals: u8,
) -> InstructionView {
    InstructionView {
        program_id: token_program(),
        accounts: seq![writable(mint, false)],
        data: seq![20u8, decimals] + mint_authority + seq![0u8],
    }
}

/// Creates the account `to`, paid for by `from` with `lamports`, with `space`
/// bytes of data and `owner` as the program that owns it.
pub open spec fn create_account_instruction(
    from: Seq<u8>,
    to: Seq<u8>,
    lamports: u64,
    space: u64,
    owner: Seq<u8>,
) -> InstructionView {
    InstructionView {
        program_id: system_program(),
        accounts: seq![writable(from, true), writable(to, true)],
        data: seq![0u8, 0, 0, 0] + le_bytes(lamports as nat, 8) + le_bytes(space as nat, 8)
            + owner,
    }
}

/// Creates the holding account `account` of `wallet` for the tokens of
/// `mint` under `token_program`, paid for by `funder`.
pub open spec fn create_associated_account_instruction(
    funder: Seq<u8>,
    account: Seq<u8>,
    wallet: Seq<u8>,
    mint: Seq<u8>,
    token_program: Seq<u8>,
) -> InstructionView {
    InstructionView {
        program_id: associated_token_program(),
        accounts: seq![
            writable(funder, true),
            writable(account, false),
            readonly(wallet, false),
            readonly(mint, false),
            readonly(system_program(), false),
            readonly(token_program, false),
        ],
        data: seq![0u8],
    }
}

/// Calls `spl_token::instruction::transfer_checked` with no further
/// signers. That function refuses every program but the token program; for
/// it, it gives the token program, the accounts source (writable), mint,
/// destination (writable) and authority (signer), and as data the tag 12,
/// the amount in 8 bytes, least significant first, and the decimals.
#[verifier::external_body]
pub(crate) fn transfer_checked(
    program: &Address,
    source: &Address,
    mint: &Address,
    destination: &Address,
    authority: &Address,
    amount: u64,
    decimals: u8,
) -> (r: Option<Instruction>)
    ensures
        r.deep_view() == if program@ == token_program() {
            Some(
                transfer_checked_instruction(
                    source@,
                    mint@,
                    destination@,
                    authority@,
                    amount,
                    decimals,
                ),
            )
        } else {
            None
        },
{
    let keys = [program, source, mint, destination, authority].map(|a| Pubkey::new_from_array(a.bytes));
    let made = spl_token::instruction::transfer_checked(
        &keys[0], &keys[1], &keys[2], &keys[3], &keys[4], &[], amount, decimals,
    );
    made.ok().map(|ix| Instruction {
        program_id: Address { bytes: ix.program_id.to_bytes() },
        accounts: ix.accounts.iter().map(|m| AccountMeta {
            pubkey: Address { bytes: m.pubkey.to_bytes() },
            is_signer: m.is_signer,
            is_writable: m.is_writable,
        }).collect(),
        data: ix.data,
    })
}

/// Calls `spl_token::instruction::mint_to` with no further signers. That
/// function refuses every program but the token program; for it, it gives
/// the token program, the accounts mint (writable), account (writable) and
/// owner (signer), and as data the tag 7 and the amount in 8 bytes, least
/// significant first.
#[verifier::external_body]
pub(crate) fn mint_to(
    program: &Address,
    mint: &Address,
    account: &Address,
    owner: &Address,
    amount: u64,
) -> (r: Option<Instruction>)
    ensures
        r.deep_view() == if program@ == token_program() {
            Some(mint_to_instruction(mint@, account@, owner@, amount))
        } else {
            None
        },
{
    let keys = [program, mint, account, owner].map(|a| Pubkey::new_from_array(a.bytes));
    let made = spl_token::instruction::mint_to(&keys[0], &keys[1], &keys[2], &keys[3], &[], amount);
    made.ok().map(|ix| Instruction {
        program_id: Address { bytes: ix.program_id.to_bytes() },
        accounts: ix.accounts.iter().map(|m| AccountMeta {
            pubkey: Address { bytes: m.pubkey.to_bytes() },
            is_signer: m.is_signer,
            is_writable: m.is_writable,
        }).collect(),
        data: ix.data,
    })
}

/// Calls `spl_token::instruction::burn` with no further signers. That
/// function refuses every program but the token program; for it, it gives
/// the token program, the accounts account (writable), mint (writable) and
/// authority (signer), and as data the tag 8 and the amount in 8 bytes,
/// least significant first.
#[verifier::external_body]
pub(crate) fn burn(
    program: &Address,
    account: &Address,
    mint: &Address,
    authority: &Address,
    amount: u64,
) -> (r: Option<Instruction>)
    ensures
        r.deep_view() == if program@ == token_program() {
            Some(burn_instruction(account@, mint@, authority@, amount))
        } else {
            None
        },
{
    let keys = [program, account, mint, authority].map(|a| Pubkey::new_from_array(a.bytes));
    let made = spl_token::instruction::burn(&keys[0], &keys[1], &keys[2], &keys[3], &[], amount);
    made.ok().map(|ix| Instruction {
        program_id: Address { bytes: ix.program_id.to_bytes() },
        accounts: ix.accounts.iter().map(|m| AccountMeta {
            pubkey: Address { bytes: m.pubkey.to_bytes() },
            is_signer: m.is_signer,
            is_writable: m.is_writable,
        }).collect(),
        data: ix.data,
    })
}

/// Calls `spl_token::instruction::initialize_mint2` with no freeze
/// authority. That function refuses every program but the token program;
/// for it, it gives the token program, the one account mint (writable), and
/// as data the tag 20, the decimals, the 32 bytes of the mint authority and
/// a zero byte for the absent freeze authority.
#[verifier::external_body]
pub(crate) fn initialize_mint2(
    program: &Address,
    mint: &Address,
    mint_authority: &Address,
    decimals: u8,
) -> (r: Option<Instruction>)
    ensures
        r.deep_view() == if program@ == token_program() {
            Some(initialize_mint_instruction(mint@, mint_authority@, decimals))
        } else {
            None
        },
{
    let keys = [program, mint, mint_authority].map(|a| Pubkey::new_from_array(a.bytes));
    let made = spl_token::instruction::initialize_mint2(&keys[0], &keys[1], &keys[2], None, decimals);
    made.ok().map(|ix| Instruction {
        program_id: Address { bytes: ix.program_id.to_bytes() },
        accounts: ix.accounts.iter().map(|m| AccountMeta {
            pubkey: Address { bytes: m.pubkey.to_bytes() },
            is_signer: m.is_signer,
            is_writable: m.is_writable,
        }).collect(),
        data: ix.data,
    })
}

/// Calls `solana_sdk::system_instruction::create_account`. It gives the
/// system program, the accounts from and to (both signers, both writable),
/// and as data the variant number 0 in 4 bytes, the lamports and the space
/// in 8 bytes each, least significant first, and the 32 bytes of the owner.
#[verifier::external_body]
pub(crate) fn create_account(
    from: &Address,
    to: &Address,
    lamports: u64,
    space: u64,
    owner: &Address,
) -> (r: Instruction)
    ensures
        r@ == create_account_instruction(from@, to@, lamports, space, owner@),
{
    let keys = [from, to, owner].map(|a| Pubkey::new_from_array(a.bytes));
    let ix = solana_sdk::system_instruction::create_account(&keys[0], &keys[1], lamports, space, &keys[2]);
    Instruction {
        program_id: Address { bytes: ix.program_id.to_bytes() },
        accounts: ix.accounts.iter().map(|m| AccountMeta {
            pubkey: Address { bytes: m.pubkey.to_bytes() },
            is_signer: m.is_signer,
            is_writable: m.is_writable,
        }).collect(),
        data: ix.data,
    }
}

/// Calls
/// `spl_associated_token_account::instruction::create_associated_token_account`.
/// It derives the holding account as
/// `get_associated_token_address_with_program_id` does, and panics where
/// that derivation finds no address, so the contract asks that one exists.
/// It gives the associated-token-account program, the accounts funder
/// (signer, writable), holding account (writable), wallet, mint, system
/// program and token program, and the one data byte 0.
#[verifier::external_body]
pub(crate) fn create_associated_token_account(
    funder: &Address,
    wallet: &Address,
    mint: &Address,
    token_program: &Address,
) -> (r: Instruction)
    requires
        associated_token_address(wallet@, mint@, token_program@) is Some,
    ensures
        r@ == create_associated_account_instruction(
            funder@,
            associated_token_address(wallet@, mint@, token_program@).unwrap(),
            wallet@,
            mint@,
            token_program@,
        ),
{
    let keys = [funder, wallet, mint, token_program].map(|a| Pubkey::new_from_array(a.bytes));
    let ix = spl_associated_token_account::instruction::create_associated_token_account(
        &keys[0], &keys[1], &keys[2], &keys[3],
    );
    Instruction {
        program_id: Address { bytes: ix.program_id.to_bytes() },
        accounts: ix.accounts.iter().map(|m| AccountMeta {
            pubkey: Address { bytes: m.pubkey.to_bytes() },
            is_signer: m.is_signer,
            is_writable: m.is_writable,
        }).collect(),
        data: ix.data,
    }
}

} // verus!
