//! The five operations: which instructions each is made of, who has to sign
//! them, and how they become one unsigned transaction.

use crate::address::{
    associated_token_address, decoded_address, derive_associated_address, token_program,
    token_program_id, Address, AddressError,
};
use crate::amount::{base_units, scale_amount, DECIMALS};
use crate::instruction::{
    burn, burn_instruction, create_account, create_account_instruction,
    create_associated_account_instruction, create_associated_token_account, initialize_mint2,
    initialize_mint_instruction, mint_to, mint_to_instruction, transfer_checked,
    readonly, transfer_checked_instruction, writable, Instruction, InstructionView,
};
use crate::keys::{
    count_keys, fits_message, key_mentions, key_set, lemma_keys_are_few, signer_set, MAX_KEYS,
    MAX_SIGNERS,
};
use solana_sdk::program_pack::Pack;
use solana_sdk::pubkey::Pubkey;
use vstd::prelude::*;

verus! {

/// Why an operation cannot be built.
#[derive(Clone, Copy, Debug, PartialEq, Eq, Structural)]
pub enum BuildError {
    /// A text given as an address is none.
    MalformedAddress(AddressError),
    /// The amount in base units does not fit in 64 bits.
    AmountOverflow,
    /// No holding account can be derived for the wallet and the mint.
    NoAssociatedAddress,
    /// The operation has no instruction.
    NoInstructions,
    /// The operation names no signer, so nobody pays the fee.
    NoSigner,
    /// The instructions refer to more keys, or to more signers, than one
    /// message can list.
    TooManyKeys,
}

/// The instructions of an operation, in order, or why there are none.
pub type InstructionPlan = Result<Seq<InstructionView>, BuildError>;

/// Bytes of account data that a mint takes.
pub const MINT_LEN: u64 = 82;

/// Reads `spl_token::state::Mint::LEN`, the packed size of a mint. The
/// contract claims that it is 82.
#[verifier::external_body]
fn mint_len() -> (n: u64)
    ensures
        n == MINT_LEN,
{
    spl_token::state::Mint::LEN as u64
}

/// An operation that can say which instructions it consists of and which
/// keys must sign them.
///
/// `plan` and `signer_keys` are what an implementation promises of its two
/// methods. Each operation of this crate states them; where an
/// implementation leaves them as they are here, nothing is known of it.
pub trait TransactionInstructions {
    /// The instructions of the operation, in order, or why there are none.
    open spec fn plan(&self) -> InstructionPlan {
        arbitrary()
    }

    /// The keys that must sign, the fee payer first.
    open spec fn signer_keys(&self) -> Seq<Seq<u8>> {
        arbitrary()
    }

    fn instructions(&self) -> (r: Result<Vec<Instruction>, BuildError>)
        ensures
            match r {
                Ok(list) => self.plan() == Ok::<Seq<InstructionView>, BuildError>(
                    list.deep_view(),
                ),
                Err(e) => self.plan() == Err::<Seq<InstructionView>, BuildError>(e),
            },
    ;

    fn signers(&self) -> (r: Vec<Address>)
        ensures
            r.deep_view() == self.signer_keys(),
    ;
}

/// The one instruction that moves `amount` whole tokens of `mint` from the
/// holding account `source` to the holding account `destination`, on the
/// word of `signer`.
pub fn transfer_instructions(
    signer: &Address,
    source: &Address,
    mint: &Address,
    destination: &Address,
    amount: u64,
) -> (r: Result<Vec<Instruction>, BuildError>)
    ensures
        base_units(amount) <= u64::MAX ==> r is Ok && r.unwrap().deep_view() == seq![
            transfer_checked_instruction(
                source@,
                mint@,
                destination@,
                signer@,
                base_units(amount) as u64,
                DECIMALS,
            ),
        ],
        base_units(amount) > u64::MAX ==> r == Err::<Vec<Instruction>, BuildError>(
            BuildError::AmountOverflow,
        ),
{
    match scale_amount(amount) {
        None => Err(BuildError::AmountOverflow),
        Some(units) => {
            let made = transfer_checked(
                &token_program_id(),
                source,
                mint,
                destination,
                signer,
                units,
                DECIMALS,
            );
            let list = vec![made.unwrap()];
            Ok(list)
        },
    }
}

/// The one instruction that mints `amount` whole tokens of `mint` into the
/// holding account `account`, on the word of the mint authority `signer`.
pub fn mint_instructions(signer: &Address, mint: &Address, account: &Address, amount: u64) -> (r:
    Result<Vec<Instruction>, BuildError>)
    ensures
        base_units(amount) <= u64::MAX ==> r is Ok && r.unwrap().deep_view() == seq![
            mint_to_instruction(mint@, account@, signer@, base_units(amount) as u64),
        ],
        base_units(amount) > u64::MAX ==> r == Err::<Vec<Instruction>, BuildError>(
            BuildError::AmountOverflow,
        ),
{
    match scale_amount(amount) {
        None => Err(BuildError::AmountOverflow),
        Some(units) => {
            let made = mint_to(&token_program_id(), mint, account, signer, units);
            let list = vec![made.unwrap()];
            Ok(list)
        },
    }
}

/// The one instruction that burns `amount` whole tokens of `mint` held in
/// `account`, on the word of its owner `signer`.
pub fn burn_instructions(signer: &Address, account: &Address, mint: &Address, amount: u64) -> (r:
    Result<Vec<Instruction>, BuildError>)
    ensures
        base_units(amount) <= u64::MAX ==> r is Ok && r.unwrap().deep_view() == seq![
            burn_instruction(account@, mint@, signer@, base_units(amount) as u64),
        ],
        base_units(amount) > u64::MAX ==> r == Err::<Vec<Instruction>, BuildError>(
            BuildError::AmountOverflow,
        ),
{
    match scale_amount(amount) {
        None => Err(BuildError::AmountOverflow),
        Some(units) => {
            let made = burn(&token_program_id(), account, mint, signer, units);
            let list = vec![made.unwrap()];
            Ok(list)
        },
    }
}

/// What a text is as an address, with the decoding error as a build error.
pub open spec fn address_of(text: Seq<char>) -> Result<Seq<u8>, BuildError> {
    match decoded_address(text) {
        Ok(bytes) => Ok(bytes),
        Err(e) => Err(BuildError::MalformedAddress(e)),
    }
}

/// The holding account of `wallet` for `mint` under the token program.
pub open spec fn holding_account(wallet: Seq<u8>, mint: Seq<u8>) -> Option<Seq<u8>> {
    associated_token_address(wallet, mint, token_program())
}

/// Reads an address for an operation.
pub fn read_address(text: &str) -> (r: Result<Address, BuildError>)
    ensures
        match r {
            Ok(a) => address_of(text@) == Ok::<Seq<u8>, BuildError>(a@),
            Err(e) => address_of(text@) == Err::<Seq<u8>, BuildError>(e),
        },
{
    match Address::parse(text) {
        Ok(a) => Ok(a),
        Err(e) => Err(BuildError::MalformedAddress(e)),
    }
}

/// The three instructions that deploy a token: create the account `mint`
/// with `rent` lamports and room for a mint, owned by the token program;
/// make it a mint with `signer` as mint authority; create the holding
/// account of `signer` for it. `Err` where `signer` has no holding-account
/// address for `mint`.
pub fn deploy_instructions(signer: &Address, mint: &Address, rent: u64) -> (r: Result<
    Vec<Instruction>,
    BuildError,
>)
    ensures
        match holding_account(signer@, mint@) {
            Some(account) => r is Ok && r.unwrap().deep_view() == seq![
                create_account_instruction(signer@, mint@, rent, MINT_LEN, token_program()),
                initialize_mint_instruction(mint@, signer@, DECIMALS),
                create_associated_account_instruction(
                    signer@,
                    account,
                    signer@,
                    mint@,
                    token_program(),
                ),
            ],
            None => r == Err::<Vec<Instruction>, BuildError>(BuildError::NoAssociatedAddress),
        },
{
    let program = token_program_id();
    match derive_associated_address(signer, mint) {
        None => Err(BuildError::NoAssociatedAddress),
        Some(_) => {
            let create = create_account(signer, mint, rent, mint_len(), &program);
            let initialize = initialize_mint2(&program, mint, signer, DECIMALS).unwrap();
            let open = create_associated_token_account(signer, signer, mint, &program);
            let list = vec![create, initialize, open];
            Ok(list)
        },
    }
}

/// The one instruction that creates the holding account of `wallet` for
/// `mint`, paid for by `signer`. `Err` where `wallet` has no holding-account
/// address for `mint`.
pub fn create_associated_account_instructions(
    signer: &Address,
    wallet: &Address,
    mint: &Address,
) -> (r: Result<Vec<Instruction>, BuildError>)
    ensures
        match holding_account(wallet@, mint@) {
            Some(account) => r is Ok && r.unwrap().deep_view() == seq![
                create_associated_account_instruction(
                    signer@,
                    account,
                    wallet@,
                    mint@,
                    token_program(),
                ),
            ],
            None => r == Err::<Vec<Instruction>, BuildError>(BuildError::NoAssociatedAddress),
        },
{
    let program = token_program_id();
    match derive_associated_address(wallet, mint) {
        None => Err(BuildError::NoAssociatedAddress),
        Some(_) => {
            let list = vec![create_associated_token_account(signer, wallet, mint, &program)];
            Ok(list)
        },
    }
}

/// The instructions that create the holding account of the wallet written
/// in `address` for the mint written in `mint`, paid for by `signer`: one,
/// unless a text is no address or the wallet has no holding-account address.
pub open spec fn create_associated_account_plan(signer: Seq<u8>, address: Seq<char>, mint: Seq<char>) -> Result<
    Seq<InstructionView>,
    BuildError,
> {
    match address_of(mint) {
        Err(e) => Err(e),
        Ok(mint) => match address_of(address) {
            Err(e) => Err(e),
            Ok(wallet) => match holding_account(wallet, mint) {
                None => Err(BuildError::NoAssociatedAddress),
                Some(account) => Ok(
                    seq![
                        create_associated_account_instruction(
                            signer,
                            account,
                            wallet,
                            mint,
                            token_program(),
                        ),
                    ],
                ),
            },
        },
    }
}

/// The instructions that move `amount` whole tokens of the mint written in
/// `mint` from the holding account of `signer` to that of the wallet written
/// in `destination`: one, unless a text is no address, a holding-account
/// address is missing, or the amount is too large.
pub open spec fn transfer_plan(signer: Seq<u8>, mint: Seq<char>, destination: Seq<char>, amount: u64) -> Result<
    Seq<InstructionView>,
    BuildError,
> {
    match address_of(mint) {
        Err(e) => Err(e),
        Ok(mint) => match address_of(destination) {
            Err(e) => Err(e),
            Ok(destination) => match (
                holding_account(signer, mint),
                holding_account(destination, mint),
            ) {
                (Some(from), Some(to)) => if base_units(amount) > u64::MAX {
                    Err(BuildError::AmountOverflow)
                } else {
                    Ok(
                        seq![
                            transfer_checked_instruction(
                                from,
                                mint,
                                to,
                                signer,
                                base_units(amount) as u64,
                                DECIMALS,
                            ),
                        ],
                    )
                },
                _ => Err(BuildError::NoAssociatedAddress),
            },
        },
    }
}

/// The instructions that mint `amount` whole tokens of the mint written in
/// `mint` into the holding account of `signer`: one, unless the text is no
/// address, the holding-account address is missing, or the amount is too
/// large.
pub open spec fn mint_plan(signer: Seq<u8>, mint: Seq<char>, amount: u64) -> Result<
    Seq<InstructionView>,
    BuildError,
> {
    match address_of(mint) {
        Err(e) => Err(e),
        Ok(mint) => match holding_account(signer, mint) {
            None => Err(BuildError::NoAssociatedAddress),
            Some(account) => if base_units(amount) > u64::MAX {
                Err(BuildError::AmountOverflow)
            } else {
                Ok(
                    seq![
                        mint_to_instruction(
                            mint,
                            account,
                            signer,
                            base_units(amount) as u64,
                        ),
                    ],
                )
            },
        },
    }
}

/// The instructions that burn `amount` whole tokens of the mint written in
/// `mint` from the holding account of `signer`: one, unless the text is no
/// address, the holding-account address is missing, or the amount is too
/// large.
pub open spec fn burn_plan(signer: Seq<u8>, mint: Seq<char>, amount: u64) -> Result<
    Seq<InstructionView>,
    BuildError,
> {
    match address_of(mint) {
        Err(e) => Err(e),
        Ok(mint) => match holding_account(signer, mint) {
            None => Err(BuildError::NoAssociatedAddress),
            Some(account) => if base_units(amount) > u64::MAX {
                Err(BuildError::AmountOverflow)
            } else {
                Ok(
                    seq![
                        burn_instruction(
                            account,
                            mint,
                            signer,
                            base_units(amount) as u64,
                        ),
                    ],
                )
            },
        },
    }
}

/// The instructions that deploy a token with the new mint account `mint`
/// and `signer` as payer and mint authority: account creation, mint
/// initialization and the creation of the signer's holding account, in this
/// order, unless the signer has no holding-account address for the mint.
pub open spec fn deploy_plan(signer: Seq<u8>, mint: Seq<u8>, rent: u64) -> Result<
    Seq<InstructionView>,
    BuildError,
> {
    match holding_account(signer, mint) {
        None => Err(BuildError::NoAssociatedAddress),
        Some(account) => Ok(
            seq![
                create_account_instruction(
                    signer,
                    mint,
                    rent,
                    MINT_LEN,
                    token_program(),
                ),
                initialize_mint_instruction(mint, signer, DECIMALS),
                create_associated_account_instruction(
                    signer,
                    account,
                    signer,
                    mint,
                    token_program(),
                ),
            ],
        ),
    }
}

/// Creates the holding account of `address` for the tokens of `mint`.
#[derive(Clone, Debug, PartialEq, Eq)]
pub struct CreateAssociatedTokenAccountTransaction {
    /// Who pays for the account and signs.
    pub signer: Address,
    /// The wallet that gets the account, as text.
    pub address: String,
    /// The mint, as text.
    pub mint: String,
}

impl TransactionInstructions for CreateAssociatedTokenAccountTransaction {
    open spec fn plan(&self) -> Result<Seq<InstructionView>, BuildError> {
        create_associated_account_plan(self.signer@, self.address@, self.mint@)
    }

    open spec fn signer_keys(&self) -> Seq<Seq<u8>> {
        seq![self.signer@]
    }

    fn instructions(&self) -> (r: Result<Vec<Instruction>, BuildError>) {
        let mint = match read_address(self.mint.as_str()) {
            Ok(a) => a,
            Err(e) => { return Err(e); },
        };
        let wallet = match read_address(self.address.as_str()) {
            Ok(a) => a,
            Err(e) => { return Err(e); },
        };
        create_associated_account_instructions(&self.signer, &wallet, &mint)
    }

    fn signers(&self) -> (r: Vec<Address>) {
        let list = vec![self.signer];
        list
    }
}

/// Moves `amount` whole tokens of `mint` from the signer's holding account
/// to that of `destination`.
#[derive(Clone, Debug, PartialEq, Eq)]
pub struct TransferTransaction {
    /// The owner of the tokens, who pays and signs.
    pub signer: Address,
    /// The mint, as text.
    pub mint: String,
    /// The wallet that receives, as text.
    pub destination: String,
    /// Whole tokens to move.
    pub amount: u64,
}

impl TransactionInstructions for TransferTransaction {
    open spec fn plan(&self) -> Result<Seq<InstructionView>, BuildError> {
        transfer_plan(self.signer@, self.mint@, self.destination@, self.amount)
    }

    open spec fn signer_keys(&self) -> Seq<Seq<u8>> {
        seq![self.signer@]
    }

    fn instructions(&self) -> (r: Result<Vec<Instruction>, BuildError>) {
        let mint = match read_address(self.mint.as_str()) {
            Ok(a) => a,
            Err(e) => { return Err(e); },
        };
        let destination = match read_address(self.destination.as_str()) {
            Ok(a) => a,
            Err(e) => { return Err(e); },
        };
        let from = derive_associated_address(&self.signer, &mint);
        let to = derive_associated_address(&destination, &mint);
        match (from, to) {
            (Some(from), Some(to)) => transfer_instructions(
                &self.signer,
                &from,
                &mint,
                &to,
                self.amount,
            ),
            _ => Err(BuildError::NoAssociatedAddress),
        }
    }

    fn signers(&self) -> (r: Vec<Address>) {
        let list = vec![self.signer];
        list
    }
}

/// Mints `amount` whole tokens of `mint` into the signer's holding account.
#[derive(Clone, Debug, PartialEq, Eq)]
pub struct MintTransaction {
    /// The mint authority, who receives, pays and signs.
    pub signer: Address,
    /// The mint, as text.
    pub mint: String,
    /// Whole tokens to mint.
    pub amount: u64,
}

impl TransactionInstructions for MintTransaction {
    open spec fn plan(&self) -> Result<Seq<InstructionView>, BuildError> {
        mint_plan(self.signer@, self.mint@, self.amount)
    }

    open spec fn signer_keys(&self) -> Seq<Seq<u8>> {
        seq![self.signer@]
    }

    fn instructions(&self) -> (r: Result<Vec<Instruction>, BuildError>) {
        let mint = match read_address(self.mint.as_str()) {
            Ok(a) => a,
            Err(e) => { return Err(e); },
        };
        match derive_associated_address(&self.signer, &mint) {
            None => Err(BuildError::NoAssociatedAddress),
            Some(account) => mint_instructions(&self.signer, &mint, &account, self.amount),
        }
    }

    fn signers(&self) -> (r: Vec<Address>) {
        let list = vec![self.signer];
        list
    }
}

/// Burns `amount` whole tokens of `mint` from the signer's holding account.
#[derive(Clone, Debug, PartialEq, Eq)]
pub struct BurnTransaction {
    /// The mint, as text.
    pub mint: String,
    /// The owner of the tokens, who pays and signs.
    pub signer: Address,
    /// Whole tokens to burn.
    pub amount: u64,
}

impl TransactionInstructions for BurnTransaction {
    open spec fn plan(&self) -> Result<Seq<InstructionView>, BuildError> {
        burn_plan(self.signer@, self.mint@, self.amount)
    }

    open spec fn signer_keys(&self) -> Seq<Seq<u8>> {
        seq![self.signer@]
    }

    fn instructions(&self) -> (r: Result<Vec<Instruction>, BuildError>) {
        let mint = match read_address(self.mint.as_str()) {
            Ok(a) => a,
            Err(e) => { return Err(e); },
        };
        match derive_associated_address(&self.signer, &mint) {
            None => Err(BuildError::NoAssociatedAddress),
            Some(account) => burn_instructions(&self.signer, &account, &mint, self.amount),
        }
    }

    fn signers(&self) -> (r: Vec<Address>) {
        let list = vec![self.signer];
        list
    }
}

/// Creates a new token: the mint account `mint`, with the signer as mint
/// authority, and the signer's holding account for it.
#[derive(Clone, Copy, Debug, PartialEq, Eq)]
pub struct DeployTransaction {
    /// The payer and mint authority.
    pub signer: Address,
    /// The new mint's own key, which signs for the creation of its account.
    pub mint: Address,
    /// Lamports that keep the mint account exempt from rent.
    pub rent: u64,
}

impl TransactionInstructions for DeployTransaction {
    open spec fn plan(&self) -> Result<Seq<InstructionView>, BuildError> {
        deploy_plan(self.signer@, self.mint@, self.rent)
    }

    open spec fn signer_keys(&self) -> Seq<Seq<u8>> {
        seq![self.signer@, self.mint@]
    }

    fn instructions(&self) -> (r: Result<Vec<Instruction>, BuildError>) {
        deploy_instructions(&self.signer, &self.mint, self.rent)
    }

    fn signers(&self) -> (r: Vec<Address>) {
        let list = vec![self.signer, self.mint];
        list
    }
}

/// Makes `solana_sdk::transaction::Transaction` known as a type. Nothing of
/// what such a value holds is read here.
#[verifier::external_type_specification]
#[verifier::external_body]
pub struct ExCompiledTransaction(solana_sdk::transaction::Transaction);

/// An unsigned transaction: instructions that take effect together or not
/// at all, and the address that pays the fee. The freshness token and the
/// signatures are added when it is sent.
#[derive(Debug, PartialEq, Eq)]
pub struct UnsignedTransaction {
    pub fee_payer: Address,
    pub instructions: Vec<Instruction>,
    /// Payer and instructions compiled into the message that is signed and
    /// sent.
    pub unsigned: solana_sdk::transaction::Transaction,
}

/// The mathematical value of an `UnsignedTransaction`.
#[verifier::ext_equal]
pub struct TransactionView {
    pub fee_payer: Seq<u8>,
    pub instructions: Seq<InstructionView>,
    /// What the compiled transaction holds.
    pub message: MessageView,
}

impl View for UnsignedTransaction {
    type V = TransactionView;

    open spec fn view(&self) -> TransactionView {
        TransactionView {
            fee_payer: self.fee_payer@,
            instructions: self.instructions.deep_view(),
            message: message_of(self.unsigned),
        }
    }
}

impl DeepView for UnsignedTransaction {
    type V = TransactionView;

    open spec fn deep_view(&self) -> TransactionView {
        self@
    }
}

/// One instruction of a message: program and accounts by their numbers in
/// the message's list of keys.
pub struct CompiledInstructionView {
    pub program: nat,
    pub accounts: Seq<nat>,
    pub data: Seq<u8>,
}

/// What a compiled transaction holds.
pub struct MessageView {
    /// How many signatures the message asks for.
    pub required_signatures: nat,
    /// Every key once; those that sign come first.
    pub account_keys: Seq<Seq<u8>>,
    pub instructions: Seq<CompiledInstructionView>,
    /// How many of the signatures asked for are given.
    pub signed: nat,
}

/// What the compiled transaction holds.
pub uninterp spec fn message_of(transaction: solana_sdk::transaction::Transaction) -> MessageView;

/// What `Transaction::new_with_payer` compiles instructions and a payer to.
pub uninterp spec fn compiled_message(
    instructions: Seq<InstructionView>,
    payer: Seq<u8>,
) -> MessageView;

/// Whether `message` lists the keys of the transaction as a compiled
/// message does: each key once, the fee payer first, the keys that sign
/// before the others, and as many signatures asked for as keys sign.
pub open spec fn lists_keys(
    instructions: Seq<InstructionView>,
    payer: Seq<u8>,
    message: MessageView,
) -> bool {
    &&& message.account_keys.no_duplicates()
    &&& message.account_keys.to_set() == key_set(payer, instructions)
    &&& message.account_keys.len() > 0
    &&& message.account_keys[0] == payer
    &&& message.required_signatures == signer_set(payer, instructions).len()
    &&& message.required_signatures <= message.account_keys.len()
    &&& message.account_keys.take(message.required_signatures as int).to_set() == signer_set(
        payer,
        instructions,
    )
}

/// Whether `message` carries the instructions as a compiled message does:
/// as many, in the same order, each with its data, its program and its
/// accounts, the keys replaced by their numbers.
pub open spec fn carries_instructions(
    instructions: Seq<InstructionView>,
    message: MessageView,
) -> bool {
    &&& message.instructions.len() == instructions.len()
    &&& forall|i: int|
        0 <= i < instructions.len() ==> {
            let made = #[trigger] message.instructions[i];
            &&& made.data == instructions[i].data
            &&& made.program < message.account_keys.len()
            &&& message.account_keys[made.program as int] == instructions[i].program_id
            &&& made.accounts.len() == instructions[i].accounts.len()
            &&& forall|j: int|
                0 <= j < made.accounts.len() ==> (#[trigger] made.accounts[j])
                    < message.account_keys.len() && message.account_keys[made.accounts[j] as int]
                    == instructions[i].accounts[j].pubkey
        }
}

/// Whether the message of the transaction is compiled from its fee payer
/// and its instructions, with every signature still open.
pub open spec fn well_compiled(transaction: TransactionView) -> bool {
    &&& lists_keys(transaction.instructions, transaction.fee_payer, transaction.message)
    &&& carries_instructions(transaction.instructions, transaction.message)
    &&& transaction.message.signed == 0
}

/// Calls `solana_sdk::transaction::Transaction::new_with_payer`, which
/// compiles the message and leaves the signatures open. It panics where the
/// keys that sign are more than 255, and numbers the keys in one byte, so
/// the contract asks for no more than 256 keys and 255 signers. It names
/// what the result holds `compiled_message`, and claims of it what the
/// compilation shows: every key is listed once, the payer first, then the
/// other signers; the header asks for as many signatures as keys sign; the
/// instructions stand in their order, with their data and with the numbers
/// of their keys; and no signature is attached yet.
#[verifier::external_body]
fn new_with_payer(instructions: &Vec<Instruction>, payer: &Address) -> (r:
    solana_sdk::transaction::Transaction)
    requires
        key_set(payer@, instructions.deep_view()).finite(),
        signer_set(payer@, instructions.deep_view()).finite(),
        fits_message(payer@, instructions.deep_view()),
    ensures
        message_of(r) == compiled_message(instructions.deep_view(), payer@),
        lists_keys(instructions.deep_view(), payer@, message_of(r)),
        carries_instructions(instructions.deep_view(), message_of(r)),
        message_of(r).signed == 0,
{
    let list: Vec<solana_sdk::instruction::Instruction> = instructions.iter().map(|ix| {
        solana_sdk::instruction::Instruction {
            program_id: Pubkey::new_from_array(ix.program_id.bytes),
            accounts: ix.accounts.iter().map(|m| solana_sdk::instruction::AccountMeta {
                pubkey: Pubkey::new_from_array(m.pubkey.bytes),
                is_signer: m.is_signer,
                is_writable: m.is_writable,
            }).collect(),
            data: ix.data.clone(),
        }
    }).collect();
    solana_sdk::transaction::Transaction::new_with_payer(&list, Some(&Pubkey::new_from_array(payer.bytes)))
}

/// The keys without whose signatures the network rejects the transaction:
/// the fee payer, and every account that an instruction marks as signer.
pub open spec fn required_signers(transaction: TransactionView) -> Set<Seq<u8>> {
    signer_set(transaction.fee_payer, transaction.instructions)
}

/// The unsigned transaction of instructions and a fee payer: both as they
/// are, and both compiled.
pub open spec fn unsigned_transaction(
    instructions: Seq<InstructionView>,
    payer: Seq<u8>,
) -> TransactionView {
    TransactionView {
        fee_payer: payer,
        instructions,
        message: compiled_message(instructions, payer),
    }
}

/// The transaction that an operation with these instructions and signers
/// becomes: its instructions in order, paid for by the first signer. An
/// operation without instructions or without signer becomes none, and
/// neither does one whose keys no message can list.
pub open spec fn assembled(
    plan: Result<Seq<InstructionView>, BuildError>,
    signer_keys: Seq<Seq<u8>>,
) -> Result<TransactionView, BuildError> {
    match plan {
        Err(e) => Err(e),
        Ok(instructions) => if instructions.len() == 0 {
            Err(BuildError::NoInstructions)
        } else if signer_keys.len() == 0 {
            Err(BuildError::NoSigner)
        } else if !fits_message(signer_keys[0], instructions) {
            Err(BuildError::TooManyKeys)
        } else {
            Ok(unsigned_transaction(instructions, signer_keys[0]))
        },
    }
}

/// Assembles instructions into an unsigned transaction that the first of
/// `signers` pays for, and compiles it. An empty list of instructions is
/// refused, and so are an empty list of signers and instructions with more
/// different keys than a message can list.
///
/// The compiled message lists every key once, the fee payer first and the
/// signers before the others, asks for the signatures of exactly the
/// required signers, carries the instructions in their order, and has no
/// signature attached.
pub fn assemble(instructions: Vec<Instruction>, signers: &Vec<Address>) -> (r: Result<
    UnsignedTransaction,
    BuildError,
>)
    ensures
        match r {
            Ok(made) => assembled(
                Ok::<Seq<InstructionView>, BuildError>(instructions.deep_view()),
                signers.deep_view(),
            ) == Ok::<TransactionView, BuildError>(made@),
            Err(e) => assembled(
                Ok::<Seq<InstructionView>, BuildError>(instructions.deep_view()),
                signers.deep_view(),
            ) == Err::<TransactionView, BuildError>(e),
        },
        r matches Ok(made) ==> {
            &&& made.instructions == instructions
            &&& made.fee_payer == signers[0]
            &&& well_compiled(made@)
        },
{
    if instructions.len() == 0 {
        return Err(BuildError::NoInstructions);
    }
    if signers.len() == 0 {
        return Err(BuildError::NoSigner);
    }
    let fee_payer = signers[0];
    let (keys, signing) = count_keys(&instructions, &fee_payer);
    if keys > MAX_KEYS || signing > MAX_SIGNERS {
        Err(BuildError::TooManyKeys)
    } else {
        let unsigned = new_with_payer(&instructions, &fee_payer);
        Ok(UnsignedTransaction { fee_payer, instructions, unsigned })
    }
}

/// Builds the unsigned transaction of an operation: its instructions, paid
/// for by its first signer, and compiled as `assemble` compiles them. It
/// fails as the operation's instructions fail, where there is no
/// instruction, where there is no signer, and where no message can list the
/// keys.
pub fn create_transaction<T: TransactionInstructions>(transaction: &T) -> (r: Result<
    UnsignedTransaction,
    BuildError,
>)
    ensures
        match r {
            Ok(made) => assembled(transaction.plan(), transaction.signer_keys()) == Ok::<
                TransactionView,
                BuildError,
            >(made@),
            Err(e) => assembled(transaction.plan(), transaction.signer_keys()) == Err::<
                TransactionView,
                BuildError,
            >(e),
        },
        r matches Ok(made) ==> well_compiled(made@),
{
    match transaction.instructions() {
        Ok(instructions) => assemble(instructions, &transaction.signers()),
        Err(e) => Err(e),
    }
}

/// None of the five operations mentions too many keys: each becomes a
/// transaction as soon as its instructions can be built.
pub proof fn lemma_operations_fit(
    signer: Seq<u8>,
    mint: Seq<char>,
    wallet: Seq<char>,
    amount: u64,
    new_mint: Seq<u8>,
    rent: u64,
)
    ensures
        assembled(transfer_plan(signer, mint, wallet, amount), seq![signer]) is Ok
            <==> transfer_plan(signer, mint, wallet, amount) is Ok,
        assembled(mint_plan(signer, mint, amount), seq![signer]) is Ok <==> mint_plan(
            signer,
            mint,
            amount,
        ) is Ok,
        assembled(burn_plan(signer, mint, amount), seq![signer]) is Ok <==> burn_plan(
            signer,
            mint,
            amount,
        ) is Ok,
        assembled(create_associated_account_plan(signer, wallet, mint), seq![signer]) is Ok
            <==> create_associated_account_plan(signer, wallet, mint) is Ok,
        assembled(deploy_plan(signer, new_mint, rent), seq![signer, new_mint]) is Ok
            <==> deploy_plan(signer, new_mint, rent) is Ok,
{
    reveal_with_fuel(key_mentions, 4);
    if let Ok(list) = transfer_plan(signer, mint, wallet, amount) {
        lemma_keys_are_few(signer, list);
    }
    if let Ok(list) = mint_plan(signer, mint, amount) {
        lemma_keys_are_few(signer, list);
    }
    if let Ok(list) = burn_plan(signer, mint, amount) {
        lemma_keys_are_few(signer, list);
    }
    if let Ok(list) = create_associated_account_plan(signer, wallet, mint) {
        lemma_keys_are_few(signer, list);
    }
    if let Ok(list) = deploy_plan(signer, new_mint, rent) {
        lemma_keys_are_few(signer, list);
    }
}

/// A transfer can be built exactly where both texts are addresses, payer
/// and destination have holding accounts for the mint, and the amount fits.
/// It is then one instruction: it moves the amount in base units from the
/// payer's holding account for the mint to that of the destination, both
/// writable, names the mint, and is signed by the payer.
pub proof fn lemma_transfer_plan(
    signer: Seq<u8>,
    mint: Seq<char>,
    destination: Seq<char>,
    amount: u64,
)
    ensures
        transfer_plan(signer, mint, destination, amount) is Ok <==> {
            &&& address_of(mint) is Ok
            &&& address_of(destination) is Ok
            &&& holding_account(signer, address_of(mint).unwrap()) is Some
            &&& holding_account(address_of(destination).unwrap(), address_of(mint).unwrap())
                is Some
            &&& base_units(amount) <= u64::MAX
        },
        transfer_plan(signer, mint, destination, amount) matches Ok(list) ==> {
            let m = address_of(mint).unwrap();
            let d = address_of(destination).unwrap();
            &&& list.len() == 1
            &&& list[0] == transfer_checked_instruction(
                holding_account(signer, m).unwrap(),
                m,
                holding_account(d, m).unwrap(),
                signer,
                base_units(amount) as u64,
                DECIMALS,
            )
            &&& list[0].accounts[0] == writable(holding_account(signer, m).unwrap(), false)
            &&& list[0].accounts[1] == readonly(m, false)
            &&& list[0].accounts[2] == writable(holding_account(d, m).unwrap(), false)
            &&& list[0].accounts[3] == readonly(signer, true)
        },
{
}

/// The message of a transaction that the payer signs alone asks for one
/// signature, the payer's.
pub proof fn lemma_message_of_one_signer(
    instructions: Seq<InstructionView>,
    payer: Seq<u8>,
    message: MessageView,
)
    requires
        lists_keys(instructions, payer, message),
        signer_set(payer, instructions) == set![payer],
    ensures
        message.required_signatures == 1,
        message.account_keys[0] == payer,
{
}

/// The message of a deployment by a payer for another key as mint carries
/// three instructions and asks for two signatures: the payer's, whose key
/// stands first, and the mint's, whose key stands second.
pub proof fn lemma_message_of_deployment(
    signer: Seq<u8>,
    mint: Seq<u8>,
    rent: u64,
    message: MessageView,
)
    requires
        signer != mint,
        deploy_plan(signer, mint, rent) is Ok,
        lists_keys(deploy_plan(signer, mint, rent).unwrap(), signer, message),
        carries_instructions(deploy_plan(signer, mint, rent).unwrap(), message),
    ensures
        message.required_signatures == 2,
        message.account_keys[0] == signer,
        message.account_keys[1] == mint,
        message.instructions.len() == 3,
{
    lemma_deploy_plan(signer, mint, rent);
    lemma_operations_fit(signer, seq![], seq![], 0, mint, rent);
    let signing = message.account_keys.take(2);
    assert(signing.to_set().contains(mint));
    let n = choose|n: int| 0 <= n < signing.len() && signing[n] == mint;
    assert(message.account_keys[n] == mint);
}

/// A transfer, a mint, a burn and the creation of a holding account need
/// the signature of the signer and of nobody else.
pub proof fn lemma_payer_signs_alone(
    signer: Seq<u8>,
    mint: Seq<char>,
    wallet: Seq<char>,
    amount: u64,
)
    ensures
        assembled(transfer_plan(signer, mint, wallet, amount), seq![signer]) matches Ok(t)
            ==> required_signers(t) == set![signer],
        assembled(mint_plan(signer, mint, amount), seq![signer]) matches Ok(t)
            ==> required_signers(t) == set![signer],
        assembled(burn_plan(signer, mint, amount), seq![signer]) matches Ok(t)
            ==> required_signers(t) == set![signer],
        assembled(create_associated_account_plan(signer, wallet, mint), seq![signer]) matches Ok(t)
            ==> required_signers(t) == set![signer],
{
}

/// A deployment that can be built has exactly three instructions, in this
/// order: the creation of the mint account, the initialization of the mint,
/// the creation of the payer's holding account. It needs the signatures of
/// the payer and of the new mint, and of nobody else. It can be built
/// exactly where the payer has a holding-account address for the mint.
pub proof fn lemma_deploy_plan(signer: Seq<u8>, mint: Seq<u8>, rent: u64)
    ensures
        deploy_plan(signer, mint, rent) is Ok <==> holding_account(signer, mint) is Some,
        deploy_plan(signer, mint, rent) matches Ok(list) ==> {
            &&& list.len() == 3
            &&& list[0] == create_account_instruction(signer, mint, rent, MINT_LEN, token_program())
            &&& list[1] == initialize_mint_instruction(mint, signer, DECIMALS)
            &&& list[2] == create_associated_account_instruction(
                signer,
                holding_account(signer, mint).unwrap(),
                signer,
                mint,
                token_program(),
            )
        },
        assembled(deploy_plan(signer, mint, rent), seq![signer, mint]) matches Ok(t) ==> {
            &&& t.fee_payer == signer
            &&& required_signers(t) == set![signer, mint]
        },
{
    if let Ok(t) = assembled(deploy_plan(signer, mint, rent), seq![signer, mint]) {
        assert(t.instructions[0].accounts[1].is_signer);
    }
}

} // verus!
