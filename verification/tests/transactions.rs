use solana_sdk::instruction::Instruction as OutsideInstruction;
use solana_sdk::pubkey::Pubkey;
use solana_sdk::transaction::Transaction as OutsideTransaction;
use spl_token_cli::address::{derive_associated_address, Address, AddressError};
use spl_token_cli::instruction::{AccountMeta, Instruction};
use spl_token_cli::keys::{count_keys, holds_address, note_address, same_address};
use spl_token_cli::transactions::{
    assemble, burn_instructions, create_associated_account_instructions, create_transaction,
    deploy_instructions, mint_instructions, read_address, transfer_instructions, BuildError,
    BurnTransaction, CreateAssociatedTokenAccountTransaction, DeployTransaction, MintTransaction,
    TransactionInstructions, TransferTransaction, MINT_LEN,
};

const MINT: &str = "So11111111111111111111111111111111111111112";
const DESTINATION: &str = "Vote111111111111111111111111111111111111111";

fn payer() -> Address {
    Address { bytes: [42u8; 32] }
}

fn key(address: &Address) -> Pubkey {
    Pubkey::new_from_array(address.bytes)
}

fn outside(instruction: &Instruction) -> OutsideInstruction {
    OutsideInstruction {
        program_id: key(&instruction.program_id),
        accounts: instruction
            .accounts
            .iter()
            .map(|meta| solana_sdk::instruction::AccountMeta {
                pubkey: key(&meta.pubkey),
                is_signer: meta.is_signer,
                is_writable: meta.is_writable,
            })
            .collect(),
        data: instruction.data.clone(),
    }
}

fn meta(pubkey: Address, is_signer: bool, is_writable: bool) -> AccountMeta {
    AccountMeta { pubkey, is_signer, is_writable }
}

fn token_program() -> Address {
    Address { bytes: spl_token::id().to_bytes() }
}

#[test]
fn transfer_of_five_tokens_moves_five_billion_base_units() {
    let mint = Address::parse(MINT).unwrap();
    let destination = Address::parse(DESTINATION).unwrap();
    let from = derive_associated_address(&payer(), &mint).unwrap();
    let to = derive_associated_address(&destination, &mint).unwrap();
    let operation = TransferTransaction {
        signer: payer(),
        mint: MINT.to_string(),
        destination: DESTINATION.to_string(),
        amount: 5,
    };
    let list = operation.instructions().unwrap();
    assert_eq!(list.len(), 1);
    assert_eq!(list[0].program_id, token_program());
    assert_eq!(
        list[0].accounts,
        vec![
            meta(from, false, true),
            meta(mint, false, false),
            meta(to, false, true),
            meta(payer(), true, false),
        ]
    );
    assert_eq!(list[0].data, vec![12, 0, 242, 5, 42, 1, 0, 0, 0, 9]);
    let expected = spl_token::instruction::transfer_checked(
        &spl_token::id(),
        &key(&from),
        &key(&mint),
        &key(&to),
        &key(&payer()),
        &[],
        5 * 10u64.pow(9),
        9,
    )
    .unwrap();
    assert_eq!(outside(&list[0]), expected);
    let unpacked = spl_token::instruction::TokenInstruction::unpack(&list[0].data).unwrap();
    assert_eq!(
        unpacked,
        spl_token::instruction::TokenInstruction::TransferChecked {
            amount: 5_000_000_000,
            decimals: 9
        }
    );
    assert_eq!(operation.signers(), vec![payer()]);
}

#[test]
fn transfer_instructions_take_the_accounts_as_given() {
    let source = Address { bytes: [1u8; 32] };
    let mint = Address { bytes: [2u8; 32] };
    let destination = Address { bytes: [3u8; 32] };
    let list = transfer_instructions(&payer(), &source, &mint, &destination, 1).unwrap();
    assert_eq!(
        list,
        vec![Instruction {
            program_id: token_program(),
            accounts: vec![
                meta(source, false, true),
                meta(mint, false, false),
                meta(destination, false, true),
                meta(payer(), true, false),
            ],
            data: vec![12, 0, 202, 154, 59, 0, 0, 0, 0, 9],
        }]
    );
}

#[test]
fn transfer_of_too_much_is_refused() {
    let a = Address { bytes: [1u8; 32] };
    assert_eq!(
        transfer_instructions(&payer(), &a, &a, &a, 18_446_744_074),
        Err(BuildError::AmountOverflow)
    );
    let operation = TransferTransaction {
        signer: payer(),
        mint: MINT.to_string(),
        destination: DESTINATION.to_string(),
        amount: u64::MAX,
    };
    assert_eq!(operation.instructions(), Err(BuildError::AmountOverflow));
}

#[test]
fn transfer_reads_the_mint_before_the_destination() {
    let operation = TransferTransaction {
        signer: payer(),
        mint: "abc".to_string(),
        destination: "0OIl".to_string(),
        amount: 1,
    };
    assert_eq!(
        operation.instructions(),
        Err(BuildError::MalformedAddress(AddressError::WrongSize))
    );
    let operation = TransferTransaction {
        signer: payer(),
        mint: MINT.to_string(),
        destination: "0OIl".to_string(),
        amount: 1,
    };
    assert_eq!(
        operation.instructions(),
        Err(BuildError::MalformedAddress(AddressError::Invalid))
    );
}

#[test]
fn mint_goes_to_the_signers_holding_account() {
    let mint = Address::parse(MINT).unwrap();
    let account = derive_associated_address(&payer(), &mint).unwrap();
    let operation = MintTransaction { signer: payer(), mint: MINT.to_string(), amount: 3 };
    let list = operation.instructions().unwrap();
    assert_eq!(
        list,
        vec![Instruction {
            program_id: token_program(),
            accounts: vec![
                meta(mint, false, true),
                meta(account, false, true),
                meta(payer(), true, false),
            ],
            data: vec![7, 0, 94, 208, 178, 0, 0, 0, 0],
        }]
    );
    let expected = spl_token::instruction::mint_to(
        &spl_token::id(),
        &key(&mint),
        &key(&account),
        &key(&payer()),
        &[],
        3_000_000_000,
    )
    .unwrap();
    assert_eq!(outside(&list[0]), expected);
    assert_eq!(list, mint_instructions(&payer(), &mint, &account, 3).unwrap());
    assert_eq!(operation.signers(), vec![payer()]);
}

#[test]
fn mint_of_too_much_or_of_no_mint_is_refused() {
    let operation = MintTransaction { signer: payer(), mint: MINT.to_string(), amount: u64::MAX };
    assert_eq!(operation.instructions(), Err(BuildError::AmountOverflow));
    let operation = MintTransaction { signer: payer(), mint: "abc".to_string(), amount: 1 };
    assert_eq!(
        operation.instructions(),
        Err(BuildError::MalformedAddress(AddressError::WrongSize))
    );
}

#[test]
fn burn_takes_from_the_signers_holding_account() {
    let mint = Address::parse(MINT).unwrap();
    let account = derive_associated_address(&payer(), &mint).unwrap();
    let operation = BurnTransaction { mint: MINT.to_string(), signer: payer(), amount: 2 };
    let list = operation.instructions().unwrap();
    assert_eq!(
        list,
        vec![Instruction {
            program_id: token_program(),
            accounts: vec![
                meta(account, false, true),
                meta(mint, false, true),
                meta(payer(), true, false),
            ],
            data: vec![8, 0, 148, 53, 119, 0, 0, 0, 0],
        }]
    );
    let expected = spl_token::instruction::burn(
        &spl_token::id(),
        &key(&account),
        &key(&mint),
        &key(&payer()),
        &[],
        2_000_000_000,
    )
    .unwrap();
    assert_eq!(outside(&list[0]), expected);
    assert_eq!(list, burn_instructions(&payer(), &account, &mint, 2).unwrap());
    assert_eq!(operation.signers(), vec![payer()]);
}

#[test]
fn burn_of_too_much_or_of_no_mint_is_refused() {
    let operation =
        BurnTransaction { mint: MINT.to_string(), signer: payer(), amount: 18_446_744_074 };
    assert_eq!(operation.instructions(), Err(BuildError::AmountOverflow));
    let operation = BurnTransaction { mint: "0OIl".to_string(), signer: payer(), amount: 1 };
    assert_eq!(
        operation.instructions(),
        Err(BuildError::MalformedAddress(AddressError::Invalid))
    );
}

#[test]
fn holding_account_is_created_for_the_wallet() {
    let mint = Address::parse(MINT).unwrap();
    let wallet = Address::parse(DESTINATION).unwrap();
    let account = derive_associated_address(&wallet, &mint).unwrap();
    let operation = CreateAssociatedTokenAccountTransaction {
        signer: payer(),
        address: DESTINATION.to_string(),
        mint: MINT.to_string(),
    };
    let list = operation.instructions().unwrap();
    assert_eq!(
        list,
        vec![Instruction {
            program_id: Address { bytes: spl_associated_token_account::id().to_bytes() },
            accounts: vec![
                meta(payer(), true, true),
                meta(account, false, true),
                meta(wallet, false, false),
                meta(mint, false, false),
                meta(Address { bytes: [0u8; 32] }, false, false),
                meta(token_program(), false, false),
            ],
            data: vec![0],
        }]
    );
    let expected = spl_associated_token_account::instruction::create_associated_token_account(
        &key(&payer()),
        &key(&wallet),
        &key(&mint),
        &spl_token::id(),
    );
    assert_eq!(outside(&list[0]), expected);
    assert_eq!(list, create_associated_account_instructions(&payer(), &wallet, &mint).unwrap());
    assert_eq!(operation.signers(), vec![payer()]);
}

#[test]
fn holding_account_creation_reads_the_mint_before_the_wallet() {
    let operation = CreateAssociatedTokenAccountTransaction {
        signer: payer(),
        address: "0OIl".to_string(),
        mint: "abc".to_string(),
    };
    assert_eq!(
        operation.instructions(),
        Err(BuildError::MalformedAddress(AddressError::WrongSize))
    );
}

#[test]
fn deploy_has_three_instructions_in_order() {
    let new_mint = Address { bytes: [77u8; 32] };
    let account = derive_associated_address(&payer(), &new_mint).unwrap();
    let operation = DeployTransaction { signer: payer(), mint: new_mint, rent: 1_461_600 };
    let list = operation.instructions().unwrap();
    assert_eq!(list.len(), 3);

    let mut create_data = vec![0u8, 0, 0, 0];
    create_data.extend_from_slice(&1_461_600u64.to_le_bytes());
    create_data.extend_from_slice(&82u64.to_le_bytes());
    create_data.extend_from_slice(&spl_token::id().to_bytes());
    assert_eq!(
        list[0],
        Instruction {
            program_id: Address { bytes: [0u8; 32] },
            accounts: vec![meta(payer(), true, true), meta(new_mint, true, true)],
            data: create_data,
        }
    );

    let mut initialize_data = vec![20u8, 9];
    initialize_data.extend_from_slice(&payer().bytes);
    initialize_data.push(0);
    assert_eq!(
        list[1],
        Instruction {
            program_id: token_program(),
            accounts: vec![meta(new_mint, false, true)],
            data: initialize_data,
        }
    );

    assert_eq!(
        list[2],
        Instruction {
            program_id: Address { bytes: spl_associated_token_account::id().to_bytes() },
            accounts: vec![
                meta(payer(), true, true),
                meta(account, false, true),
                meta(payer(), false, false),
                meta(new_mint, false, false),
                meta(Address { bytes: [0u8; 32] }, false, false),
                meta(token_program(), false, false),
            ],
            data: vec![0],
        }
    );
    assert_eq!(operation.signers(), vec![payer(), new_mint]);
    assert_eq!(list, deploy_instructions(&payer(), &new_mint, 1_461_600).unwrap());
}

#[test]
fn deploy_agrees_with_the_outside_builders() {
    let new_mint = Address { bytes: [78u8; 32] };
    let operation = DeployTransaction { signer: payer(), mint: new_mint, rent: 5 };
    let list = operation.instructions().unwrap();
    let expected = vec![
        solana_sdk::system_instruction::create_account(
            &key(&payer()),
            &key(&new_mint),
            5,
            82,
            &spl_token::id(),
        ),
        spl_token::instruction::initialize_mint2(
            &spl_token::id(),
            &key(&new_mint),
            &key(&payer()),
            None,
            9,
        )
        .unwrap(),
        spl_associated_token_account::instruction::create_associated_token_account(
            &key(&payer()),
            &key(&payer()),
            &key(&new_mint),
            &spl_token::id(),
        ),
    ];
    let made: Vec<OutsideInstruction> = list.iter().map(outside).collect();
    assert_eq!(made, expected);
}

#[test]
fn a_mint_account_takes_82_bytes() {
    assert_eq!(MINT_LEN, 82);
    assert_eq!(
        MINT_LEN as usize,
        <spl_token::state::Mint as solana_sdk::program_pack::Pack>::LEN
    );
}

#[test]
fn read_address_wraps_the_decoding_error() {
    assert_eq!(read_address(MINT), Ok(Address::parse(MINT).unwrap()));
    assert_eq!(read_address("abc"), Err(BuildError::MalformedAddress(AddressError::WrongSize)));
}

#[test]
fn the_first_signer_pays_the_fee() {
    let new_mint = Address { bytes: [77u8; 32] };
    let operation = DeployTransaction { signer: payer(), mint: new_mint, rent: 10 };
    let transaction = create_transaction(&operation).unwrap();
    assert_eq!(transaction.fee_payer, payer());
    assert_eq!(transaction.instructions, operation.instructions().unwrap());
}

#[test]
fn a_transaction_keeps_the_error_of_its_operation() {
    let operation = MintTransaction { signer: payer(), mint: "abc".to_string(), amount: 1 };
    assert_eq!(
        create_transaction(&operation),
        Err(BuildError::MalformedAddress(AddressError::WrongSize))
    );
}

#[test]
fn an_empty_list_of_instructions_is_no_transaction() {
    assert_eq!(assemble(Vec::new(), &vec![payer()]), Err(BuildError::NoInstructions));
    assert_eq!(assemble(Vec::new(), &Vec::new()), Err(BuildError::NoInstructions));
}

#[test]
fn an_empty_list_of_signers_is_no_transaction() {
    let a = Address { bytes: [1u8; 32] };
    let list = transfer_instructions(&payer(), &a, &a, &a, 1).unwrap();
    assert_eq!(assemble(list, &Vec::new()), Err(BuildError::NoSigner));
}

#[test]
fn assemble_keeps_instructions_and_payer() {
    let a = Address { bytes: [1u8; 32] };
    let list = transfer_instructions(&payer(), &a, &a, &a, 1).unwrap();
    let other = Address { bytes: [9u8; 32] };
    let transaction = assemble(list.clone(), &vec![payer(), other]).unwrap();
    assert_eq!(transaction.fee_payer, payer());
    assert_eq!(transaction.instructions, list);
}

#[test]
fn the_compiled_transaction_is_that_of_the_instructions() {
    let new_mint = Address { bytes: [77u8; 32] };
    let operation = DeployTransaction { signer: payer(), mint: new_mint, rent: 10 };
    let transaction = create_transaction(&operation).unwrap();
    let instructions: Vec<OutsideInstruction> =
        transaction.instructions.iter().map(outside).collect();
    let expected = OutsideTransaction::new_with_payer(&instructions, Some(&key(&payer())));
    assert_eq!(transaction.unsigned, expected);
    assert_eq!(transaction.unsigned.message.instructions.len(), 3);
    assert!(!transaction.unsigned.is_signed());
}

fn numbered(count: usize, is_signer: bool) -> Vec<AccountMeta> {
    (0..count)
        .map(|n| {
            let mut bytes = [1u8; 32];
            bytes[0] = (n % 256) as u8;
            bytes[1] = (n / 256) as u8;
            meta(Address { bytes }, is_signer, n % 2 == 0)
        })
        .collect()
}

#[test]
fn a_key_mentioned_often_is_one_key() {
    let instruction = Instruction {
        program_id: payer(),
        accounts: vec![meta(payer(), true, true); 254],
        data: vec![7],
    };
    assert_eq!(count_keys(&vec![instruction.clone()], &payer()), (1, 1));
    let transaction = assemble(vec![instruction.clone()], &vec![payer()]).unwrap();
    assert_eq!(transaction.fee_payer, payer());
    assert_eq!(transaction.instructions, vec![instruction.clone()]);
    assert_eq!(transaction.unsigned.message.account_keys.len(), 1);
    assert_eq!(transaction.unsigned.message.header.num_required_signatures, 1);

    let many = vec![instruction; 40];
    assert_eq!(count_keys(&many, &payer()), (1, 1));
    assert!(assemble(many, &vec![payer()]).is_ok());
}

#[test]
fn keys_are_counted_once_each() {
    let program = Address { bytes: [9u8; 32] };
    let a = Address { bytes: [1u8; 32] };
    let b = Address { bytes: [2u8; 32] };
    let first = Instruction {
        program_id: program,
        accounts: vec![meta(a, true, false), meta(b, false, true), meta(a, false, false)],
        data: Vec::new(),
    };
    let second = Instruction {
        program_id: program,
        accounts: vec![meta(b, true, false), meta(payer(), false, false)],
        data: Vec::new(),
    };
    assert_eq!(count_keys(&Vec::new(), &payer()), (1, 1));
    assert_eq!(count_keys(&vec![first.clone()], &payer()), (4, 2));
    assert_eq!(count_keys(&vec![first, second], &payer()), (4, 3));
}

#[test]
fn as_many_keys_as_a_message_can_number_compile() {
    let program = Address { bytes: [9u8; 32] };
    let instruction =
        Instruction { program_id: program, accounts: numbered(254, false), data: vec![1, 2, 3] };
    assert_eq!(count_keys(&vec![instruction.clone()], &payer()), (256, 1));
    let transaction = assemble(vec![instruction], &vec![payer()]).unwrap();
    let message = &transaction.unsigned.message;
    assert_eq!(message.account_keys.len(), 256);
    assert_eq!(message.account_keys[0].to_bytes(), payer().bytes);
    assert_eq!(message.header.num_required_signatures, 1);
    let compiled = &message.instructions[0];
    assert_eq!(message.account_keys[compiled.program_id_index as usize].to_bytes(), program.bytes);
    for (n, index) in compiled.accounts.iter().enumerate() {
        assert_eq!(
            message.account_keys[*index as usize].to_bytes(),
            transaction.instructions[0].accounts[n].pubkey.bytes
        );
    }
}

#[test]
fn more_keys_than_a_message_can_number_are_no_transaction() {
    let program = Address { bytes: [9u8; 32] };
    let instruction =
        Instruction { program_id: program, accounts: numbered(255, false), data: Vec::new() };
    assert_eq!(count_keys(&vec![instruction.clone()], &payer()), (257, 1));
    assert_eq!(assemble(vec![instruction], &vec![payer()]), Err(BuildError::TooManyKeys));
}

#[test]
fn as_many_signers_as_a_message_can_ask_for_compile() {
    let instruction =
        Instruction { program_id: payer(), accounts: numbered(254, true), data: Vec::new() };
    assert_eq!(count_keys(&vec![instruction.clone()], &payer()), (255, 255));
    let transaction = assemble(vec![instruction], &vec![payer()]).unwrap();
    let message = &transaction.unsigned.message;
    assert_eq!(message.header.num_required_signatures, 255);
    assert_eq!(message.account_keys.len(), 255);
    assert_eq!(transaction.unsigned.signatures.len(), 255);
    assert!(!transaction.unsigned.is_signed());
}

#[test]
fn more_signers_than_a_message_can_ask_for_are_no_transaction() {
    let instruction =
        Instruction { program_id: payer(), accounts: numbered(255, true), data: Vec::new() };
    assert_eq!(count_keys(&vec![instruction.clone()], &payer()), (256, 256));
    assert_eq!(assemble(vec![instruction], &vec![payer()]), Err(BuildError::TooManyKeys));
}

#[test]
fn the_compiled_deployment_asks_for_payer_and_mint() {
    let new_mint = Address { bytes: [77u8; 32] };
    let operation = DeployTransaction { signer: payer(), mint: new_mint, rent: 10 };
    let transaction = create_transaction(&operation).unwrap();
    let message = &transaction.unsigned.message;
    assert_eq!(message.header.num_required_signatures, 2);
    assert_eq!(message.account_keys[0].to_bytes(), payer().bytes);
    assert_eq!(message.account_keys[1].to_bytes(), new_mint.bytes);
    assert_eq!(message.instructions.len(), 3);
    for (n, compiled) in message.instructions.iter().enumerate() {
        assert_eq!(compiled.data, transaction.instructions[n].data);
        assert_eq!(
            message.account_keys[compiled.program_id_index as usize].to_bytes(),
            transaction.instructions[n].program_id.bytes
        );
    }
    assert_eq!(
        transaction.unsigned.signatures,
        vec![solana_sdk::signature::Signature::default(); 2]
    );
}

#[test]
fn addresses_are_compared_by_their_bytes() {
    let a = Address { bytes: [1u8; 32] };
    let mut b = a;
    assert!(same_address(&a, &b));
    b.bytes[31] = 2;
    assert!(!same_address(&a, &b));
    assert!(holds_address(&vec![b, a], &a));
    assert!(!holds_address(&vec![b], &a));
    let mut list = vec![a];
    note_address(&mut list, a);
    assert_eq!(list, vec![a]);
    note_address(&mut list, b);
    assert_eq!(list, vec![a, b]);
}

#[test]
fn the_signers_named_are_those_the_network_asks_for() {
    let new_mint = Address { bytes: [77u8; 32] };
    let operation = DeployTransaction { signer: payer(), mint: new_mint, rent: 10 };
    let transaction = create_transaction(&operation).unwrap();
    let compiled = transaction.unsigned;
    let required = compiled.message.header.num_required_signatures as usize;
    let mut asked: Vec<[u8; 32]> =
        compiled.message.account_keys[..required].iter().map(|k| k.to_bytes()).collect();
    let mut named: Vec<[u8; 32]> = operation.signers().iter().map(|a| a.bytes).collect();
    asked.sort();
    named.sort();
    assert_eq!(asked, named);
    assert_eq!(compiled.message.account_keys[0].to_bytes(), payer().bytes);
}

#[test]
fn a_transfer_asks_for_the_payers_signature_alone() {
    let operation = TransferTransaction {
        signer: payer(),
        mint: MINT.to_string(),
        destination: DESTINATION.to_string(),
        amount: 5,
    };
    let transaction = create_transaction(&operation).unwrap();
    let compiled = transaction.unsigned;
    assert_eq!(compiled.message.header.num_required_signatures, 1);
    assert_eq!(compiled.message.account_keys[0].to_bytes(), payer().bytes);
}

struct Unsigned;

impl TransactionInstructions for Unsigned {
    fn instructions(&self) -> Result<Vec<Instruction>, BuildError> {
        let a = Address { bytes: [1u8; 32] };
        transfer_instructions(&a, &a, &a, &a, 1)
    }

    fn signers(&self) -> Vec<Address> {
        Vec::new()
    }
}

struct Idle;

impl TransactionInstructions for Idle {
    fn instructions(&self) -> Result<Vec<Instruction>, BuildError> {
        Ok(Vec::new())
    }

    fn signers(&self) -> Vec<Address> {
        Vec::new()
    }
}

#[test]
fn an_operation_without_signer_is_no_transaction() {
    assert_eq!(create_transaction(&Unsigned), Err(BuildError::NoSigner));
}

#[test]
fn an_operation_without_instructions_is_no_transaction() {
    assert_eq!(create_transaction(&Idle), Err(BuildError::NoInstructions));
}
