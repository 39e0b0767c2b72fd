use spl_token_cli::address::{derive_associated_address, Address, AddressError};
use spl_token_cli::commands::{
    BurnArgs, Cli, DeployArgs, MintArgs, TokenBalanceArgs, TransferArgs,
};
use spl_token_cli::handlers::{
    handle_balance, handle_burn, handle_deploy, handle_mint, handle_transfer, start, step, Action,
    Event, Handler, HandlerError, Notice, Stage,
};
use spl_token_cli::table::Accent;
use spl_token_cli::transactions::{
    create_transaction, BuildError, BurnTransaction, CreateAssociatedTokenAccountTransaction,
    DeployTransaction, MintTransaction, TransferTransaction,
};

const MINT: &str = "So11111111111111111111111111111111111111112";
const DESTINATION: &str = "Vote111111111111111111111111111111111111111";

fn payer() -> Address {
    Address { bytes: [42u8; 32] }
}

fn transfer(amount: u64) -> Cli {
    Cli::Transfer(TransferArgs {
        mint: MINT.to_string(),
        destination: DESTINATION.to_string(),
        amount,
    })
}

fn transfer_transaction(amount: u64) -> Action {
    let operation = TransferTransaction {
        signer: payer(),
        mint: MINT.to_string(),
        destination: DESTINATION.to_string(),
        amount,
    };
    Action::Submit {
        transaction: create_transaction(&operation).unwrap(),
        signers: vec![payer()],
    }
}

fn creation_transaction() -> Action {
    let operation = CreateAssociatedTokenAccountTransaction {
        signer: payer(),
        address: DESTINATION.to_string(),
        mint: MINT.to_string(),
    };
    Action::Submit {
        transaction: create_transaction(&operation).unwrap(),
        signers: vec![payer()],
    }
}

fn begin(command: Cli) -> (Handler, Action) {
    step(start(payer(), command), Event::Started)
}

fn strings(words: &[&str]) -> Vec<String> {
    words.iter().map(|w| w.to_string()).collect()
}

#[test]
fn transfer_looks_for_the_destinations_holding_account_first() {
    let (handler, action) = begin(transfer(5));
    let destination = Address::parse(DESTINATION).unwrap();
    let mint = Address::parse(MINT).unwrap();
    let account = derive_associated_address(&destination, &mint).unwrap();
    assert_eq!(action, Action::LookUp { account });
    assert_eq!(handler.stage, Stage::Resolving);
    assert_eq!(handler.payer, payer());
    assert_eq!(handler.command, transfer(5));
}

#[test]
fn transfer_to_an_existing_account_submits_the_transfer_alone() {
    let (handler, _) = begin(transfer(5));
    let (handler, action) = step(handler, Event::AccountLooked { found: true });
    assert_eq!(action, transfer_transaction(5));
    assert_eq!(handler.stage, Stage::Submitting);
    let (handler, action) = step(handler, Event::Confirmed { signature: "sig".to_string() });
    assert_eq!(handler.stage, Stage::Done);
    match action {
        Action::Finish { closing, table } => {
            assert_eq!(closing, Some(Notice::TransferFinalized));
            assert_eq!(
                table.headers,
                strings(&["Signature", "Destination", "Source", "Mint", "Amount", "Method"])
            );
            assert_eq!(
                table.cells,
                vec![
                    "sig".to_string(),
                    DESTINATION.to_string(),
                    payer().to_text(),
                    MINT.to_string(),
                    "-5".to_string(),
                    "Transfer".to_string(),
                ]
            );
            assert_eq!(table.accent, Some(Accent::Blue));
        }
        other => panic!("unexpected action {:?}", other),
    }
}

#[test]
fn transfer_to_a_missing_account_creates_it_once_before() {
    let mut submitted = Vec::new();
    let (handler, _) = begin(transfer(5));
    let (handler, action) = step(handler, Event::AccountLooked { found: false });
    assert_eq!(handler.stage, Stage::Creating);
    submitted.push(action);
    let (handler, action) = step(handler, Event::Confirmed { signature: "first".to_string() });
    assert_eq!(handler.stage, Stage::Announcing);
    assert_eq!(
        action,
        Action::Announce { notice: Notice::AccountCreated { signature: "first".to_string() } }
    );
    let (handler, action) = step(handler, Event::Announced);
    assert_eq!(handler.stage, Stage::Submitting);
    submitted.push(action);
    let (handler, action) = step(handler, Event::Confirmed { signature: "second".to_string() });
    assert_eq!(handler.stage, Stage::Done);
    assert!(matches!(action, Action::Finish { .. }));
    assert_eq!(submitted, vec![creation_transaction(), transfer_transaction(5)]);
}

#[test]
fn a_failed_look_up_counts_as_a_missing_account() {
    let (handler, _) = begin(transfer(5));
    let (handler, action) = step(handler, Event::Failed { message: "timeout".to_string() });
    assert_eq!(handler.stage, Stage::Creating);
    assert_eq!(action, creation_transaction());
}

#[test]
fn a_malformed_address_ends_the_command_before_anything_is_asked() {
    let malformed = BuildError::MalformedAddress(AddressError::WrongSize);
    let commands = vec![
        Cli::Transfer(TransferArgs {
            mint: MINT.to_string(),
            destination: "abc".to_string(),
            amount: 1,
        }),
        Cli::Transfer(TransferArgs {
            mint: "abc".to_string(),
            destination: DESTINATION.to_string(),
            amount: 1,
        }),
        Cli::Mint(MintArgs { mint: "abc".to_string(), amount: 1 }),
        Cli::Burn(BurnArgs { mint: "abc".to_string(), amount: 1 }),
        Cli::Balance(TokenBalanceArgs { mint: "abc".to_string() }),
    ];
    for command in commands {
        let (handler, action) = begin(command);
        assert_eq!(handler.stage, Stage::Failed);
        assert_eq!(action, Action::Abort { error: HandlerError::Build(malformed) });
    }
}

#[test]
fn an_amount_too_large_fails_when_the_transfer_is_built() {
    let (handler, action) = begin(transfer(u64::MAX));
    assert!(matches!(action, Action::LookUp { .. }));
    let (handler, action) = step(handler, Event::AccountLooked { found: true });
    assert_eq!(handler.stage, Stage::Failed);
    assert_eq!(action, Action::Abort { error: HandlerError::Build(BuildError::AmountOverflow) });
}

#[test]
fn mint_submits_at_once_and_shows_the_amount_as_gained() {
    let command = Cli::Mint(MintArgs { mint: MINT.to_string(), amount: 7 });
    let (handler, action) = begin(command);
    let operation = MintTransaction { signer: payer(), mint: MINT.to_string(), amount: 7 };
    assert_eq!(
        action,
        Action::Submit {
            transaction: create_transaction(&operation).unwrap(),
            signers: vec![payer()],
        }
    );
    assert_eq!(handler.stage, Stage::Submitting);
    let (handler, action) = step(handler, Event::Confirmed { signature: "sig".to_string() });
    assert_eq!(handler.stage, Stage::Done);
    match action {
        Action::Finish { closing, table } => {
            assert_eq!(closing, Some(Notice::MintFinalized));
            assert_eq!(
                table.cells,
                vec![
                    "sig".to_string(),
                    payer().to_text(),
                    MINT.to_string(),
                    "+7".to_string(),
                    "Mint".to_string(),
                ]
            );
            assert_eq!(table.accent, Some(Accent::Green));
        }
        other => panic!("unexpected action {:?}", other),
    }
}

#[test]
fn burn_submits_at_once_and_shows_the_amount_as_spent() {
    let command = Cli::Burn(BurnArgs { mint: MINT.to_string(), amount: 8 });
    let (handler, action) = begin(command);
    let operation = BurnTransaction { mint: MINT.to_string(), signer: payer(), amount: 8 };
    assert_eq!(
        action,
        Action::Submit {
            transaction: create_transaction(&operation).unwrap(),
            signers: vec![payer()],
        }
    );
    let (handler, action) = step(handler, Event::Confirmed { signature: "sig".to_string() });
    assert_eq!(handler.stage, Stage::Done);
    match action {
        Action::Finish { closing, table } => {
            assert_eq!(closing, Some(Notice::BurnFinalized));
            assert_eq!(
                table.cells,
                vec![
                    "sig".to_string(),
                    payer().to_text(),
                    MINT.to_string(),
                    "-8".to_string(),
                    "Burn".to_string(),
                ]
            );
            assert_eq!(table.accent, Some(Accent::Red));
        }
        other => panic!("unexpected action {:?}", other),
    }
}

#[test]
fn deploy_prepares_the_mint_then_submits_three_instructions() {
    let (handler, action) = begin(Cli::Deploy(DeployArgs {}));
    assert_eq!(action, Action::PrepareMint { space: 82 });
    assert_eq!(handler.stage, Stage::Preparing);
    let mint = Address { bytes: [77u8; 32] };
    let (handler, action) = step(handler, Event::MintPrepared { mint, rent: 1_461_600 });
    assert_eq!(handler.stage, Stage::Deploying { mint });
    let operation = DeployTransaction { signer: payer(), mint, rent: 1_461_600 };
    match &action {
        Action::Submit { transaction, signers } => {
            assert_eq!(transaction, &create_transaction(&operation).unwrap());
            assert_eq!(transaction.instructions.len(), 3);
            assert_eq!(signers, &vec![payer(), mint]);
        }
        other => panic!("unexpected action {:?}", other),
    }
    let (handler, action) = step(handler, Event::Confirmed { signature: "sig".to_string() });
    assert_eq!(handler.stage, Stage::Done);
    match action {
        Action::Finish { closing, table } => {
            assert_eq!(closing, Some(Notice::DeploymentFinalized));
            assert_eq!(table.headers, strings(&["Signature", "Authority", "Mint", "Method"]));
            assert_eq!(
                table.cells,
                vec!["sig".to_string(), payer().to_text(), mint.to_text(), "Deploy".to_string()]
            );
            assert_eq!(table.accent, Some(Accent::Yellow));
        }
        other => panic!("unexpected action {:?}", other),
    }
}

#[test]
fn balance_of_a_missing_account_is_zero_and_no_error() {
    let command = Cli::Balance(TokenBalanceArgs { mint: MINT.to_string() });
    let (handler, action) = begin(command);
    let mint = Address::parse(MINT).unwrap();
    let account = derive_associated_address(&payer(), &mint).unwrap();
    assert_eq!(action, Action::FetchBalance { account });
    assert_eq!(handler.stage, Stage::Fetching);
    let (handler, action) = step(handler, Event::BalanceFetched { holding: None });
    assert_eq!(handler.stage, Stage::Done);
    match action {
        Action::Finish { closing, table } => {
            assert_eq!(closing, None);
            assert_eq!(table.headers, strings(&["Mint", "Balance"]));
            assert_eq!(table.cells, vec![MINT.to_string(), "0".to_string()]);
            assert_eq!(table.accent, None);
        }
        other => panic!("unexpected action {:?}", other),
    }
}

#[test]
fn balance_asked_twice_shows_the_same_twice() {
    let mut shown = Vec::new();
    for _ in 0..2 {
        let command = Cli::Balance(TokenBalanceArgs { mint: MINT.to_string() });
        let (handler, first) = begin(command);
        assert!(matches!(first, Action::FetchBalance { .. }));
        let (_, last) = step(handler, Event::BalanceFetched { holding: Some(1234) });
        shown.push(last);
    }
    assert_eq!(shown[0], shown[1]);
    match &shown[0] {
        Action::Finish { table, .. } => assert_eq!(table.cells[1], "1234"),
        other => panic!("unexpected action {:?}", other),
    }
}

#[test]
fn a_failure_of_the_node_ends_the_command() {
    let command = Cli::Mint(MintArgs { mint: MINT.to_string(), amount: 7 });
    let (handler, _) = begin(command);
    let (handler, action) = step(handler, Event::Failed { message: "no funds".to_string() });
    assert_eq!(handler.stage, Stage::Failed);
    assert_eq!(
        action,
        Action::Abort { error: HandlerError::Network { message: "no funds".to_string() } }
    );

    let (handler, _) = begin(Cli::Deploy(DeployArgs {}));
    let (handler, action) = step(handler, Event::Failed { message: "down".to_string() });
    assert_eq!(handler.stage, Stage::Failed);
    assert_eq!(
        action,
        Action::Abort { error: HandlerError::Network { message: "down".to_string() } }
    );

    let command = Cli::Balance(TokenBalanceArgs { mint: MINT.to_string() });
    let (handler, _) = begin(command);
    let (handler, action) = step(handler, Event::Failed { message: "down".to_string() });
    assert_eq!(handler.stage, Stage::Failed);
    assert_eq!(
        action,
        Action::Abort { error: HandlerError::Network { message: "down".to_string() } }
    );
}

#[test]
fn a_failed_account_creation_ends_the_transfer() {
    let (handler, _) = begin(transfer(5));
    let (handler, _) = step(handler, Event::AccountLooked { found: false });
    let (handler, action) = step(handler, Event::Failed { message: "rejected".to_string() });
    assert_eq!(handler.stage, Stage::Failed);
    assert_eq!(
        action,
        Action::Abort { error: HandlerError::Network { message: "rejected".to_string() } }
    );
}

#[test]
fn a_report_that_answers_nothing_ends_the_command() {
    let (handler, _) = begin(transfer(5));
    let (handler, action) = step(handler, Event::BalanceFetched { holding: Some(1) });
    assert_eq!(handler.stage, Stage::Failed);
    assert_eq!(action, Action::Abort { error: HandlerError::UnexpectedEvent });
    let (handler, action) = step(handler, Event::Announced);
    assert_eq!(handler.stage, Stage::Failed);
    assert_eq!(action, Action::Abort { error: HandlerError::UnexpectedEvent });
}

#[test]
fn a_finished_command_takes_no_more_reports() {
    let command = Cli::Balance(TokenBalanceArgs { mint: MINT.to_string() });
    let (handler, _) = begin(command);
    let (handler, _) = step(handler, Event::BalanceFetched { holding: Some(1) });
    assert_eq!(handler.stage, Stage::Done);
    let (handler, action) = step(handler, Event::BalanceFetched { holding: Some(1) });
    assert_eq!(handler.stage, Stage::Failed);
    assert_eq!(action, Action::Abort { error: HandlerError::UnexpectedEvent });
}

#[test]
fn notices_have_their_words() {
    assert_eq!(
        Notice::AccountCreated { signature: "abc".to_string() }.text(),
        "Associated token account created! Signature: abc"
    );
    assert_eq!(Notice::TransferFinalized.text(), "Transfer finalized!");
    assert_eq!(Notice::MintFinalized.text(), "Mint finalized!");
    assert_eq!(Notice::BurnFinalized.text(), "Burn finalized!");
    assert_eq!(Notice::DeploymentFinalized.text(), "Deployment finalized!");
}

#[test]
fn a_command_taken_up_has_done_nothing_yet() {
    let handler = start(payer(), transfer(5));
    assert_eq!(handler, Handler { payer: payer(), command: transfer(5), stage: Stage::Start });
}

#[test]
fn a_report_before_the_beginning_ends_the_command() {
    let handler = start(payer(), transfer(5));
    let (handler, action) = step(handler, Event::AccountLooked { found: true });
    assert_eq!(handler.stage, Stage::Failed);
    assert_eq!(action, Action::Abort { error: HandlerError::UnexpectedEvent });
}

#[test]
fn each_command_has_its_own_handler() {
    let transfer_args = TransferArgs {
        mint: MINT.to_string(),
        destination: DESTINATION.to_string(),
        amount: 5,
    };
    let (stage, action) = handle_transfer(payer(), &transfer_args, Stage::Start, Event::Started);
    assert_eq!((stage, action), {
        let (handler, action) = begin(transfer(5));
        (handler.stage, action)
    });
    let (stage, action) =
        handle_transfer(payer(), &transfer_args, Stage::Announcing, Event::Announced);
    assert_eq!(stage, Stage::Submitting);
    assert_eq!(action, transfer_transaction(5));

    let mint_args = MintArgs { mint: MINT.to_string(), amount: 7 };
    let (stage, action) = handle_mint(payer(), &mint_args, Stage::Start, Event::Started);
    assert_eq!(stage, Stage::Submitting);
    assert!(matches!(action, Action::Submit { .. }));
    let (stage, _) = handle_mint(payer(), &mint_args, Stage::Resolving, Event::Announced);
    assert_eq!(stage, Stage::Failed);

    let burn_args = BurnArgs { mint: MINT.to_string(), amount: 7 };
    let (stage, action) = handle_burn(payer(), &burn_args, Stage::Start, Event::Started);
    assert_eq!(stage, Stage::Submitting);
    assert!(matches!(action, Action::Submit { .. }));

    let (stage, action) = handle_deploy(payer(), Stage::Start, Event::Started);
    assert_eq!(stage, Stage::Preparing);
    assert_eq!(action, Action::PrepareMint { space: 82 });

    let balance_args = TokenBalanceArgs { mint: MINT.to_string() };
    let (stage, action) = handle_balance(
        payer(),
        &balance_args,
        Stage::Fetching,
        Event::BalanceFetched { holding: Some(3) },
    );
    assert_eq!(stage, Stage::Done);
    match action {
        Action::Finish { table, .. } => assert_eq!(table.cells[1], "3"),
        other => panic!("unexpected action {:?}", other),
    }
}

#[test]
fn no_command_submits_more_than_two_transactions() {
    let mut count = 0;
    let (mut handler, mut action) = begin(transfer(5));
    for _ in 0..10 {
        let event = match &action {
            Action::LookUp { .. } => Event::AccountLooked { found: false },
            Action::Submit { .. } => {
                count += 1;
                Event::Confirmed { signature: "sig".to_string() }
            }
            Action::Announce { .. } => Event::Announced,
            _ => break,
        };
        (handler, action) = step(handler, event);
    }
    assert_eq!(handler.stage, Stage::Done);
    assert_eq!(count, 2);
}
