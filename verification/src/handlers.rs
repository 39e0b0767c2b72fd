//! What each command does, step by step. A handler never talks to the node
//! itself: it says what is to be done next, the caller does it and reports
//! what came of it.

use crate::address::{address_text, decoded_address, Address};
use crate::commands::{BurnArgs, Cli, DeployArgs, MintArgs, TokenBalanceArgs, TransferArgs};
use crate::solana_client::{
    account_to_check, account_to_read, associated_token_account, balance_of, token_account,
    token_account_balance,
};
use crate::table::{
    balance_table, burn_table, deploy_table, mint_table, transfer_table, BurnTransactionData,
    DeployTransactionData, MintTransactionData, Table, TableView, TokenBalanceData,
    TransactionTableData, TransferTransactionData,
};
use crate::transactions::{
    assembled, burn_plan, create_associated_account_plan, create_transaction, deploy_plan,
    lemma_operations_fit, mint_plan, transfer_plan, unsigned_transaction, well_compiled,
    BuildError,
    BurnTransaction,
    CreateAssociatedTokenAccountTransaction, DeployTransaction, InstructionPlan, MintTransaction,
    TransactionInstructions, TransactionView, TransferTransaction, UnsignedTransaction, MINT_LEN,
};
use vstd::prelude::*;
use vstd::string::StringExecFns;

verus! {

/// Something to tell the user.
#[derive(Clone, Debug, PartialEq, Eq)]
pub enum Notice {
    /// The holding account of the destination was created.
    AccountCreated { signature: String },
    TransferFinalized,
    MintFinalized,
    BurnFinalized,
    DeploymentFinalized,
}

/// The mathematical value of a `Notice`.
pub enum NoticeView {
    AccountCreated { signature: Seq<char> },
    TransferFinalized,
    MintFinalized,
    BurnFinalized,
    DeploymentFinalized,
}

impl View for Notice {
    type V = NoticeView;

    open spec fn view(&self) -> NoticeView {
        match *self {
            Notice::AccountCreated { signature } => NoticeView::AccountCreated {
                signature: signature@,
            },
            Notice::TransferFinalized => NoticeView::TransferFinalized,
            Notice::MintFinalized => NoticeView::MintFinalized,
            Notice::BurnFinalized => NoticeView::BurnFinalized,
            Notice::DeploymentFinalized => NoticeView::DeploymentFinalized,
        }
    }
}

/// The words of a notice.
pub open spec fn notice_text(notice: NoticeView) -> Seq<char> {
    match notice {
        NoticeView::AccountCreated { signature } =>
            "Associated token account created! Signature: "@ + signature,
        NoticeView::TransferFinalized => "Transfer finalized!"@,
        NoticeView::MintFinalized => "Mint finalized!"@,
        NoticeView::BurnFinalized => "Burn finalized!"@,
        NoticeView::DeploymentFinalized => "Deployment finalized!"@,
    }
}

impl Notice {
    /// The words to show.
    pub fn text(&self) -> (s: String)
        ensures
            s@ == notice_text(self@),
    {
        match self {
            Notice::AccountCreated { signature } => {
                let mut s = "Associated token account created! Signature: ".to_owned();
                s.append(signature.as_str());
                s
            },
            Notice::TransferFinalized => "Transfer finalized!".to_owned(),
            Notice::MintFinalized => "Mint finalized!".to_owned(),
            Notice::BurnFinalized => "Burn finalized!".to_owned(),
            Notice::DeploymentFinalized => "Deployment finalized!".to_owned(),
        }
    }
}

/// Why a command ended without success.
#[derive(Clone, Debug, PartialEq, Eq)]
pub enum HandlerError {
    /// An operation could not be built from the arguments.
    Build(BuildError),
    /// The node or the network failed; the message is theirs.
    Network { message: String },
    /// The caller reported something that answers nothing the handler asked.
    UnexpectedEvent,
}

/// The mathematical value of a `HandlerError`.
pub enum HandlerErrorView {
    Build(BuildError),
    Network { message: Seq<char> },
    UnexpectedEvent,
}

impl View for HandlerError {
    type V = HandlerErrorView;

    open spec fn view(&self) -> HandlerErrorView {
        match *self {
            HandlerError::Build(e) => HandlerErrorView::Build(e),
            HandlerError::Network { message } => HandlerErrorView::Network { message: message@ },
            HandlerError::UnexpectedEvent => HandlerErrorView::UnexpectedEvent,
        }
    }
}

/// What the caller reports back.
#[derive(Clone, Debug, PartialEq, Eq)]
pub enum Event {
    /// The command was given; nothing has been asked yet.
    Started,
    /// The look-up of an account was answered: `found` says whether the node
    /// returned the account.
    AccountLooked { found: bool },
    /// The submitted transaction is final.
    Confirmed { signature: String },
    /// The notice was shown.
    Announced,
    /// A key pair was made for the new mint, and the node told the balance
    /// that exempts its account from rent.
    MintPrepared { mint: Address, rent: u64 },
    /// The node told the whole tokens in the account, or that there is no
    /// such account.
    BalanceFetched { holding: Option<u64> },
    /// What was asked for failed.
    Failed { message: String },
}

/// What the caller is to do next.
#[derive(Debug, PartialEq, Eq)]
pub enum Action {
    /// Ask the node whether the account exists.
    LookUp { account: Address },
    /// Fetch a freshness token, sign with the keys of `signers`, send, and
    /// wait until the transaction is final.
    Submit { transaction: UnsignedTransaction, signers: Vec<Address> },
    /// Show the notice.
    Announce { notice: Notice },
    /// Make a key pair for a new mint and ask the node the rent-exempt
    /// balance of an account of `space` bytes.
    PrepareMint { space: u64 },
    /// Ask the node what the account holds.
    FetchBalance { account: Address },
    /// Show the closing notice, if any, and the table. The command has
    /// succeeded.
    Finish { closing: Option<Notice>, table: Table },
    /// Report the error. The command has failed.
    Abort { error: HandlerError },
}

/// The mathematical value of an `Action`.
pub enum ActionView {
    LookUp { account: Seq<u8> },
    Submit { transaction: TransactionView, signers: Seq<Seq<u8>> },
    Announce { notice: NoticeView },
    PrepareMint { space: u64 },
    FetchBalance { account: Seq<u8> },
    Finish { closing: Option<NoticeView>, table: TableView },
    Abort { error: HandlerErrorView },
}

impl View for Action {
    type V = ActionView;

    open spec fn view(&self) -> ActionView {
        match *self {
            Action::LookUp { account } => ActionView::LookUp { account: account@ },
            Action::Submit { transaction, signers } => ActionView::Submit {
                transaction: transaction@,
                signers: signers.deep_view(),
            },
            Action::Announce { notice } => ActionView::Announce { notice: notice@ },
            Action::PrepareMint { space } => ActionView::PrepareMint { space },
            Action::FetchBalance { account } => ActionView::FetchBalance { account: account@ },
            Action::Finish { closing, table } => ActionView::Finish {
                closing: match closing {
                    Some(n) => Some(n@),
                    None => None,
                },
                table: table@,
            },
            Action::Abort { error } => ActionView::Abort { error: error@ },
        }
    }
}

/// How far a command has come.
#[derive(Clone, Copy, Debug, PartialEq, Eq)]
pub enum Stage {
    /// Nothing has been done yet.
    Start,
    /// Transfer: the destination's holding account is being looked up.
    Resolving,
    /// Transfer: the transaction that creates the holding account is out.
    Creating,
    /// Transfer: the creation of the holding account is being announced.
    Announcing,
    /// Deploy: the mint's key and the rent are being fetched.
    Preparing,
    /// Balance: the holding is being fetched.
    Fetching,
    /// The transaction of the transfer, mint or burn is out.
    Submitting,
    /// Deploy: the transaction that creates `mint` is out.
    Deploying { mint: Address },
    /// The command succeeded.
    Done,
    /// The command failed.
    Failed,
}

/// One command on its way.
#[derive(Clone, Debug, PartialEq, Eq)]
pub struct Handler {
    /// Who pays, signs and owns.
    pub payer: Address,
    pub command: Cli,
    pub stage: Stage,
}

/// Whether the action, where it submits a transaction, submits one whose
/// message is compiled from its fee payer and its instructions.
pub open spec fn sends_well(action: ActionView) -> bool {
    action matches ActionView::Submit { transaction, signers } ==> well_compiled(transaction)
}

/// A stage and the action that leads to it.
pub type Move = (Stage, ActionView);

/// The move that sends an operation off: its transaction is submitted and
/// the command goes on to `stage`, or it cannot be built and the command
/// fails.
pub open spec fn submission(plan: InstructionPlan, signers: Seq<Seq<u8>>, stage: Stage) -> Move {
    match assembled(plan, signers) {
        Ok(transaction) => (stage, ActionView::Submit { transaction, signers }),
        Err(e) => refusal(e),
    }
}

/// The move that gives up on arguments that no operation can be built from.
pub open spec fn refusal(error: BuildError) -> Move {
    (Stage::Failed, ActionView::Abort { error: HandlerErrorView::Build(error) })
}

/// The move that gives up on a failure of the node or the network.
pub open spec fn breakdown(message: Seq<char>) -> Move {
    (Stage::Failed, ActionView::Abort { error: HandlerErrorView::Network { message } })
}

/// The move on a report that answers nothing.
pub open spec fn confusion() -> Move {
    (Stage::Failed, ActionView::Abort { error: HandlerErrorView::UnexpectedEvent })
}

/// The move that ends a command with a notice and its summary.
pub open spec fn conclusion(closing: Option<NoticeView>, table: TableView) -> Move {
    (Stage::Done, ActionView::Finish { closing, table })
}

/// The move that sends the transfer itself off.
pub open spec fn transfer_move(payer: Seq<u8>, args: TransferArgs) -> Move {
    submission(
        transfer_plan(payer, args.mint@, args.destination@, args.amount),
        seq![payer],
        Stage::Submitting,
    )
}

/// The move that sends off the creation of the destination's holding
/// account.
pub open spec fn creation_move(payer: Seq<u8>, args: TransferArgs) -> Move {
    submission(
        create_associated_account_plan(payer, args.destination@, args.mint@),
        seq![payer],
        Stage::Creating,
    )
}

/// A transfer, move by move. Both addresses are read before the node is
/// asked anything. The destination's holding account is looked up first; a
/// look-up that fails counts as an account that is not there. Where it is
/// not there, it is created and the creation announced before the transfer
/// is sent.
pub open spec fn transfer_step(payer: Seq<u8>, args: TransferArgs, stage: Stage, event: Event) -> Move {
    match (stage, event) {
        (Stage::Start, Event::Started) => match account_to_check(args.destination@, args.mint@) {
            Ok(account) => (Stage::Resolving, ActionView::LookUp { account }),
            Err(e) => refusal(e),
        },
        (Stage::Resolving, Event::AccountLooked { found }) => if found {
            transfer_move(payer, args)
        } else {
            creation_move(payer, args)
        },
        (Stage::Resolving, Event::Failed { message }) => creation_move(payer, args),
        (Stage::Creating, Event::Confirmed { signature }) => (
            Stage::Announcing,
            ActionView::Announce { notice: NoticeView::AccountCreated { signature: signature@ } },
        ),
        (Stage::Creating, Event::Failed { message }) => breakdown(message@),
        (Stage::Announcing, Event::Announced) => transfer_move(payer, args),
        (Stage::Announcing, Event::Failed { message }) => breakdown(message@),
        (Stage::Submitting, Event::Confirmed { signature }) => conclusion(
            Some(NoticeView::TransferFinalized),
            transfer_table(
                signature@,
                args.destination@,
                address_text(payer),
                args.mint@,
                args.amount,
            ),
        ),
        (Stage::Submitting, Event::Failed { message }) => breakdown(message@),
        _ => confusion(),
    }
}

/// A mint, move by move: the transaction is sent at once.
pub open spec fn mint_step(payer: Seq<u8>, args: MintArgs, stage: Stage, event: Event) -> Move {
    match (stage, event) {
        (Stage::Start, Event::Started) => submission(
            mint_plan(payer, args.mint@, args.amount),
            seq![payer],
            Stage::Submitting,
        ),
        (Stage::Submitting, Event::Confirmed { signature }) => conclusion(
            Some(NoticeView::MintFinalized),
            mint_table(signature@, address_text(payer), args.mint@, args.amount),
        ),
        (Stage::Submitting, Event::Failed { message }) => breakdown(message@),
        _ => confusion(),
    }
}

/// A burn, move by move: the transaction is sent at once.
pub open spec fn burn_step(payer: Seq<u8>, args: BurnArgs, stage: Stage, event: Event) -> Move {
    match (stage, event) {
        (Stage::Start, Event::Started) => submission(
            burn_plan(payer, args.mint@, args.amount),
            seq![payer],
            Stage::Submitting,
        ),
        (Stage::Submitting, Event::Confirmed { signature }) => conclusion(
            Some(NoticeView::BurnFinalized),
            burn_table(signature@, address_text(payer), args.mint@, args.amount),
        ),
        (Stage::Submitting, Event::Failed { message }) => breakdown(message@),
        _ => confusion(),
    }
}

/// A deployment, move by move: the key of the new mint and the rent are
/// fetched, then the transaction is sent, signed by payer and mint.
pub open spec fn deploy_step(payer: Seq<u8>, stage: Stage, event: Event) -> Move {
    match (stage, event) {
        (Stage::Start, Event::Started) => (
            Stage::Preparing,
            ActionView::PrepareMint { space: MINT_LEN },
        ),
        (Stage::Preparing, Event::MintPrepared { mint, rent }) => submission(
            deploy_plan(payer, mint@, rent),
            seq![payer, mint@],
            Stage::Deploying { mint },
        ),
        (Stage::Preparing, Event::Failed { message }) => breakdown(message@),
        (Stage::Deploying { mint }, Event::Confirmed { signature }) => conclusion(
            Some(NoticeView::DeploymentFinalized),
            deploy_table(signature@, address_text(payer), address_text(mint@)),
        ),
        (Stage::Deploying { mint }, Event::Failed { message }) => breakdown(message@),
        _ => confusion(),
    }
}

/// A balance query, move by move: the payer's holding account is read; no
/// transaction is involved.
pub open spec fn balance_step(payer: Seq<u8>, args: TokenBalanceArgs, stage: Stage, event: Event) -> Move {
    match (stage, event) {
        (Stage::Start, Event::Started) => match account_to_read(payer, args.mint@) {
            Ok(account) => (Stage::Fetching, ActionView::FetchBalance { account }),
            Err(e) => refusal(e),
        },
        (Stage::Fetching, Event::BalanceFetched { holding }) => conclusion(
            None,
            balance_table(args.mint@, balance_of(holding)),
        ),
        (Stage::Fetching, Event::Failed { message }) => breakdown(message@),
        _ => confusion(),
    }
}

/// The move after `event`, for a command at `stage`.
pub open spec fn next_move(payer: Seq<u8>, command: Cli, stage: Stage, event: Event) -> Move {
    match command {
        Cli::Transfer(args) => transfer_step(payer, args, stage, event),
        Cli::Mint(args) => mint_step(payer, args, stage, event),
        Cli::Burn(args) => burn_step(payer, args, stage, event),
        Cli::Deploy(_) => deploy_step(payer, stage, event),
        Cli::Balance(args) => balance_step(payer, args, stage, event),
    }
}

fn submit<T: TransactionInstructions>(operation: &T, stage: Stage) -> (r: (Stage, Action))
    ensures
        (r.0, r.1@) == submission(operation.plan(), operation.signer_keys(), stage),
        sends_well(r.1@),
{
    match create_transaction(operation) {
        Ok(transaction) => (stage, Action::Submit { transaction, signers: operation.signers() }),
        Err(e) => refuse(e),
    }
}

fn refuse(error: BuildError) -> (r: (Stage, Action))
    ensures
        (r.0, r.1@) == refusal(error),
{
    (Stage::Failed, Action::Abort { error: HandlerError::Build(error) })
}

fn give_up(message: String) -> (r: (Stage, Action))
    ensures
        (r.0, r.1@) == breakdown(message@),
{
    (Stage::Failed, Action::Abort { error: HandlerError::Network { message } })
}

fn be_confused() -> (r: (Stage, Action))
    ensures
        (r.0, r.1@) == confusion(),
{
    (Stage::Failed, Action::Abort { error: HandlerError::UnexpectedEvent })
}

fn conclude(closing: Option<Notice>, table: Table) -> (r: (Stage, Action))
    ensures
        (r.0, r.1@) == conclusion(
            match closing {
                Some(n) => Some(n@),
                None => None,
            },
            table@,
        ),
{
    (Stage::Done, Action::Finish { closing, table })
}

fn send_transfer(payer: Address, args: &TransferArgs) -> (r: (Stage, Action))
    ensures
        (r.0, r.1@) == transfer_move(payer@, *args),
        sends_well(r.1@),
{
    let operation = TransferTransaction {
        signer: payer,
        mint: args.mint.clone(),
        destination: args.destination.clone(),
        amount: args.amount,
    };
    submit(&operation, Stage::Submitting)
}

fn create_associated_token_account(payer: Address, args: &TransferArgs) -> (r: (Stage, Action))
    ensures
        (r.0, r.1@) == creation_move(payer@, *args),
        sends_well(r.1@),
{
    let operation = CreateAssociatedTokenAccountTransaction {
        signer: payer,
        address: args.destination.clone(),
        mint: args.mint.clone(),
    };
    submit(&operation, Stage::Creating)
}

/// Decides the next move of a transfer.
pub fn handle_transfer(payer: Address, args: &TransferArgs, stage: Stage, event: Event) -> (r: (
    Stage,
    Action,
))
    ensures
        (r.0, r.1@) == transfer_step(payer@, *args, stage, event),
        sends_well(r.1@),
{
    match (stage, event) {
        (Stage::Start, Event::Started) => {
            match associated_token_account(args.destination.as_str(), args.mint.as_str()) {
                Ok(account) => (Stage::Resolving, Action::LookUp { account }),
                Err(e) => refuse(e),
            }
        },
        (Stage::Resolving, Event::AccountLooked { found }) => {
            if found {
                send_transfer(payer, args)
            } else {
                create_associated_token_account(payer, args)
            }
        },
        (Stage::Resolving, Event::Failed { message }) => create_associated_token_account(
            payer,
            args,
        ),
        (Stage::Creating, Event::Confirmed { signature }) => (
            Stage::Announcing,
            Action::Announce { notice: Notice::AccountCreated { signature } },
        ),
        (Stage::Creating, Event::Failed { message }) => give_up(message),
        (Stage::Announcing, Event::Announced) => send_transfer(payer, args),
        (Stage::Announcing, Event::Failed { message }) => give_up(message),
        (Stage::Submitting, Event::Confirmed { signature }) => {
            let source = payer.to_text();
            let table = TransferTransactionData {
                mint: args.mint.as_str(),
                amount: args.amount,
                source: source.as_str(),
                destination: args.destination.as_str(),
                signature: signature.as_str(),
            }.construct_table();
            conclude(Some(Notice::TransferFinalized), table)
        },
        (Stage::Submitting, Event::Failed { message }) => give_up(message),
        _ => be_confused(),
    }
}

/// Decides the next move of a mint.
pub fn handle_mint(payer: Address, args: &MintArgs, stage: Stage, event: Event) -> (r: (
    Stage,
    Action,
))
    ensures
        (r.0, r.1@) == mint_step(payer@, *args, stage, event),
        sends_well(r.1@),
{
    match (stage, event) {
        (Stage::Start, Event::Started) => {
            let operation = MintTransaction {
                mint: args.mint.clone(),
                signer: payer,
                amount: args.amount,
            };
            submit(&operation, Stage::Submitting)
        },
        (Stage::Submitting, Event::Confirmed { signature }) => {
            let destination = payer.to_text();
            let table = MintTransactionData {
                mint: args.mint.as_str(),
                amount: args.amount,
                destination: destination.as_str(),
                signature: signature.as_str(),
            }.construct_table();
            conclude(Some(Notice::MintFinalized), table)
        },
        (Stage::Submitting, Event::Failed { message }) => give_up(message),
        _ => be_confused(),
    }
}

/// Decides the next move of a burn.
pub fn handle_burn(payer: Address, args: &BurnArgs, stage: Stage, event: Event) -> (r: (
    Stage,
    Action,
))
    ensures
        (r.0, r.1@) == burn_step(payer@, *args, stage, event),
        sends_well(r.1@),
{
    match (stage, event) {
        (Stage::Start, Event::Started) => {
            let operation = BurnTransaction {
                mint: args.mint.clone(),
                signer: payer,
                amount: args.amount,
            };
            submit(&operation, Stage::Submitting)
        },
        (Stage::Submitting, Event::Confirmed { signature }) => {
            let source = payer.to_text();
            let table = BurnTransactionData {
                mint: args.mint.as_str(),
                amount: args.amount,
                source: source.as_str(),
                signature: signature.as_str(),
            }.construct_table();
            conclude(Some(Notice::BurnFinalized), table)
        },
        (Stage::Submitting, Event::Failed { message }) => give_up(message),
        _ => be_confused(),
    }
}

/// Decides the next move of a deployment.
pub fn handle_deploy(payer: Address, stage: Stage, event: Event) -> (r: (Stage, Action))
    ensures
        (r.0, r.1@) == deploy_step(payer@, stage, event),
        sends_well(r.1@),
{
    match (stage, event) {
        (Stage::Start, Event::Started) => (
            Stage::Preparing,
            Action::PrepareMint { space: MINT_LEN },
        ),
        (Stage::Preparing, Event::MintPrepared { mint, rent }) => {
            let deploy_transaction = DeployTransaction { signer: payer, mint, rent };
            submit(&deploy_transaction, Stage::Deploying { mint })
        },
        (Stage::Preparing, Event::Failed { message }) => give_up(message),
        (Stage::Deploying { mint }, Event::Confirmed { signature }) => {
            let authority = payer.to_text();
            let created = mint.to_text();
            let table = DeployTransactionData {
                mint: created.as_str(),
                authority: authority.as_str(),
                signature: signature.as_str(),
            }.construct_table();
            conclude(Some(Notice::DeploymentFinalized), table)
        },
        (Stage::Deploying { mint }, Event::Failed { message }) => give_up(message),
        _ => be_confused(),
    }
}

/// Decides the next move of a balance query.
pub fn handle_balance(payer: Address, args: &TokenBalanceArgs, stage: Stage, event: Event) -> (r:
    (Stage, Action))
    ensures
        (r.0, r.1@) == balance_step(payer@, *args, stage, event),
        sends_well(r.1@),
{
    match (stage, event) {
        (Stage::Start, Event::Started) => {
            match token_account(&payer, args.mint.as_str()) {
                Ok(account) => (Stage::Fetching, Action::FetchBalance { account }),
                Err(e) => refuse(e),
            }
        },
        (Stage::Fetching, Event::BalanceFetched { holding }) => {
            let balance = token_account_balance(holding);
            let table = TokenBalanceData { mint: args.mint.as_str(), balance }.construct_table();
            conclude(None, table)
        },
        (Stage::Fetching, Event::Failed { message }) => give_up(message),
        _ => be_confused(),
    }
}

/// Takes a command up for `payer`. Nothing has been done yet: the first
/// report to make is `Event::Started`.
pub fn start(payer: Address, command: Cli) -> (handler: Handler)
    ensures
        handler == (Handler { payer, command, stage: Stage::Start }),
{
    Handler { payer, command, stage: Stage::Start }
}

/// Takes the report of what was done and says what to do next.
pub fn step(handler: Handler, event: Event) -> (r: (Handler, Action))
    ensures
        r.0.payer == handler.payer,
        r.0.command == handler.command,
        (r.0.stage, r.1@) == next_move(handler.payer@, handler.command, handler.stage, event),
        sends_well(r.1@),
{
    let (stage, action) = match &handler.command {
        Cli::Transfer(args) => handle_transfer(handler.payer, args, handler.stage, event),
        Cli::Mint(args) => handle_mint(handler.payer, args, handler.stage, event),
        Cli::Burn(args) => handle_burn(handler.payer, args, handler.stage, event),
        Cli::Deploy(_) => handle_deploy(handler.payer, handler.stage, event),
        Cli::Balance(args) => handle_balance(handler.payer, args, handler.stage, event),
    };
    (Handler { payer: handler.payer, command: handler.command, stage }, action)
}

/// What a command at `stage` does on `event` and from then on, where the
/// caller answers every action `a` with `answer(a)`: its actions in order,
/// up to the one that ends it, or as far as `steps` answers lead.
pub open spec fn course(
    payer: Seq<u8>,
    command: Cli,
    stage: Stage,
    event: Event,
    answer: spec_fn(ActionView) -> Event,
    steps: nat,
) -> Seq<ActionView>
    decreases steps,
{
    let next = next_move(payer, command, stage, event);
    if steps == 0 || next.0 is Done || next.0 is Failed {
        seq![next.1]
    } else {
        seq![next.1] + course(payer, command, next.0, answer(next.1), answer, (steps - 1) as nat)
    }
}

/// What a command does from its beginning.
pub open spec fn whole_course(
    payer: Seq<u8>,
    command: Cli,
    answer: spec_fn(ActionView) -> Event,
    steps: nat,
) -> Seq<ActionView> {
    course(payer, command, Stage::Start, Event::Started, answer, steps)
}

/// The transactions among the actions, in order.
pub open spec fn submitted(actions: Seq<ActionView>) -> Seq<TransactionView>
    decreases actions.len(),
{
    if actions.len() == 0 {
        Seq::empty()
    } else {
        match actions.last() {
            ActionView::Submit { transaction, signers } => submitted(actions.drop_last()).push(
                transaction,
            ),
            _ => submitted(actions.drop_last()),
        }
    }
}

/// Whether the command names, where it wants an address, a text that is
/// none.
pub open spec fn names_malformed_address(command: Cli) -> bool {
    match command {
        Cli::Transfer(args) => decoded_address(args.mint@) is Err || decoded_address(
            args.destination@,
        ) is Err,
        Cli::Mint(args) => decoded_address(args.mint@) is Err,
        Cli::Burn(args) => decoded_address(args.mint@) is Err,
        Cli::Deploy(_) => false,
        Cli::Balance(args) => decoded_address(args.mint@) is Err,
    }
}

/// A command that names a malformed address fails at once with the decoding
/// error: its only action is to abort, so the node is never asked anything.
pub proof fn lemma_malformed_address_fails_first(
    payer: Seq<u8>,
    command: Cli,
    answer: spec_fn(ActionView) -> Event,
    steps: nat,
)
    requires
        names_malformed_address(command),
    ensures
        whole_course(payer, command, answer, steps).len() == 1,
        whole_course(payer, command, answer, steps)[0] matches ActionView::Abort {
            error: HandlerErrorView::Build(BuildError::MalformedAddress(_)),
        },
{
}

/// The unsigned transaction of a transfer that can be built.
pub open spec fn transfer_transaction(payer: Seq<u8>, args: TransferArgs) -> TransactionView {
    unsigned_transaction(
        transfer_plan(payer, args.mint@, args.destination@, args.amount).unwrap(),
        payer,
    )
}

/// The unsigned transaction that creates the destination's holding account.
pub open spec fn creation_transaction(payer: Seq<u8>, args: TransferArgs) -> TransactionView {
    unsigned_transaction(
        create_associated_account_plan(payer, args.destination@, args.mint@).unwrap(),
        payer,
    )
}

/// Whether a report says that the account looked for is there. A look-up
/// that failed says that it is not.
pub open spec fn reports_account(event: Event) -> bool {
    event matches Event::AccountLooked { found } && found
}

/// A transfer that can be built, and whose every request succeeds, submits
/// the transfer alone where the destination's holding account is there, and
/// exactly one transaction before it, the creation of that account, where
/// it is not.
pub proof fn lemma_transfer_creates_missing_account_once(
    payer: Seq<u8>,
    args: TransferArgs,
    answer: spec_fn(ActionView) -> Event,
    steps: nat,
)
    requires
        steps >= 4,
        transfer_plan(payer, args.mint@, args.destination@, args.amount) is Ok,
        forall|a: ActionView|
            a is LookUp ==> #[trigger] answer(a) is AccountLooked || answer(a) is Failed,
        forall|a: ActionView| a is Submit ==> #[trigger] answer(a) is Confirmed,
        forall|a: ActionView| a is Announce ==> #[trigger] answer(a) is Announced,
    ensures
        whole_course(payer, Cli::Transfer(args), answer, steps)[0] is LookUp,
        submitted(whole_course(payer, Cli::Transfer(args), answer, steps)) == if reports_account(
            answer(whole_course(payer, Cli::Transfer(args), answer, steps)[0]),
        ) {
            seq![transfer_transaction(payer, args)]
        } else {
            seq![creation_transaction(payer, args), transfer_transaction(payer, args)]
        },
{
    lemma_operations_fit(payer, args.mint@, args.destination@, args.amount, payer, 0);
    reveal_with_fuel(course, 6);
    reveal_with_fuel(submitted, 6);
}

/// A deployment that can be built, and whose every request succeeds, asks
/// for a mint key and the rent of a mint account, and then submits exactly
/// one transaction: the deployment, paid for by the payer and signed by
/// payer and mint.
pub proof fn lemma_deployment_submits_once(
    payer: Seq<u8>,
    args: DeployArgs,
    mint: Address,
    rent: u64,
    answer: spec_fn(ActionView) -> Event,
    steps: nat,
)
    requires
        steps >= 2,
        deploy_plan(payer, mint@, rent) is Ok,
        forall|a: ActionView|
            a is PrepareMint ==> #[trigger] answer(a) == (Event::MintPrepared { mint, rent }),
        forall|a: ActionView| a is Submit ==> #[trigger] answer(a) is Confirmed,
    ensures
        whole_course(payer, Cli::Deploy(args), answer, steps).len() == 3,
        whole_course(payer, Cli::Deploy(args), answer, steps)[0] == (ActionView::PrepareMint {
            space: MINT_LEN,
        }),
        whole_course(payer, Cli::Deploy(args), answer, steps)[1] == (ActionView::Submit {
            transaction: unsigned_transaction(deploy_plan(payer, mint@, rent).unwrap(), payer),
            signers: seq![payer, mint@],
        }),
        whole_course(payer, Cli::Deploy(args), answer, steps)[2] is Finish,
        submitted(whole_course(payer, Cli::Deploy(args), answer, steps)) == seq![
            unsigned_transaction(deploy_plan(payer, mint@, rent).unwrap(), payer),
        ],
{
    lemma_operations_fit(payer, seq![], seq![], 0, mint@, rent);
    reveal_with_fuel(course, 4);
    reveal_with_fuel(submitted, 4);
}

/// A caller that answers the question for a balance with what `holding`
/// finds in `ledger`.
pub open spec fn reading<L>(ledger: L, holding: spec_fn(L, Seq<u8>) -> Option<u64>) -> spec_fn(
    ActionView,
) -> Event {
    |a: ActionView|
        match a {
            ActionView::FetchBalance { account } => Event::BalanceFetched {
                holding: holding(ledger, account),
            },
            _ => Event::Announced,
        }
}

/// Asking for a balance changes nothing, so asking twice in a row shows the
/// same twice: the command submits no transaction, whatever a transaction
/// would do to the ledger, and what it shows depends on the ledger alone.
pub proof fn lemma_balance_twice_is_the_same<L>(
    payer: Seq<u8>,
    command: Cli,
    ledger: L,
    holding: spec_fn(L, Seq<u8>) -> Option<u64>,
    effect: spec_fn(L, TransactionView) -> L,
    steps: nat,
)
    requires
        command is Balance,
    ensures
        ({
            let first = whole_course(payer, command, reading(ledger, holding), steps);
            let ledger_then = submitted(first).fold_left(ledger, effect);
            let second = whole_course(payer, command, reading(ledger_then, holding), steps);
            &&& submitted(first) == Seq::<TransactionView>::empty()
            &&& ledger_then == ledger
            &&& second == first
        }),
{
    reveal_with_fuel(course, 3);
    reveal_with_fuel(submitted, 3);
}

/// A balance asked of an account that does not exist is shown as 0, and the
/// command succeeds.
pub proof fn lemma_missing_account_holds_nothing(payer: Seq<u8>, args: TokenBalanceArgs)
    ensures
        balance_step(payer, args, Stage::Fetching, Event::BalanceFetched { holding: None })
            == conclusion(None, balance_table(args.mint@, 0)),
        balance_table(args.mint@, 0).cells[1] == seq!['0'],
{
}

/// How many moves a command at `stage` has left at most.
pub open spec fn moves_left(stage: Stage) -> nat {
    match stage {
        Stage::Start => 5,
        Stage::Resolving => 4,
        Stage::Creating => 3,
        Stage::Announcing => 2,
        Stage::Preparing => 2,
        Stage::Fetching => 1,
        Stage::Submitting => 1,
        Stage::Deploying { mint } => 1,
        Stage::Done => 0,
        Stage::Failed => 0,
    }
}

/// How many transactions a command at `stage` has left to submit at most.
pub open spec fn submissions_left(stage: Stage) -> nat {
    match stage {
        Stage::Start => 2,
        Stage::Resolving => 2,
        Stage::Creating => 1,
        Stage::Announcing => 1,
        Stage::Preparing => 1,
        _ => 0,
    }
}

/// The transactions among actions are those of the first action and those
/// of the rest.
pub proof fn lemma_submitted_from_the_front(first: ActionView, rest: Seq<ActionView>)
    ensures
        submitted(seq![first] + rest) == submitted(seq![first]) + submitted(rest),
        submitted(seq![first]).len() == if first is Submit {
            1nat
        } else {
            0nat
        },
    decreases rest.len(),
{
    reveal_with_fuel(submitted, 2);
    if rest.len() > 0 {
        assert((seq![first] + rest).drop_last() =~= seq![first] + rest.drop_last());
        lemma_submitted_from_the_front(first, rest.drop_last());
    }
}

/// Every move brings a command nearer to its end, and a move that submits a
/// transaction uses up one of the submissions it has left.
pub proof fn lemma_every_move_is_progress(payer: Seq<u8>, command: Cli, stage: Stage, event: Event)
    ensures
        ({
            let next = next_move(payer, command, stage, event);
            &&& moves_left(next.0) < moves_left(stage) || moves_left(next.0) == 0
            &&& submissions_left(next.0) + (if next.1 is Submit {
                1nat
            } else {
                0nat
            }) <= submissions_left(stage)
            &&& next.1 is Finish <==> next.0 is Done
            &&& next.1 is Abort <==> next.0 is Failed
        }),
{
}

/// Whatever the caller reports, a command at `stage` has at most
/// `moves_left(stage)` actions to come, one where that is none, and at most
/// `submissions_left(stage)` of them submit a transaction.
pub proof fn lemma_the_rest_is_short(
    payer: Seq<u8>,
    command: Cli,
    stage: Stage,
    event: Event,
    answer: spec_fn(ActionView) -> Event,
    steps: nat,
)
    ensures
        course(payer, command, stage, event, answer, steps).len() <= if moves_left(stage) == 0 {
            1
        } else {
            moves_left(stage)
        },
        submitted(course(payer, command, stage, event, answer, steps)).len() <= submissions_left(
            stage,
        ),
    decreases steps,
{
    let next = next_move(payer, command, stage, event);
    lemma_every_move_is_progress(payer, command, stage, event);
    if steps == 0 || next.0 is Done || next.0 is Failed {
        lemma_submitted_from_the_front(next.1, Seq::empty());
    } else {
        let then = answer(next.1);
        let rest = course(payer, command, next.0, then, answer, (steps - 1) as nat);
        lemma_the_rest_is_short(payer, command, next.0, then, answer, (steps - 1) as nat);
        lemma_submitted_from_the_front(next.1, rest);
    }
}

/// Whatever the caller reports, a command is over after five actions at
/// most, and at most two of them submit a transaction.
pub proof fn lemma_a_command_is_short(
    payer: Seq<u8>,
    command: Cli,
    answer: spec_fn(ActionView) -> Event,
    steps: nat,
)
    ensures
        whole_course(payer, command, answer, steps).len() <= 5,
        submitted(whole_course(payer, command, answer, steps)).len() <= 2,
{
    lemma_the_rest_is_short(payer, command, Stage::Start, Event::Started, answer, steps);
}

} // verus!
