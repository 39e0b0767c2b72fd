//! What the summary of an operation shows: one row of labels and one row of
//! values. Drawing the table is the caller's business.

use vstd::prelude::*;
use vstd::string::StringExecFns;

verus! {

/// The heading above every summary.
pub const TITLE: &'static str = "TRANSACTION SUMMARY";

/// The colour in which a summary sets the name of its method, in bold.
#[derive(Clone, Copy, Debug, PartialEq, Eq, Structural)]
pub enum Accent {
    Blue,
    Green,
    Red,
    Yellow,
}

/// The content of a summary table.
#[derive(Clone, Debug, PartialEq, Eq)]
pub struct Table {
    /// The label of each column.
    pub headers: Vec<String>,
    /// The value under each label.
    pub cells: Vec<String>,
    /// Where the last column names the method: the colour to set it in.
    pub accent: Option<Accent>,
}

/// The mathematical value of a `Table`.
#[verifier::ext_equal]
pub struct TableView {
    pub headers: Seq<Seq<char>>,
    pub cells: Seq<Seq<char>>,
    pub accent: Option<Accent>,
}

impl View for Table {
    type V = TableView;

    open spec fn view(&self) -> TableView {
        TableView {
            headers: self.headers.deep_view(),
            cells: self.cells.deep_view(),
            accent: self.accent,
        }
    }
}

/// The character of a decimal digit.
pub open spec fn digit(d: nat) -> char {
    seq!['0', '1', '2', '3', '4', '5', '6', '7', '8', '9'][d as int]
}

/// A number in decimal, without sign or leading zeros.
pub open spec fn decimal(n: nat) -> Seq<char>
    decreases n,
{
    if n < 10 {
        seq![digit(n)]
    } else {
        decimal(n / 10).push(digit(n % 10))
    }
}

/// The value of the character of a decimal digit.
pub open spec fn digit_value(c: char) -> nat {
    (c as u32 - 48) as nat
}

/// The number that decimal digits denote.
pub open spec fn number_of(text: Seq<char>) -> nat
    decreases text.len(),
{
    if text.len() == 0 {
        0
    } else {
        number_of(text.drop_last()) * 10 + digit_value(text.last())
    }
}

/// `decimal` writes a number so that it can be read back: in digits that
/// denote it, at least one, and with no zero in front of another digit.
pub proof fn lemma_decimal_denotes(n: nat)
    ensures
        number_of(decimal(n)) == n,
        decimal(n).len() >= 1,
        forall|i: int| 0 <= i < decimal(n).len() ==> '0' <= #[trigger] decimal(n)[i] <= '9',
        n >= 10 ==> decimal(n)[0] != '0',
    decreases n,
{
    reveal_with_fuel(number_of, 2);
    if n >= 10 {
        lemma_decimal_denotes(n / 10);
        assert(decimal(n).drop_last() =~= decimal(n / 10));
    }
}

/// A number in decimal behind a sign.
pub open spec fn signed(sign: char, n: nat) -> Seq<char> {
    seq![sign] + decimal(n)
}

/// The digit `d`, as text.
fn digit_str(d: u64) -> (s: &'static str)
    requires
        d < 10,
    ensures
        s@ == seq![digit(d as nat)],
{
    proof {
        reveal_strlit("0");
        reveal_strlit("1");
        reveal_strlit("2");
        reveal_strlit("3");
        reveal_strlit("4");
        reveal_strlit("5");
        reveal_strlit("6");
        reveal_strlit("7");
        reveal_strlit("8");
        reveal_strlit("9");
    }
    if d == 0 {
        "0"
    } else if d == 1 {
        "1"
    } else if d == 2 {
        "2"
    } else if d == 3 {
        "3"
    } else if d == 4 {
        "4"
    } else if d == 5 {
        "5"
    } else if d == 6 {
        "6"
    } else if d == 7 {
        "7"
    } else if d == 8 {
        "8"
    } else {
        "9"
    }
}

/// Writes a number in decimal.
pub fn decimal_string(n: u64) -> (s: String)
    ensures
        s@ == decimal(n as nat),
    decreases n,
{
    if n < 10 {
        digit_str(n).to_owned()
    } else {
        let mut s = decimal_string(n / 10);
        s.append(digit_str(n % 10));
        s
    }
}

/// Writes an amount that was added.
pub fn gained(amount: u64) -> (s: String)
    ensures
        s@ == signed('+', amount as nat),
{
    proof {
        reveal_strlit("+");
    }
    let mut s = "+".to_owned();
    s.append(decimal_string(amount).as_str());
    s
}

/// Writes an amount that was taken away.
pub fn spent(amount: u64) -> (s: String)
    ensures
        s@ == signed('-', amount as nat),
{
    proof {
        reveal_strlit("-");
    }
    let mut s = "-".to_owned();
    s.append(decimal_string(amount).as_str());
    s
}

/// The summary of a transfer: the amount is shown as taken away.
pub open spec fn transfer_table(
    signature: Seq<char>,
    destination: Seq<char>,
    source: Seq<char>,
    mint: Seq<char>,
    amount: u64,
) -> TableView {
    TableView {
        headers: seq![
            "Signature"@,
            "Destination"@,
            "Source"@,
            "Mint"@,
            "Amount"@,
            "Method"@,
        ],
        cells: seq![
            signature,
            destination,
            source,
            mint,
            signed('-', amount as nat),
            "Transfer"@,
        ],
        accent: Some(Accent::Blue),
    }
}

/// The summary of a mint: the amount is shown as added.
pub open spec fn mint_table(
    signature: Seq<char>,
    destination: Seq<char>,
    mint: Seq<char>,
    amount: u64,
) -> TableView {
    TableView {
        headers: seq![
            "Signature"@,
            "Destination"@,
            "Mint"@,
            "Amount"@,
            "Method"@,
        ],
        cells: seq![
            signature,
            destination,
            mint,
            signed('+', amount as nat),
            "Mint"@,
        ],
        accent: Some(Accent::Green),
    }
}

/// The summary of a burn: the amount is shown as taken away.
pub open spec fn burn_table(
    signature: Seq<char>,
    source: Seq<char>,
    mint: Seq<char>,
    amount: u64,
) -> TableView {
    TableView {
        headers: seq![
            "Signature"@,
            "Source"@,
            "Mint"@,
            "Amount"@,
            "Method"@,
        ],
        cells: seq![
            signature,
            source,
            mint,
            signed('-', amount as nat),
            "Burn"@,
        ],
        accent: Some(Accent::Red),
    }
}

/// The summary of a deployment.
pub open spec fn deploy_table(
    signature: Seq<char>,
    authority: Seq<char>,
    mint: Seq<char>,
) -> TableView {
    TableView {
        headers: seq![
            "Signature"@,
            "Authority"@,
            "Mint"@,
            "Method"@,
        ],
        cells: seq![
            signature,
            authority,
            mint,
            "Deploy"@,
        ],
        accent: Some(Accent::Yellow),
    }
}

/// The summary of a balance query.
pub open spec fn balance_table(
    mint: Seq<char>,
    balance: u64,
) -> TableView {
    TableView {
        headers: seq![
            "Mint"@,
            "Balance"@,
        ],
        cells: seq![
            mint,
            decimal(balance as nat),
        ],
        accent: None,
    }
}

/// Data that a summary table can be made of.
pub trait TransactionTableData {
    /// The table of this data.
    spec fn table(&self) -> TableView;

    fn construct_table(&self) -> (t: Table)
        ensures
            t@ == self.table(),
    ;
}

/// What a transfer did.
#[derive(Clone, Copy, Debug, PartialEq, Eq)]
pub struct TransferTransactionData<'a> {
    pub mint: &'a str,
    pub amount: u64,
    pub source: &'a str,
    pub destination: &'a str,
    pub signature: &'a str,
}

/// What a mint did.
#[derive(Clone, Copy, Debug, PartialEq, Eq)]
pub struct MintTransactionData<'a> {
    pub mint: &'a str,
    pub amount: u64,
    pub destination: &'a str,
    pub signature: &'a str,
}

/// What a burn did.
#[derive(Clone, Copy, Debug, PartialEq, Eq)]
pub struct BurnTransactionData<'a> {
    pub mint: &'a str,
    pub amount: u64,
    pub source: &'a str,
    pub signature: &'a str,
}

/// What a deployment did.
#[derive(Clone, Copy, Debug, PartialEq, Eq)]
pub struct DeployTransactionData<'a> {
    pub mint: &'a str,
    pub authority: &'a str,
    pub signature: &'a str,
}

/// What the payer holds of a token.
#[derive(Clone, Copy, Debug, PartialEq, Eq)]
pub struct TokenBalanceData<'a> {
    pub mint: &'a str,
    pub balance: u64,
}

impl TransactionTableData for TransferTransactionData<'_> {
    open spec fn table(&self) -> TableView {
        transfer_table(self.signature@, self.destination@, self.source@, self.mint@, self.amount)
    }

    fn construct_table(&self) -> (t: Table) {
        let headers = vec![
            "Signature".to_owned(),
            "Destination".to_owned(),
            "Source".to_owned(),
            "Mint".to_owned(),
            "Amount".to_owned(),
            "Method".to_owned(),
        ];
        let cells = vec![
            self.signature.to_owned(),
            self.destination.to_owned(),
            self.source.to_owned(),
            self.mint.to_owned(),
            spent(self.amount),
            "Transfer".to_owned(),
        ];
        let t = Table { headers, cells, accent: Some(Accent::Blue) };
        t
    }
}

impl TransactionTableData for MintTransactionData<'_> {
    open spec fn table(&self) -> TableView {
        mint_table(self.signature@, self.destination@, self.mint@, self.amount)
    }

    fn construct_table(&self) -> (t: Table) {
        let headers = vec![
            "Signature".to_owned(),
            "Destination".to_owned(),
            "Mint".to_owned(),
            "Amount".to_owned(),
            "Method".to_owned(),
        ];
        let cells = vec![
            self.signature.to_owned(),
            self.destination.to_owned(),
            self.mint.to_owned(),
            gained(self.amount),
            "Mint".to_owned(),
        ];
        let t = Table { headers, cells, accent: Some(Accent::Green) };
        t
    }
}

impl TransactionTableData for BurnTransactionData<'_> {
    open spec fn table(&self) -> TableView {
        burn_table(self.signature@, self.source@, self.mint@, self.amount)
    }

    fn construct_table(&self) -> (t: Table) {
        let headers = vec![
            "Signature".to_owned(),
            "Source".to_owned(),
            "Mint".to_owned(),
            "Amount".to_owned(),
            "Method".to_owned(),
        ];
        let cells = vec![
            self.signature.to_owned(),
            self.source.to_owned(),
            self.mint.to_owned(),
            spent(self.amount),
            "Burn".to_owned(),
        ];
        let t = Table { headers, cells, accent: Some(Accent::Red) };
        t
    }
}

impl TransactionTableData for DeployTransactionData<'_> {
    open spec fn table(&self) -> TableView {
        deploy_table(self.signature@, self.authority@, self.mint@)
    }

    fn construct_table(&self) -> (t: Table) {
        let headers = vec![
            "Signature".to_owned(),
            "Authority".to_owned(),
            "Mint".to_owned(),
            "Method".to_owned(),
        ];
        let cells = vec![
            self.signature.to_owned(),
            self.authority.to_owned(),
            self.mint.to_owned(),
            "Deploy".to_owned(),
        ];
        let t = Table { headers, cells, accent: Some(Accent::Yellow) };
        t
    }
}

impl TransactionTableData for TokenBalanceData<'_> {
    open spec fn table(&self) -> TableView {
        balance_table(self.mint@, self.balance)
    }

    fn construct_table(&self) -> (t: Table) {
        let headers = vec![
            "Mint".to_owned(),
            "Balance".to_owned(),
        ];
        let cells = vec![
            self.mint.to_owned(),
            decimal_string(self.balance),
        ];
        let t = Table { headers, cells, accent: None };
        t
    }
}

} // verus!
