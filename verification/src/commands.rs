//! The commands of the client and their arguments.

use vstd::prelude::*;

verus! {

/// One invocation of the client.
#[derive(Clone, Debug, PartialEq, Eq)]
pub enum Cli {
    /// Transfer tokens
    Transfer(TransferArgs),
    /// Mint tokens
    Mint(MintArgs),
    /// Burn tokens
    Burn(BurnArgs),
    /// Deploy a new token
    Deploy(DeployArgs),
    /// Request token balance
    Balance(TokenBalanceArgs),
}

/// What to transfer, and to whom.
#[derive(Clone, Debug, PartialEq, Eq)]
pub struct TransferArgs {
    /// Mint address
    pub mint: String,
    /// Destination address
    pub destination: String,
    /// Amount to transfer, in whole tokens
    pub amount: u64,
}

/// What to mint.
#[derive(Clone, Debug, PartialEq, Eq)]
pub struct MintArgs {
    /// Mint address
    pub mint: String,
    /// Amount to mint, in whole tokens
    pub amount: u64,
}

/// What to burn.
#[derive(Clone, Debug, PartialEq, Eq)]
pub struct BurnArgs {
    /// Mint address
    pub mint: String,
    /// Amount to burn, in whole tokens
    pub amount: u64,
}

/// A deployment takes no argument.
#[derive(Clone, Copy, Debug, PartialEq, Eq)]
pub struct DeployArgs {}

/// Which token's balance to show.
#[derive(Clone, Debug, PartialEq, Eq)]
pub struct TokenBalanceArgs {
    /// Mint address
    pub mint: String,
}

} // verus!
