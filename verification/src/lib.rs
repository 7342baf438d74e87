//! Transactions for a token mint whose permanent delegate may move or burn
//! the tokens of every holder, and the rules by which such a mint is kept.
//!
//! [`bundle`] builds the transactions that create the mint, create token
//! accounts, mint, transfer and burn; [`signing`] anchors and signs them.
//! [`ledger`] keeps one mint and its token accounts by the rules that the
//! token program is expected to enforce, and [`laws`] states what follows
//! from those rules.

pub mod account;
pub mod associated_account;
pub mod bundle;
pub mod funding;
pub mod instruction;
pub mod laws;
pub mod ledger;
pub mod signing;
pub mod system_program;
pub mod token_program;
