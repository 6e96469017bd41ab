//! Composition of ledger transactions, and the rules of an on-chain account-state program.
//!
//! The client side builds instructions ([`system`], [`token`]) for addresses that are given
//! or derived ([`address`], [`deriver`]), puts them in an order in which every account is
//! created before it is used ([`policy`], [`pipeline`], [`mint`]), and assembles a
//! transaction only where exactly the required signers are at hand ([`transaction`]). What
//! the ledger is asked, and the signing and submission of a transaction, are left to the
//! caller, who passes in plain values and holds the key pairs.
//!
//! The program side keeps one record per account, with a name of at most 100 bytes and an
//! age ([`program`]), and reads and writes the payloads of its two operations
//! ([`operation`], [`wire`]).

pub mod address;
pub mod deriver;
pub mod explorer;
pub mod instruction;
pub mod mint;
pub mod operation;
pub mod pipeline;
pub mod policy;
pub mod program;
pub mod system;
pub mod token;
pub mod transaction;
pub mod wire;
