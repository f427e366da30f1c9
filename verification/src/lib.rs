//! A model of a trustless two-party conditional asset exchange ("escrow")
//! on a ledger of accounts, with its three operations verified.
//!
//! A maker deposits a quantity of asset A into a vault controlled by a
//! derived escrow record, naming the quantity of asset B wanted in return
//! (`make`). A taker either fulfills the exchange (`take`), or the maker
//! reclaims the deposit (`refund`); the two are mutually exclusive and
//! consume the record and vault. Address derivation is delegated to the
//! runtime's derivation scheme through trusted wrappers; the account map,
//! the checked transfers, and the three state transitions are verified
//! code, and the laws the exchange obeys are proved in `laws`.

pub mod codec;
pub mod derivation;
pub mod error;
pub mod instructions;
pub mod laws;
pub mod ledger;
pub mod state;

pub use codec::{record_from_bytes, record_to_bytes};
pub use derivation::{derive_escrow_address, derive_holding_address};
pub use error::EscrowError;
pub use instructions::{make, refund, take, Make};
pub use ledger::Ledger;
pub use state::{AccountData, AccountId, Escrow, Holding};
