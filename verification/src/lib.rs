//! A custodial crowdfunding vault.
//!
//! A fund is a record in a [`Ledger`]. It gathers donations toward a goal
//! and pays them out to its creator, who alone may withdraw: not before the
//! due date where the fund is locked, and never so that less than the
//! reserved minimum stays behind in a fund that remains open.

pub mod address;
pub mod date;
pub mod engine;
pub mod fund;
pub mod laws;
pub mod ledger;

pub use address::Address;
pub use date::CalendarDate;
pub use engine::{
    create, create_record, donate, withdraw, withdrawAll, withdraw_all_on, withdraw_on, Create,
    Donate, Wallet, Withdraw,
};
pub use fund::{Error, Fund};
pub use ledger::Ledger;
