//! A transaction-processing engine for client accounts: deposits, withdrawals,
//! disputes, resolutions and chargebacks, applied under exact fixed-point
//! arithmetic with an accumulated log of typed errors.

mod balance;
mod bank;
mod client;
mod csv_export;
mod disputes;
mod trans_err;
mod transaction;

pub use balance::{Balance, FloatErr, SCALE};
pub use bank::{Bank, BankState};
pub use client::{Client, ClientView};
pub use csv_export::CsvExport;
pub use trans_err::{DeserTransactKind, TransErr};
pub use transaction::{is_header, CsvRecord, TransState, TransType, Transact};
