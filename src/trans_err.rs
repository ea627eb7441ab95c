use crate::balance::FloatErr;
use crate::transaction::{CsvRecord, Transact};
use vstd::prelude::*;

verus! {

/// The error of the csv crate, carried through as it came.
#[verifier::external_type_specification]
#[verifier::external_body]
pub struct ExCsvError(csv::Error);

/// What is wrong with a record that was read but describes no transaction.
#[derive(Debug, Clone, Copy, PartialEq, Eq, Structural)]
pub enum DeserTransactKind {
    /// A deposit or withdrawal with a negative amount.
    AmountNegative,
    /// A type word other than "deposit", "withdrawal", "dispute", "resolve"
    /// and "chargeback".
    UnknownTransType,
    /// An amount that is no decimal number, or too large to hold.
    InvalidAmount,
    /// A deposit or withdrawal without an amount.
    MissingAmount,
    /// A dispute, resolve or chargeback with an amount.
    UnexpectedAmount,
}

/// Everything that can go wrong while reading and processing transactions.
/// Each error that comes of a transaction carries it.
#[derive(Debug)]
pub enum TransErr {
    /// A line of input that the record reader could not read.
    DeserializeCsv { source: csv::Error },
    /// A record that was read but describes no valid transaction.
    DeserializeTransact { kind: DeserTransactKind, record: CsvRecord },
    /// The header line could not be read; most likely it is not valid UTF-8.
    DeserializeHeader { source: csv::Error },
    /// The input does not start with the header `type, client, tx, amount`.
    NoHeader,
    /// A deposit or withdrawal whose id was used before.
    DuplicateTransact { trans: Transact },
    /// The client account is locked.
    AccountLocked { trans: Transact },
    /// Not enough funds to withdraw, to dispute, or to release from held.
    InsufficientFunds { trans: Transact },
    /// A withdrawal, dispute, resolve or chargeback for an unknown client.
    NoClient { trans: Transact },
    /// A dispute, resolve or chargeback by another client than the deposit's.
    WrongClient { trans: Transact },
    /// A dispute of a deposit that is not in force, or a resolve or
    /// chargeback of one that is not disputed.
    WrongTransState { trans: Transact },
    /// A dispute, resolve or chargeback of an unknown transaction.
    ReferNoneExisting { trans: Transact },
    /// A dispute, resolve or chargeback of a withdrawal.
    ShouldBeDeposit { trans: Transact },
    /// A balance would leave its range: the account's total would not fit.
    InvalidBalance { trans: Transact, reason: FloatErr },
}

} // verus!
