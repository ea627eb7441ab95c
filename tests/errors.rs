//! Transactions that the bank refuses: on a locked account, with a
//! duplicate id, and with insufficient funds. A refused transaction leaves
//! every balance as it was.

use libtransact::{Balance, Bank, CsvRecord, TransErr, TransState, TransType, Transact};

/// Shorthand for a balance written in decimal.
fn dec(s: &str) -> Balance {
    Balance::parse(s).unwrap()
}

/// Reads transactions from comma-separated text whose first non-empty line
/// is the header.
fn parse(input: &str) -> Vec<Result<Transact, TransErr>> {
    let mut out = Vec::new();
    let mut lines = input.lines().map(str::trim).filter(|l| !l.is_empty());
    let header: Vec<String> = lines.next().unwrap().split(',').map(|f| f.trim().to_string()).collect();
    assert!(libtransact::is_header(&header));
    for line in lines {
        let f: Vec<&str> = line.split(',').map(str::trim).collect();
        let amount = f.get(3).filter(|a| !a.is_empty()).map(|a| a.to_string());
        let record = CsvRecord {
            ttype: f[0].to_string(),
            client: f[1].parse().unwrap(),
            tx: f[2].parse().unwrap(),
            amount,
        };
        out.push(Transact::from_record(record));
    }
    out
}

fn locked_client() -> Bank {
    let mut bank = Bank::new();
    let trs: Vec<Result<_, TransErr>> = vec![
        Ok(Transact::new(TransType::Deposit(dec("3.2")), 1, 1)),
        Ok(Transact::new(TransType::Deposit(dec("2.0")), 1, 2)),
        Ok(Transact::new(TransType::Dispute, 1, 1)),
    ];
    let errs = bank.run(trs);
    assert!(errs.is_empty());
    bank.clients_mut().get_mut(&1).unwrap().lock();
    bank
}

fn assert_locked_balances(bank: &Bank) {
    let client = bank.clients().get(&1).unwrap();
    assert_eq!(client.available(), dec("2.0"));
    assert_eq!(client.held(), dec("3.2"));
    assert_eq!(client.total(), dec("5.2"));
}

#[test]
fn locked_deposit() {
    let input = "\n\n\t\t      type, client, tx, amount\n\t\t   deposit,      1,  3,    1.0\n\n\t";
    let mut bank = locked_client();
    let err = bank.run(parse(input));
    assert_eq!(err.len(), 1);
    assert!(matches!(&err[0],
        TransErr::AccountLocked { trans: Transact {
            ttype: TransType::Deposit(a),
            state: TransState::New,
            client: 1,
            id: 3,
        }} if a == &dec("1.0")
    ));
    assert_locked_balances(&bank);
}

#[test]
fn locked_withdraw() {
    let input = "\n\n\t\t      type, client, tx, amount\n\t\twithdrawal,      1,  3,    1.0\n\n\t";
    let mut bank = locked_client();
    let err = bank.run(parse(input));
    assert_eq!(err.len(), 1);
    assert!(matches!(&err[0],
        TransErr::AccountLocked { trans: Transact {
            ttype: TransType::WithDraw(a),
            state: TransState::New,
            client: 1,
            id: 3,
        }} if a == &dec("1.0")
    ));
    assert_locked_balances(&bank);
}

#[test]
fn locked_dispute() {
    let input = "\n\n\t\t      type, client, tx, amount\n\t\t   dispute,      1,  2,\n\n\t";
    let mut bank = locked_client();
    let err = bank.run(parse(input));
    assert_eq!(err.len(), 1);
    assert!(matches!(err[0],
        TransErr::AccountLocked { trans: Transact {
            ttype: TransType::Dispute,
            state: TransState::New,
            client: 1,
            id: 2,
        }}
    ));
    assert_locked_balances(&bank);
}

#[test]
fn locked_resolve() {
    let input = "\n\n\t\t      type, client, tx, amount\n\t\t   resolve,      1,  1,\n\n\t";
    let mut bank = locked_client();
    let err = bank.run(parse(input));
    assert_eq!(err.len(), 1);
    assert!(matches!(err[0],
        TransErr::AccountLocked { trans: Transact {
            ttype: TransType::Resolve,
            state: TransState::New,
            client: 1,
            id: 1,
        }}
    ));
    assert_locked_balances(&bank);
}

#[test]
fn locked_charge_back() {
    let input = "\n\n\t\t      type, client, tx, amount\n\t\tchargeback,      1,  1,\n\n\t";
    let mut bank = locked_client();
    let err = bank.run(parse(input));
    assert_eq!(err.len(), 1);
    assert!(matches!(err[0],
        TransErr::AccountLocked { trans: Transact {
            ttype: TransType::ChargeBack,
            state: TransState::New,
            client: 1,
            id: 1,
        }}
    ));
    assert_locked_balances(&bank);
}

#[test]
fn dup_deposit_deposit() {
    let input = "

		      type, client, tx, amount
		   deposit,      1,  1,    1.0
		   deposit,      1,  1,    1.5

	";
    let mut bank = Bank::new();
    let err = bank.run(parse(input));
    assert_eq!(err.len(), 1);
    assert!(matches!(&err[0],
        TransErr::DuplicateTransact { trans: Transact {
            ttype: TransType::Deposit(a),
            state: TransState::New,
            client: 1,
            id: 1,
        }} if a == &dec("1.5")
    ));
    let client = bank.clients().get(&1).unwrap();
    assert_eq!(client.available(), dec("1.0"));
    assert_eq!(client.held(), dec("0.0"));
    assert_eq!(client.total(), dec("1.0"));
}

#[test]
fn dup_deposit_withdraw_deposit() {
    let input = "

		      type, client, tx, amount
		   deposit,      1,  1,    1.0
		withdrawal,      1,  2,    0.5
		   deposit,      1,  2,    2.0

	";
    let mut bank = Bank::new();
    let err = bank.run(parse(input));
    assert_eq!(err.len(), 1);
    assert!(matches!(&err[0],
        TransErr::DuplicateTransact { trans: Transact {
            ttype: TransType::Deposit(a),
            state: TransState::New,
            client: 1,
            id: 2,
        }} if a == &dec("2.0")
    ));
    let client = bank.clients().get(&1).unwrap();
    assert_eq!(client.available(), dec("0.5"));
    assert_eq!(client.held(), dec("0.0"));
    assert_eq!(client.total(), dec("0.5"));
}

#[test]
fn dup_deposit_withdraw() {
    let input = "

		      type, client, tx, amount
		   deposit,      1,  1,    1.0
		withdrawal,      1,  1,    0.5

	";
    let mut bank = Bank::new();
    let err = bank.run(parse(input));
    assert_eq!(err.len(), 1);
    assert!(matches!(&err[0],
        TransErr::DuplicateTransact { trans: Transact {
            ttype: TransType::WithDraw(a),
            state: TransState::New,
            client: 1,
            id: 1,
        }} if a == &dec("0.5")
    ));
    let client = bank.clients().get(&1).unwrap();
    assert_eq!(client.available(), dec("1.0"));
    assert_eq!(client.held(), dec("0.0"));
    assert_eq!(client.total(), dec("1.0"));
}

#[test]
fn withdraw_too_much() {
    let input = "

		      type, client, tx, amount
		   deposit,      1,  1,    1.0
		withdrawal,      1,  2,    1.5

	";
    let mut bank = Bank::new();
    let err = bank.run(parse(input));
    assert_eq!(err.len(), 1);
    assert!(matches!(&err[0],
        TransErr::InsufficientFunds { trans: Transact {
            ttype: TransType::WithDraw(a),
            state: TransState::New,
            client: 1,
            id: 2,
        }} if a == &dec("1.5")
    ));
    let client = bank.clients().get(&1).unwrap();
    assert_eq!(client.available(), dec("1.0"));
    assert_eq!(client.held(), dec("0.0"));
    assert_eq!(client.total(), dec("1.0"));
}

#[test]
fn dispute_after_withdraw() {
    let input = "

		      type, client, tx, amount
		   deposit,      1,  1,    1.0
		withdrawal,      1,  2,    0.5
		   dispute,      1,  1,

	";
    let mut bank = Bank::new();
    let err = bank.run(parse(input));
    assert_eq!(err.len(), 1);
    assert!(matches!(err[0],
        TransErr::InsufficientFunds { trans: Transact {
            ttype: TransType::Dispute,
            state: TransState::New,
            client: 1,
            id: 1,
        }}
    ));
    let client = bank.clients().get(&1).unwrap();
    assert_eq!(client.available(), dec("0.5"));
    assert_eq!(client.held(), dec("0.0"));
    assert_eq!(client.total(), dec("0.5"));
}
