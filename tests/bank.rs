//! Processing transactions with the bank: deposits and withdrawals, two
//! clients, disputes and their resolution, and precision over many
//! operations.

use libtransact::{Balance, Bank, CsvRecord, TransErr, TransType, Transact};

/// Shorthand for a balance written in decimal.
fn dec(s: &str) -> Balance {
    Balance::parse(s).unwrap()
}

/// Reads transactions from comma-separated text whose first non-empty line
/// is the header.
fn parse(input: &str) -> Vec<Result<Transact, TransErr>> {
    let mut out = Vec::new();
    let mut lines = input.lines().map(str::trim).filter(|l| !l.is_empty());
    let header: Vec<String> = lines.next().unwrap().split(',').map(|f| f.trim().to_string()).collect();
    assert!(libtransact::is_header(&header));
    for line in lines {
        let f: Vec<&str> = line.split(',').map(str::trim).collect();
        let amount = f.get(3).filter(|a| !a.is_empty()).map(|a| a.to_string());
        let record = CsvRecord {
            ttype: f[0].to_string(),
            client: f[1].parse().unwrap(),
            tx: f[2].parse().unwrap(),
            amount,
        };
        out.push(Transact::from_record(record));
    }
    out
}

fn locked_client() -> Bank {
    let mut bank = Bank::new();
    let trs: Vec<Result<_, TransErr>> = vec![Ok(Transact::new(TransType::Deposit(dec("3.2")), 1, 1))];
    bank.run(trs);
    bank.clients_mut().get_mut(&1).unwrap().lock();
    bank
}

#[test]
fn test_deposit() {
    let mut bank = Bank::new();
    let trs: Vec<Result<_, TransErr>> = vec![
        Ok(Transact::new(TransType::Deposit(dec("3.2")), 1, 1)),
        Ok(Transact::new(TransType::Deposit(dec("2.3")), 1, 2)),
    ];
    let errs = bank.run(trs);
    assert_eq!(errs.len(), 0);
    let client = bank.clients().get(&1).unwrap();
    assert_eq!(client.available(), dec("5.5"));
    assert_eq!(client.held(), dec("0.0"));
    assert_eq!(client.total(), dec("5.5"));
}

#[test]
fn test_deposit_locked() {
    let mut bank = locked_client();
    let trs: Vec<Result<_, TransErr>> = vec![Ok(Transact::new(TransType::Deposit(dec("3.2")), 1, 1))];
    let errs = bank.run(trs);
    assert_eq!(errs.len(), 1);
    assert!(matches!(errs[0], TransErr::AccountLocked { .. }));
}

#[test]
fn test_withdrawal() {
    let mut bank = Bank::new();
    let trs: Vec<Result<_, TransErr>> = vec![
        Ok(Transact::new(TransType::Deposit(dec("3.0")), 1, 1)),
        Ok(Transact::new(TransType::WithDraw(dec("2.0")), 1, 2)),
    ];
    let errs = bank.run(trs);
    assert_eq!(errs.len(), 0);
    let client = bank.clients().get(&1).unwrap();
    assert_eq!(client.available(), dec("1.0"));
    assert_eq!(client.held(), dec("0.0"));
    assert_eq!(client.total(), dec("1.0"));
}

#[test]
fn test_withdrawal_locked() {
    let mut bank = locked_client();
    let trs: Vec<Result<_, TransErr>> = vec![Ok(Transact::new(TransType::WithDraw(dec("2.0")), 1, 2))];
    let errs = bank.run(trs);
    assert_eq!(errs.len(), 1);
    assert!(matches!(errs[0], TransErr::AccountLocked { .. }));
}

#[test]
fn test_withdrawal_no_client() {
    let mut bank = Bank::new();
    let trs: Vec<Result<_, TransErr>> = vec![Ok(Transact::new(TransType::WithDraw(dec("2.0")), 1, 2))];
    let errs = bank.run(trs);
    assert_eq!(errs.len(), 1);
    assert!(matches!(errs[0], TransErr::NoClient { .. }));
}

#[test]
fn test_withdrawal_no_funds() {
    let mut bank = Bank::new();
    let trs: Vec<Result<_, TransErr>> = vec![
        Ok(Transact::new(TransType::Deposit(dec("3.0")), 1, 1)),
        Ok(Transact::new(TransType::WithDraw(dec("4.0")), 1, 2)),
    ];
    let errs = bank.run(trs);
    assert_eq!(errs.len(), 1);
    assert!(matches!(errs[0], TransErr::InsufficientFunds { .. }));
}

#[test]
fn two_clients() {
    let input = "

		      type, client, tx, amount
		   deposit,      1,  1,    1.0
		   deposit,      2,  2,    2.0
		   deposit,      1,  3,    2.0
		withdrawal,      1,  4,    1.5
		withdrawal,      2,  5,    1.5

	";
    let mut bank = Bank::new();
    let err = bank.run(parse(input));
    assert_eq!(err.len(), 0);

    let client = bank.clients().get(&1).unwrap();
    assert_eq!(client.available(), dec("1.5"));
    assert_eq!(client.held(), dec("0.0"));
    assert_eq!(client.total(), dec("1.5"));

    let client = bank.clients().get(&2).unwrap();
    assert_eq!(client.available(), dec("0.5"));
    assert_eq!(client.held(), dec("0.0"));
    assert_eq!(client.total(), dec("0.5"));
}

#[test]
fn dispute() {
    let input = "

		      type, client, tx, amount
		   deposit,      1,  1, 0.66
		   deposit,      1,  2, 0.3333
		   dispute,      1,  2,

	";
    let mut bank = Bank::new();
    let err = bank.run(parse(input));
    assert_eq!(err.len(), 0);

    let client = bank.clients().get(&1).unwrap();
    assert_eq!(client.available(), dec("0.66"));
    assert_eq!(client.held(), dec("0.3333"));
    assert_eq!(client.total(), dec("0.9933"));
}

#[test]
fn resolve() {
    let input = "

		      type, client, tx, amount
		   deposit,      1,  1, 0.66
		   deposit,      1,  2, 0.3333
		   dispute,      1,  2,
		   resolve,      1,  2,

	";
    let mut bank = Bank::new();
    let err = bank.run(parse(input));
    assert_eq!(err.len(), 0, "{err:?}");

    let client = bank.clients().get(&1).unwrap();
    assert_eq!(client.available(), dec("0.9933"));
    assert_eq!(client.held(), dec("0.0"));
    assert_eq!(client.total(), dec("0.9933"));
}

#[test]
fn chargeback() {
    let input = "

		      type, client, tx, amount
		   deposit,      1,  1, 0.66
		   deposit,      1,  2, 0.3333
		   dispute,      1,  2,
		   chargeback,   1,  2,

	";
    let mut bank = Bank::new();
    let err = bank.run(parse(input));
    assert_eq!(err.len(), 0, "{err:?}");

    let client = bank.clients().get(&1).unwrap();
    assert_eq!(client.available(), dec("0.66"));
    assert_eq!(client.held(), dec("0.0"));
    assert_eq!(client.total(), dec("0.66"));
}

#[test]
fn precision() {
    let mut input = "type, client, tx, amount\n".to_string();
    for i in 1..20_000 {
        input.push_str(&format!("deposit, 1, {i}, 11111111.1111\n"));
    }
    for i in 20_001..40_000 {
        input.push_str(&format!("withdrawal, 1, {i}, 11111111.1111\n"));
    }
    let mut bank = Bank::new();
    let err = bank.run(parse(&input));
    assert_eq!(err.len(), 0, "{err:?}");

    let client = bank.clients().get(&1).unwrap();
    assert_eq!(client.available(), dec("0.0"));
    assert_eq!(client.held(), dec("0.0"));
    assert_eq!(client.total(), dec("0.0"));
}

#[test]
fn precision_9999() {
    let mut input = "type, client, tx, amount\n".to_string();
    for i in 1..20_000 {
        input.push_str(&format!("deposit, 1, {i}, 9999999.9999\n"));
    }
    for i in 20_001..40_000 {
        input.push_str(&format!("withdrawal, 1, {i}, 9999999.9999\n"));
    }
    let mut bank = Bank::new();
    let err = bank.run(parse(&input));
    assert_eq!(err.len(), 0, "{err:?}");

    let client = bank.clients().get(&1).unwrap();
    assert_eq!(client.available(), dec("0.0"));
    assert_eq!(client.held(), dec("0.0"));
    assert_eq!(client.total(), dec("0.0"));
}
