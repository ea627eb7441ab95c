use crate::balance::{parse_spec, Balance, FloatErr};
use crate::trans_err::{DeserTransactKind, TransErr};
use vstd::prelude::*;

verus! {

/// The kind of a transaction, with the amount where it moves money.
#[derive(Clone, Copy, PartialEq, Eq, Debug, Structural)]
pub enum TransType {
    Deposit(Balance),
    WithDraw(Balance),
    Dispute,
    Resolve,
    ChargeBack,
}

/// Where a transaction stands in its processing.
#[derive(Clone, Copy, PartialEq, Eq, Debug, Structural)]
pub enum TransState {
    /// Not processed yet.
    New,
    /// The deposit or withdrawal was applied to the account.
    Success,
    /// A deposit under dispute: its funds are held.
    Disputed,
    /// A deposit reversed by a chargeback.
    ChargedBack,
}

/// One transaction. Dispute, resolve and chargeback carry no amount: their
/// `id` names the deposit they are about.
#[derive(Clone, Copy, PartialEq, Eq, Debug, Structural)]
pub struct Transact {
    pub ttype: TransType,
    pub state: TransState,
    pub client: u16,
    pub id: u32,
}

/// One line of input as the record reader hands it over: the type word, the
/// client, the transaction id and the amount text, if the line has one.
#[derive(Clone, Debug)]
pub struct CsvRecord {
    pub ttype: String,
    pub client: u16,
    pub tx: u32,
    pub amount: Option<String>,
}

/// The column names that the first line of input must hold, in order.
pub open spec fn header_spec() -> Seq<Seq<char>> {
    seq!["type"@, "client"@, "tx"@, "amount"@]
}

/// Whether `ty` names one of the kinds that refer to an earlier deposit.
pub open spec fn is_reference_word(ty: Seq<char>) -> bool {
    ty == "dispute"@ || ty == "resolve"@ || ty == "chargeback"@
}

/// Whether `ty` names one of the kinds that move an amount.
pub open spec fn is_amount_word(ty: Seq<char>) -> bool {
    ty == "deposit"@ || ty == "withdrawal"@
}

/// Why a record with type word `ty` and amount text `amount` is no
/// transaction, if it is none.
pub open spec fn record_error(ty: Seq<char>, amount: Option<Seq<char>>) -> Option<DeserTransactKind> {
    match amount {
        Some(a) => match parse_spec(a) {
            Err(FloatErr::Negative) => Some(DeserTransactKind::AmountNegative),
            Err(_) => Some(DeserTransactKind::InvalidAmount),
            Ok(_) => if is_amount_word(ty) {
                None
            } else if is_reference_word(ty) {
                Some(DeserTransactKind::UnexpectedAmount)
            } else {
                Some(DeserTransactKind::UnknownTransType)
            },
        },
        None => if is_reference_word(ty) {
            None
        } else if is_amount_word(ty) {
            Some(DeserTransactKind::MissingAmount)
        } else {
            Some(DeserTransactKind::UnknownTransType)
        },
    }
}

/// Whether `t` is the kind that type word `ty` and amount text `amount` describe.
pub open spec fn ttype_of_record(t: TransType, ty: Seq<char>, amount: Option<Seq<char>>) -> bool {
    match t {
        TransType::Deposit(b) => ty == "deposit"@ && amount is Some && parse_spec(amount->Some_0)
            == Ok::<nat, FloatErr>(b@),
        TransType::WithDraw(b) => ty == "withdrawal"@ && amount is Some && parse_spec(
            amount->Some_0,
        ) == Ok::<nat, FloatErr>(b@),
        TransType::Dispute => ty == "dispute"@ && amount is None,
        TransType::Resolve => ty == "resolve"@ && amount is None,
        TransType::ChargeBack => ty == "chargeback"@ && amount is None,
    }
}

/// The amount text of a record, as a sequence of characters.
pub open spec fn amount_view(amount: Option<String>) -> Option<Seq<char>> {
    match amount {
        Some(a) => Some(a@),
        None => None,
    }
}

/// Whether two texts are the same.
fn same_text(a: &str, b: &str) -> (r: bool)
    ensures
        r == (a@ == b@),
{
    let n = a.unicode_len();
    if n != b.unicode_len() {
        return false;
    }
    let mut i: usize = 0;
    while i < n
        invariant
            i <= n,
            n == a@.len(),
            n == b@.len(),
            forall|j: int| 0 <= j < i ==> a@[j] == b@[j],
        decreases n - i,
    {
        if a.get_char(i) != b.get_char(i) {
            return false;
        }
        i = i + 1;
    }
    proof {
        assert(a@ =~= b@);
    }
    true
}

/// Whether `fields` is the header line: `type, client, tx, amount`.
pub fn is_header(fields: &Vec<String>) -> (r: bool)
    ensures
        r == (fields@.len() == 4 && forall|i: int| 0 <= i < 4 ==> #[trigger] fields@[i]@ == header_spec()[i]),
{
    proof {
        reveal_strlit("type");
        reveal_strlit("client");
        reveal_strlit("tx");
        reveal_strlit("amount");
    }
    if fields.len() != 4 {
        return false;
    }
    let a = same_text(fields[0].as_str(), "type");
    let b = same_text(fields[1].as_str(), "client");
    let c = same_text(fields[2].as_str(), "tx");
    let d = same_text(fields[3].as_str(), "amount");
    proof {
        if a && b && c && d {
            assert forall|i: int| 0 <= i < 4 implies #[trigger] fields@[i]@ == header_spec()[i] by {
                if i == 0 {
                } else if i == 1 {
                } else if i == 2 {
                } else {
                }
            }
        } else if !a {
            assert(fields@[0]@ != header_spec()[0]);
        } else if !b {
            assert(fields@[1]@ != header_spec()[1]);
        } else if !c {
            assert(fields@[2]@ != header_spec()[2]);
        } else {
            assert(fields@[3]@ != header_spec()[3]);
        }
    }
    a && b && c && d
}

impl Transact {
    /// A new transaction, not processed yet.
    pub fn new(ttype: TransType, client: u16, id: u32) -> (r: Self)
        ensures
            r == (Transact { ttype, client, id, state: TransState::New }),
    {
        Self { ttype, client, id, state: TransState::New }
    }

    /// The transaction that a record of input describes. Fails with a
    /// `DeserializeTransact` error, which carries the record, where the amount
    /// is no valid balance (`AmountNegative`, `InvalidAmount`), where the type
    /// word is unknown, or where an amount is missing or should not be there.
    pub fn from_record(rec: CsvRecord) -> (r: Result<Transact, TransErr>)
        ensures
            record_error(rec.ttype@, amount_view(rec.amount)) is None <==> r is Ok,
            match r {
                Ok(t) => t.client == rec.client && t.id == rec.tx && t.state == TransState::New
                    && ttype_of_record(t.ttype, rec.ttype@, amount_view(rec.amount)),
                Err(TransErr::DeserializeTransact { kind, record }) => record == rec && Some(kind)
                    == record_error(rec.ttype@, amount_view(rec.amount)),
                Err(_) => false,
            },
    {
        proof {
            reveal_strlit("deposit");
            reveal_strlit("withdrawal");
            reveal_strlit("dispute");
            reveal_strlit("resolve");
            reveal_strlit("chargeback");
        }
        let ty = rec.ttype.as_str();
        let is_deposit = same_text(ty, "deposit");
        let is_withdrawal = same_text(ty, "withdrawal");
        let is_dispute = same_text(ty, "dispute");
        let is_resolve = same_text(ty, "resolve");
        let is_chargeback = same_text(ty, "chargeback");
        let ttype = match &rec.amount {
            Some(text) => {
                let amount = match Balance::parse(text.as_str()) {
                    Ok(b) => b,
                    Err(e) => {
                        let kind = match e {
                            FloatErr::Negative => DeserTransactKind::AmountNegative,
                            _ => DeserTransactKind::InvalidAmount,
                        };
                        return Err(TransErr::DeserializeTransact { kind, record: rec });
                    },
                };
                if is_deposit {
                    TransType::Deposit(amount)
                } else if is_withdrawal {
                    TransType::WithDraw(amount)
                } else {
                    let kind = if is_dispute || is_resolve || is_chargeback {
                        DeserTransactKind::UnexpectedAmount
                    } else {
                        DeserTransactKind::UnknownTransType
                    };
                    return Err(TransErr::DeserializeTransact { kind, record: rec });
                }
            },
            None => {
                if is_dispute {
                    TransType::Dispute
                } else if is_resolve {
                    TransType::Resolve
                } else if is_chargeback {
                    TransType::ChargeBack
                } else {
                    let kind = if is_deposit || is_withdrawal {
                        DeserTransactKind::MissingAmount
                    } else {
                        DeserTransactKind::UnknownTransType
                    };
                    return Err(TransErr::DeserializeTransact { kind, record: rec });
                }
            },
        };
        Ok(Transact::new(ttype, rec.client, rec.tx))
    }
}

} // verus!
