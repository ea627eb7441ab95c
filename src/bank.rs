use std::collections::HashMap;

use crate::balance::{lemma_from_nat, Balance, FloatErr};
use crate::client::{Client, ClientView};
use crate::trans_err::TransErr;
use crate::transaction::{TransState, TransType, Transact};
use vstd::prelude::*;

verus! {

broadcast use vstd::std_specs::hash::group_hash_axioms, lemma_from_nat;

/// What the engine holds: every account, the ledger of applied deposits and
/// withdrawals by transaction id, and the errors met so far, in order.
pub ghost struct BankState {
    pub clients: Map<u16, ClientView>,
    pub ledger: Map<u32, Transact>,
    pub errors: Seq<TransErr>,
}

/// The central unit that processes transactions and keeps client balances.
#[derive(Debug)]
pub struct Bank {
    clients: HashMap<u16, Client>,
    db: HashMap<u32, Transact>,
    errors: Vec<TransErr>,
}

/// The state of a bank that has processed nothing.
pub open spec fn empty_state() -> BankState {
    BankState {
        clients: Map::empty(),
        ledger: Map::empty(),
        errors: Seq::empty(),
    }
}

/// The accounts of a map of clients.
pub open spec fn client_views(m: Map<u16, Client>) -> Map<u16, ClientView> {
    Map::new(|k: u16| m.contains_key(k), |k: u16| m[k]@)
}

impl View for Bank {
    type V = BankState;

    closed spec fn view(&self) -> BankState {
        BankState {
            clients: client_views(self.clients@),
            ledger: self.db@,
            errors: self.errors@,
        }
    }
}

/// The account that a deposit opens for a client not seen before.
pub open spec fn fresh_account(id: u16) -> ClientView {
    ClientView { id, available: 0, held: 0, locked: false }
}

/// The account of client `id`, or the one a deposit would open for it.
pub open spec fn account(clients: Map<u16, ClientView>, id: u16) -> ClientView {
    if clients.contains_key(id) {
        clients[id]
    } else {
        fresh_account(id)
    }
}

/// The amount that a deposit or withdrawal moves.
pub open spec fn amount_of(t: TransType) -> nat {
    match t {
        TransType::Deposit(b) => b@,
        TransType::WithDraw(b) => b@,
        _ => 0,
    }
}

/// Why a dispute, resolve or chargeback `t` is refused, where the referenced
/// deposit must be in state `wanted` and its amount at most `funds`.
pub open spec fn reference_error(
    ledger: Map<u32, Transact>,
    t: Transact,
    wanted: TransState,
    funds: nat,
) -> Option<TransErr> {
    if !ledger.contains_key(t.id) {
        Some(TransErr::ReferNoneExisting { trans: t })
    } else if ledger[t.id].client != t.client {
        Some(TransErr::WrongClient { trans: t })
    } else if !(ledger[t.id].ttype is Deposit) {
        Some(TransErr::ShouldBeDeposit { trans: t })
    } else if ledger[t.id].state != wanted {
        Some(TransErr::WrongTransState { trans: t })
    } else if funds < amount_of(ledger[t.id].ttype) {
        Some(TransErr::InsufficientFunds { trans: t })
    } else {
        None
    }
}

/// What transaction `t` does to the unlocked account `c` of its client: the
/// account after it and the ledger entry written under `t.id`, or the error
/// that refuses it.
pub open spec fn outcome(c: ClientView, ledger: Map<u32, Transact>, t: Transact) -> Result<
    (ClientView, Transact),
    TransErr,
> {
    match t.ttype {
        TransType::Deposit(a) => if ledger.contains_key(t.id) {
            Err(TransErr::DuplicateTransact { trans: t })
        } else if c.available + a@ + c.held > u64::MAX {
            Err(TransErr::InvalidBalance { trans: t, reason: FloatErr::Infinite })
        } else {
            Ok(
                (
                    ClientView { available: c.available + a@, ..c },
                    Transact { state: TransState::Success, ..t },
                ),
            )
        },
        TransType::WithDraw(a) => if ledger.contains_key(t.id) {
            Err(TransErr::DuplicateTransact { trans: t })
        } else if c.available < a@ {
            Err(TransErr::InsufficientFunds { trans: t })
        } else {
            Ok(
                (
                    ClientView { available: (c.available - a@) as nat, ..c },
                    Transact { state: TransState::Success, ..t },
                ),
            )
        },
        TransType::Dispute => match reference_error(ledger, t, TransState::Success, c.available) {
            Some(e) => Err(e),
            None => {
                let a = amount_of(ledger[t.id].ttype);
                Ok(
                    (
                        ClientView {
                            available: (c.available - a) as nat,
                            held: c.held + a,
                            ..c
                        },
                        Transact { state: TransState::Disputed, ..ledger[t.id] },
                    ),
                )
            },
        },
        TransType::Resolve => match reference_error(ledger, t, TransState::Disputed, c.held) {
            Some(e) => Err(e),
            None => {
                let a = amount_of(ledger[t.id].ttype);
                Ok(
                    (
                        ClientView {
                            available: c.available + a,
                            held: (c.held - a) as nat,
                            ..c
                        },
                        Transact { state: TransState::Success, ..ledger[t.id] },
                    ),
                )
            },
        },
        TransType::ChargeBack => match reference_error(ledger, t, TransState::Disputed, c.held) {
            Some(e) => Err(e),
            None => {
                let a = amount_of(ledger[t.id].ttype);
                Ok(
                    (
                        ClientView { held: (c.held - a) as nat, locked: true, ..c },
                        Transact { state: TransState::ChargedBack, ..ledger[t.id] },
                    ),
                )
            },
        },
    }
}

/// The error that refuses transaction `t` in state `s`, if any.
pub open spec fn rejection(s: BankState, t: Transact) -> Option<TransErr> {
    if !(t.ttype is Deposit) && !s.clients.contains_key(t.client) {
        Some(TransErr::NoClient { trans: t })
    } else if account(s.clients, t.client).locked {
        Some(TransErr::AccountLocked { trans: t })
    } else {
        match outcome(account(s.clients, t.client), s.ledger, t) {
            Err(e) => Some(e),
            Ok(_) => None,
        }
    }
}

/// The state after one item of input: a parse error or a refused
/// transaction is logged and changes nothing else; an accepted transaction
/// replaces its client's account and writes its ledger entry.
pub open spec fn step(s: BankState, item: Result<Transact, TransErr>) -> BankState {
    match item {
        Err(e) => BankState { errors: s.errors.push(e), ..s },
        Ok(t) => match rejection(s, t) {
            Some(e) => BankState { errors: s.errors.push(e), ..s },
            None => match outcome(account(s.clients, t.client), s.ledger, t) {
                Ok((c, entry)) => BankState {
                    clients: s.clients.insert(t.client, c),
                    ledger: s.ledger.insert(t.id, entry),
                    errors: s.errors,
                },
                Err(_) => s,
            },
        },
    }
}

/// The state after all of `items`, in order.
pub open spec fn run_spec(s: BankState, items: Seq<Result<Transact, TransErr>>) -> BankState
    decreases items.len(),
{
    if items.len() == 0 {
        s
    } else {
        step(run_spec(s, items.drop_last()), items.last())
    }
}

/// Whether an executable handler's result is the outcome `o`.
pub open spec fn matches_outcome(
    r: Result<(Client, Transact), TransErr>,
    o: Result<(ClientView, Transact), TransErr>,
) -> bool {
    match (r, o) {
        (Ok((c, e)), Ok((cv, ev))) => c@ == cv && e == ev,
        (Err(e), Err(f)) => e == f,
        _ => false,
    }
}

/// How much an accepted transaction `t` changes its client's available funds.
pub open spec fn available_change(ledger: Map<u32, Transact>, t: Transact) -> int {
    match t.ttype {
        TransType::Deposit(a) => a@ as int,
        TransType::WithDraw(a) => -(a@ as int),
        TransType::Dispute => -(amount_of(ledger[t.id].ttype) as int),
        TransType::Resolve => amount_of(ledger[t.id].ttype) as int,
        TransType::ChargeBack => 0,
    }
}

/// How much an accepted transaction `t` changes its client's held funds.
pub open spec fn held_change(ledger: Map<u32, Transact>, t: Transact) -> int {
    match t.ttype {
        TransType::Dispute => amount_of(ledger[t.id].ttype) as int,
        TransType::Resolve => -(amount_of(ledger[t.id].ttype) as int),
        TransType::ChargeBack => -(amount_of(ledger[t.id].ttype) as int),
        _ => 0,
    }
}

/// Balances never go below zero: an accepted transaction changes available
/// and held funds by exactly its amount, and both results are at least zero.
pub proof fn lemma_balances_never_negative(c: ClientView, ledger: Map<u32, Transact>, t: Transact)
    requires
        outcome(c, ledger, t) is Ok,
    ensures
        c.available + available_change(ledger, t) >= 0,
        c.held + held_change(ledger, t) >= 0,
        outcome(c, ledger, t)->Ok_0.0.available == c.available + available_change(ledger, t),
        outcome(c, ledger, t)->Ok_0.0.held == c.held + held_change(ledger, t),
{
}

/// A refused item, a parse error or a transaction that fails any check,
/// changes no account and no ledger entry: it is only logged.
pub proof fn lemma_rejection_changes_nothing(s: BankState, item: Result<Transact, TransErr>)
    requires
        item is Err || rejection(s, item->Ok_0) is Some,
    ensures
        step(s, item).clients == s.clients,
        step(s, item).ledger == s.ledger,
        step(s, item).errors.len() == s.errors.len() + 1,
        step(s, item).errors.drop_last() == s.errors,
{
    assert(step(s, item).errors.drop_last() =~= s.errors);
}

/// A deposit or withdrawal whose id is already in the ledger is refused as a
/// duplicate and changes nothing, on an account that exists (or that the
/// deposit would open) and is not locked.
pub proof fn lemma_duplicate_refused(s: BankState, t: Transact)
    requires
        t.ttype is Deposit || t.ttype is WithDraw,
        s.ledger.contains_key(t.id),
        t.ttype is Deposit || s.clients.contains_key(t.client),
        !account(s.clients, t.client).locked,
    ensures
        rejection(s, t) == Some(TransErr::DuplicateTransact { trans: t }),
        step(s, Ok(t)) == (BankState {
            errors: s.errors.push(TransErr::DuplicateTransact { trans: t }),
            ..s
        }),
{
}

/// A deposit or withdrawal whose id is already in the ledger is never
/// applied, whatever the account: it is refused and changes no account and
/// no ledger entry.
pub proof fn lemma_duplicate_never_applied(s: BankState, t: Transact)
    requires
        t.ttype is Deposit || t.ttype is WithDraw,
        s.ledger.contains_key(t.id),
    ensures
        rejection(s, t) is Some,
        step(s, Ok(t)).clients == s.clients,
        step(s, Ok(t)).ledger == s.ledger,
        step(s, Ok(t)).errors == s.errors.push(rejection(s, t)->Some_0),
{
}

/// A ledger entry, once written, stays for good with its kind, amount,
/// client and id: no later deposit or withdrawal replaces it, so each id
/// records at most one successful deposit or withdrawal.
pub proof fn lemma_ledger_entries_kept(s: BankState, items: Seq<Result<Transact, TransErr>>, id: u32)
    requires
        s.ledger.contains_key(id),
    ensures
        run_spec(s, items).ledger.contains_key(id),
        run_spec(s, items).ledger[id].ttype == s.ledger[id].ttype,
        run_spec(s, items).ledger[id].client == s.ledger[id].client,
        run_spec(s, items).ledger[id].id == s.ledger[id].id,
    decreases items.len(),
{
    if items.len() > 0 {
        lemma_ledger_entries_kept(s, items.drop_last(), id);
    }
}

/// An accepted deposit or withdrawal writes a ledger entry under an id that
/// was not in use.
pub proof fn lemma_new_entry_only_for_unused_id(s: BankState, t: Transact)
    requires
        t.ttype is Deposit || t.ttype is WithDraw,
        rejection(s, t) is None,
    ensures
        !s.ledger.contains_key(t.id),
        step(s, Ok(t)).ledger == s.ledger.insert(t.id, Transact { state: TransState::Success, ..t }),
{
}

/// The two ways a disputed deposit is closed.
enum Resolution {
    Resolve,
    ChargeBack,
}

impl Bank {
    /// A bank with no clients, an empty ledger and no errors.
    pub fn new() -> (r: Self)
        ensures
            r@ == empty_state(),
    {
        let r = Self { db: HashMap::new(), clients: HashMap::new(), errors: Vec::new() };
        proof {
            assert(client_views(r.clients@) =~= Map::<u16, ClientView>::empty());
        }
        r
    }

    /// All client accounts by id.
    pub fn clients(&self) -> (r: &HashMap<u16, Client>)
        ensures
            client_views(r@) == self@.clients,
    {
        &self.clients
    }

    /// All client accounts by id, to change.
    pub fn clients_mut(&mut self) -> (r: &mut HashMap<u16, Client>)
        ensures
            client_views(r@) == old(self)@.clients,
            final(self)@ == (BankState { clients: client_views(final(r)@), ..old(self)@ }),
    {
        &mut self.clients
    }

    /// The errors met so far, in order.
    pub fn errors(&self) -> (r: &[TransErr])
        ensures
            r@ == self@.errors,
    {
        self.errors.as_slice()
    }

    /// Applies a deposit of `amount` to `client`.
    fn deposit(db: &HashMap<u32, Transact>, client: Client, trans: Transact, amount: Balance) -> (r:
        Result<(Client, Transact), TransErr>)
        requires
            trans.ttype == TransType::Deposit(amount),
        ensures
            matches_outcome(r, outcome(client@, db@, trans)),
            db@.contains_key(trans.id) ==> r == Err::<(Client, Transact), TransErr>(
                TransErr::DuplicateTransact { trans },
            ),
    {
        if db.contains_key(&trans.id) {
            return Err(TransErr::DuplicateTransact { trans });
        }
        let mut c = client;
        let available = match c.available().try_add(amount) {
            Ok(b) => b,
            Err(reason) => return Err(TransErr::InvalidBalance { trans, reason }),
        };
        match c.update_balance(available, c.held()) {
            Ok(()) => Ok((c, Transact { state: TransState::Success, ..trans })),
            Err(reason) => Err(TransErr::InvalidBalance { trans, reason }),
        }
    }

    /// Applies a withdrawal of `amount` from `client`.
    fn withdraw(db: &HashMap<u32, Transact>, client: Client, trans: Transact, amount: Balance) -> (r:
        Result<(Client, Transact), TransErr>)
        requires
            trans.ttype == TransType::WithDraw(amount),
        ensures
            matches_outcome(r, outcome(client@, db@, trans)),
            db@.contains_key(trans.id) ==> r == Err::<(Client, Transact), TransErr>(
                TransErr::DuplicateTransact { trans },
            ),
    {
        if db.contains_key(&trans.id) {
            return Err(TransErr::DuplicateTransact { trans });
        }
        if client.available().units() < amount.units() {
            return Err(TransErr::InsufficientFunds { trans });
        }
        proof {
            use_type_invariant(&client);
        }
        let mut c = client;
        let available = match c.available().try_sub(amount) {
            Ok(b) => b,
            Err(reason) => return Err(TransErr::InvalidBalance { trans, reason }),
        };
        match c.update_balance(available, c.held()) {
            Ok(()) => Ok((c, Transact { state: TransState::Success, ..trans })),
            Err(reason) => Err(TransErr::InvalidBalance { trans, reason }),
        }
    }

    /// The deposit that a dispute, resolve or chargeback refers to, and its
    /// amount, where it exists, belongs to the same client, is a deposit and
    /// stands in state `wanted`.
    fn referenced(db: &HashMap<u32, Transact>, trans: Transact, wanted: TransState) -> (r: Result<
        (Transact, Balance),
        TransErr,
    >)
        ensures
            match r {
                Ok((o, a)) => reference_error(db@, trans, wanted, a@) is None && db@.contains_key(
                    trans.id,
                ) && o == db@[trans.id] && o.ttype == TransType::Deposit(a),
                Err(e) => reference_error(db@, trans, wanted, 0) == Some(e) && !(e is InsufficientFunds),
            },
    {
        let old = match db.get(&trans.id) {
            Some(o) => *o,
            None => return Err(TransErr::ReferNoneExisting { trans }),
        };
        if old.client != trans.client {
            return Err(TransErr::WrongClient { trans });
        }
        let amount = match old.ttype {
            TransType::Deposit(a) => a,
            _ => return Err(TransErr::ShouldBeDeposit { trans }),
        };
        if old.state != wanted {
            return Err(TransErr::WrongTransState { trans });
        }
        Ok((old, amount))
    }

    /// Applies a dispute of an earlier deposit: its amount moves from
    /// available to held.
    fn dispute(db: &HashMap<u32, Transact>, client: Client, trans: Transact) -> (r: Result<
        (Client, Transact),
        TransErr,
    >)
        requires
            trans.ttype == TransType::Dispute,
        ensures
            matches_outcome(r, outcome(client@, db@, trans)),
    {
        let (old, amount) = match Self::referenced(db, trans, TransState::Success) {
            Ok(found) => found,
            Err(e) => return Err(e),
        };
        if client.available().units() < amount.units() {
            return Err(TransErr::InsufficientFunds { trans });
        }
        proof {
            use_type_invariant(&client);
        }
        let mut c = client;
        let available = match c.available().try_sub(amount) {
            Ok(b) => b,
            Err(reason) => return Err(TransErr::InvalidBalance { trans, reason }),
        };
        let held = match c.held().try_add(amount) {
            Ok(b) => b,
            Err(reason) => return Err(TransErr::InvalidBalance { trans, reason }),
        };
        match c.update_balance(available, held) {
            Ok(()) => Ok((c, Transact { state: TransState::Disputed, ..old })),
            Err(reason) => Err(TransErr::InvalidBalance { trans, reason }),
        }
    }

    /// Applies a resolve or a chargeback of a disputed deposit: its amount
    /// leaves held, back to available on a resolve, for good on a
    /// chargeback, which also locks the account.
    fn resolution(
        db: &HashMap<u32, Transact>,
        client: Client,
        trans: Transact,
        action: Resolution,
    ) -> (r: Result<(Client, Transact), TransErr>)
        requires
            action is Resolve ==> trans.ttype == TransType::Resolve,
            action is ChargeBack ==> trans.ttype == TransType::ChargeBack,
        ensures
            matches_outcome(r, outcome(client@, db@, trans)),
    {
        let (old, amount) = match Self::referenced(db, trans, TransState::Disputed) {
            Ok(found) => found,
            Err(e) => return Err(e),
        };
        if client.held().units() < amount.units() {
            return Err(TransErr::InsufficientFunds { trans });
        }
        proof {
            use_type_invariant(&client);
        }
        let mut c = client;
        let held = match c.held().try_sub(amount) {
            Ok(b) => b,
            Err(reason) => return Err(TransErr::InvalidBalance { trans, reason }),
        };
        match action {
            Resolution::Resolve => {
                let available = match c.available().try_add(amount) {
                    Ok(b) => b,
                    Err(reason) => return Err(TransErr::InvalidBalance { trans, reason }),
                };
                match c.update_balance(available, held) {
                    Ok(()) => Ok((c, Transact { state: TransState::Success, ..old })),
                    Err(reason) => Err(TransErr::InvalidBalance { trans, reason }),
                }
            },
            Resolution::ChargeBack => {
                match c.update_balance(c.available(), held) {
                    Ok(()) => {
                        c.lock();
                        Ok((c, Transact { state: TransState::ChargedBack, ..old }))
                    },
                    Err(reason) => Err(TransErr::InvalidBalance { trans, reason }),
                }
            },
        }
    }

    /// Processes one item of input. A parse error is logged. A transaction
    /// for an unknown client (other than a deposit, which opens the account)
    /// or for a locked account is refused; otherwise its handler either
    /// applies it in full or refuses it. A refused transaction is logged and
    /// changes nothing else.
    pub fn apply(&mut self, item: Result<Transact, TransErr>)
        ensures
            final(self)@ == step(old(self)@, item),
            final(self)@.errors.len() == old(self)@.errors.len() + 1 ==> final(self)@.clients
                == old(self)@.clients && final(self)@.ledger == old(self)@.ledger,
            final(self)@.errors.len() == old(self)@.errors.len() || final(self)@.errors.len()
                == old(self)@.errors.len() + 1,
            item matches Ok(t) && (t.ttype is Deposit || t.ttype is WithDraw) && old(
                self,
            )@.ledger.contains_key(t.id) ==> final(self)@.clients == old(self)@.clients
                && final(self)@.ledger == old(self)@.ledger && final(self)@.errors.len()
                == old(self)@.errors.len() + 1,
    {
        let trans = match item {
            Ok(t) => t,
            Err(e) => {
                self.errors.push(e);
                return;
            },
        };
        let client = match self.clients.get(&trans.client) {
            Some(c) => *c,
            None => {
                if let TransType::Deposit(_) = trans.ttype {
                    Client::new(trans.client)
                } else {
                    self.errors.push(TransErr::NoClient { trans });
                    return;
                }
            },
        };
        if client.is_locked() {
            self.errors.push(TransErr::AccountLocked { trans });
            return;
        }
        let result = match trans.ttype {
            TransType::Deposit(amount) => Self::deposit(&self.db, client, trans, amount),
            TransType::WithDraw(amount) => Self::withdraw(&self.db, client, trans, amount),
            TransType::Dispute => Self::dispute(&self.db, client, trans),
            TransType::Resolve => Self::resolution(&self.db, client, trans, Resolution::Resolve),
            TransType::ChargeBack => Self::resolution(
                &self.db,
                client,
                trans,
                Resolution::ChargeBack,
            ),
        };
        match result {
            Ok((c, entry)) => {
                self.clients.insert(trans.client, c);
                self.db.insert(trans.id, entry);
                proof {
                    assert(client_views(self.clients@) =~= client_views(
                        old(self).clients@,
                    ).insert(trans.client, c@));
                }
            },
            Err(e) => self.errors.push(e),
        }
    }

    /// Processes all of `source` in order and returns every error met so
    /// far. Transactions that cause an error change no balance.
    pub fn run(&mut self, source: Vec<Result<Transact, TransErr>>) -> (r: &[TransErr])
        ensures
            final(self)@ == run_spec(old(self)@, source@),
            r@ == final(self)@.errors,
    {
        let ghost start = self@;
        for item in it: source
            invariant
                it.seq() == source@,
                self@ == run_spec(start, source@.take(it.index() as int)),
        {
            proof {
                assert(source@.take(it.index() + 1).drop_last() =~= source@.take(it.index() as int));
            }
            self.apply(item);
        }
        proof {
            assert(source@.take(source@.len() as int) =~= source@);
        }
        self.errors.as_slice()
    }
}

} // verus!
