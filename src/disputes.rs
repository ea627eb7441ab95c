use crate::bank::{account, amount_of, empty_state, outcome, rejection, run_spec, step, BankState};
use crate::trans_err::TransErr;
use crate::transaction::{TransState, TransType, Transact};
use vstd::prelude::*;

verus! {

/// The amount that ledger entry `i` holds back from client `k`: the amount
/// of the deposit if it is `k`'s and under dispute, else nothing.
pub open spec fn disputed_amount(ledger: Map<u32, Transact>, k: u16, i: u32) -> nat {
    if ledger.contains_key(i) && ledger[i].client == k && ledger[i].state == TransState::Disputed {
        amount_of(ledger[i].ttype)
    } else {
        0
    }
}

/// The total that the entries `ids` of the ledger hold back from client `k`.
pub open spec fn disputed_sum(ledger: Map<u32, Transact>, k: u16, ids: Set<u32>) -> nat
    decreases ids.len(),
    when ids.finite()
{
    if ids.len() == 0 {
        0
    } else {
        let i = ids.choose();
        disputed_sum(ledger, k, ids.remove(i)) + disputed_amount(ledger, k, i)
    }
}

/// The held funds of each account are exactly what its disputed deposits
/// hold back, and every disputed deposit belongs to an account.
pub open spec fn held_matches_disputes(s: BankState) -> bool {
    &&& s.ledger.dom().finite()
    &&& forall|k: u16| #[trigger]
        s.clients.contains_key(k) ==> s.clients[k].held == disputed_sum(s.ledger, k, s.ledger.dom())
    &&& forall|i: u32|
        #[trigger] s.ledger.contains_key(i) && s.ledger[i].state == TransState::Disputed
            ==> s.clients.contains_key(s.ledger[i].client)
}

proof fn lemma_sum_remove(ledger: Map<u32, Transact>, k: u16, ids: Set<u32>, i: u32)
    requires
        ids.finite(),
        ids.contains(i),
    ensures
        disputed_sum(ledger, k, ids) == disputed_sum(ledger, k, ids.remove(i)) + disputed_amount(
            ledger,
            k,
            i,
        ),
    decreases ids.len(),
{
    let j = ids.choose();
    if j != i {
        lemma_sum_remove(ledger, k, ids.remove(j), i);
        lemma_sum_remove(ledger, k, ids.remove(i), j);
        assert(ids.remove(j).remove(i) =~= ids.remove(i).remove(j));
    }
}

proof fn lemma_sum_agree(a: Map<u32, Transact>, b: Map<u32, Transact>, k: u16, ids: Set<u32>)
    requires
        ids.finite(),
        forall|i: u32| ids.contains(i) ==> disputed_amount(a, k, i) == disputed_amount(b, k, i),
    ensures
        disputed_sum(a, k, ids) == disputed_sum(b, k, ids),
    decreases ids.len(),
{
    if ids.len() > 0 {
        let i = ids.choose();
        lemma_sum_agree(a, b, k, ids.remove(i));
    }
}

proof fn lemma_sum_zero(ledger: Map<u32, Transact>, k: u16, ids: Set<u32>)
    requires
        ids.finite(),
        forall|i: u32| ids.contains(i) ==> disputed_amount(ledger, k, i) == 0,
    ensures
        disputed_sum(ledger, k, ids) == 0,
    decreases ids.len(),
{
    if ids.len() > 0 {
        let i = ids.choose();
        lemma_sum_zero(ledger, k, ids.remove(i));
    }
}

/// Writing entry `e` under id `i` changes what the ledger holds back from
/// client `k` by the difference of the two entries alone.
proof fn lemma_sum_insert(ledger: Map<u32, Transact>, k: u16, i: u32, e: Transact)
    requires
        ledger.dom().finite(),
    ensures
        disputed_sum(ledger.insert(i, e), k, ledger.insert(i, e).dom()) + disputed_amount(
            ledger,
            k,
            i,
        ) == disputed_sum(ledger, k, ledger.dom()) + disputed_amount(ledger.insert(i, e), k, i),
{
    let l2 = ledger.insert(i, e);
    let d = ledger.dom();
    assert(l2.dom() =~= d.insert(i));
    lemma_sum_remove(l2, k, l2.dom(), i);
    assert(l2.dom().remove(i) =~= d.remove(i));
    lemma_sum_agree(l2, ledger, k, d.remove(i));
    if d.contains(i) {
        lemma_sum_remove(ledger, k, d, i);
    } else {
        assert(d.remove(i) =~= d);
    }
}

/// An accepted transaction keeps the held funds in step with the disputes.
proof fn lemma_accepted_keeps(s: BankState, t: Transact)
    requires
        held_matches_disputes(s),
        rejection(s, t) is None,
    ensures
        held_matches_disputes(step(s, Ok(t))),
{
    let c = account(s.clients, t.client);
    let (c2, entry) = outcome(c, s.ledger, t)->Ok_0;
    let l2 = s.ledger.insert(t.id, entry);
    let cs2 = s.clients.insert(t.client, c2);
    assert(step(s, Ok(t)) == BankState { clients: cs2, ledger: l2, errors: s.errors });
    assert forall|k: u16| #[trigger] cs2.contains_key(k) implies cs2[k].held == disputed_sum(
        l2,
        k,
        l2.dom(),
    ) by {
        lemma_sum_insert(s.ledger, k, t.id, entry);
        if k == t.client && !s.clients.contains_key(k) {
            assert forall|i: u32| s.ledger.dom().contains(i) implies disputed_amount(
                s.ledger,
                k,
                i,
            ) == 0 by {
                if s.ledger[i].client == k && s.ledger[i].state == TransState::Disputed {
                    assert(s.clients.contains_key(s.ledger[i].client));
                }
            }
            lemma_sum_zero(s.ledger, k, s.ledger.dom());
        }
        if t.ttype is Resolve || t.ttype is ChargeBack || t.ttype is Dispute {
            if k == t.client {
                assert(s.clients.contains_key(k));
            }
        }
    }
    assert forall|i: u32|
        #[trigger] l2.contains_key(i) && l2[i].state == TransState::Disputed implies cs2.contains_key(
        l2[i].client,
    ) by {
        if i != t.id {
            assert(s.ledger.contains_key(i));
        }
    }
}

/// Every step keeps the held funds in step with the disputes.
proof fn lemma_step_keeps(s: BankState, item: Result<Transact, TransErr>)
    requires
        held_matches_disputes(s),
    ensures
        held_matches_disputes(step(s, item)),
{
    match item {
        Err(_) => {},
        Ok(t) => {
            if rejection(s, t) is None {
                lemma_accepted_keeps(s, t);
            }
        },
    }
}

/// In every state that processing reaches from an empty bank, the held
/// funds of each account are exactly the sum of its disputed deposits.
pub proof fn lemma_held_is_sum_of_disputes(items: Seq<Result<Transact, TransErr>>)
    ensures
        held_matches_disputes(run_spec(empty_state(), items)),
    decreases items.len(),
{
    if items.len() == 0 {
        assert(empty_state().ledger.dom() =~= Set::empty());
    } else {
        lemma_held_is_sum_of_disputes(items.drop_last());
        lemma_step_keeps(run_spec(empty_state(), items.drop_last()), items.last());
    }
}

/// A resolve or chargeback never finds too little held: in every state
/// reached from an empty bank, refusing one for insufficient held funds
/// cannot happen.
pub proof fn lemma_resolution_never_short(items: Seq<Result<Transact, TransErr>>, t: Transact)
    requires
        t.ttype is Resolve || t.ttype is ChargeBack,
    ensures
        rejection(run_spec(empty_state(), items), t) != Some(TransErr::InsufficientFunds { trans: t }),
{
    let s = run_spec(empty_state(), items);
    lemma_held_is_sum_of_disputes(items);
    if s.ledger.contains_key(t.id) && s.ledger[t.id].client == t.client && s.ledger[t.id].state
        == TransState::Disputed {
        assert(s.clients.contains_key(t.client));
        lemma_sum_remove(s.ledger, t.client, s.ledger.dom(), t.id);
    }
}

} // verus!
