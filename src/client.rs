use crate::balance::{Balance, FloatErr};
use vstd::prelude::*;

verus! {

/// What a client account is: its id, its two balances as unit counts, and
/// whether it is frozen.
pub ghost struct ClientView {
    pub id: u16,
    pub available: nat,
    pub held: nat,
    pub locked: bool,
}

/// A client account. Funds are either available, or held while a deposit of
/// them is disputed. After a chargeback the account is locked for good.
#[derive(Clone, Copy, PartialEq, Eq, Debug)]
pub struct Client {
    available: Balance,
    held: Balance,
    id: u16,
    locked: bool,
}

impl View for Client {
    type V = ClientView;

    closed spec fn view(&self) -> ClientView {
        ClientView {
            id: self.id,
            available: self.available@,
            held: self.held@,
            locked: self.locked,
        }
    }
}

impl Client {
    /// The total of an account always fits in a balance.
    #[verifier::type_invariant]
    pub open spec fn total_fits(&self) -> bool {
        self@.available + self@.held <= u64::MAX
    }

    /// A new, unlocked account with nothing in it.
    pub fn new(id: u16) -> (r: Self)
        ensures
            r@ == (ClientView { id, available: 0, held: 0, locked: false }),
    {
        Self { available: Balance::zero(), held: Balance::zero(), locked: false, id }
    }

    /// The identifier of this account.
    pub fn id(&self) -> (r: u16)
        ensures
            r == self@.id,
    {
        self.id
    }

    /// The funds the client may withdraw.
    pub fn available(&self) -> (r: Balance)
        ensures
            r@ == self@.available,
    {
        self.available
    }

    /// The funds of deposits under dispute.
    pub fn held(&self) -> (r: Balance)
        ensures
            r@ == self@.held,
    {
        self.held
    }

    /// Available and held funds together.
    pub fn total(&self) -> (r: Balance)
        ensures
            r@ == self@.available + self@.held,
    {
        proof {
            use_type_invariant(self);
            broadcast use crate::balance::lemma_from_nat;
        }
        match self.available.try_add(self.held) {
            Ok(t) => t,
            Err(_) => self.available,
        }
    }

    /// Whether the account is frozen: after a chargeback nothing more is allowed.
    pub fn is_locked(&self) -> (r: bool)
        ensures
            r == self@.locked,
    {
        self.locked
    }

    /// Freezes the account. Locking a locked account changes nothing.
    pub fn lock(&mut self) -> (r: &mut Self)
        ensures
            r@ == (ClientView { locked: true, ..old(self)@ }),
            *final(self) == *final(r),
    {
        proof {
            use_type_invariant(&*self);
        }
        *self = Client { locked: true, ..*self };
        self
    }

    /// Replaces both balances at once; fails with `Infinite`, changing
    /// nothing, where their total would not fit.
    pub(crate) fn update_balance(&mut self, available: Balance, held: Balance) -> (r: Result<(), FloatErr>)
        ensures
            available@ + held@ <= u64::MAX ==> r is Ok && final(self)@ == (ClientView {
                available: available@,
                held: held@,
                ..old(self)@
            }),
            available@ + held@ > u64::MAX ==> r == Err::<(), FloatErr>(FloatErr::Infinite)
                && final(self)@ == old(self)@,
    {
        match available.try_add(held) {
            Ok(_) => {
                *self = Client { available, held, ..*self };
                Ok(())
            },
            Err(e) => Err(e),
        }
    }
}

} // verus!
