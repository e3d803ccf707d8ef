use vstd::prelude::*;

use crate::id::ClientID;

verus! {

/// Per-client balance state.
///
/// Monetary fields are fixed-point integers counting 1/10_000 of one
/// currency unit, so the four-decimal output format is exact. `available`
/// is the money immediately usable, `held` the money frozen pending
/// dispute resolution, and `total` the stored sum of the two, recomputed
/// after every mutation so it can never drift. `locked` is set by a
/// chargeback and is terminal.
#[derive(Debug, Clone, Copy, PartialEq, Eq, Structural)]
pub struct Account {
    pub client_id: ClientID,
    pub available: i64,
    pub held: i64,
    pub total: i64,
    pub locked: bool,
}

/// The state of a freshly created account: all balances zero, unlocked.
pub open spec fn initial_account(client_id: ClientID) -> Account {
    Account { client_id, available: 0, held: 0, total: 0, locked: false }
}

impl Account {
    /// Well-formedness: the stored total always equals `available + held`.
    pub open spec fn wf(self) -> bool {
        self.total == self.available + self.held
    }

    /// A credit of `amount` fits the machine representation.
    pub open spec fn can_credit(self, amount: i64) -> bool {
        &&& self.available + amount <= i64::MAX
        &&& self.total + amount <= i64::MAX
    }

    /// A hold of `amount` fits the machine representation.
    pub open spec fn can_hold(self, amount: i64) -> bool {
        &&& i64::MIN <= self.available - amount
        &&& self.held + amount <= i64::MAX
    }

    /// A release of `amount` fits the machine representation.
    pub open spec fn can_release(self, amount: i64) -> bool {
        &&& i64::MIN <= self.held - amount
        &&& self.available + amount <= i64::MAX
    }

    /// A chargeback settlement of `amount` fits the machine representation.
    pub open spec fn can_chargeback(self, amount: i64) -> bool {
        &&& i64::MIN <= self.held - amount
        &&& i64::MIN <= self.total - amount
    }

    /// The account after a credit of `amount`.
    pub open spec fn credited(self, amount: i64) -> Account {
        Account {
            available: (self.available + amount) as i64,
            total: (self.total + amount) as i64,
            ..self
        }
    }

    /// The account after a successful debit of `amount`.
    pub open spec fn debited(self, amount: i64) -> Account {
        Account {
            available: (self.available - amount) as i64,
            total: (self.total - amount) as i64,
            ..self
        }
    }

    /// The account after a hold of `amount`: the total is untouched.
    pub open spec fn with_hold(self, amount: i64) -> Account {
        Account {
            available: (self.available - amount) as i64,
            held: (self.held + amount) as i64,
            ..self
        }
    }

    /// The account after a release of `amount`: the total is untouched.
    pub open spec fn with_release(self, amount: i64) -> Account {
        Account {
            available: (self.available + amount) as i64,
            held: (self.held - amount) as i64,
            ..self
        }
    }

    /// The account after a chargeback settlement of `amount`: held and
    /// total shrink and the lock is set, forever.
    pub open spec fn charged_back(self, amount: i64) -> Account {
        Account {
            held: (self.held - amount) as i64,
            total: (self.total - amount) as i64,
            locked: true,
            ..self
        }
    }

    pub fn new(client_id: ClientID) -> (a: Account)
        ensures
            a == initial_account(client_id),
    {
        Account { client_id, available: 0, held: 0, total: 0, locked: false }
    }

    pub fn client_id(&self) -> (r: ClientID)
        ensures
            r == self.client_id,
    {
        self.client_id
    }

    pub fn available(&self) -> (r: i64)
        ensures
            r == self.available,
    {
        self.available
    }

    pub fn held(&self) -> (r: i64)
        ensures
            r == self.held,
    {
        self.held
    }

    pub fn total(&self) -> (r: i64)
        ensures
            r == self.total,
    {
        self.total
    }

    pub fn locked(&self) -> (r: bool)
        ensures
            r == self.locked,
    {
        self.locked
    }

    /// Recomputes the stored total from its parts.
    pub fn update_total(&mut self)
        requires
            i64::MIN <= old(self).available + old(self).held <= i64::MAX,
        ensures
            *final(self) == (Account {
                total: (old(self).available + old(self).held) as i64,
                ..*old(self)
            }),
            final(self).wf(),
    {
        self.total = self.available + self.held;
    }

    /// Credits `amount` to the available funds and recomputes the total.
    /// There is no failure condition; validating the amount is the
    /// caller's responsibility.
    pub fn add(&mut self, amount: i64)
        requires
            old(self).wf(),
            0 <= amount,
            old(self).can_credit(amount),
        ensures
            *final(self) == old(self).credited(amount),
            final(self).wf(),
    {
        self.available = self.available + amount;
        self.update_total();
    }

    /// Debits `amount` from the available funds if they suffice, and
    /// recomputes the total; on insufficient funds the account is left
    /// unchanged. A successful debit never leaves `available` negative.
    pub fn subtract(&mut self, amount: i64)
        requires
            old(self).wf(),
            0 <= amount,
        ensures
            amount <= old(self).available ==> *final(self) == old(self).debited(amount),
            amount > old(self).available ==> *final(self) == *old(self),
            amount <= old(self).available ==> final(self).available >= 0,
            final(self).wf(),
    {
        if amount <= self.available {
            self.available = self.available - amount;
            self.update_total();
        }
    }

    /// Moves `amount` from available to held funds, pending a dispute's
    /// outcome. The total is unchanged. Sufficiency of the available
    /// funds is deliberately not checked, so a dispute raised after the
    /// funds were already spent can drive `available` negative.
    pub fn hold(&mut self, amount: i64)
        requires
            old(self).wf(),
            0 <= amount,
            old(self).can_hold(amount),
        ensures
            *final(self) == old(self).with_hold(amount),
            final(self).total == old(self).total,
            final(self).wf(),
    {
        self.available = self.available - amount;
        self.held = self.held + amount;
    }

    /// Moves `amount` back from held to available funds, the inverse of
    /// `hold`. The total is unchanged.
    pub fn release(&mut self, amount: i64)
        requires
            old(self).wf(),
            0 <= amount,
            old(self).can_release(amount),
        ensures
            *final(self) == old(self).with_release(amount),
            final(self).total == old(self).total,
            final(self).wf(),
    {
        self.held = self.held - amount;
        self.available = self.available + amount;
    }

    /// Removes `amount` from the held funds, recomputes the total and
    /// locks the account. Irreversible: no operation ever clears the
    /// lock.
    pub fn chargeback(&mut self, amount: i64)
        requires
            old(self).wf(),
            0 <= amount,
            old(self).can_chargeback(amount),
        ensures
            *final(self) == old(self).charged_back(amount),
            final(self).wf(),
    {
        self.held = self.held - amount;
        self.locked = true;
        self.update_total();
    }
}

} // verus!
