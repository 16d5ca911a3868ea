//! The fee ledger and the administrator who may change the fee.

use vstd::prelude::*;
use crate::model::{lemma_total_burned_push, total_burned};
use crate::types::{AccountId, Balance, Error};

verus! {

/// The administrator's identity, fixed when the store is made.
pub struct AccessControl {
    owner: AccountId,
}

impl AccessControl {
    /// The administrator.
    pub closed spec fn administrator(&self) -> AccountId {
        self.owner
    }

    /// Access control with `owner` as the administrator.
    pub fn new(owner: AccountId) -> (access: AccessControl)
        ensures
            access.administrator() == owner,
    {
        AccessControl { owner }
    }

    /// The administrator.
    pub fn owner(&self) -> (owner: AccountId)
        ensures
            owner == self.administrator(),
    {
        self.owner
    }

    /// Whether `caller` is the administrator.
    pub fn is_owner(&self, caller: AccountId) -> (yes: bool)
        ensures
            yes == (caller == self.administrator()),
    {
        caller == self.owner
    }
}

/// The current fee and the total of what was burned.
pub struct FeeLedger {
    storage_fee: Balance,
    total_fees_burned: Balance,
    payments: Ghost<Seq<Balance>>,
}

/// The mathematical value of a ledger.
pub struct LedgerView {
    /// The payment that storing an entry requires.
    pub storage_fee: Balance,
    /// Every burned payment, oldest first.
    pub payments: Seq<Balance>,
}

impl View for FeeLedger {
    type V = LedgerView;

    closed spec fn view(&self) -> LedgerView {
        LedgerView { storage_fee: self.storage_fee, payments: self.payments@ }
    }
}

impl FeeLedger {
    /// The running total is the capped sum of the burned payments.
    pub closed spec fn wf(&self) -> bool {
        self.total_fees_burned == total_burned(self.payments@)
    }

    /// A ledger with the given fee and nothing burned.
    pub fn new(storage_fee: Balance) -> (ledger: FeeLedger)
        ensures
            ledger.wf(),
            ledger@ == (LedgerView { storage_fee, payments: Seq::empty() }),
    {
        FeeLedger { storage_fee, total_fees_burned: 0, payments: Ghost(Seq::empty()) }
    }

    /// The current fee.
    pub fn quote(&self) -> (fee: Balance)
        ensures
            fee == self@.storage_fee,
    {
        self.storage_fee
    }

    /// Accepts a payment that covers the current fee. The ledger does not
    /// change; nothing is given back of a payment above the fee.
    pub fn charge(&self, payment: Balance) -> (result: Result<(), Error>)
        ensures
            payment >= self@.storage_fee ==> result == Ok::<(), Error>(()),
            payment < self@.storage_fee ==> result == Err::<(), Error>(
                Error::InsufficientBalance,
            ),
    {
        if payment < self.storage_fee {
            Err(Error::InsufficientBalance)
        } else {
            Ok(())
        }
    }

    /// Records `amount` as burned. The total stays at the largest balance
    /// once it has reached it.
    pub fn record_burn(&mut self, amount: Balance)
        requires
            old(self).wf(),
        ensures
            final(self).wf(),
            final(self)@ == (LedgerView {
                payments: old(self)@.payments.push(amount),
                ..old(self)@
            }),
    {
        proof {
            lemma_total_burned_push(self.payments@, amount);
        }
        self.total_fees_burned = self.total_fees_burned.saturating_add(amount);
        self.payments = Ghost(self.payments@.push(amount));
    }

    /// The sum of the burned payments, capped at the largest balance.
    pub fn burned(&self) -> (total: Balance)
        requires
            self.wf(),
        ensures
            total == total_burned(self@.payments),
    {
        self.total_fees_burned
    }

    /// Sets the fee to `new_fee` where `caller` is the administrator, and
    /// returns the fee that it replaces. Any fee is accepted.
    pub fn set_fee(&mut self, new_fee: Balance, caller: AccountId, access: &AccessControl) -> (result:
        Result<Balance, Error>)
        requires
            old(self).wf(),
        ensures
            final(self).wf(),
            caller == access.administrator() ==> result == Ok::<Balance, Error>(
                old(self)@.storage_fee,
            ) && final(self)@ == (LedgerView { storage_fee: new_fee, ..old(self)@ }),
            caller != access.administrator() ==> result == Err::<Balance, Error>(
                Error::Unauthorized,
            ) && final(self)@ == old(self)@,
    {
        if !access.is_owner(caller) {
            return Err(Error::Unauthorized);
        }
        let old_fee = self.storage_fee;
        self.storage_fee = new_fee;
        Ok(old_fee)
    }
}

} // verus!
