use vstd::prelude::*;
use crate::tx::TxAmount;

verus! {

/// Largest magnitude a single transaction amount can have: amounts are
/// carried as `i64` counts of 1/10000 units, so every amount `v` satisfies
/// `-AMOUNT_LIMIT <= v <= AMOUNT_LIMIT`.
pub open spec fn amount_limit() -> int {
    0x8000_0000_0000_0000
}

/// `x` is representable as an `i128`.
pub open spec fn fits_i128(x: int) -> bool {
    i128::MIN <= x <= i128::MAX
}

/// `x` is far enough from the `i128` edges that adding or subtracting one
/// transaction amount cannot overflow.
pub open spec fn has_room(x: int) -> bool {
    i128::MIN + amount_limit() <= x <= i128::MAX - amount_limit()
}

/// A client's funds, as exact fixed-point decimals (counts of 1/10000 units).
///
/// `available` may go negative: a hold reserves funds that may already have
/// been withdrawn, and only a later chargeback removes them for good.
#[derive(Clone, Copy, Debug, PartialEq, Eq, Structural)]
pub struct Account {
    pub client: u16,
    pub available: i128,
    pub held: i128,
    pub is_locked: bool,
}

/// Mathematical image of an [`Account`]: balances as unbounded integers.
pub struct AccountV {
    pub client: u16,
    pub available: int,
    pub held: int,
    pub is_locked: bool,
}

impl View for Account {
    type V = AccountV;

    open spec fn view(&self) -> AccountV {
        AccountV {
            client: self.client,
            available: self.available as int,
            held: self.held as int,
            is_locked: self.is_locked,
        }
    }
}

/// A fresh account: zero balances, not locked.
pub open spec fn new_account_v(client: u16) -> AccountV {
    AccountV { client, available: 0, held: 0, is_locked: false }
}

/// Effect of a deposit: if the account is not locked and an amount is
/// present, it is added to the available funds.
pub open spec fn spec_deposit(a: AccountV, amount: Option<int>) -> AccountV {
    if !a.is_locked {
        match amount {
            Some(v) => AccountV { available: a.available + v, ..a },
            None => a,
        }
    } else {
        a
    }
}

/// Effect of a withdrawal: applied only when the account is not locked and
/// the amount does not exceed the available funds; otherwise a no-op.
pub open spec fn spec_withdraw(a: AccountV, amount: Option<int>) -> AccountV {
    if !a.is_locked {
        match amount {
            Some(v) => if v <= a.available {
                AccountV { available: a.available - v, ..a }
            } else {
                a
            },
            None => a,
        }
    } else {
        a
    }
}

/// Effect of a hold: moves the amount from available to held funds, leaving
/// the total unchanged; a no-op on a locked account.
pub open spec fn spec_hold(a: AccountV, amount: Option<int>) -> AccountV {
    if !a.is_locked {
        match amount {
            Some(v) => AccountV { available: a.available - v, held: a.held + v, ..a },
            None => a,
        }
    } else {
        a
    }
}

/// Effect of a release: moves the amount back from held to available funds;
/// a no-op on a locked account.
pub open spec fn spec_release(a: AccountV, amount: Option<int>) -> AccountV {
    if !a.is_locked {
        match amount {
            Some(v) => AccountV { available: a.available + v, held: a.held - v, ..a },
            None => a,
        }
    } else {
        a
    }
}

/// Effect of a chargeback: removes the amount from held funds and locks the
/// account for good; a no-op on an already locked account.
pub open spec fn spec_chargeback(a: AccountV, amount: Option<int>) -> AccountV {
    if !a.is_locked {
        match amount {
            Some(v) => AccountV { held: a.held - v, is_locked: true, ..a },
            None => a,
        }
    } else {
        a
    }
}

/// The amount carried by a [`TxAmount`], widened to an unbounded integer.
pub open spec fn amount_v(amount: TxAmount) -> Option<int> {
    match amount {
        Some(v) => Some(v as int),
        None => None,
    }
}

impl Account {
    /// A fresh account for `client`: zero balances, not locked.
    pub fn new(client: u16) -> (r: Account)
        ensures
            r@ == new_account_v(client),
    {
        Account { client, available: 0, held: 0, is_locked: false }
    }

    /// Total funds: available plus held.
    pub fn total(&self) -> (r: i128)
        requires
            fits_i128(self@.available + self@.held),
        ensures
            r == self@.available + self@.held,
    {
        self.available + self.held
    }

    /// Add the amount to the available funds, unless locked.
    pub fn deposit(&mut self, amount: TxAmount)
        requires
            has_room(old(self)@.available),
        ensures
            final(self)@ == spec_deposit(old(self)@, amount_v(amount)),
    {
        if !self.is_locked {
            if let Some(value) = amount {
                self.available = self.available + (value as i128);
            }
        }
    }

    /// Remove the amount from the available funds if they suffice; an
    /// insufficient balance or a locked account makes this a silent no-op.
    pub fn withdraw(&mut self, amount: TxAmount)
        requires
            has_room(old(self)@.available),
        ensures
            final(self)@ == spec_withdraw(old(self)@, amount_v(amount)),
    {
        if !self.is_locked {
            if let Some(value) = amount {
                if (value as i128) <= self.available {
                    self.available = self.available - (value as i128);
                }
            }
        }
    }

    /// Reserve the amount: move it from available to held funds. The total
    /// is unchanged, and `available` may legitimately go negative.
    pub fn hold(&mut self, amount: TxAmount)
        requires
            has_room(old(self)@.available),
            has_room(old(self)@.held),
        ensures
            final(self)@ == spec_hold(old(self)@, amount_v(amount)),
    {
        if !self.is_locked {
            if let Some(value) = amount {
                self.available = self.available - (value as i128);
                self.held = self.held + (value as i128);
            }
        }
    }

    /// Undo a hold: move the amount back from held to available funds.
    pub fn release(&mut self, amount: TxAmount)
        requires
            has_room(old(self)@.available),
            has_room(old(self)@.held),
        ensures
            final(self)@ == spec_release(old(self)@, amount_v(amount)),
    {
        if !self.is_locked {
            if let Some(value) = amount {
                self.available = self.available + (value as i128);
                self.held = self.held - (value as i128);
            }
        }
    }

    /// Remove the amount from held funds and lock the account; locking is
    /// terminal, every later operation on the account is a no-op.
    pub fn chargeback(&mut self, amount: TxAmount)
        requires
            has_room(old(self)@.held),
        ensures
            final(self)@ == spec_chargeback(old(self)@, amount_v(amount)),
    {
        if !self.is_locked {
            if let Some(value) = amount {
                self.held = self.held - (value as i128);
                self.is_locked = true;
            }
        }
    }
}

} // verus!
