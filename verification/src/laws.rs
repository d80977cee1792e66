use vstd::prelude::*;
use crate::account::{spec_withdraw, AccountV};
use crate::engine::{spec_dispute_eligible, spec_replay, spec_step, LedgerV};
use crate::tx::{TxAction, TxV};

verus! {

/// Sum of the amounts of the rows for client `c` (an absent amount counts
/// as zero).
pub open spec fn sum_client_amounts(ts: Seq<TxV>, c: u16) -> int
    decreases ts.len(),
{
    if ts.len() == 0 {
        0
    } else {
        sum_client_amounts(ts.drop_last(), c) + if ts.last().client == c {
            match ts.last().amount {
                Some(v) => v,
                None => 0,
            }
        } else {
            0
        }
    }
}

/// A log of deposits alone gives each touched client a total equal to the
/// sum of its deposited amounts, no held funds, and an unlocked account;
/// a client no row touches gets no account and contributes no amounts.
pub proof fn lemma_deposits_only(ts: Seq<TxV>, c: u16)
    requires
        forall|i: int| 0 <= i < ts.len() ==> (#[trigger] ts[i]).action == TxAction::DEPOSIT,
    ensures
        spec_replay(ts).accounts.contains_key(c) ==> {
            &&& spec_replay(ts).accounts[c].held == 0
            &&& !spec_replay(ts).accounts[c].is_locked
            &&& spec_replay(ts).accounts[c].available + spec_replay(ts).accounts[c].held
                == sum_client_amounts(ts, c)
        },
        !spec_replay(ts).accounts.contains_key(c) ==> sum_client_amounts(ts, c) == 0,
    decreases ts.len(),
{
    if ts.len() > 0 {
        lemma_deposits_only(ts.drop_last(), c);
    }
}

/// A withdrawal whose amount exceeds the available funds leaves the account
/// exactly as it was.
pub proof fn lemma_withdraw_insufficient(a: AccountV, v: int)
    requires
        v > a.available,
    ensures
        spec_withdraw(a, Some(v)) == a,
{
}

/// A whole replay step made of such a withdrawal leaves the whole state
/// unchanged.
pub proof fn lemma_withdrawal_insufficient_step(s: LedgerV, t: TxV, v: int)
    requires
        t.action == TxAction::WITHDRAWAL,
        s.accounts.contains_key(t.client),
        t.amount == Some(v),
        v > s.accounts[t.client].available,
    ensures
        spec_step(s, t) == s,
{
    assert(spec_step(s, t).accounts =~= s.accounts);
}

/// Locking is terminal: once a client's account is locked, no later
/// transaction of any kind changes any of its fields.
pub proof fn lemma_locked_account_frozen(s: LedgerV, t: TxV)
    requires
        s.accounts.contains_key(t.client),
        s.accounts[t.client].is_locked,
    ensures
        spec_step(s, t).accounts.contains_key(t.client),
        spec_step(s, t).accounts[t.client] == s.accounts[t.client],
{
}

/// A dispute row that is not eligible — its transaction id was never
/// indexed, or the indexed entry is not disputable, or it belongs to
/// another client — changes nothing at all.
pub proof fn lemma_dispute_ineligible(s: LedgerV, t: TxV)
    requires
        t.action == TxAction::DISPUTE,
        s.accounts.contains_key(t.client),
        !spec_dispute_eligible(s, t),
    ensures
        spec_step(s, t) == s,
{
}

/// Disputing a transaction that is already under dispute is forbidden and
/// changes nothing at all.
pub proof fn lemma_redispute_noop(s: LedgerV, t: TxV)
    requires
        t.action == TxAction::DISPUTE,
        s.accounts.contains_key(t.client),
        s.txs.contains_key(t.tx) ==> s.txs[t.tx].is_disputed,
    ensures
        spec_step(s, t) == s,
{
    assert(spec_step(s, t).accounts =~= s.accounts);
    assert(spec_step(s, t).txs =~= s.txs);
}

/// Resolving or charging back a transaction that is not currently under
/// dispute is a no-op for the whole state.
pub proof fn lemma_settle_undisputed(s: LedgerV, t: TxV)
    requires
        t.action == TxAction::RESOLVE || t.action == TxAction::CHARGEBACK,
        s.accounts.contains_key(t.client),
        s.txs.contains_key(t.tx) ==> !s.txs[t.tx].is_disputed,
    ensures
        spec_step(s, t) == s,
{
    assert(spec_step(s, t).accounts =~= s.accounts);
    assert(spec_step(s, t).txs =~= s.txs);
}

/// Two dispute rows for the same client that reference different
/// transaction ids commute: replaying them in either order yields the same
/// state.
pub proof fn lemma_disputes_commute(s: LedgerV, t1: TxV, t2: TxV)
    requires
        t1.action == TxAction::DISPUTE,
        t2.action == TxAction::DISPUTE,
        t1.client == t2.client,
        t1.tx != t2.tx,
    ensures
        spec_step(spec_step(s, t1), t2) == spec_step(spec_step(s, t2), t1),
{
    assert(spec_step(spec_step(s, t1), t2).accounts =~= spec_step(
        spec_step(s, t2),
        t1,
    ).accounts);
    assert(spec_step(spec_step(s, t1), t2).txs =~= spec_step(spec_step(s, t2), t1).txs);
}

} // verus!

