use vstd::prelude::*;
use std::collections::HashMap;
use crate::account::{
    Account, AccountV, amount_limit, has_room, new_account_v, spec_chargeback, spec_deposit,
    spec_hold, spec_release, spec_withdraw,
};
use crate::tx::{Tx, TxAction, TxV};

verus! {

broadcast use vstd::std_specs::hash::group_hash_axioms;

/// The account table: each client's state, created lazily on first use.
pub type AccountMap = HashMap<u16, Account>;

/// The ledger index: every disputable (deposit) transaction seen so far,
/// keyed by its transaction id.
pub type TxMap = HashMap<u32, Tx>;

/// Mathematical image of the account table.
pub open spec fn accounts_v(m: Map<u16, Account>) -> Map<u16, AccountV> {
    m.map_values(|a: Account| a@)
}

/// Mathematical image of the ledger index.
pub open spec fn txs_v(m: Map<u32, Tx>) -> Map<u32, TxV> {
    m.map_values(|t: Tx| t@)
}

/// The whole replay state: account table and ledger index.
pub struct LedgerV {
    pub accounts: Map<u16, AccountV>,
    pub txs: Map<u32, TxV>,
}

/// The state before any transaction has been replayed.
pub open spec fn init_ledger() -> LedgerV {
    LedgerV { accounts: Map::empty(), txs: Map::empty() }
}

/// The account table after making sure `client` has an entry.
pub open spec fn spec_ensure_account(accounts: Map<u16, AccountV>, client: u16) -> Map<
    u16,
    AccountV,
> {
    if accounts.contains_key(client) {
        accounts
    } else {
        accounts.insert(client, new_account_v(client))
    }
}

/// One dispute-lifecycle transition on an indexed entry `t` and the account
/// `a` of its client: a dispute holds the entry's amount and marks it
/// disputed; a resolve or chargeback applies only to a disputed entry and
/// clears the mark again. Everything else is a no-op.
pub open spec fn spec_dispute_transition(a: AccountV, t: TxV, action: TxAction) -> (AccountV, TxV) {
    match action {
        TxAction::DISPUTE => if !t.is_disputed {
            (spec_hold(a, t.amount), TxV { is_disputed: true, ..t })
        } else {
            (a, t)
        },
        TxAction::RESOLVE => if t.is_disputed {
            (spec_release(a, t.amount), TxV { is_disputed: false, ..t })
        } else {
            (a, t)
        },
        TxAction::CHARGEBACK => if t.is_disputed {
            (spec_chargeback(a, t.amount), TxV { is_disputed: false, ..t })
        } else {
            (a, t)
        },
        _ => (a, t),
    }
}

/// A dispute-lifecycle row is eligible only when its transaction id is
/// indexed, the indexed entry is disputable, and the row's client owns it.
pub open spec fn spec_dispute_eligible(s: LedgerV, t: TxV) -> bool {
    &&& s.txs.contains_key(t.tx)
    &&& s.txs[t.tx].is_disputable()
    &&& s.txs[t.tx].client == t.client
}

/// Effect of replaying one transaction, without indexing it: the client's
/// account is created if absent, then the row's action is applied.
pub open spec fn spec_process_tx(s: LedgerV, t: TxV) -> LedgerV {
    let accounts = spec_ensure_account(s.accounts, t.client);
    let a = accounts[t.client];
    match t.action {
        TxAction::DEPOSIT => LedgerV {
            accounts: accounts.insert(t.client, spec_deposit(a, t.amount)),
            txs: s.txs,
        },
        TxAction::WITHDRAWAL => LedgerV {
            accounts: accounts.insert(t.client, spec_withdraw(a, t.amount)),
            txs: s.txs,
        },
        TxAction::DISPUTE | TxAction::RESOLVE | TxAction::CHARGEBACK => if spec_dispute_eligible(
            s,
            t,
        ) {
            let r = spec_dispute_transition(a, s.txs[t.tx], t.action);
            LedgerV { accounts: accounts.insert(t.client, r.0), txs: s.txs.insert(t.tx, r.1) }
        } else {
            LedgerV { accounts, txs: s.txs }
        },
    }
}

/// Effect of one full replay step: the transaction is applied and, if it is
/// disputable, indexed under its id for later dispute rows.
pub open spec fn spec_step(s: LedgerV, t: TxV) -> LedgerV {
    let s2 = spec_process_tx(s, t);
    if t.is_disputable() {
        LedgerV { accounts: s2.accounts, txs: s2.txs.insert(t.tx, t) }
    } else {
        s2
    }
}

/// The state after replaying a whole transaction sequence in order.
pub open spec fn spec_replay(ts: Seq<TxV>) -> LedgerV
    decreases ts.len(),
{
    if ts.len() == 0 {
        init_ledger()
    } else {
        spec_step(spec_replay(ts.drop_last()), ts.last())
    }
}

/// The machine-limit side condition for one step: the balances that the step
/// may touch are far enough from the `i128` edges. The account looked at is
/// the one the row's client has after lazy creation.
pub open spec fn spec_step_room(s: LedgerV, t: TxV) -> bool {
    let a = spec_ensure_account(s.accounts, t.client)[t.client];
    &&& has_room(a.available)
    &&& has_room(a.held)
}

/// Make sure `client` has an entry in the account table, creating it with
/// zero balances if absent.
pub fn ensure_account(client: u16, accounts: &mut AccountMap)
    ensures
        accounts_v(final(accounts)@) == spec_ensure_account(accounts_v(old(accounts)@), client),
        final(accounts)@.contains_key(client),
{
    if !accounts.contains_key(&client) {
        let a = Account::new(client);
        accounts.insert(client, a);
        proof {
            lemma_accounts_v_insert(old(accounts)@, client, a);
        }
    }
}

/// Apply one dispute-lifecycle action to the indexed entry `disputed_tx`
/// and the account of its client, following the transition rules: only a
/// dispute of an undisputed entry, or a resolve or chargeback of a disputed
/// one, moves any funds.
pub fn handle_dispute_action(account: &mut Account, disputed_tx: &mut Tx, action: &TxAction)
    requires
        has_room(old(account)@.available),
        has_room(old(account)@.held),
    ensures
        (final(account)@, final(disputed_tx)@) == spec_dispute_transition(
            old(account)@,
            old(disputed_tx)@,
            *action,
        ),
{
    match action {
        TxAction::DISPUTE => {
            if !disputed_tx.is_disputed {
                disputed_tx.is_disputed = true;
                account.hold(disputed_tx.amount);
            }
        },
        TxAction::RESOLVE => {
            if disputed_tx.is_disputed {
                disputed_tx.is_disputed = false;
                account.release(disputed_tx.amount);
            }
        },
        TxAction::CHARGEBACK => {
            if disputed_tx.is_disputed {
                disputed_tx.is_disputed = false;
                account.chargeback(disputed_tx.amount);
            }
        },
        _ => (),  // neither a deposit nor a withdrawal touches dispute state
    }
}

/// Replay one transaction against the account table and the ledger index:
/// create the client's account if absent, then apply the row's action. The
/// row itself is not indexed here; the replay loop indexes disputable rows
/// after processing them.
///
/// Every business-rule violation (insufficient funds, ineligible dispute
/// row, action on a locked account) is a silent no-op, never an error.
pub fn process_tx(tx: &Tx, disputable_txs: &mut TxMap, accounts: &mut AccountMap)
    requires
        spec_step_room(
            LedgerV {
                accounts: accounts_v(old(accounts)@),
                txs: txs_v(old(disputable_txs)@),
            },
            tx@,
        ),
    ensures
        ({
            let s2 = spec_process_tx(
                LedgerV {
                    accounts: accounts_v(old(accounts)@),
                    txs: txs_v(old(disputable_txs)@),
                },
                tx@,
            );
            accounts_v(final(accounts)@) == s2.accounts && txs_v(final(disputable_txs)@) == s2.txs
        }),
{
    ensure_account(tx.client, accounts);
    let ghost m1 = accounts@;

    let mut account = *accounts.get(&tx.client).unwrap();
    match tx.action {
        TxAction::DEPOSIT => {
            account.deposit(tx.amount);
            accounts.insert(tx.client, account);
            proof {
                lemma_accounts_v_insert(m1, tx.client, account);
            }
        },
        TxAction::WITHDRAWAL => {
            account.withdraw(tx.amount);
            accounts.insert(tx.client, account);
            proof {
                lemma_accounts_v_insert(m1, tx.client, account);
            }
        },
        TxAction::DISPUTE | TxAction::RESOLVE | TxAction::CHARGEBACK => {
            let disputed_opt = disputable_txs.get(&tx.tx);
            if let Some(disputed_ref) = disputed_opt {
                let mut disputed_tx = *disputed_ref;
                if disputed_tx.is_disputable() && disputed_tx.client == tx.client {
                    handle_dispute_action(&mut account, &mut disputed_tx, &tx.action);
                    accounts.insert(tx.client, account);
                    disputable_txs.insert(tx.tx, disputed_tx);
                    proof {
                        lemma_accounts_v_insert(m1, tx.client, account);
                        lemma_txs_v_insert(old(disputable_txs)@, tx.tx, disputed_tx);
                    }
                }
            }
        },
    }
}

/// Mathematical image of a transaction sequence.
pub open spec fn seq_v(ts: Seq<Tx>) -> Seq<TxV> {
    ts.map_values(|t: Tx| t@)
}

/// A transaction amount that fits the fixed-point range every input row
/// carries.
pub open spec fn tx_amount_ok(t: TxV) -> bool {
    match t.amount {
        Some(v) => -amount_limit() <= v <= amount_limit(),
        None => true,
    }
}

/// Every balance in the state has magnitude at most `n` transaction amounts:
/// each replayed row moves each balance by at most one amount.
pub open spec fn accounts_bounded(s: LedgerV, n: int) -> bool {
    forall|c: u16| #[trigger]
        s.accounts.contains_key(c) ==> {
            &&& -(n * amount_limit()) <= s.accounts[c].available <= n * amount_limit()
            &&& -(n * amount_limit()) <= s.accounts[c].held <= n * amount_limit()
        }
}

/// Every indexed entry is a disputable row with an in-range amount.
pub open spec fn index_wf(s: LedgerV) -> bool {
    forall|k: u32| #[trigger]
        s.txs.contains_key(k) ==> tx_amount_ok(s.txs[k]) && s.txs[k].is_disputable()
}

/// One replay step keeps the index well formed and grows each balance bound
/// by at most one transaction amount.
proof fn lemma_step_preserves_wf(s: LedgerV, t: TxV, n: int)
    requires
        n >= 0,
        accounts_bounded(s, n),
        index_wf(s),
        tx_amount_ok(t),
    ensures
        accounts_bounded(spec_step(s, t), n + 1),
        index_wf(spec_step(s, t)),
{
}

/// States whose balances are bounded by fewer than `2^64 - 1` transaction
/// amounts leave room in an `i128` for one more step.
proof fn lemma_bounded_implies_room(s: LedgerV, t: TxV, n: int)
    requires
        0 <= n <= 0xFFFF_FFFF_FFFF_FFFE,
        accounts_bounded(s, n),
    ensures
        spec_step_room(s, t),
{
}

/// Replaying `n` in-range transactions yields a well-formed index and
/// balances bounded by `n` transaction amounts.
proof fn lemma_replay_wf(ts: Seq<TxV>)
    requires
        forall|i: int| 0 <= i < ts.len() ==> tx_amount_ok(#[trigger] ts[i]),
    ensures
        accounts_bounded(spec_replay(ts), ts.len() as int),
        index_wf(spec_replay(ts)),
    decreases ts.len(),
{
    if ts.len() > 0 {
        lemma_replay_wf(ts.drop_last());
        lemma_step_preserves_wf(spec_replay(ts.drop_last()), ts.last(), ts.len() - 1);
    }
}

/// Replay a whole transaction log in input order and return the final
/// account table. Disputable rows are indexed right after they are applied,
/// so a dispute row can only ever reference an earlier deposit.
pub fn balance_accounts(txs: &Vec<Tx>) -> (accounts: AccountMap)
    ensures
        accounts_v(accounts@) == spec_replay(seq_v(txs@)).accounts,
{
    let ghost ts = seq_v(txs@);
    let mut accounts: AccountMap = HashMap::new();
    let mut disputable_txs: TxMap = HashMap::new();
    let mut i: usize = 0;
    while i < txs.len()
        invariant
            i <= txs.len(),
            ts == seq_v(txs@),
            accounts_v(accounts@) == spec_replay(ts.take(i as int)).accounts,
            txs_v(disputable_txs@) == spec_replay(ts.take(i as int)).txs,
        decreases txs.len() - i,
    {
        let tx = txs[i];
        proof {
            lemma_replay_wf(ts.take(i as int));
            lemma_bounded_implies_room(
                LedgerV {
                    accounts: accounts_v(accounts@),
                    txs: txs_v(disputable_txs@),
                },
                tx@,
                i as int,
            );
        }
        process_tx(&tx, &mut disputable_txs, &mut accounts);
        if tx.is_disputable() {
            let ghost tm = disputable_txs@;
            disputable_txs.insert(tx.tx, tx);
            proof {
                lemma_txs_v_insert(tm, tx.tx, tx);
            }
        }
        proof {
            assert(ts.take(i + 1).drop_last() =~= ts.take(i as int));
            assert(ts.take(i + 1).last() == ts[i as int]);
        }
        i = i + 1;
    }
    proof {
        assert(ts.take(txs@.len() as int) =~= ts);
    }
    accounts
}

/// Mapping the view over an account-table insert is an insert of the view.
proof fn lemma_accounts_v_insert(m: Map<u16, Account>, k: u16, v: Account)
    ensures
        accounts_v(m.insert(k, v)) == accounts_v(m).insert(k, v@),
{
    assert(accounts_v(m.insert(k, v)) =~= accounts_v(m).insert(k, v@));
}

/// Mapping the view over a ledger-index insert is an insert of the view.
proof fn lemma_txs_v_insert(m: Map<u32, Tx>, k: u32, v: Tx)
    ensures
        txs_v(m.insert(k, v)) == txs_v(m).insert(k, v@),
{
    assert(txs_v(m.insert(k, v)) =~= txs_v(m).insert(k, v@));
}

} // verus!
