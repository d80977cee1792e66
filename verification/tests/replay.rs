use std::collections::HashMap;
use txledger::{balance_accounts, process_tx, Account, Tx, TxAction};

fn tx(action: TxAction, client: u16, txid: u32, amount: Option<i64>) -> Tx {
    Tx { action, client, tx: txid, amount, is_disputed: false }
}

// Amounts are counts of 1/10000 currency units: 10000 units == 1.0000.
const ONE: i64 = 10000;

#[test]
fn test_process_tx() {
    let mut accounts: HashMap<u16, Account> = HashMap::new();
    let mut disputable_txs: HashMap<u32, Tx> = HashMap::new();

    let deposit = tx(TxAction::DEPOSIT, 1, 1, Some(ONE));
    process_tx(&deposit, &mut disputable_txs, &mut accounts);
    disputable_txs.insert(deposit.tx, deposit);

    let account = accounts.get(&1).unwrap();
    assert_eq!(account.total(), ONE as i128);

    let withdrawal = tx(TxAction::WITHDRAWAL, 1, 2, Some(ONE));
    process_tx(&withdrawal, &mut disputable_txs, &mut accounts);

    let account = accounts.get(&1).unwrap();
    assert_eq!(account.total(), 0);

    let dispute = tx(TxAction::DISPUTE, 1, 1, None);
    process_tx(&dispute, &mut disputable_txs, &mut accounts);

    let account = accounts.get(&1).unwrap();
    assert_eq!(account.total(), 0);
    assert_eq!(account.available, -(ONE as i128));
    assert_eq!(account.held, ONE as i128);

    let resolve = tx(TxAction::RESOLVE, 1, 1, None);
    process_tx(&resolve, &mut disputable_txs, &mut accounts);

    let account = accounts.get(&1).unwrap();
    assert_eq!(account.total(), 0);
    assert_eq!(account.available, 0);
    assert_eq!(account.held, 0);

    let redispute = tx(TxAction::DISPUTE, 1, 1, None);
    process_tx(&redispute, &mut disputable_txs, &mut accounts);

    let account = accounts.get(&1).unwrap();
    assert_eq!(account.total(), 0);
    assert_eq!(account.available, -(ONE as i128));
    assert_eq!(account.held, ONE as i128);

    let chargeback = tx(TxAction::CHARGEBACK, 1, 1, None);
    process_tx(&chargeback, &mut disputable_txs, &mut accounts);

    let account = accounts.get(&1).unwrap();
    assert_eq!(account.total(), -(ONE as i128));
    assert_eq!(account.available, -(ONE as i128));
    assert_eq!(account.held, 0);
}

#[test]
fn deposits_only_sum_to_total() {
    let log = vec![
        tx(TxAction::DEPOSIT, 1, 1, Some(3 * ONE)),
        tx(TxAction::DEPOSIT, 2, 2, Some(5 * ONE)),
        tx(TxAction::DEPOSIT, 1, 3, Some(25000)),
    ];
    let accounts = balance_accounts(&log);

    let a1 = accounts.get(&1).unwrap();
    assert_eq!(a1.available, 55000);
    assert_eq!(a1.held, 0);
    assert_eq!(a1.total(), 55000);
    assert!(!a1.is_locked);

    let a2 = accounts.get(&2).unwrap();
    assert_eq!(a2.total(), 5 * ONE as i128);
    assert_eq!(a2.held, 0);
}

#[test]
fn overdraw_is_a_silent_noop() {
    let log = vec![
        tx(TxAction::DEPOSIT, 1, 1, Some(ONE)),
        tx(TxAction::WITHDRAWAL, 1, 2, Some(2 * ONE)),
    ];
    let accounts = balance_accounts(&log);

    let a = accounts.get(&1).unwrap();
    assert_eq!(a.available, ONE as i128);
    assert_eq!(a.held, 0);
    assert!(!a.is_locked);
}

#[test]
fn dispute_holds_funds() {
    let log = vec![
        tx(TxAction::DEPOSIT, 1, 1, Some(ONE)),
        tx(TxAction::WITHDRAWAL, 1, 2, Some(ONE)),
        tx(TxAction::DISPUTE, 1, 1, None),
    ];
    let accounts = balance_accounts(&log);

    let a = accounts.get(&1).unwrap();
    assert_eq!(a.available, -(ONE as i128));
    assert_eq!(a.held, ONE as i128);
    assert_eq!(a.total(), 0);
    assert!(!a.is_locked);
}

#[test]
fn resolve_restores_funds() {
    let log = vec![
        tx(TxAction::DEPOSIT, 1, 1, Some(ONE)),
        tx(TxAction::WITHDRAWAL, 1, 2, Some(ONE)),
        tx(TxAction::DISPUTE, 1, 1, None),
        tx(TxAction::RESOLVE, 1, 1, None),
    ];
    let accounts = balance_accounts(&log);

    let a = accounts.get(&1).unwrap();
    assert_eq!(a.available, 0);
    assert_eq!(a.held, 0);
    assert_eq!(a.total(), 0);
    assert!(!a.is_locked);
}

#[test]
fn chargeback_removes_funds_and_locks() {
    let log = vec![
        tx(TxAction::DEPOSIT, 1, 1, Some(ONE)),
        tx(TxAction::WITHDRAWAL, 1, 2, Some(ONE)),
        tx(TxAction::DISPUTE, 1, 1, None),
        tx(TxAction::RESOLVE, 1, 1, None),
        tx(TxAction::DISPUTE, 1, 1, None),
        tx(TxAction::CHARGEBACK, 1, 1, None),
    ];
    let accounts = balance_accounts(&log);

    let a = accounts.get(&1).unwrap();
    assert_eq!(a.available, -(ONE as i128));
    assert_eq!(a.held, 0);
    assert_eq!(a.total(), -(ONE as i128));
    assert!(a.is_locked);
}

#[test]
fn locked_account_ignores_everything() {
    let mut log = vec![
        tx(TxAction::DEPOSIT, 1, 1, Some(ONE)),
        tx(TxAction::DEPOSIT, 1, 2, Some(ONE)),
        tx(TxAction::DISPUTE, 1, 1, None),
        tx(TxAction::CHARGEBACK, 1, 1, None),
    ];
    let locked_state = *balance_accounts(&log).get(&1).unwrap();
    assert!(locked_state.is_locked);

    log.push(tx(TxAction::DEPOSIT, 1, 3, Some(ONE)));
    log.push(tx(TxAction::WITHDRAWAL, 1, 4, Some(ONE)));
    log.push(tx(TxAction::DISPUTE, 1, 2, None));
    log.push(tx(TxAction::RESOLVE, 1, 2, None));
    log.push(tx(TxAction::CHARGEBACK, 1, 2, None));
    let after = *balance_accounts(&log).get(&1).unwrap();

    assert_eq!(after.available, locked_state.available);
    assert_eq!(after.held, locked_state.held);
    assert_eq!(after.is_locked, locked_state.is_locked);
    assert_eq!(after.client, locked_state.client);
}

#[test]
fn ineligible_disputes_are_noops() {
    let base = vec![
        tx(TxAction::DEPOSIT, 1, 1, Some(ONE)),
        tx(TxAction::DEPOSIT, 2, 2, Some(ONE)),
        tx(TxAction::WITHDRAWAL, 1, 3, Some(ONE)),
    ];
    let before = *balance_accounts(&base).get(&1).unwrap();

    // A transaction id that never existed.
    let mut log = base.clone();
    log.push(tx(TxAction::DISPUTE, 1, 99, None));
    assert_eq!(*balance_accounts(&log).get(&1).unwrap(), before);

    // A transaction that belongs to a different client.
    let mut log = base.clone();
    log.push(tx(TxAction::DISPUTE, 1, 2, None));
    assert_eq!(*balance_accounts(&log).get(&1).unwrap(), before);
    assert_eq!(
        *balance_accounts(&log).get(&2).unwrap(),
        *balance_accounts(&base).get(&2).unwrap()
    );

    // A withdrawal: never indexed, so never disputable.
    let mut log = base.clone();
    log.push(tx(TxAction::DISPUTE, 1, 3, None));
    assert_eq!(*balance_accounts(&log).get(&1).unwrap(), before);
}

#[test]
fn settling_undisputed_is_a_noop() {
    let base = vec![tx(TxAction::DEPOSIT, 1, 1, Some(ONE))];
    let before = *balance_accounts(&base).get(&1).unwrap();

    let mut log = base.clone();
    log.push(tx(TxAction::RESOLVE, 1, 1, None));
    assert_eq!(*balance_accounts(&log).get(&1).unwrap(), before);

    let mut log = base.clone();
    log.push(tx(TxAction::CHARGEBACK, 1, 1, None));
    assert_eq!(*balance_accounts(&log).get(&1).unwrap(), before);
}

#[test]
fn distinct_disputes_commute() {
    let mut log1 = vec![
        tx(TxAction::DEPOSIT, 1, 1, Some(ONE)),
        tx(TxAction::DEPOSIT, 1, 2, Some(3 * ONE)),
    ];
    let mut log2 = log1.clone();

    let d1 = tx(TxAction::DISPUTE, 1, 1, None);
    let d2 = tx(TxAction::DISPUTE, 1, 2, None);
    log1.push(d1);
    log1.push(d2);
    log2.push(d2);
    log2.push(d1);

    assert_eq!(
        *balance_accounts(&log1).get(&1).unwrap(),
        *balance_accounts(&log2).get(&1).unwrap()
    );
}

#[test]
fn dispute_resolve_order_matters() {
    let base = vec![tx(TxAction::DEPOSIT, 1, 1, Some(ONE))];
    let d = tx(TxAction::DISPUTE, 1, 1, None);
    let r = tx(TxAction::RESOLVE, 1, 1, None);

    let mut log1 = base.clone();
    log1.push(d);
    log1.push(r);
    let a1 = *balance_accounts(&log1).get(&1).unwrap();
    assert_eq!(a1.available, ONE as i128);
    assert_eq!(a1.held, 0);

    let mut log2 = base.clone();
    log2.push(r);
    log2.push(d);
    let a2 = *balance_accounts(&log2).get(&1).unwrap();
    assert_eq!(a2.available, 0);
    assert_eq!(a2.held, ONE as i128);

    assert_ne!(a1, a2);
}

#[test]
fn total_is_available_plus_held() {
    let log = vec![
        tx(TxAction::DEPOSIT, 7, 1, Some(12345)),
        tx(TxAction::DEPOSIT, 7, 2, Some(67890)),
        tx(TxAction::DISPUTE, 7, 1, None),
    ];
    let accounts = balance_accounts(&log);
    let a = accounts.get(&7).unwrap();
    assert_eq!(a.total(), a.available + a.held);
    assert_eq!(a.total(), 80235);
}

#[test]
fn deposit_without_amount_changes_nothing_but_is_indexed() {
    let log = vec![
        tx(TxAction::DEPOSIT, 1, 1, None),
        tx(TxAction::DISPUTE, 1, 1, None),
    ];
    let accounts = balance_accounts(&log);
    let a = accounts.get(&1).unwrap();
    assert_eq!(a.available, 0);
    assert_eq!(a.held, 0);
    assert!(!a.is_locked);
}

#[test]
fn empty_log_yields_no_accounts() {
    let accounts = balance_accounts(&Vec::new());
    assert!(accounts.is_empty());
}

#[test]
fn duplicate_deposit_id_overwrites_index_entry() {
    let log = vec![
        tx(TxAction::DEPOSIT, 1, 1, Some(ONE)),
        tx(TxAction::DEPOSIT, 1, 1, Some(3 * ONE)),
        tx(TxAction::DISPUTE, 1, 1, None),
    ];
    let accounts = balance_accounts(&log);
    let a = accounts.get(&1).unwrap();
    // The later deposit's amount is the one held.
    assert_eq!(a.held, 3 * ONE as i128);
    assert_eq!(a.available, ONE as i128);
    assert_eq!(a.total(), 4 * ONE as i128);
}

#[test]
fn redispute_while_disputed_is_a_noop() {
    let base = vec![
        tx(TxAction::DEPOSIT, 1, 1, Some(ONE)),
        tx(TxAction::DISPUTE, 1, 1, None),
    ];
    let before = *balance_accounts(&base).get(&1).unwrap();
    assert_eq!(before.held, ONE as i128);

    let mut log = base.clone();
    log.push(tx(TxAction::DISPUTE, 1, 1, None));
    assert_eq!(*balance_accounts(&log).get(&1).unwrap(), before);
}
