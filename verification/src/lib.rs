//! Replay of an ordered transaction log into per-client account balances.
//!
//! The library is the verified core of a ledger-reconciliation tool: it
//! consumes deposit / withdrawal / dispute / resolve / chargeback records in
//! input order and derives each client's available, held and total funds and
//! whether the account is locked. Reading records and emitting the final
//! table are left to thin adapters around the library.
//!
//! All monetary quantities are exact fixed-point decimals held as integer
//! counts of 1/10000 currency units, so four fractional digits are carried
//! without any rounding drift.

mod account;
mod engine;
mod laws;
mod tx;

pub use account::{
    amount_limit, amount_v, fits_i128, has_room, new_account_v, spec_chargeback, spec_deposit,
    spec_hold, spec_release, spec_withdraw, Account, AccountV,
};
pub use engine::{
    accounts_v, balance_accounts, ensure_account, handle_dispute_action, init_ledger, process_tx,
    seq_v, spec_dispute_eligible, spec_dispute_transition, spec_ensure_account, spec_process_tx,
    spec_replay, spec_step, spec_step_room, txs_v, AccountMap, LedgerV, TxMap,
};
pub use laws::{
    lemma_deposits_only, lemma_dispute_ineligible, lemma_disputes_commute,
    lemma_locked_account_frozen, lemma_redispute_noop, lemma_settle_undisputed, lemma_withdraw_insufficient,
    lemma_withdrawal_insufficient_step, sum_client_amounts,
};
pub use tx::{Tx, TxAction, TxAmount, TxV};
