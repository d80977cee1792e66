use vstd::prelude::*;

verus! {

/// The action a transaction record asks for.
#[allow(non_camel_case_types)]
#[derive(Clone, Copy, Debug, PartialEq, Eq, Structural)]
pub enum TxAction {
    DEPOSIT,
    WITHDRAWAL,
    DISPUTE,
    RESOLVE,
    CHARGEBACK,
}

/// An optional exact decimal quantity, as a signed count of 1/10000 units.
///
/// Deposits and withdrawals carry an amount; dispute-lifecycle rows do not.
pub type TxAmount = Option<i64>;

/// One transaction record of the input log.
#[derive(Clone, Copy, Debug)]
pub struct Tx {
    pub action: TxAction,
    pub client: u16,
    pub tx: u32,
    pub amount: TxAmount,
    pub is_disputed: bool,
}

/// Mathematical image of a [`Tx`]: the amount widened to an unbounded integer.
pub struct TxV {
    pub action: TxAction,
    pub client: u16,
    pub tx: u32,
    pub amount: Option<int>,
    pub is_disputed: bool,
}

impl TxV {
    /// Only deposits may later be disputed.
    pub open spec fn is_disputable(self) -> bool {
        self.action == TxAction::DEPOSIT
    }
}

impl View for Tx {
    type V = TxV;

    open spec fn view(&self) -> TxV {
        TxV {
            action: self.action,
            client: self.client,
            tx: self.tx,
            amount: match self.amount {
                Some(a) => Some(a as int),
                None => None,
            },
            is_disputed: self.is_disputed,
        }
    }
}

impl Tx {
    /// Whether this record may be the target of a later dispute.
    pub fn is_disputable(&self) -> (r: bool)
        ensures
            r == self@.is_disputable(),
    {
        self.action == TxAction::DEPOSIT
    }
}

} // verus!
