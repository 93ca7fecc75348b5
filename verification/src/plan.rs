//! What an operation asks of the outside, and what becomes of its record once
//! the custody ledger has answered.

use vstd::prelude::*;
use crate::address::Address;
use crate::custody::{movements, Movement, Transfer};
use crate::error::{LedgerError, MarketError};

verus! {

/// What an operation does to its record.
#[derive(Clone, Copy, Debug, PartialEq, Eq)]
pub enum RecordChange<R> {
    /// The record is stored with this content.
    Write(R),
    /// The record is destroyed, and the reserve that backed its storage is
    /// released to `refund_to`.
    Close { refund_to: Address },
}

impl<R> RecordChange<R> {
    /// The record once the change is made: `None` where it is destroyed.
    pub open spec fn after(self) -> Option<R> {
        match self {
            RecordChange::Write(record) => Some(record),
            RecordChange::Close { .. } => None,
        }
    }
}

/// What an operation that passed its checks asks for: the transfers that the
/// custody ledger is to carry out as one unit, in this order, and what then
/// becomes of the record and which event is emitted.
#[derive(Clone, Debug, PartialEq, Eq)]
pub struct Plan<R, E> {
    pub transfers: Vec<Transfer>,
    pub record: RecordChange<R>,
    pub event: E,
}

/// A plan as specifications see it.
pub struct PlanView<R, E> {
    pub moves: Seq<Movement>,
    pub record: RecordChange<R>,
    pub event: E,
}

impl<R, E> View for Plan<R, E> {
    type V = PlanView<R, E>;

    open spec fn view(&self) -> PlanView<R, E> {
        PlanView { moves: movements(self.transfers@), record: self.record, event: self.event }
    }
}

/// The result of an operation as specifications see it.
pub open spec fn outcome_of<R, E>(result: Result<Plan<R, E>, MarketError>) -> Result<
    PlanView<R, E>,
    MarketError,
> {
    match result {
        Ok(plan) => Ok(plan@),
        Err(e) => Err(e),
    }
}

impl<R, E> Plan<R, E> {
    /// Concludes the operation once the custody ledger has answered for the
    /// transfers. Where it carried them out, the record in `slot` becomes what
    /// the plan says and the event is handed out for emission. Where it
    /// refused them, the operation fails with `CustodyTransferFailed` around
    /// the ledger's reason, and `slot` is left as it was.
    pub fn commit(self, slot: &mut Option<R>, ledger: Result<(), LedgerError>) -> (r: Result<
        E,
        MarketError,
    >)
        ensures
            match ledger {
                Ok(_) => r == Ok::<E, MarketError>(self.event) && *final(slot)
                    == self.record.after(),
                Err(reason) => r == Err::<E, MarketError>(
                    MarketError::CustodyTransferFailed(reason),
                ) && *final(slot) == *old(slot),
            },
    {
        match ledger {
            Ok(_) => {
                match self.record {
                    RecordChange::Write(record) => {
                        *slot = Some(record);
                    },
                    RecordChange::Close { .. } => {
                        *slot = None;
                    },
                }
                Ok(self.event)
            },
            Err(reason) => Err(MarketError::CustodyTransferFailed(reason)),
        }
    }
}

} // verus!
