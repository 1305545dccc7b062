//! Plain data shared by every part of the router.

use vstd::prelude::*;

verus! {

/// Address of an account or contract on the host ledger.
#[derive(Clone, Copy, Debug, PartialEq, Eq, Hash)]
pub struct AccountId(pub [u8; 32]);

/// Why a trade was abandoned.
#[derive(Clone, Copy, Debug, PartialEq, Eq)]
pub enum TradeError {
    /// A trade was started while another one was still in flight.
    ReentrancyError,
    /// A running total left the numeric domain.
    OverflowError,
    /// A token pull or push was refused.
    TransferError,
    /// Wrapping, unwrapping or forwarding native currency was refused.
    NativeTransferError,
    /// The caller's bound on the total was not met, or a pool refused a leg.
    SlippageError,
    /// The allowance could not be read or raised.
    AllowanceError,
}

/// One hop of a route through a single pool.
#[allow(non_snake_case)]
#[derive(Clone, Copy, Debug, PartialEq, Eq)]
pub struct Swap {
    /// The pool that performs this hop.
    pub pool: AccountId,
    /// Exact input of the hop in an exact-in trade, input ceiling in an exact-out trade.
    pub tokenInParam: u32,
    /// Output floor of the hop in an exact-in trade, exact output in an exact-out trade.
    pub tokenOutParam: u32,
    /// Highest price the pool may charge on this hop.
    pub maxPrice: u32,
}

/// Record appended to the host's event log after a settled trade.
#[derive(Clone, Copy, Debug, PartialEq, Eq)]
pub struct LOGCALL {
    /// Identifier of the operation that was invoked.
    pub sig: [u8; 4],
    /// Who invoked it.
    pub caller: Option<AccountId>,
    /// Snapshot of the call's payload.
    pub data: [u8; 32],
}

/// What the host tells the router about the call it is dispatching.
#[derive(Clone, Copy, Debug, PartialEq, Eq)]
pub struct Invocation {
    /// The account that called the router.
    pub caller: AccountId,
    /// The router's own account.
    pub callee: AccountId,
    /// Native currency sent along with the call, in the host's own width.
    pub value: u128,
    /// Identifier of the invoked operation.
    pub sig: [u8; 4],
    /// Snapshot of the call's payload.
    pub data: [u8; 32],
}

impl AccountId {
    /// Whether this is the all-zero address.
    pub open spec fn is_zero(self) -> bool {
        forall|i: int| 0 <= i < 32 ==> self.0[i] == 0u8
    }

    /// The all-zero address.
    pub fn zero() -> (id: AccountId)
        ensures
            id.is_zero(),
    {
        AccountId([0u8; 32])
    }
}

} // verus!
