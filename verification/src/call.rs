//! The calls that the router asks its driver to make, and what comes back.
//!
//! The router never talks to a token, a pool or the host itself. It names one
//! call at a time as an [`Action`]; whoever drives it performs the call and
//! hands the outcome back as a [`Reply`].

use vstd::prelude::*;
use crate::types::{AccountId, LOGCALL};

verus! {

/// Allowance granted to a pool when the one it holds is too small.
pub const UNLIMITED_ALLOWANCE: u32 = 0xffff_ffff;

/// One call to a collaborator.
#[derive(Clone, Copy, Debug, PartialEq, Eq)]
pub enum Action {
    /// `token.transferFrom(from, to, amount)`, answered by a flag.
    TransferFrom { token: AccountId, from: AccountId, to: AccountId, amount: u32 },
    /// `token.transfer(to, amount)`, answered by a flag.
    Transfer { token: AccountId, to: AccountId, amount: u32 },
    /// `token.balanceOf(account)`, answered by an amount.
    BalanceOf { token: AccountId, account: AccountId },
    /// `token.allowance(owner, spender)`, answered by an amount.
    Allowance { token: AccountId, owner: AccountId, spender: AccountId },
    /// `token.approve(spender, amount)`, answered by a flag.
    Approve { token: AccountId, spender: AccountId, amount: u32 },
    /// `token.deposit(amount)` on the wrapped-currency token.
    Deposit { token: AccountId, amount: u32 },
    /// `token.withdraw(amount)` on the wrapped-currency token.
    Withdraw { token: AccountId, amount: u32 },
    /// `pool.swapExactAmountIn(..)`, answered by the amount that came out.
    SwapExactAmountIn {
        pool: AccountId,
        token_in: AccountId,
        amount_in: u32,
        token_out: AccountId,
        min_amount_out: u32,
        max_price: u32,
    },
    /// `pool.swapExactAmountOut(..)`, answered by the amount that went in.
    SwapExactAmountOut {
        pool: AccountId,
        token_in: AccountId,
        max_amount_in: u32,
        token_out: AccountId,
        amount_out: u32,
        max_price: u32,
    },
    /// Hand native currency to an account, answered by a flag.
    SendNative { to: AccountId, amount: u32 },
    /// Append a record to the host's event log.
    Emit { record: LOGCALL },
}

/// Outcome of one call.
#[derive(Clone, Copy, Debug, PartialEq, Eq)]
pub enum Reply {
    /// The call could not be made or did not return.
    Failed,
    /// The call returned nothing.
    Done,
    /// The call returned a success indicator.
    Flag(bool),
    /// The call returned an amount.
    Amount(u32),
}

impl Reply {
    /// The collaborator reported success.
    pub open spec fn granted(self) -> bool {
        self == Reply::Flag(true)
    }

    /// A call without a result went through.
    pub open spec fn completed(self) -> bool {
        self == Reply::Done
    }

    /// The amount that the collaborator reported, if it reported one.
    pub open spec fn amount(self) -> Option<u32> {
        match self {
            Reply::Amount(a) => Some(a),
            _ => None,
        }
    }
}

} // verus!
