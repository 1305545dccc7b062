//! The trade as a state machine over mathematical values.
//!
//! A trade in flight is a [`TradeView`]: its fixed [`Plan`], the legs, and how
//! far it has come. [`pending`] names the call it is waiting for, [`step`]
//! says where the answer to that call leads.

use vstd::prelude::*;
use crate::call::{Action, Reply, UNLIMITED_ALLOWANCE};
use crate::types::{AccountId, Invocation, LOGCALL, Swap, TradeError};

verus! {

/// Which side of the trade, if any, is native currency.
#[derive(Clone, Copy, Debug, PartialEq, Eq)]
pub enum Route {
    /// A token is paid and a token is received.
    TokenToToken,
    /// Native currency is paid: it is wrapped first and the rest unwrapped at the end.
    NativeIn,
    /// Native currency is received: the wrapped output is unwrapped at the end.
    NativeOut,
}

/// Which side of the trade the caller fixes.
#[derive(Clone, Copy, Debug, PartialEq, Eq)]
pub enum Mode {
    /// Each leg's input is fixed; the total output has a floor.
    ExactIn,
    /// Each leg's output is fixed; the total input has a ceiling.
    ExactOut,
}

/// The call that a trade in flight is waiting for.
#[derive(Clone, Copy, Debug, PartialEq, Eq)]
pub enum Phase {
    /// Taking the input: a pull from the caller, or a deposit of native currency.
    Fund,
    /// Reading the current leg's pool allowance.
    Allowance,
    /// Raising the current leg's pool allowance.
    Approve,
    /// The current leg's swap.
    Swap,
    /// Reading the router's balance of the output token.
    OutputBalance,
    /// Unwrapping the output.
    OutputUnwrap,
    /// Handing the output to the caller.
    OutputSend,
    /// Reading the router's balance of the input token.
    ChangeBalance,
    /// Unwrapping what is left of the input.
    ChangeUnwrap,
    /// Handing what is left of the input back to the caller.
    ChangeSend,
    /// Appending the record to the event log.
    Log,
}

/// What is fixed when a trade starts.
#[derive(Clone, Copy, Debug, PartialEq, Eq)]
pub struct Plan {
    pub route: Route,
    pub mode: Mode,
    /// Who pays and who is paid.
    pub caller: AccountId,
    /// The router's own account.
    pub router: AccountId,
    /// Token handed to the pools; the wrapped-currency token on a native-in route.
    pub token_in: AccountId,
    /// Token taken from the pools; the wrapped-currency token on a native-out route.
    pub token_out: AccountId,
    /// Amount taken from the caller up front. A pool's allowance is raised when it is below this.
    pub funded: u32,
    /// Floor of the total output (exact-in) or ceiling of the total input (exact-out).
    pub bound: u32,
    /// What is logged once the trade has settled.
    pub record: LOGCALL,
}

/// A trade in flight.
pub struct TradeView {
    pub plan: Plan,
    pub swaps: Seq<Swap>,
    pub phase: Phase,
    /// Index of the current leg; the number of legs once the loop is over.
    pub leg: nat,
    /// Sum of what the pools have reported so far.
    pub total: u32,
    /// The balance that the settlement step in progress is moving.
    pub held: u32,
}

/// Where a trade stands after a call has been answered.
pub enum StepView {
    /// Another call is due.
    Pending(TradeView),
    /// The trade is over, with the realized total or the reason it was abandoned.
    Finished(Result<u32, TradeError>),
}

impl Phase {
    /// The phases of the leg loop.
    pub open spec fn in_loop(self) -> bool {
        self is Allowance || self is Approve || self is Swap
    }

    /// The phases that follow the leg loop.
    pub open spec fn settling(self) -> bool {
        !(self is Fund) && !self.in_loop()
    }
}

impl Plan {
    /// The plan of a trade invoked by `call`.
    pub open spec fn of(
        route: Route,
        mode: Mode,
        call: Invocation,
        token_in: AccountId,
        token_out: AccountId,
        funded: u32,
        bound: u32,
    ) -> Plan {
        Plan {
            route,
            mode,
            caller: call.caller,
            router: call.callee,
            token_in,
            token_out,
            funded,
            bound,
            record: LOGCALL { sig: call.sig, caller: Some(call.caller), data: call.data },
        }
    }

    /// Whether a total satisfies the caller's bound.
    pub open spec fn accepts(self, total: u32) -> bool {
        match self.mode {
            Mode::ExactIn => total >= self.bound,
            Mode::ExactOut => total <= self.bound,
        }
    }

    /// The error of a failed step on the input side.
    pub open spec fn input_error(self) -> TradeError {
        if self.route is NativeIn {
            TradeError::NativeTransferError
        } else {
            TradeError::TransferError
        }
    }

    /// The error of a failed step on the output side.
    pub open spec fn output_error(self) -> TradeError {
        if self.route is NativeOut {
            TradeError::NativeTransferError
        } else {
            TradeError::TransferError
        }
    }
}

impl TradeView {
    /// A trade that has just been started.
    pub open spec fn opened(plan: Plan, swaps: Seq<Swap>) -> TradeView {
        TradeView { plan, swaps, phase: Phase::Fund, leg: 0, total: 0, held: 0 }
    }

    /// What holds of every trade that the router hands out.
    pub open spec fn wf(self) -> bool {
        &&& self.leg <= self.swaps.len()
        &&& self.phase is Fund ==> self.leg == 0 && self.total == 0
        &&& self.phase.in_loop() ==> self.leg < self.swaps.len()
        &&& self.phase.settling() ==> self.leg == self.swaps.len() && self.plan.accepts(self.total)
        &&& self.phase is OutputUnwrap ==> self.plan.route is NativeOut
        &&& self.phase is ChangeUnwrap ==> self.plan.route is NativeIn && self.held > 0
    }

    /// The same trade in another phase.
    pub open spec fn at(self, phase: Phase) -> TradeView {
        TradeView { phase, ..self }
    }

    /// The same trade in another phase, holding a balance that was just read.
    pub open spec fn holding(self, phase: Phase, held: u32) -> TradeView {
        TradeView { phase, held, ..self }
    }
}

/// The trade is abandoned.
pub open spec fn fail(error: TradeError) -> StepView {
    StepView::Finished(Err(error))
}

/// The trade turns to leg `leg`, or, past the last leg, to the caller's bound
/// and then to settlement.
pub open spec fn enter_leg(t: TradeView, leg: nat) -> StepView {
    if leg < t.swaps.len() {
        StepView::Pending(TradeView { phase: Phase::Allowance, leg, ..t })
    } else if t.plan.accepts(t.total) {
        StepView::Pending(TradeView { phase: Phase::OutputBalance, leg, ..t })
    } else {
        fail(TradeError::SlippageError)
    }
}

/// The swap that a leg asks of its pool. The leg's two amounts are read by
/// the trade's mode: exact input and output floor, or input ceiling and exact
/// output.
pub open spec fn swap_call(p: Plan, leg: Swap) -> Action {
    match p.mode {
        Mode::ExactIn => Action::SwapExactAmountIn {
            pool: leg.pool,
            token_in: p.token_in,
            amount_in: leg.tokenInParam,
            token_out: p.token_out,
            min_amount_out: leg.tokenOutParam,
            max_price: leg.maxPrice,
        },
        Mode::ExactOut => Action::SwapExactAmountOut {
            pool: leg.pool,
            token_in: p.token_in,
            max_amount_in: leg.tokenInParam,
            token_out: p.token_out,
            amount_out: leg.tokenOutParam,
            max_price: leg.maxPrice,
        },
    }
}

/// The call that the trade is waiting for.
pub open spec fn pending(t: TradeView) -> Action {
    let p = t.plan;
    let leg = t.swaps[t.leg as int];
    match t.phase {
        Phase::Fund => if p.route is NativeIn {
            Action::Deposit { token: p.token_in, amount: p.funded }
        } else {
            Action::TransferFrom { token: p.token_in, from: p.caller, to: p.router, amount: p.funded }
        },
        Phase::Allowance => Action::Allowance { token: p.token_in, owner: p.router, spender: leg.pool },
        Phase::Approve => Action::Approve {
            token: p.token_in,
            spender: leg.pool,
            amount: UNLIMITED_ALLOWANCE,
        },
        Phase::Swap => swap_call(p, leg),
        Phase::OutputBalance => Action::BalanceOf { token: p.token_out, account: p.router },
        Phase::OutputUnwrap => Action::Withdraw { token: p.token_out, amount: t.held },
        Phase::OutputSend => if p.route is NativeOut {
            Action::SendNative { to: p.caller, amount: t.held }
        } else {
            Action::Transfer { token: p.token_out, to: p.caller, amount: t.held }
        },
        Phase::ChangeBalance => Action::BalanceOf { token: p.token_in, account: p.router },
        Phase::ChangeUnwrap => Action::Withdraw { token: p.token_in, amount: t.held },
        Phase::ChangeSend => if p.route is NativeIn {
            Action::SendNative { to: p.caller, amount: t.held }
        } else {
            Action::Transfer { token: p.token_in, to: p.caller, amount: t.held }
        },
        Phase::Log => Action::Emit { record: p.record },
    }
}

/// Where the answer to the pending call leads.
///
/// A reply of another shape than the call returns counts as a failed call.
/// The answer to the final `Emit` is not looked at.
pub open spec fn step(t: TradeView, reply: Reply) -> StepView {
    let p = t.plan;
    match t.phase {
        Phase::Fund => {
            if p.route is NativeIn && reply.completed() || !(p.route is NativeIn) && reply.granted() {
                enter_leg(t, 0)
            } else {
                fail(p.input_error())
            }
        },
        Phase::Allowance => match reply.amount() {
            Some(allowance) => if allowance < p.funded {
                StepView::Pending(t.at(Phase::Approve))
            } else {
                StepView::Pending(t.at(Phase::Swap))
            },
            None => fail(TradeError::AllowanceError),
        },
        Phase::Approve => if reply.granted() {
            StepView::Pending(t.at(Phase::Swap))
        } else {
            fail(TradeError::AllowanceError)
        },
        Phase::Swap => match reply.amount() {
            Some(amount) => if t.total + amount > u32::MAX {
                fail(TradeError::OverflowError)
            } else {
                enter_leg(TradeView { total: (t.total + amount) as u32, ..t }, t.leg + 1)
            },
            None => fail(TradeError::SlippageError),
        },
        Phase::OutputBalance => match reply.amount() {
            Some(balance) => if p.route is NativeOut {
                StepView::Pending(t.holding(Phase::OutputUnwrap, balance))
            } else {
                StepView::Pending(t.holding(Phase::OutputSend, balance))
            },
            None => fail(p.output_error()),
        },
        Phase::OutputUnwrap => if reply.completed() {
            StepView::Pending(t.at(Phase::OutputSend))
        } else {
            fail(TradeError::NativeTransferError)
        },
        Phase::OutputSend => if reply.granted() {
            StepView::Pending(t.at(Phase::ChangeBalance))
        } else {
            fail(p.output_error())
        },
        Phase::ChangeBalance => match reply.amount() {
            Some(balance) => if !(p.route is NativeIn) {
                StepView::Pending(t.holding(Phase::ChangeSend, balance))
            } else if balance > 0 {
                StepView::Pending(t.holding(Phase::ChangeUnwrap, balance))
            } else {
                StepView::Pending(t.at(Phase::Log))
            },
            None => fail(p.input_error()),
        },
        Phase::ChangeUnwrap => if reply.completed() {
            StepView::Pending(t.at(Phase::ChangeSend))
        } else {
            fail(TradeError::NativeTransferError)
        },
        Phase::ChangeSend => if reply.granted() {
            StepView::Pending(t.at(Phase::Log))
        } else {
            fail(p.input_error())
        },
        Phase::Log => StepView::Finished(Ok(t.total)),
    }
}

/// Every step of a well-formed trade leads to a well-formed trade.
pub proof fn lemma_step_keeps_wf(t: TradeView, reply: Reply)
    requires
        t.wf(),
    ensures
        step(t, reply) matches StepView::Pending(next) ==> next.wf() && next.plan == t.plan
            && next.swaps == t.swaps,
{
}

} // verus!
