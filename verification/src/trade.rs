//! The trade in flight as a value that the driver carries between calls.

use vstd::prelude::*;
use crate::call::{Action, Reply, UNLIMITED_ALLOWANCE};
use crate::machine::{enter_leg, pending, step, Mode, Phase, Plan, Route, StepView, TradeView};
use crate::numeric::checked_add;
use crate::types::{Swap, TradeError};

verus! {

/// A trade in flight. Only the router makes one, and it keeps every one of
/// them well-formed.
#[derive(Debug)]
pub struct Trade {
    plan: Plan,
    swaps: Vec<Swap>,
    phase: Phase,
    leg: usize,
    total: u32,
    held: u32,
}

/// Where a trade stands after a call has been answered.
#[derive(Debug)]
pub enum Step {
    /// Another call is due: `Trade::pending` names it.
    Pending(Trade),
    /// The trade is over, with the realized total or the reason it was abandoned.
    Finished(Result<u32, TradeError>),
}

impl View for Trade {
    type V = TradeView;

    closed spec fn view(&self) -> TradeView {
        TradeView {
            plan: self.plan,
            swaps: self.swaps@,
            phase: self.phase,
            leg: self.leg as nat,
            total: self.total,
            held: self.held,
        }
    }
}

impl View for Step {
    type V = StepView;

    open spec fn view(&self) -> StepView {
        match self {
            Step::Pending(trade) => StepView::Pending(trade@),
            Step::Finished(result) => StepView::Finished(*result),
        }
    }
}

impl Trade {
    #[verifier::type_invariant]
    spec fn well_formed(&self) -> bool {
        self@.wf()
    }

    /// A trade about to take its input.
    pub(crate) fn open(plan: Plan, swaps: Vec<Swap>) -> (trade: Trade)
        ensures
            trade@ == TradeView::opened(plan, swaps@),
    {
        Trade { plan, swaps, phase: Phase::Fund, leg: 0, total: 0, held: 0 }
    }

    /// What was fixed when the trade started.
    pub fn plan(&self) -> (plan: Plan)
        ensures
            plan == self@.plan,
    {
        self.plan
    }

    /// The call that the trade is waiting for, by its kind.
    pub fn phase(&self) -> (phase: Phase)
        ensures
            phase == self@.phase,
    {
        self.phase
    }

    /// The sum of what the pools have reported so far.
    pub fn total(&self) -> (total: u32)
        ensures
            total == self@.total,
    {
        self.total
    }

    /// The call that the driver has to make next.
    pub fn pending(&self) -> (action: Action)
        ensures
            action == pending(self@),
            self@.wf(),
    {
        proof {
            use_type_invariant(self);
        }
        let p = self.plan;
        match self.phase {
            Phase::Fund => match p.route {
                Route::NativeIn => Action::Deposit { token: p.token_in, amount: p.funded },
                _ => Action::TransferFrom {
                    token: p.token_in,
                    from: p.caller,
                    to: p.router,
                    amount: p.funded,
                },
            },
            Phase::Allowance => Action::Allowance {
                token: p.token_in,
                owner: p.router,
                spender: self.swaps[self.leg].pool,
            },
            Phase::Approve => Action::Approve {
                token: p.token_in,
                spender: self.swaps[self.leg].pool,
                amount: UNLIMITED_ALLOWANCE,
            },
            Phase::Swap => {
                let leg = self.swaps[self.leg];
                match p.mode {
                    Mode::ExactIn => Action::SwapExactAmountIn {
                        pool: leg.pool,
                        token_in: p.token_in,
                        amount_in: leg.tokenInParam,
                        token_out: p.token_out,
                        min_amount_out: leg.tokenOutParam,
                        max_price: leg.maxPrice,
                    },
                    Mode::ExactOut => Action::SwapExactAmountOut {
                        pool: leg.pool,
                        token_in: p.token_in,
                        max_amount_in: leg.tokenInParam,
                        token_out: p.token_out,
                        amount_out: leg.tokenOutParam,
                        max_price: leg.maxPrice,
                    },
                }
            },
            Phase::OutputBalance => Action::BalanceOf { token: p.token_out, account: p.router },
            Phase::OutputUnwrap => Action::Withdraw { token: p.token_out, amount: self.held },
            Phase::OutputSend => match p.route {
                Route::NativeOut => Action::SendNative { to: p.caller, amount: self.held },
                _ => Action::Transfer { token: p.token_out, to: p.caller, amount: self.held },
            },
            Phase::ChangeBalance => Action::BalanceOf { token: p.token_in, account: p.router },
            Phase::ChangeUnwrap => Action::Withdraw { token: p.token_in, amount: self.held },
            Phase::ChangeSend => match p.route {
                Route::NativeIn => Action::SendNative { to: p.caller, amount: self.held },
                _ => Action::Transfer { token: p.token_in, to: p.caller, amount: self.held },
            },
            Phase::Log => Action::Emit { record: p.record },
        }
    }

    /// Whether `total` satisfies the caller's bound.
    fn accepts(plan: &Plan, total: u32) -> (ok: bool)
        ensures
            ok == plan.accepts(total),
    {
        match plan.mode {
            Mode::ExactIn => total >= plan.bound,
            Mode::ExactOut => total <= plan.bound,
        }
    }

    /// Turns to leg `leg`, or past the last leg to the bound and to settlement.
    fn enter_leg(self, leg: usize) -> (next: Step)
        requires
            leg <= self@.swaps.len(),
            !self@.phase.settling(),
        ensures
            next@ == enter_leg(self@, leg as nat),
    {
        proof {
            use_type_invariant(&self);
        }
        if leg < self.swaps.len() {
            Step::Pending(Trade { phase: Phase::Allowance, leg, ..self })
        } else if Self::accepts(&self.plan, self.total) {
            Step::Pending(Trade { phase: Phase::OutputBalance, leg, ..self })
        } else {
            Step::Finished(Err(TradeError::SlippageError))
        }
    }

    /// The same trade in another phase.
    fn at(self, phase: Phase) -> (next: Step)
        requires
            self@.at(phase).wf(),
        ensures
            next@ == StepView::Pending(self@.at(phase)),
    {
        Step::Pending(Trade { phase, ..self })
    }

    /// The same trade in another phase, holding a balance that was just read.
    fn holding(self, phase: Phase, held: u32) -> (next: Step)
        requires
            self@.holding(phase, held).wf(),
        ensures
            next@ == StepView::Pending(self@.holding(phase, held)),
    {
        Step::Pending(Trade { phase, held, ..self })
    }

    /// Takes the answer to the pending call and moves on.
    pub(crate) fn advance(self, reply: Reply) -> (next: Step)
        ensures
            next@ == step(self@, reply),
            self@.wf(),
    {
        proof {
            use_type_invariant(&self);
        }
        let p = self.plan;
        match self.phase {
            Phase::Fund => {
                let funded = match (p.route, reply) {
                    (Route::NativeIn, Reply::Done) => true,
                    (Route::NativeIn, _) => false,
                    (_, Reply::Flag(true)) => true,
                    _ => false,
                };
                if funded {
                    self.enter_leg(0)
                } else {
                    Step::Finished(Err(Self::input_error(&p)))
                }
            },
            Phase::Allowance => match reply {
                Reply::Amount(allowance) => if allowance < p.funded {
                    self.at(Phase::Approve)
                } else {
                    self.at(Phase::Swap)
                },
                _ => Step::Finished(Err(TradeError::AllowanceError)),
            },
            Phase::Approve => match reply {
                Reply::Flag(true) => self.at(Phase::Swap),
                _ => Step::Finished(Err(TradeError::AllowanceError)),
            },
            Phase::Swap => match reply {
                Reply::Amount(amount) => match checked_add(self.total, amount) {
                    Ok(total) => {
                        assert(self.leg < self.swaps.len());
                        let leg = self.leg + 1;
                        let grown = Trade { total, ..self };
                        grown.enter_leg(leg)
                    },
                    Err(error) => Step::Finished(Err(error)),
                },
                _ => Step::Finished(Err(TradeError::SlippageError)),
            },
            Phase::OutputBalance => match reply {
                Reply::Amount(balance) => match p.route {
                    Route::NativeOut => self.holding(Phase::OutputUnwrap, balance),
                    _ => self.holding(Phase::OutputSend, balance),
                },
                _ => Step::Finished(Err(Self::output_error(&p))),
            },
            Phase::OutputUnwrap => match reply {
                Reply::Done => self.at(Phase::OutputSend),
                _ => Step::Finished(Err(TradeError::NativeTransferError)),
            },
            Phase::OutputSend => match reply {
                Reply::Flag(true) => self.at(Phase::ChangeBalance),
                _ => Step::Finished(Err(Self::output_error(&p))),
            },
            Phase::ChangeBalance => match reply {
                Reply::Amount(balance) => match p.route {
                    Route::NativeIn => if balance > 0 {
                        self.holding(Phase::ChangeUnwrap, balance)
                    } else {
                        self.at(Phase::Log)
                    },
                    _ => self.holding(Phase::ChangeSend, balance),
                },
                _ => Step::Finished(Err(Self::input_error(&p))),
            },
            Phase::ChangeUnwrap => match reply {
                Reply::Done => self.at(Phase::ChangeSend),
                _ => Step::Finished(Err(TradeError::NativeTransferError)),
            },
            Phase::ChangeSend => match reply {
                Reply::Flag(true) => self.at(Phase::Log),
                _ => Step::Finished(Err(Self::input_error(&p))),
            },
            Phase::Log => Step::Finished(Ok(self.total)),
        }
    }

    /// The error of a failed step on the input side.
    fn input_error(plan: &Plan) -> (error: TradeError)
        ensures
            error == plan.input_error(),
    {
        match plan.route {
            Route::NativeIn => TradeError::NativeTransferError,
            _ => TradeError::TransferError,
        }
    }

    /// The error of a failed step on the output side.
    fn output_error(plan: &Plan) -> (error: TradeError)
        ensures
            error == plan.output_error(),
    {
        match plan.route {
            Route::NativeOut => TradeError::NativeTransferError,
            _ => TradeError::TransferError,
        }
    }
}

} // verus!
