//! The router: its guard, its wrapped-currency token, and the six ways into
//! a trade.
//!
//! A way in takes the guard and hands back the trade with its first call
//! pending. The driver makes the call and gives the answer to
//! [`Exchangeproxy::resume`], again and again, until the trade is
//! [`Step::Finished`]. The step that finishes a trade lets the guard go.

use vstd::prelude::*;
use crate::call::Reply;
use crate::guard::ReentrancyGuard;
use crate::machine::{fail, lemma_step_keeps_wf, step, Mode, Plan, Route, StepView, TradeView};
use crate::trade::{Step, Trade};
use crate::types::{AccountId, Invocation, LOGCALL, Swap, TradeError};

verus! {

/// The batch trade router.
#[derive(Debug)]
pub struct Exchangeproxy {
    _mutex: ReentrancyGuard,
    weth: AccountId,
}

/// What the router keeps between calls.
pub struct ProxyView {
    /// Whether a trade is in flight.
    pub locked: bool,
    /// The wrapped-currency token.
    pub weth: AccountId,
}

/// Where a call into the router leads: nowhere while a trade is in flight,
/// else to a fresh trade about to take its input.
pub open spec fn started(locked: bool, plan: Plan, swaps: Seq<Swap>) -> StepView {
    if locked {
        fail(TradeError::ReentrancyError)
    } else {
        StepView::Pending(TradeView::opened(plan, swaps))
    }
}

/// Where a call that pays in native currency leads: nowhere while a trade is
/// in flight; nowhere either, with `OverflowError`, when the value sent does
/// not fit the router's amounts; else to a fresh trade about to wrap it.
pub open spec fn started_paid(locked: bool, value: u128, plan: Plan, swaps: Seq<Swap>) -> StepView {
    if locked {
        fail(TradeError::ReentrancyError)
    } else if value > u32::MAX {
        fail(TradeError::OverflowError)
    } else {
        StepView::Pending(TradeView::opened(plan, swaps))
    }
}

/// The router after a call into it that led to `first`: the guard is held
/// where a trade was started, and is as it was where none was.
pub open spec fn entered(proxy: ProxyView, first: StepView) -> ProxyView {
    ProxyView { locked: proxy.locked || first is Pending, ..proxy }
}


/// The router after an answer has been taken: the guard stays as it was
/// while the trade goes on, and is free once the trade is over.
pub open spec fn resumed(proxy: ProxyView, next: StepView) -> ProxyView {
    ProxyView { locked: proxy.locked && next is Pending, ..proxy }
}

impl View for Exchangeproxy {
    type V = ProxyView;

    closed spec fn view(&self) -> ProxyView {
        ProxyView { locked: self._mutex.held(), weth: self.weth }
    }
}

/// The part of the contract's balance that the wrapped-currency token is
/// deployed with: a quarter, rounded down.
pub fn endowment(total_balance: u128) -> (share: u128)
    ensures
        share == total_balance / 4,
{
    total_balance / 4
}

impl Exchangeproxy {
    /// A new router over the wrapped-currency token `weth`. Its guard is
    /// free whatever `mutex` says: the guard is held only while a trade is in
    /// flight, and a new router has none.
    #[allow(unused_variables)]
    pub fn new(mutex: bool, weth: AccountId) -> (proxy: Exchangeproxy)
        ensures
            !proxy@.locked,
            proxy@.weth == weth,
    {
        Exchangeproxy { _mutex: ReentrancyGuard::new(false), weth }
    }

    /// The router as it was stored between two calls, a call of a
    /// collaborator in the middle of a trade included.
    pub fn restore(locked: bool, weth: AccountId) -> (proxy: Exchangeproxy)
        ensures
            proxy@ == (ProxyView { locked, weth }),
    {
        Exchangeproxy { _mutex: ReentrancyGuard::new(locked), weth }
    }

    /// A router with a free guard over the all-zero address.
    pub fn default() -> (proxy: Exchangeproxy)
        ensures
            !proxy@.locked,
            proxy@.weth.is_zero(),
    {
        Exchangeproxy::new(false, AccountId::zero())
    }

    /// Whether a trade is in flight.
    pub fn get(&self) -> (locked: bool)
        ensures
            locked == self@.locked,
    {
        self._mutex.is_held()
    }

    /// The wrapped-currency token.
    pub fn weth(&self) -> (token: AccountId)
        ensures
            token == self@.weth,
    {
        self.weth
    }

    /// Takes the guard and opens the trade that `plan` describes.
    fn enter(&mut self, plan: Plan, swaps: Vec<Swap>) -> (first: Step)
        ensures
            first@ == started(old(self)@.locked, plan, swaps@),
            final(self)@ == entered(old(self)@, first@),
    {
        match self._mutex.acquire() {
            Ok(()) => Step::Pending(Trade::open(plan, swaps)),
            Err(error) => Step::Finished(Err(error)),
        }
    }

    /// The value sent along with a call as an amount of the router, where it
    /// is one.
    fn paid(value: u128) -> (amount: Option<u32>)
        ensures
            value <= u32::MAX ==> amount == Some(value as u32),
            value > u32::MAX ==> amount.is_none(),
    {
        if value <= 0xffff_ffff {
            Some(value as u32)
        } else {
            None
        }
    }

    /// Builds the plan of a trade from what the host says of the call.
    fn plan(
        route: Route,
        mode: Mode,
        call: Invocation,
        token_in: AccountId,
        token_out: AccountId,
        funded: u32,
        bound: u32,
    ) -> (plan: Plan)
        ensures
            plan == Plan::of(route, mode, call, token_in, token_out, funded, bound),
    {
        Plan {
            route,
            mode,
            caller: call.caller,
            router: call.callee,
            token_in,
            token_out,
            funded,
            bound,
            record: LOGCALL { sig: call.sig, caller: Some(call.caller), data: call.data },
        }
    }

    /// Starts a token-to-token trade with fixed inputs: `totalAmountIn` of
    /// `tokenIn` is pulled from the caller, each leg swaps its exact input,
    /// and the outputs must add up to `minTotalAmountOut` at least.
    #[allow(non_snake_case)]
    pub fn batchSwapExactIn(
        &mut self,
        call: Invocation,
        swaps: Vec<Swap>,
        tokenIn: AccountId,
        tokenOut: AccountId,
        totalAmountIn: u32,
        minTotalAmountOut: u32,
    ) -> (first: Step)
        ensures
            first@ == started(
                old(self)@.locked,
                Plan::of(
                    Route::TokenToToken,
                    Mode::ExactIn,
                    call,
                    tokenIn,
                    tokenOut,
                    totalAmountIn,
                    minTotalAmountOut,
                ),
                swaps@,
            ),
            final(self)@ == entered(old(self)@, first@),
    {
        let plan = Self::plan(
            Route::TokenToToken,
            Mode::ExactIn,
            call,
            tokenIn,
            tokenOut,
            totalAmountIn,
            minTotalAmountOut,
        );
        self.enter(plan, swaps)
    }

    /// Starts a token-to-token trade with fixed outputs: `maxTotalAmountIn`
    /// of `tokenIn` is pulled from the caller, each leg buys its exact
    /// output, and the inputs must add up to `maxTotalAmountIn` at most. What
    /// was pulled and not spent goes back to the caller.
    #[allow(non_snake_case)]
    pub fn batchSwapExactOut(
        &mut self,
        call: Invocation,
        swaps: Vec<Swap>,
        tokenIn: AccountId,
        tokenOut: AccountId,
        maxTotalAmountIn: u32,
    ) -> (first: Step)
        ensures
            first@ == started(
                old(self)@.locked,
                Plan::of(
                    Route::TokenToToken,
                    Mode::ExactOut,
                    call,
                    tokenIn,
                    tokenOut,
                    maxTotalAmountIn,
                    maxTotalAmountIn,
                ),
                swaps@,
            ),
            final(self)@ == entered(old(self)@, first@),
    {
        let plan = Self::plan(
            Route::TokenToToken,
            Mode::ExactOut,
            call,
            tokenIn,
            tokenOut,
            maxTotalAmountIn,
            maxTotalAmountIn,
        );
        self.enter(plan, swaps)
    }

    /// Starts a trade that pays with the native currency sent along with the
    /// call and fixes the inputs: the value is wrapped, each leg swaps its
    /// exact input of the wrapped token, and the outputs must add up to
    /// `minTotalAmountOut` at least. Wrapped currency that is left over is
    /// unwrapped and goes back to the caller. A value that does not fit the
    /// router's amounts is refused with `OverflowError`, and no trade starts.
    #[allow(non_snake_case)]
    pub fn batchEthInSwapExactIn(
        &mut self,
        call: Invocation,
        swaps: Vec<Swap>,
        tokenOut: AccountId,
        minTotalAmountOut: u32,
    ) -> (first: Step)
        ensures
            first@ == started_paid(
                old(self)@.locked,
                call.value,
                Plan::of(
                    Route::NativeIn,
                    Mode::ExactIn,
                    call,
                    old(self)@.weth,
                    tokenOut,
                    call.value as u32,
                    minTotalAmountOut,
                ),
                swaps@,
            ),
            final(self)@ == entered(old(self)@, first@),
    {
        if self._mutex.is_held() {
            return Step::Finished(Err(TradeError::ReentrancyError));
        }
        match Self::paid(call.value) {
            Some(value) => {
                let plan = Self::plan(
                    Route::NativeIn,
                    Mode::ExactIn,
                    call,
                    self.weth,
                    tokenOut,
                    value,
                    minTotalAmountOut,
                );
                self.enter(plan, swaps)
            },
            None => Step::Finished(Err(TradeError::OverflowError)),
        }
    }

    /// Starts a trade that is paid out in native currency and fixes the
    /// inputs: `totalAmountIn` of `tokenIn` is pulled from the caller, each
    /// leg swaps its exact input for the wrapped token, and the outputs must
    /// add up to `minTotalAmountOut` at least. The wrapped output is
    /// unwrapped and forwarded to the caller.
    #[allow(non_snake_case)]
    pub fn batchEthOutSwapExactIn(
        &mut self,
        call: Invocation,
        swaps: Vec<Swap>,
        tokenIn: AccountId,
        totalAmountIn: u32,
        minTotalAmountOut: u32,
    ) -> (first: Step)
        ensures
            first@ == started(
                old(self)@.locked,
                Plan::of(
                    Route::NativeOut,
                    Mode::ExactIn,
                    call,
                    tokenIn,
                    old(self)@.weth,
                    totalAmountIn,
                    minTotalAmountOut,
                ),
                swaps@,
            ),
            final(self)@ == entered(old(self)@, first@),
    {
        let plan = Self::plan(
            Route::NativeOut,
            Mode::ExactIn,
            call,
            tokenIn,
            self.weth,
            totalAmountIn,
            minTotalAmountOut,
        );
        self.enter(plan, swaps)
    }

    /// Starts a trade that pays with the native currency sent along with the
    /// call and fixes the outputs: the value is wrapped, each leg buys its
    /// exact output with the wrapped token, and the inputs must add up to the
    /// value sent at most. Wrapped currency that is left over is unwrapped
    /// and goes back to the caller. A value that does not fit the router's
    /// amounts is refused with `OverflowError`, and no trade starts.
    #[allow(non_snake_case)]
    pub fn batchEthInSwapExactOut(
        &mut self,
        call: Invocation,
        swaps: Vec<Swap>,
        tokenOut: AccountId,
    ) -> (first: Step)
        ensures
            first@ == started_paid(
                old(self)@.locked,
                call.value,
                Plan::of(
                    Route::NativeIn,
                    Mode::ExactOut,
                    call,
                    old(self)@.weth,
                    tokenOut,
                    call.value as u32,
                    call.value as u32,
                ),
                swaps@,
            ),
            final(self)@ == entered(old(self)@, first@),
    {
        if self._mutex.is_held() {
            return Step::Finished(Err(TradeError::ReentrancyError));
        }
        match Self::paid(call.value) {
            Some(value) => {
                let plan = Self::plan(
                    Route::NativeIn,
                    Mode::ExactOut,
                    call,
                    self.weth,
                    tokenOut,
                    value,
                    value,
                );
                self.enter(plan, swaps)
            },
            None => Step::Finished(Err(TradeError::OverflowError)),
        }
    }

    /// Starts a trade that is paid out in native currency and fixes the
    /// outputs: `maxTotalAmountIn` of `tokenIn` is pulled from the caller,
    /// each leg buys its exact output of the wrapped token, and the inputs
    /// must add up to `maxTotalAmountIn` at most. The wrapped output is
    /// unwrapped and forwarded to the caller, and what was pulled and not
    /// spent goes back as well.
    #[allow(non_snake_case)]
    pub fn batchEthOutSwapExactOut(
        &mut self,
        call: Invocation,
        swaps: Vec<Swap>,
        tokenIn: AccountId,
        maxTotalAmountIn: u32,
    ) -> (first: Step)
        ensures
            first@ == started(
                old(self)@.locked,
                Plan::of(
                    Route::NativeOut,
                    Mode::ExactOut,
                    call,
                    tokenIn,
                    old(self)@.weth,
                    maxTotalAmountIn,
                    maxTotalAmountIn,
                ),
                swaps@,
            ),
            final(self)@ == entered(old(self)@, first@),
    {
        let plan = Self::plan(
            Route::NativeOut,
            Mode::ExactOut,
            call,
            tokenIn,
            self.weth,
            maxTotalAmountIn,
            maxTotalAmountIn,
        );
        self.enter(plan, swaps)
    }

    /// Takes the answer to the trade's pending call. The trade moves on as
    /// `step` says; when that finishes it, the guard is let go.
    pub fn resume(&mut self, trade: Trade, reply: Reply) -> (next: Step)
        ensures
            next@ == step(trade@, reply),
            final(self)@ == resumed(old(self)@, next@),
            trade@.wf(),
            next@ matches StepView::Pending(t) ==> t.wf(),
    {
        let next = trade.advance(reply);
        proof {
            lemma_step_keeps_wf(trade@, reply);
        }
        match next {
            Step::Pending(_) => {},
            Step::Finished(_) => {
                self._mutex.release();
            },
        }
        next
    }
}

} // verus!
