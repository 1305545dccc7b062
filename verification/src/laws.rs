//! What holds of a whole trade, whatever the collaborators answer.
//!
//! A trade is followed through a list of replies, one per call, with [`run`].
//! The laws below speak of every well-formed trade and every list of replies.

use vstd::prelude::*;
use crate::call::{Action, Reply};
use crate::machine::{
    fail, lemma_step_keeps_wf, pending, step, swap_call, Phase, Plan, StepView, TradeView,
};
use crate::proxy::{entered, resumed, started, started_paid, ProxyView};
use crate::types::{Swap, TradeError};

verus! {

/// Where the trade stands once the replies have been fed to it in order.
/// Replies that come after the trade has finished are not looked at.
pub open spec fn run(t: TradeView, replies: Seq<Reply>) -> StepView
    decreases replies.len(),
{
    if replies.len() == 0 {
        StepView::Pending(t)
    } else {
        match step(t, replies[0]) {
            StepView::Pending(next) => run(next, replies.drop_first()),
            StepView::Finished(result) => StepView::Finished(result),
        }
    }
}

/// What a pool reported, if the reply is a pool's answer to a leg's swap.
pub open spec fn report(t: TradeView, reply: Reply) -> Option<u32> {
    if t.phase is Swap {
        reply.amount()
    } else {
        None
    }
}

/// The amounts that the pools reported in the course of `run(t, replies)`,
/// in the order of the legs. An amount that made the total overflow counts.
pub open spec fn reported(t: TradeView, replies: Seq<Reply>) -> Seq<u32>
    decreases replies.len(),
{
    if replies.len() == 0 {
        Seq::empty()
    } else {
        let later = match step(t, replies[0]) {
            StepView::Pending(next) => reported(next, replies.drop_first()),
            StepView::Finished(_) => Seq::empty(),
        };
        match report(t, replies[0]) {
            Some(amount) => seq![amount] + later,
            None => later,
        }
    }
}

/// The swaps that the pools answered in the course of `run(t, replies)`, in
/// the order in which they were made.
pub open spec fn swaps_made(t: TradeView, replies: Seq<Reply>) -> Seq<Action>
    decreases replies.len(),
{
    if replies.len() == 0 {
        Seq::empty()
    } else {
        let later = match step(t, replies[0]) {
            StepView::Pending(next) => swaps_made(next, replies.drop_first()),
            StepView::Finished(_) => Seq::empty(),
        };
        match report(t, replies[0]) {
            Some(_) => seq![pending(t)] + later,
            None => later,
        }
    }
}

/// The calls that were made in the course of `run(t, replies)`, in order.
pub open spec fn calls(t: TradeView, replies: Seq<Reply>) -> Seq<Action>
    decreases replies.len(),
{
    if replies.len() == 0 {
        Seq::empty()
    } else {
        let later = match step(t, replies[0]) {
            StepView::Pending(next) => calls(next, replies.drop_first()),
            StepView::Finished(_) => Seq::empty(),
        };
        seq![pending(t)] + later
    }
}

/// The trade is over and went through.
pub open spec fn settled(s: StepView) -> bool {
    match s {
        StepView::Finished(Ok(_)) => true,
        _ => false,
    }
}

/// The router and the trade once the driver has answered the trade's calls
/// with the replies, in order, through `Exchangeproxy::resume`.
pub open spec fn drive(proxy: ProxyView, s: StepView, replies: Seq<Reply>) -> (ProxyView, StepView)
    decreases replies.len(),
{
    if replies.len() == 0 {
        (proxy, s)
    } else {
        match s {
            StepView::Pending(t) => {
                let next = step(t, replies[0]);
                drive(resumed(proxy, next), next, replies.drop_first())
            },
            StepView::Finished(_) => (proxy, s),
        }
    }
}

/// A whole call into the router: the way in, which led to `first`, and then
/// the replies.
pub open spec fn call(proxy: ProxyView, first: StepView, replies: Seq<Reply>) -> (
    ProxyView,
    StepView,
) {
    drive(entered(proxy, first), first, replies)
}

/// The sum of the amounts, in the integers.
pub open spec fn sum(amounts: Seq<u32>) -> nat
    decreases amounts.len(),
{
    if amounts.len() == 0 {
        0
    } else {
        amounts[0] as nat + sum(amounts.drop_first())
    }
}

/// The sum of a sequence is its first amount plus the sum of the rest.
proof fn lemma_sum_cons(amount: u32, rest: Seq<u32>)
    ensures
        sum(seq![amount] + rest) == amount + sum(rest),
{
    let all = seq![amount] + rest;
    assert(all.drop_first() =~= rest);
}

/// A settled trade returns the total it had plus the sum of what the pools
/// reported from then on, one report for each leg that was still to come, and
/// that total meets the caller's bound.
pub proof fn lemma_settled_total(t: TradeView, replies: Seq<Reply>, total: u32)
    requires
        t.wf(),
        run(t, replies) == StepView::Finished(Ok(total)),
    ensures
        total == t.total + sum(reported(t, replies)),
        reported(t, replies).len() == t.swaps.len() - t.leg,
        t.plan.accepts(total),
    decreases replies.len(),
{
    if replies.len() > 0 {
        let reply = replies[0];
        let rest = replies.drop_first();
        lemma_step_keeps_wf(t, reply);
        match step(t, reply) {
            StepView::Pending(next) => {
                lemma_settled_total(next, rest, total);
                match report(t, reply) {
                    Some(amount) => {
                        lemma_sum_cons(amount, reported(next, rest));
                    },
                    None => {},
                }
            },
            StepView::Finished(_) => {},
        }
    }
}

/// A trade that has just been started and settles returns the sum of what
/// the pools reported, one report per leg. In an exact-in trade that sum is
/// the caller's floor at least, in an exact-out trade the caller's ceiling at
/// most.
pub proof fn lemma_trade_returns_sum_of_reports(
    plan: Plan,
    swaps: Seq<Swap>,
    replies: Seq<Reply>,
    total: u32,
)
    requires
        run(TradeView::opened(plan, swaps), replies) == StepView::Finished(Ok(total)),
    ensures
        total == sum(reported(TradeView::opened(plan, swaps), replies)),
        reported(TradeView::opened(plan, swaps), replies).len() == swaps.len(),
        plan.accepts(total),
{
    lemma_settled_total(TradeView::opened(plan, swaps), replies, total);
}

/// The total never wraps: once the pools' reports, added to the total in the
/// integers, leave the numeric domain, the trade has failed with
/// `OverflowError`.
pub proof fn lemma_overflow_fails(t: TradeView, replies: Seq<Reply>)
    requires
        t.wf(),
        t.total + sum(reported(t, replies)) > u32::MAX,
    ensures
        run(t, replies) == fail(TradeError::OverflowError),
    decreases replies.len(),
{
    if replies.len() > 0 {
        let reply = replies[0];
        let rest = replies.drop_first();
        lemma_step_keeps_wf(t, reply);
        match step(t, reply) {
            StepView::Pending(next) => {
                match report(t, reply) {
                    Some(amount) => {
                        lemma_sum_cons(amount, reported(next, rest));
                    },
                    None => {},
                }
                lemma_overflow_fails(next, rest);
            },
            StepView::Finished(_) => {
                match report(t, reply) {
                    Some(amount) => {
                        lemma_sum_cons(amount, Seq::<u32>::empty());
                    },
                    None => {},
                }
            },
        }
    }
}

/// The total never goes down in the course of a trade.
pub proof fn lemma_total_never_decreases(t: TradeView, replies: Seq<Reply>)
    requires
        t.wf(),
    ensures
        run(t, replies) matches StepView::Pending(later) ==> later.total >= t.total,
        run(t, replies) matches StepView::Finished(Ok(total)) ==> total >= t.total,
    decreases replies.len(),
{
    if replies.len() > 0 {
        let reply = replies[0];
        lemma_step_keeps_wf(t, reply);
        match step(t, reply) {
            StepView::Pending(next) => {
                lemma_total_never_decreases(next, replies.drop_first());
            },
            StepView::Finished(_) => {},
        }
    }
}

/// The legs are swapped strictly in list order: the swaps made from a trade
/// on are those of its current leg and the legs after it, one after the other,
/// each with the parameters of its leg, and each has one report.
pub proof fn lemma_legs_in_order(t: TradeView, replies: Seq<Reply>)
    requires
        t.wf(),
    ensures
        swaps_made(t, replies).len() == reported(t, replies).len(),
        swaps_made(t, replies).len() <= t.swaps.len() - t.leg,
        forall|i: int|
            0 <= i < swaps_made(t, replies).len() ==> #[trigger] swaps_made(t, replies)[i]
                == swap_call(t.plan, t.swaps[t.leg + i]),
    decreases replies.len(),
{
    if replies.len() > 0 {
        let reply = replies[0];
        let rest = replies.drop_first();
        lemma_step_keeps_wf(t, reply);
        match step(t, reply) {
            StepView::Pending(next) => {
                lemma_legs_in_order(next, rest);
            },
            StepView::Finished(_) => {},
        }
    }
}

/// The record is logged at most once, by the last call of a trade that goes
/// through, and it is the record of the trade's plan. A trade that fails logs
/// nothing.
pub proof fn lemma_logged_once_at_the_end(t: TradeView, replies: Seq<Reply>)
    requires
        t.wf(),
    ensures
        forall|i: int|
            0 <= i < calls(t, replies).len() && #[trigger] calls(t, replies)[i] is Emit ==> {
                &&& i == calls(t, replies).len() - 1
                &&& calls(t, replies)[i] == (Action::Emit { record: t.plan.record })
                &&& settled(run(t, replies))
            },
        settled(run(t, replies)) ==> calls(t, replies).len() > 0 && calls(t, replies).last()
            is Emit,
    decreases replies.len(),
{
    if replies.len() > 0 {
        let reply = replies[0];
        let rest = replies.drop_first();
        lemma_step_keeps_wf(t, reply);
        match step(t, reply) {
            StepView::Pending(next) => {
                lemma_logged_once_at_the_end(next, rest);
            },
            StepView::Finished(_) => {},
        }
    }
}

/// The output is swept: whatever balance of the output token the router is
/// found to hold is what goes to the caller, as a token transfer, or, where
/// the output is native currency, unwrapped and then forwarded.
pub proof fn lemma_output_is_handed_over(t: TradeView, balance: u32)
    requires
        t.wf(),
        t.phase is OutputBalance,
    ensures
        !(t.plan.route is NativeOut) ==> {
            &&& step(t, Reply::Amount(balance)) == StepView::Pending(
                t.holding(Phase::OutputSend, balance),
            )
            &&& pending(t.holding(Phase::OutputSend, balance)) == (Action::Transfer {
                token: t.plan.token_out,
                to: t.plan.caller,
                amount: balance,
            })
        },
        t.plan.route is NativeOut ==> {
            &&& step(t, Reply::Amount(balance)) == StepView::Pending(
                t.holding(Phase::OutputUnwrap, balance),
            )
            &&& pending(t.holding(Phase::OutputUnwrap, balance)) == (Action::Withdraw {
                token: t.plan.token_out,
                amount: balance,
            })
            &&& step(t.holding(Phase::OutputUnwrap, balance), Reply::Done) == StepView::Pending(
                t.holding(Phase::OutputSend, balance),
            )
            &&& pending(t.holding(Phase::OutputSend, balance)) == (Action::SendNative {
                to: t.plan.caller,
                amount: balance,
            })
        },
{
}

/// The change is swept: whatever balance of the input token the router is
/// found to hold goes back to the caller, as a token transfer, or, where the
/// input was native currency, unwrapped and then forwarded. Where the input
/// was native currency and nothing is left, nothing is unwrapped.
pub proof fn lemma_change_is_handed_back(t: TradeView, balance: u32)
    requires
        t.wf(),
        t.phase is ChangeBalance,
    ensures
        !(t.plan.route is NativeIn) ==> {
            &&& step(t, Reply::Amount(balance)) == StepView::Pending(
                t.holding(Phase::ChangeSend, balance),
            )
            &&& pending(t.holding(Phase::ChangeSend, balance)) == (Action::Transfer {
                token: t.plan.token_in,
                to: t.plan.caller,
                amount: balance,
            })
        },
        t.plan.route is NativeIn && balance > 0 ==> {
            &&& step(t, Reply::Amount(balance)) == StepView::Pending(
                t.holding(Phase::ChangeUnwrap, balance),
            )
            &&& pending(t.holding(Phase::ChangeUnwrap, balance)) == (Action::Withdraw {
                token: t.plan.token_in,
                amount: balance,
            })
            &&& step(t.holding(Phase::ChangeUnwrap, balance), Reply::Done) == StepView::Pending(
                t.holding(Phase::ChangeSend, balance),
            )
            &&& pending(t.holding(Phase::ChangeSend, balance)) == (Action::SendNative {
                to: t.plan.caller,
                amount: balance,
            })
        },
        t.plan.route is NativeIn && balance == 0 ==> step(t, Reply::Amount(balance))
            == StepView::Pending(t.at(Phase::Log)),
{
}

/// After the first `k` replies the trade has left the leg loop with `total`
/// and is waiting for the router's balance of the output token.
pub open spec fn reads_output_at(t: TradeView, replies: Seq<Reply>, k: int, total: u32) -> bool {
    &&& 0 <= k < replies.len()
    &&& run(t, replies.take(k)) == StepView::Pending(
        TradeView { phase: Phase::OutputBalance, leg: t.swaps.len(), total, ..t },
    )
}

/// After the first `m` replies the trade, with `total` still, is waiting for
/// the router's balance of the input token.
pub open spec fn reads_change_at(t: TradeView, replies: Seq<Reply>, m: int, total: u32) -> bool {
    &&& 0 <= m < replies.len()
    &&& match run(t, replies.take(m)) {
        StepView::Pending(u) => {
            &&& u.phase is ChangeBalance
            &&& u.plan == t.plan
            &&& u.swaps == t.swaps
            &&& u.leg == t.swaps.len()
            &&& u.total == total
        },
        StepView::Finished(_) => false,
    }
}

/// One reply more at the front is one step more.
proof fn lemma_run_after_first(t: TradeView, next: TradeView, replies: Seq<Reply>, k: int)
    requires
        replies.len() > 0,
        step(t, replies[0]) == StepView::Pending(next),
        0 <= k < replies.len(),
    ensures
        run(t, replies.take(k + 1)) == run(next, replies.drop_first().take(k)),
{
    let front = replies.take(k + 1);
    assert(front[0] == replies[0]);
    assert(front.drop_first() =~= replies.drop_first().take(k));
}

/// A trade that has begun to settle its output and goes through reads the
/// router's balance of the input token on the way, with the total it had.
proof fn lemma_settling_output_reads_change(t: TradeView, replies: Seq<Reply>, total: u32)
    requires
        t.wf(),
        t.phase is OutputBalance || t.phase is OutputUnwrap || t.phase is OutputSend,
        run(t, replies) == StepView::Finished(Ok(total)),
    ensures
        total == t.total,
        exists|m: int| 0 < m && #[trigger] reads_change_at(t, replies, m, total),
    decreases replies.len(),
{
    lemma_settled_total(t, replies, total);
    assert(reported(t, replies) =~= Seq::<u32>::empty());
    let reply = replies[0];
    let rest = replies.drop_first();
    lemma_step_keeps_wf(t, reply);
    match step(t, reply) {
        StepView::Pending(next) => {
            if next.phase is ChangeBalance {
                assert(rest.len() > 0);
                lemma_run_after_first(t, next, replies, 0);
                assert(rest.take(0) =~= Seq::<Reply>::empty());
                assert(reads_change_at(t, replies, 1, total));
            } else {
                lemma_settling_output_reads_change(next, rest, total);
                let m = choose|m: int| 0 < m && #[trigger] reads_change_at(next, rest, m, total);
                lemma_run_after_first(t, next, replies, m);
                assert(reads_change_at(t, replies, m + 1, total));
            }
        },
        StepView::Finished(_) => {},
    }
}

/// Every trade that goes through is settled on both sides: having left the
/// leg loop with the total it returns, it reads the router's balance of the
/// output token, and later, with the same total, the router's balance of the
/// input token. What becomes of each balance is said by
/// `lemma_output_is_handed_over` and `lemma_change_is_handed_back`.
pub proof fn lemma_settled_trade_passes_settlement(t: TradeView, replies: Seq<Reply>, total: u32)
    requires
        t.wf(),
        !t.phase.settling(),
        run(t, replies) == StepView::Finished(Ok(total)),
    ensures
        exists|k: int, m: int|
            k < m && #[trigger] reads_output_at(t, replies, k, total) && #[trigger] reads_change_at(
                t,
                replies,
                m,
                total,
            ),
    decreases replies.len(),
{
    let reply = replies[0];
    let rest = replies.drop_first();
    lemma_step_keeps_wf(t, reply);
    match step(t, reply) {
        StepView::Pending(next) => {
            if next.phase.settling() {
                lemma_settling_output_reads_change(next, rest, total);
                let m = choose|m: int| 0 < m && #[trigger] reads_change_at(next, rest, m, total);
                lemma_run_after_first(t, next, replies, 0);
                assert(rest.take(0) =~= Seq::<Reply>::empty());
                assert(next == (TradeView {
                    phase: Phase::OutputBalance,
                    leg: t.swaps.len(),
                    total,
                    ..t
                }));
                assert(reads_output_at(t, replies, 1, total));
                lemma_run_after_first(t, next, replies, m);
                assert(reads_change_at(t, replies, m + 1, total));
            } else {
                lemma_settled_trade_passes_settlement(next, rest, total);
                let (k, m) = choose|k: int, m: int|
                    k < m && #[trigger] reads_output_at(next, rest, k, total)
                        && #[trigger] reads_change_at(next, rest, m, total);
                lemma_run_after_first(t, next, replies, k);
                lemma_run_after_first(t, next, replies, m);
                assert((TradeView {
                    phase: Phase::OutputBalance,
                    leg: next.swaps.len(),
                    total,
                    ..next
                }) == (TradeView { phase: Phase::OutputBalance, leg: t.swaps.len(), total, ..t }));
                assert(reads_output_at(t, replies, k + 1, total));
                assert(reads_change_at(t, replies, m + 1, total));
            }
        },
        StepView::Finished(_) => {},
    }
}

/// While the driver answers a trade's calls, the guard is held exactly as
/// long as the trade goes on, and the trade goes as `run` says.
pub proof fn lemma_guard_follows_trade(proxy: ProxyView, t: TradeView, replies: Seq<Reply>)
    requires
        proxy.locked,
    ensures
        drive(proxy, StepView::Pending(t), replies).1 == run(t, replies),
        drive(proxy, StepView::Pending(t), replies).0 == (ProxyView {
            locked: run(t, replies) is Pending,
            ..proxy
        }),
    decreases replies.len(),
{
    if replies.len() > 0 {
        match step(t, replies[0]) {
            StepView::Pending(next) => {
                lemma_guard_follows_trade(proxy, next, replies.drop_first());
            },
            StepView::Finished(_) => {
                reveal_with_fuel(drive, 2);
            },
        }
    }
}

/// No lock leaks: after a call into a router whose guard is free, the guard
/// is held exactly as long as the trade goes on. Once the call is over, with
/// the total or with an error, at the way in or at any step, the guard is
/// free again. A trade that was started goes as `run` says.
pub proof fn lemma_guard_is_free_after_the_call(
    proxy: ProxyView,
    first: StepView,
    replies: Seq<Reply>,
)
    requires
        !proxy.locked,
    ensures
        call(proxy, first, replies).0.locked == (call(proxy, first, replies).1 is Pending),
        call(proxy, first, replies).0.weth == proxy.weth,
        first matches StepView::Pending(t) ==> call(proxy, first, replies).1 == run(t, replies),
        first is Finished ==> call(proxy, first, replies).1 == first,
{
    match first {
        StepView::Pending(t) => {
            lemma_guard_follows_trade(entered(proxy, first), t, replies);
        },
        StepView::Finished(_) => {},
    }
}

/// A call into the router while a trade is in flight fails with
/// `ReentrancyError`, whichever way in is taken and whatever value is sent
/// along: no call is asked for, whatever the replies would have been, and the
/// router is as it was, its guard still held.
pub proof fn lemma_reentry_is_refused(
    proxy: ProxyView,
    plan: Plan,
    swaps: Seq<Swap>,
    value: u128,
    replies: Seq<Reply>,
)
    requires
        proxy.locked,
    ensures
        started(proxy.locked, plan, swaps) == fail(TradeError::ReentrancyError),
        started_paid(proxy.locked, value, plan, swaps) == fail(TradeError::ReentrancyError),
        call(proxy, fail(TradeError::ReentrancyError), replies) == (
            proxy,
            fail(TradeError::ReentrancyError),
        ),
{
}

/// A router that was just built lets its first trade in, whichever way in is
/// taken: a token-funded one always, one paid in native currency where the
/// value fits the router's amounts.
pub proof fn lemma_first_trade_is_let_in(proxy: ProxyView, plan: Plan, swaps: Seq<Swap>, value: u128)
    requires
        !proxy.locked,
    ensures
        started(proxy.locked, plan, swaps) == StepView::Pending(TradeView::opened(plan, swaps)),
        value <= u32::MAX ==> started_paid(proxy.locked, value, plan, swaps) == StepView::Pending(
            TradeView::opened(plan, swaps),
        ),
        value > u32::MAX ==> started_paid(proxy.locked, value, plan, swaps) == fail(
            TradeError::OverflowError,
        ),
{
}

/// The error that ends a trade when its pending call fails.
pub open spec fn refusal(t: TradeView) -> TradeError {
    match t.phase {
        Phase::Fund | Phase::ChangeBalance | Phase::ChangeUnwrap | Phase::ChangeSend => t.plan.input_error(),
        Phase::Allowance | Phase::Approve => TradeError::AllowanceError,
        Phase::Swap => TradeError::SlippageError,
        _ => t.plan.output_error(),
    }
}

/// A call that fails ends the trade, with the error of the step it belongs
/// to. The one exception is the log: the trade has settled by then, and
/// whatever becomes of the record, the total is returned.
pub proof fn lemma_failed_call_ends_trade(t: TradeView)
    requires
        t.wf(),
    ensures
        !(t.phase is Log) ==> step(t, Reply::Failed) == fail(refusal(t)),
        t.phase is Log ==> step(t, Reply::Failed) == StepView::Finished(Ok(t.total)),
{
}

/// The answer is a pool's allowance, and it is below what the trade took in.
pub open spec fn found_short(t: TradeView, reply: Reply) -> bool {
    t.phase is Allowance && match reply.amount() {
        Some(allowance) => allowance < t.plan.funded,
        None => false,
    }
}

/// The answer is a pool's allowance, and it covers what the trade took in.
pub open spec fn found_sufficient(t: TradeView, reply: Reply) -> bool {
    t.phase is Allowance && match reply.amount() {
        Some(allowance) => allowance >= t.plan.funded,
        None => false,
    }
}

/// The next call is an approval.
pub open spec fn asks_approval(s: StepView) -> bool {
    match s {
        StepView::Pending(next) => pending(next) is Approve,
        StepView::Finished(_) => false,
    }
}

/// The router asks for an approval after exactly one thing: a pool's
/// allowance that was read and found below what the trade took in. A pool
/// whose allowance suffices is never approved again, and no trade starts
/// with an approval.
pub proof fn lemma_approve_only_when_short(t: TradeView, reply: Reply)
    requires
        t.wf(),
    ensures
        asks_approval(step(t, reply)) <==> found_short(t, reply),
        !asks_approval(StepView::Pending(TradeView::opened(t.plan, t.swaps))),
{
}

/// No allowance that was read in the course of `run(t, replies)` was found
/// short.
pub open spec fn allowances_suffice(t: TradeView, replies: Seq<Reply>) -> bool
    decreases replies.len(),
{
    replies.len() == 0 || (!found_short(t, replies[0]) && match step(t, replies[0]) {
        StepView::Pending(next) => allowances_suffice(next, replies.drop_first()),
        StepView::Finished(_) => true,
    })
}

/// Where every pool holds a sufficient allowance already, the whole trade
/// makes no approval at all, however often it is repeated.
pub proof fn lemma_no_approval_where_allowances_suffice(t: TradeView, replies: Seq<Reply>)
    requires
        t.wf(),
        !(t.phase is Approve),
        allowances_suffice(t, replies),
    ensures
        forall|i: int|
            0 <= i < calls(t, replies).len() ==> !(#[trigger] calls(t, replies)[i] is Approve),
    decreases replies.len(),
{
    if replies.len() > 0 {
        let reply = replies[0];
        lemma_step_keeps_wf(t, reply);
        lemma_approve_only_when_short(t, reply);
        match step(t, reply) {
            StepView::Pending(next) => {
                lemma_no_approval_where_allowances_suffice(next, replies.drop_first());
            },
            StepView::Finished(_) => {},
        }
    }
}

/// After an approval that went through, and after an allowance that was
/// found to suffice, the next call is the swap of the same leg.
pub proof fn lemma_swap_follows_allowance(t: TradeView, reply: Reply)
    requires
        t.wf(),
        t.phase is Approve && reply.granted() || found_sufficient(t, reply),
    ensures
        step(t, reply) == StepView::Pending(t.at(Phase::Swap)),
        pending(t.at(Phase::Swap)) is SwapExactAmountIn || pending(t.at(Phase::Swap))
            is SwapExactAmountOut,
{
}

} // verus!
