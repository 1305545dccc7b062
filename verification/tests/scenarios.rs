use std::collections::HashMap;

use exchangeproxy::call::{Action, Reply, UNLIMITED_ALLOWANCE};
use exchangeproxy::proxy::Exchangeproxy;
use exchangeproxy::trade::Step;
use exchangeproxy::types::{AccountId, Invocation, Swap, TradeError, LOGCALL};

const ALICE: AccountId = AccountId([0xa1; 32]);
const ROUTER: AccountId = AccountId([0x10; 32]);
const WETH: AccountId = AccountId([0xee; 32]);
const DAI: AccountId = AccountId([0xd0; 32]);
const MKR: AccountId = AccountId([0xd1; 32]);
const POOL_ONE: AccountId = AccountId([0x01; 32]);
const POOL_TWO: AccountId = AccountId([0x02; 32]);

/// Token balances, allowances and native balances, with pools that report
/// what they are told to report.
#[derive(Clone)]
struct Ledger {
    tokens: HashMap<(AccountId, AccountId), u32>,
    allowances: HashMap<(AccountId, AccountId, AccountId), u32>,
    native: HashMap<AccountId, u32>,
    quotes: HashMap<AccountId, Vec<u32>>,
    log: Vec<LOGCALL>,
    refuse_native: bool,
    refuse_approve: bool,
}

impl Ledger {
    fn new() -> Ledger {
        Ledger {
            tokens: HashMap::new(),
            allowances: HashMap::new(),
            native: HashMap::new(),
            quotes: HashMap::new(),
            log: Vec::new(),
            refuse_native: false,
            refuse_approve: false,
        }
    }

    fn balance(&self, token: AccountId, who: AccountId) -> u32 {
        *self.tokens.get(&(token, who)).unwrap_or(&0)
    }

    fn allowance(&self, token: AccountId, owner: AccountId, spender: AccountId) -> u32 {
        *self.allowances.get(&(token, owner, spender)).unwrap_or(&0)
    }

    fn coins(&self, who: AccountId) -> u32 {
        *self.native.get(&who).unwrap_or(&0)
    }

    fn mint(&mut self, token: AccountId, who: AccountId, amount: u32) {
        self.tokens.insert((token, who), self.balance(token, who) + amount);
    }

    fn fund(&mut self, who: AccountId, amount: u32) {
        self.native.insert(who, self.coins(who) + amount);
    }

    fn quote(&mut self, pool: AccountId, amount: u32) {
        self.quotes.entry(pool).or_default().push(amount);
    }

    fn push(&mut self, token: AccountId, from: AccountId, to: AccountId, amount: u32) -> bool {
        let have = self.balance(token, from);
        if have < amount {
            return false;
        }
        self.tokens.insert((token, from), have - amount);
        let gets = self.balance(token, to);
        self.tokens.insert((token, to), gets + amount);
        true
    }

    fn pull(
        &mut self,
        token: AccountId,
        owner: AccountId,
        spender: AccountId,
        to: AccountId,
        amount: u32,
    ) -> bool {
        let allowed = self.allowance(token, owner, spender);
        if allowed < amount || self.balance(token, owner) < amount {
            return false;
        }
        if allowed != UNLIMITED_ALLOWANCE {
            self.allowances.insert((token, owner, spender), allowed - amount);
        }
        self.push(token, owner, to, amount)
    }

    fn pay(&mut self, from: AccountId, to: AccountId, amount: u32) -> bool {
        let have = self.coins(from);
        if have < amount {
            return false;
        }
        self.native.insert(from, have - amount);
        let gets = self.coins(to);
        self.native.insert(to, gets + amount);
        true
    }

    fn next_quote(&mut self, pool: AccountId) -> Option<u32> {
        let queue = self.quotes.get_mut(&pool)?;
        if queue.is_empty() {
            None
        } else {
            Some(queue.remove(0))
        }
    }

    /// Makes the call on behalf of the router.
    fn perform(&mut self, action: Action) -> Reply {
        match action {
            Action::TransferFrom { token, from, to, amount } => {
                Reply::Flag(self.pull(token, from, ROUTER, to, amount))
            }
            Action::Transfer { token, to, amount } => Reply::Flag(self.push(token, ROUTER, to, amount)),
            Action::BalanceOf { token, account } => Reply::Amount(self.balance(token, account)),
            Action::Allowance { token, owner, spender } => {
                Reply::Amount(self.allowance(token, owner, spender))
            }
            Action::Approve { token, spender, amount } => {
                if self.refuse_approve {
                    return Reply::Flag(false);
                }
                self.allowances.insert((token, ROUTER, spender), amount);
                Reply::Flag(true)
            }
            Action::Deposit { token, amount } => {
                if self.refuse_native || !self.pay(ROUTER, token, amount) {
                    return Reply::Failed;
                }
                self.mint(token, ROUTER, amount);
                Reply::Done
            }
            Action::Withdraw { token, amount } => {
                let have = self.balance(token, ROUTER);
                if have < amount || !self.pay(token, ROUTER, amount) {
                    return Reply::Failed;
                }
                self.tokens.insert((token, ROUTER), have - amount);
                Reply::Done
            }
            Action::SwapExactAmountIn { pool, token_in, amount_in, token_out, min_amount_out, .. } => {
                let out = match self.next_quote(pool) {
                    Some(out) => out,
                    None => return Reply::Failed,
                };
                if out < min_amount_out
                    || !self.pull(token_in, ROUTER, pool, pool, amount_in)
                    || !self.push(token_out, pool, ROUTER, out)
                {
                    return Reply::Failed;
                }
                Reply::Amount(out)
            }
            Action::SwapExactAmountOut { pool, token_in, max_amount_in, token_out, amount_out, .. } => {
                let spent = match self.next_quote(pool) {
                    Some(spent) => spent,
                    None => return Reply::Failed,
                };
                if spent > max_amount_in
                    || !self.pull(token_in, ROUTER, pool, pool, spent)
                    || !self.push(token_out, pool, ROUTER, amount_out)
                {
                    return Reply::Failed;
                }
                Reply::Amount(spent)
            }
            Action::SendNative { to, amount } => {
                Reply::Flag(!self.refuse_native && self.pay(ROUTER, to, amount))
            }
            Action::Emit { record } => {
                self.log.push(record);
                Reply::Done
            }
        }
    }
}

/// What a host does with a call: it credits the value sent, lets the router
/// make its calls one by one, and undoes everything when the trade fails.
struct Host {
    ledger: Ledger,
    calls: Vec<Action>,
}

impl Host {
    fn new(ledger: Ledger) -> Host {
        Host { ledger, calls: Vec::new() }
    }

    fn invocation(&self, value: u32) -> Invocation {
        Invocation {
            caller: ALICE,
            callee: ROUTER,
            value: u128::from(value),
            sig: [0x8a, 0x5c, 0x1e, 0x2b],
            data: [0x77; 32],
        }
    }

    fn dispatch(
        &mut self,
        proxy: &mut Exchangeproxy,
        value: u32,
        enter: impl FnOnce(&mut Exchangeproxy, Invocation) -> Step,
    ) -> Result<u32, TradeError> {
        let before = self.ledger.clone();
        assert!(self.ledger.pay(ALICE, ROUTER, value));
        let mut step = enter(proxy, self.invocation(value));
        loop {
            match step {
                Step::Finished(result) => {
                    if result.is_err() {
                        self.ledger = before;
                    }
                    return result;
                }
                Step::Pending(trade) => {
                    let action = trade.pending();
                    self.calls.push(action);
                    let reply = self.ledger.perform(action);
                    step = proxy.resume(trade, reply);
                }
            }
        }
    }

    fn approvals(&self) -> usize {
        self.calls.iter().filter(|call| matches!(call, Action::Approve { .. })).count()
    }
}

fn leg(pool: AccountId, token_in_param: u32, token_out_param: u32) -> Swap {
    Swap { pool, tokenInParam: token_in_param, tokenOutParam: token_out_param, maxPrice: 1_000 }
}

/// Alice holds 1000 DAI and has approved the router for all of it; both
/// pools hold plenty of every token.
fn market() -> Ledger {
    let mut ledger = Ledger::new();
    ledger.mint(DAI, ALICE, 1_000);
    ledger.allowances.insert((DAI, ALICE, ROUTER), 1_000);
    for pool in [POOL_ONE, POOL_TWO] {
        for token in [DAI, MKR, WETH] {
            ledger.mint(token, pool, 1_000_000);
        }
    }
    ledger.fund(WETH, 1_000_000);
    ledger
}

#[test]
fn one_leg_exact_in_above_the_floor() {
    let mut host = Host::new(market());
    host.ledger.quote(POOL_ONE, 95);
    let mut proxy = Exchangeproxy::new(false, WETH);
    let result = host.dispatch(&mut proxy, 0, |proxy, call| {
        proxy.batchSwapExactIn(call, vec![leg(POOL_ONE, 100, 0)], DAI, MKR, 100, 90)
    });
    assert_eq!(result, Ok(95));
    assert_eq!(host.ledger.balance(DAI, ALICE), 900);
    assert_eq!(host.ledger.balance(MKR, ALICE), 95);
    assert_eq!(host.ledger.balance(DAI, ROUTER), 0);
    assert_eq!(host.ledger.balance(MKR, ROUTER), 0);
    assert_eq!(
        host.ledger.log,
        vec![LOGCALL { sig: [0x8a, 0x5c, 0x1e, 0x2b], caller: Some(ALICE), data: [0x77; 32] }]
    );
    assert!(!proxy.get());
}

#[test]
fn one_leg_exact_in_below_the_floor() {
    let mut host = Host::new(market());
    host.ledger.quote(POOL_ONE, 95);
    let mut proxy = Exchangeproxy::new(false, WETH);
    let result = host.dispatch(&mut proxy, 0, |proxy, call| {
        proxy.batchSwapExactIn(call, vec![leg(POOL_ONE, 100, 0)], DAI, MKR, 100, 100)
    });
    assert_eq!(result, Err(TradeError::SlippageError));
    assert_eq!(host.ledger.balance(DAI, ALICE), 1_000);
    assert_eq!(host.ledger.balance(MKR, ALICE), 0);
    assert_eq!(host.ledger.balance(DAI, POOL_ONE), 1_000_000);
    assert_eq!(host.ledger.balance(MKR, POOL_ONE), 1_000_000);
    assert_eq!(host.ledger.balance(DAI, ROUTER), 0);
    assert_eq!(host.ledger.balance(MKR, ROUTER), 0);
    assert!(host.ledger.log.is_empty());
    assert!(host.calls.iter().all(|call| !matches!(call, Action::Transfer { .. })));
    assert!(!proxy.get());
}

#[test]
fn native_in_single_leg_that_converts_everything() {
    let mut host = Host::new(market());
    host.ledger.fund(ALICE, 500);
    host.ledger.quote(POOL_ONE, 420);
    let mut proxy = Exchangeproxy::new(false, WETH);
    let result = host.dispatch(&mut proxy, 500, |proxy, call| {
        proxy.batchEthInSwapExactIn(call, vec![leg(POOL_ONE, 500, 400)], MKR, 400)
    });
    assert_eq!(result, Ok(420));
    assert_eq!(host.ledger.balance(WETH, ROUTER), 0);
    assert_eq!(host.ledger.coins(ROUTER), 0);
    assert_eq!(host.ledger.balance(MKR, ROUTER), 0);
    assert_eq!(host.ledger.balance(MKR, ALICE), 420);
    assert_eq!(host.ledger.coins(ALICE), 0);
    assert!(host.calls.iter().all(|call| !matches!(call, Action::Withdraw { .. })));
    assert!(!proxy.get());
}

#[test]
fn native_in_gives_back_what_the_legs_did_not_take() {
    let mut host = Host::new(market());
    host.ledger.fund(ALICE, 500);
    host.ledger.quote(POOL_ONE, 300);
    let mut proxy = Exchangeproxy::new(false, WETH);
    let result = host.dispatch(&mut proxy, 500, |proxy, call| {
        proxy.batchEthInSwapExactIn(call, vec![leg(POOL_ONE, 350, 0)], MKR, 300)
    });
    assert_eq!(result, Ok(300));
    assert_eq!(host.ledger.balance(WETH, ROUTER), 0);
    assert_eq!(host.ledger.coins(ROUTER), 0);
    assert_eq!(host.ledger.coins(ALICE), 150);
    assert_eq!(host.ledger.balance(MKR, ALICE), 300);
}

#[test]
fn native_in_exact_out_spends_what_the_pools_ask() {
    let mut host = Host::new(market());
    host.ledger.fund(ALICE, 500);
    host.ledger.quote(POOL_ONE, 120);
    host.ledger.quote(POOL_TWO, 200);
    let mut proxy = Exchangeproxy::new(false, WETH);
    let result = host.dispatch(&mut proxy, 500, |proxy, call| {
        proxy.batchEthInSwapExactOut(call, vec![leg(POOL_ONE, 250, 40), leg(POOL_TWO, 250, 60)], MKR)
    });
    assert_eq!(result, Ok(320));
    assert_eq!(host.ledger.balance(MKR, ALICE), 100);
    assert_eq!(host.ledger.coins(ALICE), 180);
    assert_eq!(host.ledger.balance(WETH, ROUTER), 0);
    assert_eq!(host.ledger.coins(ROUTER), 0);
}

#[test]
fn native_out_forwards_the_unwrapped_output_and_the_change() {
    let mut host = Host::new(market());
    host.ledger.quote(POOL_ONE, 70);
    let mut proxy = Exchangeproxy::new(false, WETH);
    let result = host.dispatch(&mut proxy, 0, |proxy, call| {
        proxy.batchEthOutSwapExactIn(call, vec![leg(POOL_ONE, 80, 60)], DAI, 100, 60)
    });
    assert_eq!(result, Ok(70));
    assert_eq!(host.ledger.coins(ALICE), 70);
    assert_eq!(host.ledger.balance(DAI, ALICE), 920);
    assert_eq!(host.ledger.balance(WETH, ROUTER), 0);
    assert_eq!(host.ledger.balance(DAI, ROUTER), 0);
    assert_eq!(host.ledger.coins(ROUTER), 0);
}

#[test]
fn native_out_exact_out_refunds_the_unspent_input() {
    let mut host = Host::new(market());
    host.ledger.quote(POOL_ONE, 45);
    let mut proxy = Exchangeproxy::new(false, WETH);
    let result = host.dispatch(&mut proxy, 0, |proxy, call| {
        proxy.batchEthOutSwapExactOut(call, vec![leg(POOL_ONE, 50, 30)], DAI, 50)
    });
    assert_eq!(result, Ok(45));
    assert_eq!(host.ledger.coins(ALICE), 30);
    assert_eq!(host.ledger.balance(DAI, ALICE), 955);
    assert_eq!(host.ledger.balance(DAI, ROUTER), 0);
    assert_eq!(host.ledger.balance(WETH, ROUTER), 0);
}

#[test]
fn exact_out_refunds_the_unspent_input() {
    let mut host = Host::new(market());
    host.ledger.quote(POOL_ONE, 25);
    host.ledger.quote(POOL_TWO, 35);
    let mut proxy = Exchangeproxy::new(false, WETH);
    let result = host.dispatch(&mut proxy, 0, |proxy, call| {
        proxy.batchSwapExactOut(call, vec![leg(POOL_ONE, 50, 10), leg(POOL_TWO, 50, 20)], DAI, MKR, 100)
    });
    assert_eq!(result, Ok(60));
    assert_eq!(host.ledger.balance(DAI, ALICE), 940);
    assert_eq!(host.ledger.balance(MKR, ALICE), 30);
    assert_eq!(host.ledger.balance(DAI, ROUTER), 0);
    assert_eq!(host.ledger.balance(MKR, ROUTER), 0);
}

#[test]
fn exact_out_above_the_ceiling_changes_nothing() {
    let mut host = Host::new(market());
    host.ledger.quote(POOL_ONE, 50);
    host.ledger.quote(POOL_TWO, 50);
    let mut proxy = Exchangeproxy::new(false, WETH);
    let result = host.dispatch(&mut proxy, 0, |proxy, call| {
        proxy.batchSwapExactOut(call, vec![leg(POOL_ONE, 50, 10), leg(POOL_TWO, 50, 20)], DAI, MKR, 99)
    });
    assert_eq!(result, Err(TradeError::SlippageError));
    assert_eq!(host.ledger.balance(DAI, ALICE), 1_000);
    assert_eq!(host.ledger.balance(MKR, ALICE), 0);
    assert!(host.ledger.log.is_empty());
    assert!(!proxy.get());
}

#[test]
fn pool_with_sufficient_allowance_is_not_approved_again() {
    let mut host = Host::new(market());
    host.ledger.quote(POOL_ONE, 95);
    host.ledger.quote(POOL_ONE, 96);
    let mut proxy = Exchangeproxy::new(false, WETH);

    let first = host.dispatch(&mut proxy, 0, |proxy, call| {
        proxy.batchSwapExactIn(call, vec![leg(POOL_ONE, 100, 0)], DAI, MKR, 100, 90)
    });
    assert_eq!(first, Ok(95));
    assert_eq!(host.approvals(), 1);
    assert_eq!(host.ledger.allowance(DAI, ROUTER, POOL_ONE), UNLIMITED_ALLOWANCE);

    let second = host.dispatch(&mut proxy, 0, |proxy, call| {
        proxy.batchSwapExactIn(call, vec![leg(POOL_ONE, 100, 0)], DAI, MKR, 100, 90)
    });
    assert_eq!(second, Ok(96));
    assert_eq!(host.approvals(), 1);
    assert_eq!(host.ledger.balance(MKR, ALICE), 191);
    assert_eq!(host.ledger.balance(DAI, ALICE), 800);
}

#[test]
fn pool_that_starts_with_enough_allowance_is_never_approved() {
    let mut host = Host::new(market());
    host.ledger.allowances.insert((DAI, ROUTER, POOL_ONE), 200);
    host.ledger.quote(POOL_ONE, 95);
    host.ledger.quote(POOL_ONE, 95);
    let mut proxy = Exchangeproxy::new(false, WETH);
    for _ in 0..2 {
        let result = host.dispatch(&mut proxy, 0, |proxy, call| {
            proxy.batchSwapExactIn(call, vec![leg(POOL_ONE, 100, 0)], DAI, MKR, 100, 90)
        });
        assert_eq!(result, Ok(95));
    }
    assert_eq!(host.approvals(), 0);
    assert_eq!(host.ledger.allowance(DAI, ROUTER, POOL_ONE), 0);
}

#[test]
fn pull_without_approval_is_a_transfer_error() {
    let mut host = Host::new(market());
    host.ledger.allowances.insert((DAI, ALICE, ROUTER), 99);
    host.ledger.quote(POOL_ONE, 95);
    let mut proxy = Exchangeproxy::new(false, WETH);
    let result = host.dispatch(&mut proxy, 0, |proxy, call| {
        proxy.batchSwapExactIn(call, vec![leg(POOL_ONE, 100, 0)], DAI, MKR, 100, 90)
    });
    assert_eq!(result, Err(TradeError::TransferError));
    assert_eq!(host.calls.len(), 1);
    assert_eq!(host.ledger.balance(DAI, ALICE), 1_000);
    assert!(!proxy.get());
}

#[test]
fn refused_approval_is_an_allowance_error() {
    let mut host = Host::new(market());
    host.ledger.refuse_approve = true;
    host.ledger.quote(POOL_ONE, 95);
    let mut proxy = Exchangeproxy::new(false, WETH);
    let result = host.dispatch(&mut proxy, 0, |proxy, call| {
        proxy.batchSwapExactIn(call, vec![leg(POOL_ONE, 100, 0)], DAI, MKR, 100, 90)
    });
    assert_eq!(result, Err(TradeError::AllowanceError));
    assert_eq!(host.ledger.balance(DAI, ALICE), 1_000);
    assert!(host.calls.iter().all(|call| !matches!(call, Action::SwapExactAmountIn { .. })));
    assert!(!proxy.get());
}

#[test]
fn refused_forward_is_a_native_transfer_error() {
    let mut host = Host::new(market());
    host.ledger.quote(POOL_ONE, 70);
    let mut proxy = Exchangeproxy::new(false, WETH);
    let snapshot = host.ledger.clone();
    host.ledger.refuse_native = true;
    let result = host.dispatch(&mut proxy, 0, |proxy, call| {
        proxy.batchEthOutSwapExactIn(call, vec![leg(POOL_ONE, 80, 60)], DAI, 100, 60)
    });
    assert_eq!(result, Err(TradeError::NativeTransferError));
    assert_eq!(host.ledger.tokens, snapshot.tokens);
    assert_eq!(host.ledger.native, snapshot.native);
    assert!(host.ledger.log.is_empty());
    assert!(!proxy.get());
}

#[test]
fn pool_that_misses_the_leg_floor_ends_the_trade() {
    let mut host = Host::new(market());
    host.ledger.quote(POOL_ONE, 59);
    let mut proxy = Exchangeproxy::new(false, WETH);
    let result = host.dispatch(&mut proxy, 0, |proxy, call| {
        proxy.batchSwapExactIn(call, vec![leg(POOL_ONE, 100, 60)], DAI, MKR, 100, 0)
    });
    assert_eq!(result, Err(TradeError::SlippageError));
    assert_eq!(host.ledger.balance(DAI, ALICE), 1_000);
    assert!(!proxy.get());
}

#[test]
fn reentry_during_a_trade_fails_and_moves_nothing() {
    let mut ledger = market();
    ledger.quote(POOL_ONE, 95);
    let mut proxy = Exchangeproxy::new(false, WETH);
    let call = Invocation { caller: ALICE, callee: ROUTER, value: 0, sig: [0; 4], data: [0; 32] };

    let outer = proxy.batchSwapExactIn(call, vec![leg(POOL_ONE, 100, 0)], DAI, MKR, 100, 90);
    let trade = match outer {
        Step::Pending(trade) => trade,
        Step::Finished(_) => panic!("a free router must open the trade"),
    };
    let reply = ledger.perform(trade.pending());
    let outer = proxy.resume(trade, reply);
    let held = ledger.clone();

    let nested = proxy.batchSwapExactIn(call, vec![leg(POOL_ONE, 100, 0)], DAI, MKR, 100, 90);
    assert!(matches!(nested, Step::Finished(Err(TradeError::ReentrancyError))));
    assert_eq!(ledger.tokens, held.tokens);
    assert_eq!(ledger.allowances, held.allowances);
    assert_eq!(ledger.native, held.native);
    assert!(proxy.get());

    let mut step = outer;
    let result = loop {
        match step {
            Step::Finished(result) => break result,
            Step::Pending(trade) => {
                let reply = ledger.perform(trade.pending());
                step = proxy.resume(trade, reply);
            }
        }
    };
    assert_eq!(result, Ok(95));
    assert_eq!(ledger.balance(MKR, ALICE), 95);
    assert!(!proxy.get());
}

#[test]
fn guard_is_free_between_trades_whatever_happened() {
    let mut host = Host::new(market());
    host.ledger.quote(POOL_ONE, 10);
    let mut proxy = Exchangeproxy::new(false, WETH);
    assert!(!proxy.get());
    let failed = host.dispatch(&mut proxy, 0, |proxy, call| {
        proxy.batchSwapExactIn(call, vec![leg(POOL_ONE, 100, 0)], DAI, MKR, 100, 90)
    });
    assert_eq!(failed, Err(TradeError::SlippageError));
    assert!(!proxy.get());
    host.ledger.quotes.insert(POOL_ONE, vec![95]);
    let settled = host.dispatch(&mut proxy, 0, |proxy, call| {
        proxy.batchSwapExactIn(call, vec![leg(POOL_ONE, 100, 0)], DAI, MKR, 100, 90)
    });
    assert_eq!(settled, Ok(95));
    assert!(!proxy.get());
}
