//! What holds across the instructions: trades move the virtual and the real reserves
//! together, a sell undoes a buy of the same amounts (and the other way round),
//! completion is permanent, and over any run of accepted trades the reserves move by
//! the net amounts traded.
use vstd::prelude::*;
use crate::state::{BondingCurve, BuyParams, Global, GlobalParams, SellParams};
use crate::program::{
    after_buy, after_sell, can_buy, can_sell, configured, drained, init_event, launched,
    sell_allowed,
};

verus! {

/// One accepted trade on a curve.
#[derive(Clone, Copy, Debug, PartialEq, Eq)]
pub enum Trade {
    Buy(BuyParams),
    Sell(SellParams),
}

/// `t` is accepted on `c` and stays within the range of `u64`.
pub open spec fn trade_applies(c: BondingCurve, t: Trade) -> bool {
    match t {
        Trade::Buy(p) => can_buy(c, p),
        Trade::Sell(p) => sell_allowed(c) && can_sell(c, p),
    }
}

/// The curve after the trade `t`.
pub open spec fn after_trade(c: BondingCurve, t: Trade) -> BondingCurve {
    match t {
        Trade::Buy(p) => after_buy(c, p),
        Trade::Sell(p) => after_sell(c, p),
    }
}

/// Every trade of `ts`, taken in order from `c`, is accepted.
pub open spec fn trades_apply(c: BondingCurve, ts: Seq<Trade>) -> bool
    decreases ts.len(),
{
    ts.len() == 0 || (trade_applies(c, ts[0]) && trades_apply(
        after_trade(c, ts[0]),
        ts.drop_first(),
    ))
}

/// The curve after the trades `ts`, taken in order from `c`.
pub open spec fn after_trades(c: BondingCurve, ts: Seq<Trade>) -> BondingCurve
    decreases ts.len(),
{
    if ts.len() == 0 {
        c
    } else {
        after_trades(after_trade(c, ts[0]), ts.drop_first())
    }
}

/// Lamports that the trades `ts` put into the curve, less those they took out.
pub open spec fn net_sol_in(ts: Seq<Trade>) -> int
    decreases ts.len(),
{
    if ts.len() == 0 {
        0
    } else {
        (match ts[0] {
            Trade::Buy(p) => p.sol_in as int,
            Trade::Sell(p) => -(p.sol_out as int),
        }) + net_sol_in(ts.drop_first())
    }
}

/// Tokens that the trades `ts` took out of the curve, less those they put in.
pub open spec fn net_tokens_out(ts: Seq<Trade>) -> int
    decreases ts.len(),
{
    if ts.len() == 0 {
        0
    } else {
        (match ts[0] {
            Trade::Buy(p) => p.token_out as int,
            Trade::Sell(p) => -(p.token_in as int),
        }) + net_tokens_out(ts.drop_first())
    }
}

/// The sell that gives back exactly what the buy `p` took, and takes back what it paid.
pub open spec fn sell_of(p: BuyParams) -> SellParams {
    SellParams { sol_out: p.sol_in, token_in: p.token_out }
}

/// The buy that gives back exactly what the sell `p` took, and takes back what it paid.
pub open spec fn buy_of(p: SellParams) -> BuyParams {
    BuyParams { sol_in: p.sol_out, token_out: p.token_in }
}

/// The four reserves of `a` and `b` are equal.
pub open spec fn same_reserves(a: BondingCurve, b: BondingCurve) -> bool {
    &&& a.virtual_token_reserves == b.virtual_token_reserves
    &&& a.virtual_sol_reserves == b.virtual_sol_reserves
    &&& a.real_token_reserves == b.real_token_reserves
    &&& a.real_sol_reserves == b.real_sol_reserves
}

/// A buy moves the virtual and the real reserves by the same amounts, so the gap
/// between the virtual and the real SOL, and between the virtual and the real
/// tokens, stays as it was; the supply and the target do not change.
pub proof fn buy_keeps_reserve_gaps(c: BondingCurve, p: BuyParams)
    requires
        can_buy(c, p),
    ensures
        after_buy(c, p).virtual_sol_reserves - after_buy(c, p).real_sol_reserves
            == c.virtual_sol_reserves - c.real_sol_reserves,
        after_buy(c, p).virtual_token_reserves - after_buy(c, p).real_token_reserves
            == c.virtual_token_reserves - c.real_token_reserves,
        after_buy(c, p).total_token_supply == c.total_token_supply,
        after_buy(c, p).target == c.target,
{
}

/// A sell moves the virtual and the real reserves by the same amounts, so the gap
/// between the virtual and the real SOL, and between the virtual and the real
/// tokens, stays as it was; the supply and the target do not change.
pub proof fn sell_keeps_reserve_gaps(c: BondingCurve, p: SellParams)
    requires
        can_sell(c, p),
    ensures
        after_sell(c, p).virtual_sol_reserves - after_sell(c, p).real_sol_reserves
            == c.virtual_sol_reserves - c.real_sol_reserves,
        after_sell(c, p).virtual_token_reserves - after_sell(c, p).real_token_reserves
            == c.virtual_token_reserves - c.real_token_reserves,
        after_sell(c, p).total_token_supply == c.total_token_supply,
        after_sell(c, p).target == c.target,
{
}

/// Selling back what a buy took, for what it paid, is accepted whenever the curve
/// then holds enough real SOL, and restores every reserve; the curve stays complete
/// exactly when the buy completed it.
pub proof fn sell_undoes_buy(c: BondingCurve, p: BuyParams)
    requires
        can_buy(c, p),
        sell_allowed(after_buy(c, p)),
    ensures
        can_sell(after_buy(c, p), sell_of(p)),
        same_reserves(after_sell(after_buy(c, p), sell_of(p)), c),
        after_sell(after_buy(c, p), sell_of(p)).complete == after_buy(c, p).complete,
        after_sell(after_buy(c, p), sell_of(p)).total_token_supply == c.total_token_supply,
        after_sell(after_buy(c, p), sell_of(p)).target == c.target,
{
}

/// Buying back what a sell took, for what it paid, is accepted and restores every
/// reserve; the curve is then complete when the sell left it complete or when its
/// real SOL before the sell had already reached the target.
pub proof fn buy_undoes_sell(c: BondingCurve, p: SellParams)
    requires
        sell_allowed(c),
        can_sell(c, p),
    ensures
        can_buy(after_sell(c, p), buy_of(p)),
        same_reserves(after_buy(after_sell(c, p), buy_of(p)), c),
        after_buy(after_sell(c, p), buy_of(p)).complete == (after_sell(c, p).complete
            || c.real_sol_reserves >= c.target),
        after_buy(after_sell(c, p), buy_of(p)).total_token_supply == c.total_token_supply,
        after_buy(after_sell(c, p), buy_of(p)).target == c.target,
{
}

/// Trades and withdrawal never clear a curve's completion: a complete curve stays
/// complete after any buy, any sell and a withdrawal.
pub proof fn completion_is_permanent(c: BondingCurve, b: BuyParams, s: SellParams)
    requires
        c.complete,
    ensures
        after_buy(c, b).complete,
        after_sell(c, s).complete,
        drained(c).complete,
{
}

/// `set` leaves the initialized flag as it found it, so once initialized the global
/// account accepts every later `set`.
pub proof fn configuring_keeps_initialization(g: Global, p: GlobalParams)
    ensures
        configured(g, p).initialized == g.initialized,
{
}

/// Over any run of accepted trades, the real and the virtual SOL reserves grow by
/// the net lamports traded in, the real and the virtual token reserves shrink by the
/// net tokens traded out, the supply and the target stay, and a complete curve stays
/// complete.
pub proof fn trades_move_reserves_by_net_amounts(c: BondingCurve, ts: Seq<Trade>)
    requires
        trades_apply(c, ts),
    ensures
        after_trades(c, ts).real_sol_reserves == c.real_sol_reserves + net_sol_in(ts),
        after_trades(c, ts).virtual_sol_reserves == c.virtual_sol_reserves + net_sol_in(ts),
        after_trades(c, ts).real_token_reserves == c.real_token_reserves - net_tokens_out(ts),
        after_trades(c, ts).virtual_token_reserves == c.virtual_token_reserves - net_tokens_out(
            ts,
        ),
        after_trades(c, ts).total_token_supply == c.total_token_supply,
        after_trades(c, ts).target == c.target,
        c.complete ==> after_trades(c, ts).complete,
    decreases ts.len(),
{
    if ts.len() > 0 {
        trades_move_reserves_by_net_amounts(after_trade(c, ts[0]), ts.drop_first());
    }
}

/// A curve launched by `create` and then traded on holds, when it is withdrawn, exactly
/// the net lamports traded in as real SOL, and the tokens minted into it at launch
/// less the net tokens traded out as real tokens: what `withdraw` pays out.
pub proof fn launched_curve_holds_net_trades(g: Global, target: u64, ts: Seq<Trade>)
    requires
        trades_apply(launched(g, target), ts),
    ensures
        after_trades(launched(g, target), ts).real_sol_reserves == net_sol_in(ts),
        after_trades(launched(g, target), ts).real_token_reserves
            == g.initial_real_token_reserves - net_tokens_out(ts),
{
    trades_move_reserves_by_net_amounts(launched(g, target), ts);
}

/// A buy adds the lamports paid to both SOL reserves and takes the tokens bought from
/// both token reserves; the curve is complete afterwards exactly when it was complete
/// before or its real SOL now reaches the target (reaching it by more also counts).
pub proof fn buy_adds_sol_and_completes_at_target(c: BondingCurve, p: BuyParams)
    requires
        can_buy(c, p),
    ensures
        after_buy(c, p).virtual_sol_reserves == c.virtual_sol_reserves + p.sol_in,
        after_buy(c, p).real_sol_reserves == c.real_sol_reserves + p.sol_in,
        after_buy(c, p).virtual_token_reserves == c.virtual_token_reserves - p.token_out,
        after_buy(c, p).real_token_reserves == c.real_token_reserves - p.token_out,
        after_buy(c, p).complete <==> (c.complete || c.real_sol_reserves + p.sol_in >= c.target),
        c.real_sol_reserves + p.sol_in >= c.target ==> after_buy(c, p).complete,
{
}

/// A sell takes the lamports paid out from both SOL reserves and adds the tokens sold
/// to both token reserves; the curve is complete afterwards exactly when it was
/// complete before or its real SOL still reaches the target.
pub proof fn sell_takes_sol_and_completes_at_target(c: BondingCurve, p: SellParams)
    requires
        can_sell(c, p),
    ensures
        after_sell(c, p).virtual_sol_reserves == c.virtual_sol_reserves - p.sol_out,
        after_sell(c, p).real_sol_reserves == c.real_sol_reserves - p.sol_out,
        after_sell(c, p).virtual_token_reserves == c.virtual_token_reserves + p.token_in,
        after_sell(c, p).real_token_reserves == c.real_token_reserves + p.token_in,
        after_sell(c, p).complete <==> (c.complete || c.real_sol_reserves - p.sol_out
            >= c.target),
{
}

/// A sell is accepted exactly when the curve holds more than 70 lamports of real SOL,
/// whatever else the curve holds.
pub proof fn sell_accepted_above_seventy_lamports(c: BondingCurve)
    ensures
        sell_allowed(c) <==> c.real_sol_reserves > 70,
{
}

/// A newly launched curve holds no real SOL, is open for trading (not complete),
/// takes its reserves and supply from the global configuration and its target from
/// the launch, whatever those values are.
pub proof fn launched_curve_is_open(g: Global, target: u64)
    ensures
        !launched(g, target).complete,
        launched(g, target).real_sol_reserves == 0,
        launched(g, target).virtual_sol_reserves == g.initial_virtual_sol_reserves,
        launched(g, target).virtual_token_reserves == g.initial_virtual_token_reserves,
        launched(g, target).real_token_reserves == g.initial_real_token_reserves,
        launched(g, target).total_token_supply == g.total_token_supply,
        launched(g, target).target == target,
{
}

/// `set` stores every parameter as given, whatever the account held before, and the
/// event it emits reports the same values.
pub proof fn configuring_stores_every_parameter(g: Global, p: GlobalParams)
    ensures
        configured(g, p).authority == p.authority,
        configured(g, p).fee_recipient == p.fee_recipient,
        configured(g, p).initial_virtual_token_reserves == p.initial_virtual_token_reserves,
        configured(g, p).initial_virtual_sol_reserves == p.initial_virtual_sol_reserves,
        configured(g, p).initial_real_token_reserves == p.initial_real_token_reserves,
        configured(g, p).total_token_supply == p.total_token_supply,
        configured(g, p).fee_basis_points == p.fee_basis_points,
        init_event(p).fee_recipient == configured(g, p).fee_recipient,
        init_event(p).initial_virtual_token_reserves == configured(
            g,
            p,
        ).initial_virtual_token_reserves,
        init_event(p).initial_virtual_sol_reserves == configured(g, p).initial_virtual_sol_reserves,
        init_event(p).initial_real_token_reserves == configured(g, p).initial_real_token_reserves,
        init_event(p).total_token_supply == configured(g, p).total_token_supply,
        init_event(p).fee_basis_points == configured(g, p).fee_basis_points,
{
}

/// A withdrawn curve holds nothing: all four reserves are zero, so a second
/// withdrawal pays out nothing; its supply, target and completion stay.
pub proof fn withdrawn_curve_is_empty(c: BondingCurve)
    ensures
        drained(c).virtual_token_reserves == 0,
        drained(c).virtual_sol_reserves == 0,
        drained(c).real_token_reserves == 0,
        drained(c).real_sol_reserves == 0,
        drained(drained(c)) == drained(c),
        drained(c).total_token_supply == c.total_token_supply,
        drained(c).target == c.target,
        drained(c).complete == c.complete,
{
}

} // verus!
