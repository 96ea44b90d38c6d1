//! What holds of the library as a whole.

use vstd::prelude::*;

use crate::account::{AccountHandle, PageSource};
use crate::client::{ClientModel, LighterClient};
use crate::errors::Error;
use crate::options::OptionsModel;
use crate::order_model::{
    OrderKind, OrderModel, OrderSide, OrderTimeInForce, SignCall, SlippageStrategy, SubmitCall,
};
use crate::params::{HistoryQuery, InactiveOrdersQuery, TradesQuery};
use crate::rest::{Endpoint, RestCall};
use crate::run::{BracketModel, BracketStep, OrderMode, RunModel, RunStep};
use crate::submission::Submission;
use crate::types::{AccountId, ApiKeyIndex, Price, SignerModel, WsModel};

verus! {

/// The other side of the other side is the side itself, and never the same as it.
pub proof fn opposite_undoes_itself(side: OrderSide)
    ensures
        side.flipped().flipped() == side,
        side.flipped() != side,
{
}

/// Signing and submitting an order come to the same: the signer is asked for the same order, and
/// what has one refused has the other refused. The one exception is an order that is to be sent
/// only if it does not slip, which can be submitted and not signed.
pub proof fn signing_agrees_with_submitting(order: OrderModel, id: i64)
    ensures
        order.sign_plan(id) == (match order.submit_plan(id) {
            Ok(SubmitCall::CreateOrder(params)) => Ok(SignCall::SignCreateOrder(params)),
            Ok(SubmitCall::CreateMarketOrderLimitedSlippage(params)) => Ok(
                SignCall::SignMarketOrderLimitedSlippage(params),
            ),
            Ok(SubmitCall::CreateMarketOrderIfSlippage(_)) => Err(
                Error::InvalidConfig {
                    field: "slippage",
                    why: "slippage check is unavailable when signing orders",
                },
            ),
            Err(error) => Err(error),
        }),
{
}

/// A sound order of a client without a signer is answered that the client is not authenticated,
/// whatever its prices are, and no order of such a client reaches the signer.
pub proof fn nothing_is_signed_without_a_signer(order: OrderModel, id: i64)
    requires
        order.client.signer is None,
    ensures
        order.submit_plan(id) is Err,
        order.sign_plan(id) is Err,
        order.defect() is None ==> {
            &&& order.submit_plan(id) == Err::<SubmitCall, _>(Error::NotAuthenticated)
            &&& order.sign_plan(id) == Err::<SignCall, _>(Error::NotAuthenticated)
        },
{
}

/// A complete order is unsound for one of two reasons: it is post-only and executes at the market
/// price, or it has a slippage guard set aside and is no market order.
pub proof fn what_a_complete_order_can_lack(order: OrderModel)
    requires
        order.side is Some,
        order.qty is Some,
        order.kind is Some,
    ensures
        order.defect() is Some <==> {
            ||| order.tif == Some(OrderTimeInForce::PostOnly) && order.kind->0.at_market()
            ||| order.slippage is Some && !(order.kind->0 is Market)
        },
{
}

/// An order that names no time in force is immediate-or-cancel exactly where it executes at the
/// market price, so that it is never post-only by default.
pub proof fn default_time_in_force_suits_the_type(order: OrderModel)
    requires
        order.tif is None,
        order.kind is Some,
    ensures
        order.time_in_force() is ImmediateOrCancel <==> order.kind->0.at_market(),
        order.time_in_force() is GoodTillTime <==> !order.kind->0.at_market(),
{
}

/// It makes no difference whether a slippage guard is set before an order is made a market order
/// or after.
pub proof fn slippage_guard_may_come_first(order: OrderModel, strategy: SlippageStrategy)
    requires
        order.kind is None,
    ensures
        order.with_slippage_strategy(strategy).as_market() == order.as_market()
            .with_slippage_strategy(strategy),
{
}

/// It makes no difference whether an average price is set before an order is made a market order
/// or after.
pub proof fn average_price_may_come_first(order: OrderModel, price: Price)
    requires
        order.kind is None,
    ensures
        order.with_avg_execution_price(price).as_market() == order.as_market()
            .with_avg_execution_price(price),
{
}

/// Limit orders and stop losses at the market price are made as though no slippage guard and no
/// average price had ever been set.
pub proof fn market_settings_are_forgotten(
    order: OrderModel,
    strategy: SlippageStrategy,
    price: Price,
)
    requires
        order.kind is None,
    ensures
        order.with_slippage_strategy(strategy).without_market_settings()
            == order.without_market_settings(),
        order.with_avg_execution_price(price).without_market_settings()
            == order.without_market_settings(),
{
}

/// A slippage guard that stays set on an order that is no market order has it refused, unless it
/// is refused already for being post-only.
pub proof fn leftover_slippage_guard_is_refused(
    order: OrderModel,
    strategy: SlippageStrategy,
    kind: OrderKind,
)
    requires
        order.kind is None,
        order.side is Some,
        order.qty is Some,
        !(kind is Market),
        !(order.tif == Some(OrderTimeInForce::PostOnly) && kind.at_market()),
    ensures
        order.with_slippage_strategy(strategy).with_kind(kind).defect() == Some(
            Error::InvalidConfig {
                field: "slippage",
                why: "slippage controls only apply to market orders",
            },
        ),
{
}

/// Of two slippage guards, two average prices or two times in force, the later one counts.
pub proof fn later_settings_count(
    order: OrderModel,
    first: SlippageStrategy,
    second: SlippageStrategy,
    low: Price,
    high: Price,
    early: OrderTimeInForce,
    late: OrderTimeInForce,
)
    ensures
        order.with_slippage_strategy(first).with_slippage_strategy(second)
            == order.with_slippage_strategy(second),
        order.with_avg_execution_price(low).with_avg_execution_price(high)
            == order.with_avg_execution_price(high),
        order.with_tif(early).with_tif(late) == order.with_tif(late),
{
}

/// A limit price is moved by exactly the offset, and it is accepted exactly where the outcome
/// fits the signer's price type.
pub proof fn limit_price_is_moved_exactly(order: OrderModel, price: Price)
    requires
        order.kind == Some(OrderKind::Limit { price }),
    ensures
        order.prices() is Ok <==> i32::MIN <= price.0 + order.price_offset_ticks <= i32::MAX,
        order.prices() is Ok ==> order.prices()->Ok_0.0 == price.0 + order.price_offset_ticks,
{
}

/// The limit price of a stop loss or take profit order is moved by exactly the offset and its
/// trigger not at all, and the two are accepted exactly where both fit the signer's price type.
pub proof fn conditional_limit_price_is_moved_exactly(
    order: OrderModel,
    trigger: Price,
    limit_price: Price,
)
    requires
        order.kind == Some(OrderKind::StopLossLimit { trigger, limit_price }) || order.kind == Some(
            OrderKind::TakeProfitLimit { trigger, limit_price },
        ),
    ensures
        order.prices() is Ok <==> {
            &&& i32::MIN <= limit_price.0 + order.price_offset_ticks <= i32::MAX
            &&& i32::MIN <= trigger.0 <= i32::MAX
        },
        order.prices() is Ok ==> {
            &&& order.prices()->Ok_0.0 == limit_price.0 + order.price_offset_ticks
            &&& order.prices()->Ok_0.1 == trigger.0
        },
{
}

/// Only limit prices are moved by the offset.
pub proof fn offset_leaves_other_prices_alone(order: OrderModel, offset: i64)
    requires
        order.kind is Some,
        order.kind->0.at_market(),
    ensures
        (OrderModel { price_offset_ticks: offset, ..order }).prices() == order.prices(),
{
}

/// A protective order closes what its entry opened: whichever way the two reach the signer, it is
/// for the same market, size and API key, stands on the other side, can only reduce the position,
/// and brings no nonce.
pub proof fn protective_leg_closes_the_entry(
    entry: OrderModel,
    kind: OrderKind,
    entry_id: i64,
    leg_id: i64,
)
    requires
        entry.submit_plan(entry_id) is Ok,
        entry.protective_leg(kind).submit_plan(leg_id) is Ok,
    ensures
        ({
            let opened = entry.submit_plan(entry_id)->Ok_0.outline();
            let closed = entry.protective_leg(kind).submit_plan(leg_id)->Ok_0.outline();
            &&& closed.market == opened.market
            &&& closed.base_amount == opened.base_amount
            &&& closed.is_ask != opened.is_ask
            &&& closed.reduce_only
            &&& closed.api_key == opened.api_key
            &&& closed.nonce is None
            &&& closed.client_order_id == leg_id
        }),
{
}

/// A bracket sends its entry first, then what takes the profit, then what stops the loss, each
/// protective order if it was asked for and no other.
pub proof fn bracket_orders_go_out_in_turn(bracket: BracketModel)
    ensures
        bracket.orders()[0] == bracket.entry,
        bracket.orders().len() == 1 + (if bracket.take_profit is Some { 1int } else { 0 }) + (
        if bracket.stop_loss is Some { 1int } else { 0 }),
        bracket.take_profit is Some ==> bracket.orders()[1] == bracket.entry.protective_leg(
            bracket.take_profit->0,
        ),
        bracket.stop_loss is Some ==> bracket.orders().last() == bracket.entry.protective_leg(
            bracket.stop_loss->0,
        ),
{
}

/// Results come in the order of the orders that gave them, and the order whose turn it is is the
/// one after the last that gave a result.
pub proof fn run_keeps_the_order<P>(orders: Seq<OrderModel>, results: Seq<P>)
    ensures
        RunModel::<P>::start(orders).after(results).orders == orders,
        RunModel::<P>::start(orders).after(results).results == results,
        results.len() < orders.len() ==> RunModel::<P>::start(orders).after(results).current()
            == orders[results.len() as int],
    decreases results.len(),
{
    if results.len() > 0 {
        run_keeps_the_order(orders, results.drop_last());
    }
}

/// A run asks the signer for its orders in turn, each as it stands, and once every order has given
/// a result it hands out those results and nothing else.
pub proof fn run_asks_in_turn<'a, M: OrderMode, P>(
    orders: Seq<OrderModel>,
    results: Seq<P>,
    id: i64,
    step: Result<RunStep<'a, M, P>, Error>,
)
    requires
        results.len() <= orders.len(),
        crate::run::step_allowed::<M, P>(RunModel::<P>::start(orders).after(results), id, step),
    ensures
        results.len() == orders.len() ==> (step matches Ok(RunStep::Finished(given)) && given@
            == results),
        results.len() < orders.len() ==> (match M::planned(orders[results.len() as int], id) {
            Ok(planned) => step matches Ok(RunStep::Call(call, pending)) && call == planned
                && pending@ == RunModel::<P>::start(orders).after(results),
            Err(error) => step == Err::<RunStep<'a, M, P>, Error>(error),
        }),
{
    run_keeps_the_order(orders, results);
}

/// A bracket whose orders have all given results hands out the entry's result and then those of
/// the protective orders, as many as were asked for; without a protective order it is refused.
pub proof fn bracket_finishes_with_its_legs<'a, M: OrderMode, P>(
    bracket: BracketModel,
    results: Seq<P>,
    id: i64,
    step: Result<BracketStep<'a, M, P>, Error>,
)
    requires
        results.len() == bracket.orders().len(),
        crate::run::bracket_step_allowed::<M, P>(
            RunModel::<P>::start(bracket.orders()).after(results),
            id,
            step,
        ),
    ensures
        bracket.take_profit is None && bracket.stop_loss is None ==> step == Err::<
            BracketStep<'a, M, P>,
            Error,
        >(
            Error::InvalidConfig {
                field: "bracket",
                why: "configure at least one protective order",
            },
        ),
        bracket.take_profit is Some || bracket.stop_loss is Some ==> {
            &&& step matches Ok(BracketStep::Finished { entry, legs })
            &&& seq![entry] + legs@ == results
            &&& legs@.len() == (if bracket.take_profit is Some { 1int } else { 0 }) + (
            if bracket.stop_loss is Some { 1int } else { 0 })
        },
{
    run_keeps_the_order(bracket.orders(), results);
    bracket_orders_go_out_in_turn(bracket);
}

/// A client without an account is answered that it is not authenticated by every request that
/// refers to the account or needs an auth header; a client with one makes every such request.
pub proof fn account_requests_need_an_account<'r>(client: &LighterClient, endpoint: Endpoint<'r>)
    ensures
        client@.account_id is None ==> {
            &&& client@.signed_call(endpoint) == Err::<RestCall<'r>, _>(Error::NotAuthenticated)
            &&& client@.account_call(endpoint) == Err::<RestCall<'r>, _>(Error::NotAuthenticated)
            &&& client@.private_call(endpoint) == Err::<RestCall<'r>, _>(Error::NotAuthenticated)
        },
        client@.account_id is Some ==> {
            &&& client@.signed_call(endpoint) == Ok::<_, Error>(crate::rest::private_call(endpoint))
            &&& client@.account_call(endpoint) == Ok::<_, Error>(crate::rest::public_call(endpoint))
            &&& client@.private_call(endpoint) == Ok::<_, Error>(crate::rest::private_call(endpoint))
        },
{
    client.signer_comes_with_account();
}

/// A clone of a submission gives up a clone of the payload that the submission itself gives up,
/// whatever the response is; where cloning a payload gives an equal one, the two payloads are
/// equal.
pub proof fn clone_gives_the_same_payload<T: Clone, R: Clone>(
    original: Submission<T, R>,
    copy: Submission<T, R>,
)
    requires
        call_ensures(Submission::<T, R>::clone, (&original,), copy),
    ensures
        cloned(original@.0, copy@.0),
        (forall|payload: T, twin: T| cloned(payload, twin) ==> payload == twin) ==> copy@.0
            == original@.0,
{
}

/// A new client has neither signer nor account, and configuring an account gives it both.
pub proof fn signer_and_account_come_together(
    api_url: Seq<char>,
    options: OptionsModel,
    ws_default: WsModel,
    account: AccountId,
    signer: SignerModel,
)
    ensures
        ClientModel::fresh(api_url, options, ws_default).coherent(),
        !ClientModel::fresh(api_url, options, ws_default).authenticated(),
        ClientModel::fresh(api_url, options, ws_default).with_account(account, signer).coherent(),
        ClientModel::fresh(api_url, options, ws_default).with_account(account, signer)
            .authenticated(),
{
}

/// Configuring another account leaves nothing of the earlier one behind.
pub proof fn later_account_replaces_earlier(
    client: ClientModel,
    first: AccountId,
    first_signer: SignerModel,
    second: AccountId,
    second_signer: SignerModel,
)
    ensures
        client.with_account(first, first_signer).with_account(second, second_signer)
            == client.with_account(second, second_signer),
{
}

/// The websocket endpoint and the options of a client do not change with its account.
pub proof fn account_leaves_settings_alone(
    client: ClientModel,
    account: AccountId,
    signer: SignerModel,
)
    ensures
        client.with_account(account, signer).websocket == client.websocket,
        client.with_account(account, signer).options == client.options,
{
}

/// Of two private keys for one API key index the later one counts, and keys for different indices
/// do not depend on the order in which they are given.
pub proof fn extra_keys_are_kept_by_index(
    options: OptionsModel,
    index: ApiKeyIndex,
    other: ApiKeyIndex,
    key: Seq<char>,
    other_key: Seq<char>,
)
    ensures
        options.with_extra_private_key(index, key).with_extra_private_key(index, other_key)
            == options.with_extra_private_key(index, other_key),
        index != other ==> options.with_extra_private_key(index, key).with_extra_private_key(
            other,
            other_key,
        ) == options.with_extra_private_key(other, other_key).with_extra_private_key(index, key),
{
    assert(options.extra_private_keys.insert(index.0, key).insert(index.0, other_key)
        =~= options.extra_private_keys.insert(index.0, other_key));
    if index != other {
        assert(options.extra_private_keys.insert(index.0, key).insert(other.0, other_key)
            =~= options.extra_private_keys.insert(other.0, other_key).insert(index.0, key));
    }
}

/// Paging through closed orders starts with the very request that asking for them without paging makes:
/// the page at the initial cursor of [`AccountHandle::inactive_orders_stream`] is what
/// [`AccountHandle::inactive_orders`] gives.
pub proof fn paging_inactive_orders_starts_with_the_plain_request<'q>(
    handle: &'q AccountHandle<'q>,
    query: InactiveOrdersQuery<'q>,
    pages: &'q PageSource<'q>,
    cursor: Option<&'q str>,
    first: Result<RestCall<'q>, Error>,
    plain: Result<RestCall<'q>, Error>,
)
    requires
        call_ensures(AccountHandle::<'q>::inactive_orders_stream, (handle, query), Ok(*pages)),
        call_ensures(PageSource::<'q>::initial_cursor, (pages,), cursor),
        call_ensures(PageSource::<'q>::page, (pages, cursor), first),
        call_ensures(AccountHandle::<'q>::inactive_orders, (handle, query), plain),
    ensures
        first == plain,
{
}

/// Paging through trades starts with the very request that asking for them without paging makes:
/// the page at the initial cursor of [`AccountHandle::trades_stream`] is what
/// [`AccountHandle::trades`] gives.
pub proof fn paging_trades_starts_with_the_plain_request<'q>(
    handle: &'q AccountHandle<'q>,
    query: TradesQuery<'q>,
    pages: &'q PageSource<'q>,
    cursor: Option<&'q str>,
    first: Result<RestCall<'q>, Error>,
    plain: Result<RestCall<'q>, Error>,
)
    requires
        call_ensures(AccountHandle::<'q>::trades_stream, (handle, query), Ok(*pages)),
        call_ensures(PageSource::<'q>::initial_cursor, (pages,), cursor),
        call_ensures(PageSource::<'q>::page, (pages, cursor), first),
        call_ensures(AccountHandle::<'q>::trades, (handle, query), plain),
    ensures
        first == plain,
{
}

/// Paging through deposits starts with the very request that asking for them without paging makes:
/// the page at the initial cursor of [`AccountHandle::deposit_history_stream`] is what
/// [`AccountHandle::deposit_history`] gives.
pub proof fn paging_deposit_history_starts_with_the_plain_request<'q>(
    handle: &'q AccountHandle<'q>,
    l1_address: &'q str,
    query: HistoryQuery<'q>,
    pages: &'q PageSource<'q>,
    cursor: Option<&'q str>,
    first: Result<RestCall<'q>, Error>,
    plain: Result<RestCall<'q>, Error>,
)
    requires
        call_ensures(AccountHandle::<'q>::deposit_history_stream, (handle, l1_address, query), Ok(*pages)),
        call_ensures(PageSource::<'q>::initial_cursor, (pages,), cursor),
        call_ensures(PageSource::<'q>::page, (pages, cursor), first),
        call_ensures(AccountHandle::<'q>::deposit_history, (handle, l1_address, query), plain),
    ensures
        first == plain,
{
}

/// Paging through transfers starts with the very request that asking for them without paging makes:
/// the page at the initial cursor of [`AccountHandle::transfer_history_stream`] is what
/// [`AccountHandle::transfer_history`] gives.
pub proof fn paging_transfer_history_starts_with_the_plain_request<'q>(
    handle: &'q AccountHandle<'q>,
    query: HistoryQuery<'q>,
    pages: &'q PageSource<'q>,
    cursor: Option<&'q str>,
    first: Result<RestCall<'q>, Error>,
    plain: Result<RestCall<'q>, Error>,
)
    requires
        call_ensures(AccountHandle::<'q>::transfer_history_stream, (handle, query), Ok(*pages)),
        call_ensures(PageSource::<'q>::initial_cursor, (pages,), cursor),
        call_ensures(PageSource::<'q>::page, (pages, cursor), first),
        call_ensures(AccountHandle::<'q>::transfer_history, (handle, query), plain),
    ensures
        first == plain,
{
}

/// Paging through withdrawals starts with the very request that asking for them without paging makes:
/// the page at the initial cursor of [`AccountHandle::withdraw_history_stream`] is what
/// [`AccountHandle::withdraw_history`] gives.
pub proof fn paging_withdraw_history_starts_with_the_plain_request<'q>(
    handle: &'q AccountHandle<'q>,
    query: HistoryQuery<'q>,
    pages: &'q PageSource<'q>,
    cursor: Option<&'q str>,
    first: Result<RestCall<'q>, Error>,
    plain: Result<RestCall<'q>, Error>,
)
    requires
        call_ensures(AccountHandle::<'q>::withdraw_history_stream, (handle, query), Ok(*pages)),
        call_ensures(PageSource::<'q>::initial_cursor, (pages,), cursor),
        call_ensures(PageSource::<'q>::page, (pages, cursor), first),
        call_ensures(AccountHandle::<'q>::withdraw_history, (handle, query), plain),
    ensures
        first == plain,
{
}

/// Identifiers drawn at different milliseconds differ, for as long as milliseconds fit an `i64`.
pub proof fn identifiers_follow_the_clock(early: u128, late: u128)
    requires
        early < late < i64::MAX,
    ensures
        crate::clock::id_of_millis(early) < crate::clock::id_of_millis(late),
{
}

proof fn digits_are_digits(number: nat)
    ensures
        crate::decimal::digits(number).len() >= 1,
        number >= 10 ==> crate::decimal::digits(number).len() >= 2,
        crate::decimal::digits(number)[0] != '-',
    decreases number,
{
    if number >= 10 {
        digits_are_digits(number / 10);
    }
}

proof fn digits_are_unique(left: nat, right: nat)
    requires
        crate::decimal::digits(left) == crate::decimal::digits(right),
    ensures
        left == right,
    decreases left,
{
    digits_are_digits(left);
    digits_are_digits(right);
    let shown_left = crate::decimal::digits(left);
    let shown_right = crate::decimal::digits(right);
    if left >= 10 && right >= 10 {
        assert(shown_left.drop_last() =~= crate::decimal::digits(left / 10));
        assert(shown_right.drop_last() =~= crate::decimal::digits(right / 10));
        digits_are_unique(left / 10, right / 10);
        assert(shown_left.last() == shown_right.last());
    }
}

/// Different account numbers are shown differently, so that a request by the shown number is a
/// request for one account.
pub proof fn account_values_are_unique(left: int, right: int)
    requires
        crate::decimal::decimal(left) == crate::decimal::decimal(right),
    ensures
        left == right,
{
    let shown_left = crate::decimal::decimal(left);
    let shown_right = crate::decimal::decimal(right);
    if left >= 0 {
        digits_are_digits(left as nat);
    }
    if right >= 0 {
        digits_are_digits(right as nat);
    }
    if left < 0 && right < 0 {
        assert(shown_left.drop_first() =~= crate::decimal::digits((-left) as nat));
        assert(shown_right.drop_first() =~= crate::decimal::digits((-right) as nat));
        digits_are_unique((-left) as nat, (-right) as nat);
    } else if left >= 0 && right >= 0 {
        digits_are_unique(left as nat, right as nat);
    }
}

} // verus!
