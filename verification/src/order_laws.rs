//! What holds of orders: from what a builder is told to what the signer is asked.

use vstd::prelude::*;

use crate::cancel::{
    CancelAllBuilder, CancelAllParams, CancelOrderBuilder, CancelOrderParams, WithdrawBuilder,
    WithdrawParams,
};
use crate::client::LighterClient;
use crate::errors::Error;
use crate::order::{
    OrderBuilder, OrderState, OrderStateInit, OrderStateQty, OrderStateReady, OrderStateSide,
};
use crate::order_model::{
    ClientOrderIdStrategy, OrderKind, OrderModel, OrderSide, OrderTimeInForce, SignCall,
    SlippageStrategy, SubmitCall,
};
use crate::types::{
    ApiKeyIndex, BaseQty, Expiry, MarketId, MaxSlippage, Nonce, Price, SignerCodes, UsdcAmount,
};

verus! {

/// An order starts with its market and nothing else: no side, size, type or policy, no expiry,
/// nonce or API key, no price settings, not reduce-only, and under identifier 0.
pub proof fn new_order_has_nothing_set<'a>(
    client: &'a LighterClient,
    market: MarketId,
    builder: OrderBuilder<'a, OrderStateInit>,
)
    requires
        call_ensures(LighterClient::order, (client, market), builder),
    ensures
        builder@.client == client@,
        builder@.market == market,
        builder@.client_order_id == ClientOrderIdStrategy::Manual(0),
        builder@.side is None,
        builder@.qty is None,
        builder@.kind is None,
        builder@.tif is None,
        !builder@.reduce_only,
        builder@.expiry is None,
        builder@.nonce is None,
        builder@.api_key_override is None,
        builder@.avg_execution_override is None,
        builder@.slippage is None,
        builder@.price_offset_ticks == 0,
{
}

/// The side and the size of an order are the ones that were chosen, and choosing them changes
/// nothing else.
pub proof fn choosing_side_and_size<'a>(
    fresh: OrderBuilder<'a, OrderStateInit>,
    sided: OrderBuilder<'a, OrderStateSide>,
    qty: BaseQty,
    sized: OrderBuilder<'a, OrderStateQty>,
)
    ensures
        call_ensures(OrderBuilder::<'a, OrderStateInit>::buy, (fresh,), sided) ==> sided@ == (
        OrderModel { side: Some(OrderSide::Bid), ..fresh@ }),
        call_ensures(OrderBuilder::<'a, OrderStateInit>::sell, (fresh,), sided) ==> sided@ == (
        OrderModel { side: Some(OrderSide::Ask), ..fresh@ }),
        call_ensures(OrderBuilder::<'a, OrderStateSide>::qty, (sided, qty), sized) ==> sized@ == (
        OrderModel { qty: Some(qty), ..sided@ }),
{
}

/// Each setting of an order that any type can have is kept as it was given, and setting it
/// changes nothing else.
pub proof fn settings_keep_apart<'a, S: OrderState>(
    before: OrderBuilder<'a, S>,
    expiry: Expiry,
    nonce: Nonce,
    key: ApiKeyIndex,
    id: i64,
    ticks: i64,
    after: OrderBuilder<'a, S>,
)
    ensures
        call_ensures(OrderBuilder::<'a, S>::reduce_only, (before,), after) ==> after@ == (
        OrderModel { reduce_only: true, ..before@ }),
        call_ensures(OrderBuilder::<'a, S>::expires_at, (before, expiry), after) ==> after@ == (
        OrderModel { expiry: Some(expiry), ..before@ }),
        call_ensures(OrderBuilder::<'a, S>::with_nonce, (before, nonce), after) ==> after@ == (
        OrderModel { nonce: Some(nonce), ..before@ }),
        call_ensures(OrderBuilder::<'a, S>::with_api_key, (before, key), after) ==> after@ == (
        OrderModel { api_key_override: Some(key), ..before@ }),
        call_ensures(OrderBuilder::<'a, S>::with_client_order_id, (before, id), after) ==> after@
            == (OrderModel { client_order_id: ClientOrderIdStrategy::Manual(id), ..before@ }),
        call_ensures(OrderBuilder::<'a, S>::auto_client_id, (before,), after) ==> after@ == (
        OrderModel { client_order_id: ClientOrderIdStrategy::Auto, ..before@ }),
        call_ensures(OrderBuilder::<'a, S>::with_price_offset, (before, ticks), after) ==> after@
            == (OrderModel { price_offset_ticks: ticks, ..before@ }),
{
}

/// Naming a time in force sets it, and changes nothing else.
pub proof fn naming_a_time_in_force<'a, S: OrderState>(
    before: OrderBuilder<'a, S>,
    after: OrderBuilder<'a, S>,
)
    ensures
        call_ensures(OrderBuilder::<'a, S>::ioc, (before,), after) ==> after@ == (OrderModel {
            tif: Some(OrderTimeInForce::ImmediateOrCancel),
            ..before@
        }),
        call_ensures(OrderBuilder::<'a, S>::gtt, (before,), after) ==> after@ == (OrderModel {
            tif: Some(OrderTimeInForce::GoodTillTime),
            ..before@
        }),
        call_ensures(OrderBuilder::<'a, S>::post_only, (before,), after) ==> after@ == (
        OrderModel { tif: Some(OrderTimeInForce::PostOnly), ..before@ }),
{
}

/// An average price goes into the market order that is being built, and is set aside otherwise;
/// nothing else changes, a slippage guard on that market order included.
pub proof fn setting_an_average_price<'a, S: OrderState>(
    before: OrderBuilder<'a, S>,
    price: Price,
    after: OrderBuilder<'a, S>,
)
    requires
        call_ensures(OrderBuilder::<'a, S>::with_avg_execution_price, (before, price), after),
    ensures
        before@.kind matches Some(OrderKind::Market { slippage, .. }) ==> after@ == (OrderModel {
            kind: Some(OrderKind::Market { avg_execution_price: Some(price), slippage }),
            ..before@
        }),
        !(before@.kind matches Some(OrderKind::Market { .. })) ==> after@ == (OrderModel {
            avg_execution_override: Some(price),
            ..before@
        }),
{
}

/// A slippage guard goes into the market order that is being built, and is set aside otherwise;
/// nothing else changes, an average price on that market order included.
pub proof fn setting_a_slippage_guard<'a, S: OrderState>(
    before: OrderBuilder<'a, S>,
    max_slippage: MaxSlippage,
    price: Price,
    guard: SlippageStrategy,
    after: OrderBuilder<'a, S>,
)
    requires
        ({
            ||| call_ensures(OrderBuilder::<'a, S>::with_slippage, (before, max_slippage), after)
                && guard == (SlippageStrategy::Enforced { max_slippage, ideal_price: None })
            ||| call_ensures(
                OrderBuilder::<'a, S>::with_slippage_at_price,
                (before, max_slippage, price),
                after,
            ) && guard == (SlippageStrategy::Enforced { max_slippage, ideal_price: Some(price) })
            ||| call_ensures(
                OrderBuilder::<'a, S>::with_slippage_check,
                (before, max_slippage),
                after,
            ) && guard == (SlippageStrategy::CheckOnly { max_slippage, ideal_price: None })
            ||| call_ensures(
                OrderBuilder::<'a, S>::with_slippage_check_at_price,
                (before, max_slippage, price),
                after,
            ) && guard == (SlippageStrategy::CheckOnly { max_slippage, ideal_price: Some(price) })
        }),
    ensures
        before@.kind matches Some(OrderKind::Market { avg_execution_price, .. }) ==> after@ == (
        OrderModel {
            kind: Some(OrderKind::Market { avg_execution_price, slippage: Some(guard) }),
            ..before@
        }),
        !(before@.kind matches Some(OrderKind::Market { .. })) ==> after@ == (OrderModel {
            slippage: Some(guard),
            ..before@
        }),
{
}

/// Choosing the type of an order keeps all its other settings, but for what was set aside for a
/// market order: a market order takes it up, a limit order and a stop loss drop it, and the other
/// types leave it where it is.
pub proof fn choosing_a_type<'a>(
    before: OrderBuilder<'a, OrderStateQty>,
    trigger: Price,
    price: Price,
    after: OrderBuilder<'a, OrderStateReady>,
)
    ensures
        call_ensures(OrderBuilder::<'a, OrderStateQty>::limit, (before, price), after) ==> after@
            == (OrderModel {
            kind: Some(OrderKind::Limit { price }),
            slippage: None,
            avg_execution_override: None,
            ..before@
        }),
        call_ensures(OrderBuilder::<'a, OrderStateQty>::market, (before,), after) ==> after@ == (
        OrderModel {
            kind: Some(
                OrderKind::Market {
                    avg_execution_price: before@.avg_execution_override,
                    slippage: before@.slippage,
                },
            ),
            slippage: None,
            avg_execution_override: None,
            ..before@
        }),
        call_ensures(OrderBuilder::<'a, OrderStateQty>::stop_loss, (before, trigger), after)
            ==> after@ == (OrderModel {
            kind: Some(OrderKind::StopLossMarket { trigger }),
            slippage: None,
            avg_execution_override: None,
            ..before@
        }),
        call_ensures(
            OrderBuilder::<'a, OrderStateQty>::stop_loss_limit,
            (before, trigger, price),
            after,
        ) ==> after@ == (OrderModel {
            kind: Some(OrderKind::StopLossLimit { trigger, limit_price: price }),
            ..before@
        }),
        call_ensures(OrderBuilder::<'a, OrderStateQty>::take_profit, (before, trigger), after)
            ==> after@ == (OrderModel {
            kind: Some(OrderKind::TakeProfitMarket { trigger }),
            ..before@
        }),
        call_ensures(
            OrderBuilder::<'a, OrderStateQty>::take_profit_limit,
            (before, trigger, price),
            after,
        ) ==> after@ == (OrderModel {
            kind: Some(OrderKind::TakeProfitLimit { trigger, limit_price: price }),
            ..before@
        }),
{
}

/// Whichever of its operations the signer is asked for, an order is submitted under its
/// identifier, for its market and its size, as an ask exactly where it sells, reduce-only exactly
/// where it was set so, and with the nonce and the API key that were set, or none.
pub proof fn submitted_order_is_the_one_that_was_built(order: OrderModel, id: i64)
    requires
        order.submit_plan(id) is Ok,
    ensures
        match order.submit_plan(id)->Ok_0 {
            SubmitCall::CreateOrder(sent) => {
                &&& sent.client_order_id == id
                &&& order.market == MarketId(sent.market)
                &&& order.qty == Some(BaseQty(sent.base_amount))
                &&& order.side is Some
                &&& sent.is_ask <==> order.side == Some(OrderSide::Ask)
                &&& sent.reduce_only <==> order.reduce_only
                &&& sent.nonce is Some <==> order.nonce is Some
                &&& sent.nonce is Some ==> order.nonce == Some(Nonce(sent.nonce->0))
                &&& sent.api_key is Some <==> order.api_key_override is Some
                &&& sent.api_key is Some ==> order.api_key_override == Some(
                    ApiKeyIndex(sent.api_key->0),
                )
            },
            SubmitCall::CreateMarketOrderLimitedSlippage(sent)
            | SubmitCall::CreateMarketOrderIfSlippage(sent) => {
                &&& sent.client_order_id == id
                &&& order.market == MarketId(sent.market)
                &&& order.qty == Some(BaseQty(sent.base_amount))
                &&& order.side is Some
                &&& sent.is_ask <==> order.side == Some(OrderSide::Ask)
                &&& sent.reduce_only <==> order.reduce_only
                &&& sent.nonce is Some <==> order.nonce is Some
                &&& sent.nonce is Some ==> order.nonce == Some(Nonce(sent.nonce->0))
                &&& sent.api_key is Some <==> order.api_key_override is Some
                &&& sent.api_key is Some ==> order.api_key_override == Some(
                    ApiKeyIndex(sent.api_key->0),
                )
            },
        },
{
}

/// Whichever of its operations the signer is asked for, an order is signed under its identifier,
/// for its market and its size, as an ask exactly where it sells, reduce-only exactly where it
/// was set so, and with the nonce and the API key that were set, or none.
pub proof fn signed_order_is_the_one_that_was_built(order: OrderModel, id: i64)
    requires
        order.sign_plan(id) is Ok,
    ensures
        match order.sign_plan(id)->Ok_0 {
            SignCall::SignCreateOrder(sent) => {
                &&& sent.client_order_id == id
                &&& order.market == MarketId(sent.market)
                &&& order.qty == Some(BaseQty(sent.base_amount))
                &&& order.side is Some
                &&& sent.is_ask <==> order.side == Some(OrderSide::Ask)
                &&& sent.reduce_only <==> order.reduce_only
                &&& sent.nonce is Some <==> order.nonce is Some
                &&& sent.nonce is Some ==> order.nonce == Some(Nonce(sent.nonce->0))
                &&& sent.api_key is Some <==> order.api_key_override is Some
                &&& sent.api_key is Some ==> order.api_key_override == Some(
                    ApiKeyIndex(sent.api_key->0),
                )
            },
            SignCall::SignMarketOrderLimitedSlippage(sent) => {
                &&& sent.client_order_id == id
                &&& order.market == MarketId(sent.market)
                &&& order.qty == Some(BaseQty(sent.base_amount))
                &&& order.side is Some
                &&& sent.is_ask <==> order.side == Some(OrderSide::Ask)
                &&& sent.reduce_only <==> order.reduce_only
                &&& sent.nonce is Some <==> order.nonce is Some
                &&& sent.nonce is Some ==> order.nonce == Some(Nonce(sent.nonce->0))
                &&& sent.api_key is Some <==> order.api_key_override is Some
                &&& sent.api_key is Some ==> order.api_key_override == Some(
                    ApiKeyIndex(sent.api_key->0),
                )
            },
        },
{
}

/// An order with an expiry is sent with that expiry in milliseconds, whatever its type and its
/// time in force. Only an order without one is sent with a default: the signer's for immediate
/// execution where the order is immediate-or-cancel, named or implied by its type, and the
/// exchange's otherwise.
pub proof fn expiry_that_was_set_is_sent(order: OrderModel, id: i64)
    requires
        order.submit_plan(id) matches Ok(SubmitCall::CreateOrder(_)),
    ensures
        ({
            let sent = order.submit_plan(id)->Ok_0->CreateOrder_0;
            let at_market = order.kind->0 is Market || order.kind->0 is StopLossMarket
                || order.kind->0 is TakeProfitMarket;
            &&& order.expiry is Some ==> sent.expiry == order.expiry->0.unix_millis
            &&& order.expiry is None && order.tif == Some(OrderTimeInForce::ImmediateOrCancel)
                ==> sent.expiry == order.client.signer->0.codes.default_ioc_expiry
            &&& order.expiry is None && order.tif is None && at_market ==> sent.expiry
                == order.client.signer->0.codes.default_ioc_expiry
            &&& order.expiry is None && order.tif is None && !at_market ==> sent.expiry == -1
            &&& order.expiry is None && order.tif == Some(OrderTimeInForce::GoodTillTime)
                ==> sent.expiry == -1
            &&& order.expiry is None && order.tif == Some(OrderTimeInForce::PostOnly)
                ==> sent.expiry == -1
        }),
{
}

/// An order is sent with the signer's number for the time in force that was named. Where none
/// was, orders that execute at the market price are immediate-or-cancel and others good till time.
pub proof fn time_in_force_that_was_named_is_sent(order: OrderModel, id: i64)
    requires
        order.submit_plan(id) matches Ok(SubmitCall::CreateOrder(_)),
    ensures
        ({
            let sent = order.submit_plan(id)->Ok_0->CreateOrder_0;
            let codes = order.client.signer->0.codes;
            match (order.tif, order.kind->0) {
                (Some(OrderTimeInForce::ImmediateOrCancel), _) => sent.time_in_force
                    == codes.time_in_force_immediate_or_cancel,
                (Some(OrderTimeInForce::GoodTillTime), _) => sent.time_in_force
                    == codes.time_in_force_good_till_time,
                (Some(OrderTimeInForce::PostOnly), _) => sent.time_in_force
                    == codes.time_in_force_post_only,
                (None, OrderKind::Market { .. })
                | (None, OrderKind::StopLossMarket { .. })
                | (None, OrderKind::TakeProfitMarket { .. }) => sent.time_in_force
                    == codes.time_in_force_immediate_or_cancel,
                (None, _) => sent.time_in_force == codes.time_in_force_good_till_time,
            }
        }),
{
}

/// An order is sent with the signer's number for its type, with its limit price moved by the
/// offset, or its expected average price, or none, and with its trigger, or none; the offset
/// touches limit prices alone.
pub proof fn type_and_prices_that_were_chosen_are_sent(order: OrderModel, id: i64)
    requires
        order.submit_plan(id) matches Ok(SubmitCall::CreateOrder(_)),
    ensures
        order.kind is Some,
        ({
            let sent = order.submit_plan(id)->Ok_0->CreateOrder_0;
            let codes = order.client.signer->0.codes;
            match order.kind->0 {
                OrderKind::Limit { price } => {
                    &&& sent.order_type == codes.order_type_limit
                    &&& sent.price - order.price_offset_ticks == price.0
                    &&& sent.trigger_price == 0
                },
                OrderKind::Market { avg_execution_price, slippage } => {
                    &&& sent.order_type == codes.order_type_market
                    &&& avg_execution_price is Some ==> sent.price == (avg_execution_price->0).0
                    &&& avg_execution_price is None ==> sent.price == -1
                    &&& sent.trigger_price == 0
                    &&& slippage is None
                },
                OrderKind::StopLossMarket { trigger } => {
                    &&& sent.order_type == codes.order_type_stop_loss
                    &&& sent.price == -1
                    &&& sent.trigger_price == trigger.0
                },
                OrderKind::TakeProfitMarket { trigger } => {
                    &&& sent.order_type == codes.order_type_take_profit
                    &&& sent.price == -1
                    &&& sent.trigger_price == trigger.0
                },
                OrderKind::StopLossLimit { trigger, limit_price } => {
                    &&& sent.order_type == codes.order_type_stop_loss_limit
                    &&& sent.price - order.price_offset_ticks == limit_price.0
                    &&& sent.trigger_price == trigger.0
                },
                OrderKind::TakeProfitLimit { trigger, limit_price } => {
                    &&& sent.order_type == codes.order_type_take_profit_limit
                    &&& sent.price - order.price_offset_ticks == limit_price.0
                    &&& sent.trigger_price == trigger.0
                },
            }
        }),
{
}

/// The signer is asked to bound slippage exactly where the market order has it enforced, and to
/// check it exactly where it has it checked, each time with the tolerance and the price that were
/// given; every other order is sent with its price.
pub proof fn slippage_guard_decides_the_operation(order: OrderModel, id: i64)
    requires
        order.submit_plan(id) is Ok,
    ensures
        match order.submit_plan(id)->Ok_0 {
            SubmitCall::CreateMarketOrderLimitedSlippage(sent) => {
                &&& order.kind matches Some(OrderKind::Market { slippage: Some(guard), .. })
                &&& guard matches SlippageStrategy::Enforced { max_slippage, ideal_price }
                &&& sent.max_slippage == max_slippage
                &&& sent.ideal_price is Some <==> ideal_price is Some
                &&& sent.ideal_price is Some ==> ideal_price == Some(Price(sent.ideal_price->0))
            },
            SubmitCall::CreateMarketOrderIfSlippage(sent) => {
                &&& order.kind matches Some(OrderKind::Market { slippage: Some(guard), .. })
                &&& guard matches SlippageStrategy::CheckOnly { max_slippage, ideal_price }
                &&& sent.max_slippage == max_slippage
                &&& sent.ideal_price is Some <==> ideal_price is Some
                &&& sent.ideal_price is Some ==> ideal_price == Some(Price(sent.ideal_price->0))
            },
            SubmitCall::CreateOrder(_) => !(order.kind matches Some(
                OrderKind::Market { slippage: Some(_), .. },
            )),
        },
{
}

/// An order is accepted for submission exactly where it has a side, a size and a type, is not
/// post-only while it executes at the market price, has no slippage guard unless it is a market
/// order, belongs to a client with a signer, and states only prices that fit the signer's type.
pub proof fn when_an_order_is_accepted(order: OrderModel, id: i64)
    ensures
        order.submit_plan(id) is Ok <==> {
            &&& order.side is Some
            &&& order.qty is Some
            &&& order.kind is Some
            &&& order.tif == Some(OrderTimeInForce::PostOnly) ==> !(order.kind->0 is Market) && !(
            order.kind->0 is StopLossMarket) && !(order.kind->0 is TakeProfitMarket)
            &&& order.slippage is Some ==> order.kind->0 is Market
            &&& order.client.signer is Some
            &&& match order.kind->0 {
                OrderKind::Limit { price } => i32::MIN <= price.0 + order.price_offset_ticks
                    <= i32::MAX,
                OrderKind::Market { avg_execution_price, slippage } => slippage is Some
                    || avg_execution_price is None || i32::MIN <= (avg_execution_price->0).0
                    <= i32::MAX,
                OrderKind::StopLossMarket { trigger }
                | OrderKind::TakeProfitMarket { trigger } => i32::MIN <= trigger.0 <= i32::MAX,
                OrderKind::StopLossLimit { trigger, limit_price }
                | OrderKind::TakeProfitLimit { trigger, limit_price } => i32::MIN <= trigger.0
                    <= i32::MAX && i32::MIN <= limit_price.0 + order.price_offset_ticks
                    <= i32::MAX,
            }
        },
{
}

/// What an incomplete or contradictory order is answered, and in which order its faults count:
/// side, size, type, post-only, slippage, and only then that no account has been configured.
pub proof fn what_an_unsound_order_is_answered(order: OrderModel, id: i64)
    ensures
        ({
            let complete = order.side is Some && order.qty is Some && order.kind is Some;
            let post_only = order.tif == Some(OrderTimeInForce::PostOnly) && (order.kind->0
                is Market || order.kind->0 is StopLossMarket || order.kind->0
                is TakeProfitMarket);
            let guarded = order.slippage is Some && !(order.kind->0 is Market);
            &&& order.side is None ==> order.submit_plan(id) == Err::<SubmitCall, Error>(
                Error::InvalidConfig {
                    field: "side",
                    why: "must be specified via buy() or sell()",
                },
            )
            &&& order.side is Some && order.qty is None ==> order.submit_plan(id) == Err::<
                SubmitCall,
                Error,
            >(Error::InvalidConfig { field: "qty", why: "must be provided via qty()" })
            &&& order.side is Some && order.qty is Some && order.kind is None
                ==> order.submit_plan(id) == Err::<SubmitCall, Error>(
                Error::InvalidConfig {
                    field: "kind",
                    why: "must be selected via limit(), market(), or conditional helpers",
                },
            )
            &&& complete && post_only ==> order.submit_plan(id) == Err::<SubmitCall, Error>(
                Error::InvalidConfig {
                    field: "time_in_force",
                    why: "post-only is unsupported for this order type",
                },
            )
            &&& complete && !post_only && guarded ==> order.submit_plan(id) == Err::<
                SubmitCall,
                Error,
            >(
                Error::InvalidConfig {
                    field: "slippage",
                    why: "slippage controls only apply to market orders",
                },
            )
            &&& complete && !post_only && !guarded && order.client.signer is None
                ==> order.submit_plan(id) == Err::<SubmitCall, Error>(Error::NotAuthenticated)
        }),
{
}

/// What an order is answered that is sound but for its prices: which price it is that does not
/// fit, the trigger before the limit price, and whether it was the offset that took it too far.
pub proof fn what_an_unusable_price_is_answered(order: OrderModel, id: i64)
    requires
        order.side is Some,
        order.qty is Some,
        order.kind is Some,
        order.tif == Some(OrderTimeInForce::PostOnly) ==> order.kind->0 is Limit || order.kind->0
            is StopLossLimit || order.kind->0 is TakeProfitLimit,
        order.slippage is Some ==> order.kind->0 is Market,
        order.client.signer is Some,
    ensures
        ({
            let refused = |field: &'static str, why: &'static str|
                order.submit_plan(id) == Err::<SubmitCall, Error>(
                    Error::InvalidConfig { field, why },
                );
            let fits = |ticks: int| i32::MIN <= ticks <= i32::MAX;
            let carried = |ticks: int| i64::MIN <= ticks <= i64::MAX;
            match order.kind->0 {
                OrderKind::Limit { price } => {
                    let moved = price.0 + order.price_offset_ticks;
                    &&& !carried(moved) ==> refused("price", "price offset exceeds supported range")
                    &&& carried(moved) && !fits(moved) ==> refused(
                        "price",
                        "price exceeds supported range",
                    )
                },
                OrderKind::Market { avg_execution_price, slippage } => slippage is None
                    && avg_execution_price is Some && !fits((avg_execution_price->0).0 as int)
                    ==> refused("avg_execution_price", "price exceeds supported range"),
                OrderKind::StopLossMarket { trigger }
                | OrderKind::TakeProfitMarket { trigger } => !fits(trigger.0 as int) ==> refused(
                    "trigger",
                    "price exceeds supported range",
                ),
                OrderKind::StopLossLimit { trigger, limit_price }
                | OrderKind::TakeProfitLimit { trigger, limit_price } => {
                    let moved = limit_price.0 + order.price_offset_ticks;
                    &&& !fits(trigger.0 as int) ==> refused(
                        "trigger",
                        "price exceeds supported range",
                    )
                    &&& fits(trigger.0 as int) && !carried(moved) ==> refused(
                        "limit_price",
                        "price offset exceeds supported range",
                    )
                    &&& fits(trigger.0 as int) && carried(moved) && !fits(moved) ==> refused(
                        "limit_price",
                        "price exceeds supported range",
                    )
                },
            }
        }),
{
}

/// An order that was given an identifier is submitted and signed under it, and one that wants an
/// identifier drawn under the one that was drawn for it.
pub proof fn order_goes_out_under_its_identifier<'a>(
    builder: OrderBuilder<'a, OrderStateReady>,
    drawn: i64,
    submitted: SubmitCall,
    signed: SignCall,
)
    ensures
        call_ensures(
            OrderBuilder::<'a, OrderStateReady>::submit_with,
            (builder, drawn),
            Ok(submitted),
        ) ==> {
            let sent = match submitted {
                SubmitCall::CreateOrder(params) => params.client_order_id,
                SubmitCall::CreateMarketOrderLimitedSlippage(params)
                | SubmitCall::CreateMarketOrderIfSlippage(params) => params.client_order_id,
            };
            &&& builder@.client_order_id matches ClientOrderIdStrategy::Manual(given) ==> sent
                == given
            &&& builder@.client_order_id is Auto ==> sent == drawn
        },
        call_ensures(OrderBuilder::<'a, OrderStateReady>::sign_with, (builder, drawn), Ok(signed))
            ==> {
            let sent = match signed {
                SignCall::SignCreateOrder(params) => params.client_order_id,
                SignCall::SignMarketOrderLimitedSlippage(params) => params.client_order_id,
            };
            &&& builder@.client_order_id matches ClientOrderIdStrategy::Manual(given) ==> sent
                == given
            &&& builder@.client_order_id is Auto ==> sent == drawn
        },
{
}

/// Submitting an order, with the clock at hand to draw from, is submitting it under the
/// identifier that it was given, or under one that the clock gave, which is never negative.
pub proof fn clock_is_only_asked_for_drawn_identifiers<'a>(
    builder: OrderBuilder<'a, OrderStateReady>,
    call: Result<SubmitCall, Error>,
    signed: Result<SignCall, Error>,
)
    requires
        call_ensures(OrderBuilder::<'a, OrderStateReady>::submit, (builder,), call),
        call_ensures(OrderBuilder::<'a, OrderStateReady>::sign, (builder,), signed),
    ensures
        builder@.client_order_id matches ClientOrderIdStrategy::Manual(given) ==> {
            &&& call == builder@.submit_plan(given)
            &&& signed == builder@.sign_plan(given)
        },
        builder@.client_order_id is Auto ==> {
            &&& exists|id: i64| #[trigger]
                crate::clock::drawn_from_clock(id) && 0 <= id < i64::MAX && call
                    == builder@.submit_plan(id)
            &&& exists|id: i64| #[trigger]
                crate::clock::drawn_from_clock(id) && 0 <= id < i64::MAX && signed
                    == builder@.sign_plan(id)
        },
{
}

/// The outline of a call is read off it, field by field.
pub proof fn outline_is_read_off_the_call(call: SubmitCall)
    ensures
        call matches SubmitCall::CreateOrder(sent) ==> {
            &&& call.outline().market == sent.market
            &&& call.outline().client_order_id == sent.client_order_id
            &&& call.outline().base_amount == sent.base_amount
            &&& call.outline().is_ask == sent.is_ask
            &&& call.outline().reduce_only == sent.reduce_only
            &&& call.outline().nonce == sent.nonce
            &&& call.outline().api_key == sent.api_key
        },
        (call matches SubmitCall::CreateMarketOrderLimitedSlippage(_) || call
            matches SubmitCall::CreateMarketOrderIfSlippage(_)) ==> {
            let sent = match call {
                SubmitCall::CreateMarketOrderLimitedSlippage(params) => params,
                SubmitCall::CreateMarketOrderIfSlippage(params) => params,
                _ => arbitrary(),
            };
            &&& call.outline().market == sent.market
            &&& call.outline().client_order_id == sent.client_order_id
            &&& call.outline().base_amount == sent.base_amount
            &&& call.outline().is_ask == sent.is_ask
            &&& call.outline().reduce_only == sent.reduce_only
            &&& call.outline().nonce == sent.nonce
            &&& call.outline().api_key == sent.api_key
        },
{
}

/// Sides are shown by their names.
pub proof fn sides_are_shown_by_name(side: OrderSide, text: &'static str)
    requires
        call_ensures(OrderSide::name, (side,), text),
    ensures
        side == OrderSide::Bid ==> text@ == "Bid"@,
        side == OrderSide::Ask ==> text@ == "Ask"@,
{
}

/// Policies are sent by the signer's numbers for them, and only immediate-or-cancel orders lapse
/// by the signer's default.
pub proof fn policies_are_sent_by_number(
    tif: OrderTimeInForce,
    codes: &SignerCodes,
    code: i32,
    expiry: i64,
)
    requires
        call_ensures(crate::order::resolve_time_in_force, (tif, codes), code),
        call_ensures(crate::order::default_order_expiry, (tif, codes), expiry),
    ensures
        tif is ImmediateOrCancel ==> code == codes.time_in_force_immediate_or_cancel && expiry
            == codes.default_ioc_expiry,
        tif is GoodTillTime ==> code == codes.time_in_force_good_till_time && expiry == -1,
        tif is PostOnly ==> code == codes.time_in_force_post_only && expiry == -1,
{
}

/// Cancelling an order names the market and the order, with the nonce and the API key that were
/// set, or none; a client without a signer is told that it is not authenticated.
pub proof fn cancellation_names_its_order<'a>(
    client: &'a LighterClient,
    market: MarketId,
    order_index: i64,
    blank: CancelOrderBuilder<'a>,
    builder: CancelOrderBuilder<'a>,
    params: Result<CancelOrderParams, Error>,
)
    requires
        call_ensures(LighterClient::cancel, (client, market, order_index), blank),
        call_ensures(CancelOrderBuilder::<'a>::submit, (builder,), params),
    ensures
        blank@.client == client@ && blank@.market == market && blank@.order_index == order_index,
        blank@.nonce is None && blank@.api_key_override is None,
        params is Ok <==> builder@.client.signer is Some,
        params is Err ==> params == Err::<CancelOrderParams, Error>(Error::NotAuthenticated),
        params matches Ok(sent) ==> {
            &&& builder@.market == MarketId(sent.market)
            &&& builder@.order_index == sent.order_index
            &&& sent.nonce is Some <==> builder@.nonce is Some
            &&& sent.nonce is Some ==> builder@.nonce == Some(Nonce(sent.nonce->0))
            &&& sent.api_key is Some <==> builder@.api_key_override is Some
            &&& sent.api_key is Some ==> builder@.api_key_override == Some(
                ApiKeyIndex(sent.api_key->0),
            )
        },
{
}

/// Cancelling all orders is good till time unless a policy was named, and lapses at the expiry
/// that was set, in seconds, or else by default: the signer's where the policy is
/// immediate-or-cancel, the exchange's otherwise.
pub proof fn mass_cancellation_follows_its_settings<'a>(
    client: &'a LighterClient,
    blank: CancelAllBuilder<'a>,
    builder: CancelAllBuilder<'a>,
    params: Result<CancelAllParams, Error>,
)
    requires
        call_ensures(LighterClient::cancel_all, (client,), blank),
        call_ensures(CancelAllBuilder::<'a>::submit, (builder,), params),
    ensures
        blank@.client == client@ && blank@.tif is None && blank@.expiry is None,
        blank@.nonce is None && blank@.api_key_override is None,
        params is Ok <==> builder@.client.signer is Some,
        params is Err ==> params == Err::<CancelAllParams, Error>(Error::NotAuthenticated),
        params matches Ok(sent) ==> {
            let codes = builder@.client.signer->0.codes;
            &&& match builder@.tif {
                Some(OrderTimeInForce::ImmediateOrCancel) => sent.time_in_force
                    == codes.time_in_force_immediate_or_cancel,
                Some(OrderTimeInForce::PostOnly) => sent.time_in_force
                    == codes.time_in_force_post_only,
                Some(OrderTimeInForce::GoodTillTime) | None => sent.time_in_force
                    == codes.time_in_force_good_till_time,
            }
            &&& builder@.expiry is Some ==> sent.expiry == builder@.expiry->0.unix
            &&& builder@.expiry is None && builder@.tif == Some(
                OrderTimeInForce::ImmediateOrCancel,
            ) ==> sent.expiry == codes.default_ioc_expiry
            &&& builder@.expiry is None && builder@.tif != Some(
                OrderTimeInForce::ImmediateOrCancel,
            ) ==> sent.expiry == -1
            &&& sent.nonce is Some <==> builder@.nonce is Some
            &&& sent.nonce is Some ==> builder@.nonce == Some(Nonce(sent.nonce->0))
            &&& sent.api_key is Some <==> builder@.api_key_override is Some
            &&& sent.api_key is Some ==> builder@.api_key_override == Some(
                ApiKeyIndex(sent.api_key->0),
            )
        },
{
}

/// A withdrawal is for the amount that was given, with the nonce and the API key that were set,
/// or none; a client without a signer is told that it is not authenticated.
pub proof fn withdrawal_is_for_its_amount<'a>(
    client: &'a LighterClient,
    amount: UsdcAmount,
    blank: WithdrawBuilder<'a>,
    builder: WithdrawBuilder<'a>,
    params: Result<WithdrawParams, Error>,
)
    requires
        call_ensures(LighterClient::withdraw, (client, amount), blank),
        call_ensures(WithdrawBuilder::<'a>::submit, (builder,), params),
    ensures
        blank@.client == client@ && blank@.amount == amount,
        blank@.nonce is None && blank@.api_key_override is None,
        params is Ok <==> builder@.client.signer is Some,
        params is Err ==> params == Err::<WithdrawParams, Error>(Error::NotAuthenticated),
        params matches Ok(sent) ==> {
            &&& builder@.amount == UsdcAmount(sent.amount)
            &&& sent.nonce is Some <==> builder@.nonce is Some
            &&& sent.nonce is Some ==> builder@.nonce == Some(Nonce(sent.nonce->0))
            &&& sent.api_key is Some <==> builder@.api_key_override is Some
            &&& sent.api_key is Some ==> builder@.api_key_override == Some(
                ApiKeyIndex(sent.api_key->0),
            )
        },
{
}

} // verus!
