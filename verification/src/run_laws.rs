//! What holds of orders that go out one after the other: batches and brackets, step by step.

use vstd::prelude::*;

use crate::errors::Error;
use crate::order::{OrderBuilder, OrderStateReady};
use crate::order_model::{
    ClientOrderIdStrategy, OrderSide, OrderTimeInForce, SignCall, SubmitCall,
};
use crate::run::{
    BracketBuilder, BracketModel, BracketRun, BracketStep, OrderBatchBuilder, OrderMode, OrderRun,
    PendingLeg, PendingOrder, RunStep, Signing, Submitting,
};
use crate::submission::Submission;
use crate::types::{BaseQty, MarketId, Price};

verus! {

/// A batch goes out as it was filled, from its first order on.
pub proof fn batch_goes_out_as_it_was_filled<'a, T, R, P>(
    empty: OrderBatchBuilder<'a>,
    before: OrderBatchBuilder<'a>,
    order: OrderBuilder<'a, OrderStateReady>,
    batch: OrderBatchBuilder<'a>,
    submitting: OrderRun<'a, Submitting, Submission<T, R>>,
    signing: OrderRun<'a, Signing, P>,
)
    requires
        call_ensures(OrderBatchBuilder::<'a>::new, (), empty),
        call_ensures(OrderBatchBuilder::<'a>::push, (before, order), batch),
        call_ensures(OrderBatchBuilder::<'a>::submit_all::<T, R>, (batch,), submitting),
        call_ensures(OrderBatchBuilder::<'a>::sign_all::<P>, (batch,), signing),
    ensures
        empty@.len() == 0,
        submitting@.orders.len() == before@.len() + 1,
        forall|i: int|
            0 <= i < before@.len() ==> #[trigger] submitting@.orders[i] == before@[i],
        submitting@.orders.last() == order@,
        submitting@.results.len() == 0,
        signing@.orders == submitting@.orders,
        signing@.results.len() == 0,
{
}

/// What an order gave is added behind what earlier orders gave, and the orders stay as they are; a
/// failure ends the run, and is what the run fails with.
pub proof fn results_are_added_in_turn<'a, M: OrderMode, P>(
    pending: PendingOrder<'a, M, P>,
    pending_leg: PendingLeg<'a, M, P>,
    result: Result<P, Error>,
    run: Result<OrderRun<'a, M, P>, Error>,
    bracket_run: Result<BracketRun<'a, M, P>, Error>,
)
    requires
        call_ensures(PendingOrder::<'a, M, P>::complete, (pending, result), run),
        call_ensures(PendingLeg::<'a, M, P>::complete, (pending_leg, result), bracket_run),
    ensures
        result matches Ok(value) ==> {
            &&& run is Ok
            &&& run->Ok_0@.orders == pending@.orders
            &&& run->Ok_0@.results == pending@.results.push(value)
            &&& bracket_run is Ok
            &&& bracket_run->Ok_0@.orders == pending_leg@.orders
            &&& bracket_run->Ok_0@.results == pending_leg@.results.push(value)
        },
        result matches Err(error) ==> {
            &&& run == Err::<OrderRun<'a, M, P>, Error>(error)
            &&& bracket_run == Err::<BracketRun<'a, M, P>, Error>(error)
        },
{
}

/// A submitting run submits its orders in turn: the signer is asked for exactly what the order
/// after the last that gave a result is submitted with, under the identifier that it was given or
/// that was drawn for it, and reduce-only exactly where it was set so. What has the order refused
/// ends the run, and once every order has given a result, those results are handed out.
pub proof fn submitting_run_asks_for_the_order_whose_turn_it_is<'a, P>(
    run: OrderRun<'a, Submitting, P>,
    drawn: i64,
    step: Result<RunStep<'a, Submitting, P>, Error>,
)
    requires
        call_ensures(OrderRun::<'a, Submitting, P>::next_with, (run, drawn), step),
    ensures
        ({
            let order = run@.orders[run@.results.len() as int];
            let id: i64 = match order.client_order_id {
                ClientOrderIdStrategy::Manual(given) => given,
                ClientOrderIdStrategy::Auto => drawn,
            };
            match step {
                Ok(RunStep::Call(call, pending)) => {
                    &&& run@.results.len() < run@.orders.len()
                    &&& order.submit_plan(id) == Ok::<SubmitCall, Error>(call)
                    &&& pending@.orders == run@.orders
                    &&& pending@.results == run@.results
                    &&& match call {
                        SubmitCall::CreateOrder(sent) => {
                            &&& sent.client_order_id == id
                            &&& sent.reduce_only == order.reduce_only
                            &&& order.qty == Some(BaseQty(sent.base_amount))
                        },
                        SubmitCall::CreateMarketOrderLimitedSlippage(sent)
                        | SubmitCall::CreateMarketOrderIfSlippage(sent) => {
                            &&& sent.client_order_id == id
                            &&& sent.reduce_only == order.reduce_only
                            &&& order.qty == Some(BaseQty(sent.base_amount))
                        },
                    }
                },
                Ok(RunStep::Finished(given)) => {
                    &&& run@.results.len() == run@.orders.len()
                    &&& given@ == run@.results
                },
                Err(error) => {
                    &&& run@.results.len() < run@.orders.len()
                    &&& order.submit_plan(id) == Err::<SubmitCall, Error>(error)
                },
            }
        }),
{
}

/// Where the clock is at hand to draw from, the step is the same: an order that was given an
/// identifier goes out under it, and another under one that the clock gave, which is never
/// negative. Once every order has given a result, the results are handed out.
pub proof fn submitting_run_draws_only_what_is_wanted<'a, P>(
    run: OrderRun<'a, Submitting, P>,
    step: Result<RunStep<'a, Submitting, P>, Error>,
)
    requires
        call_ensures(OrderRun::<'a, Submitting, P>::next, (run,), step),
    ensures
        run@.results.len() == run@.orders.len() ==> (step matches Ok(RunStep::Finished(given))
            && given@ == run@.results),
        run@.results.len() != run@.orders.len() ==> {
            let order = run@.orders[run@.results.len() as int];
            let asked = |id: i64|
                match step {
                    Ok(RunStep::Call(call, pending)) => {
                        &&& order.submit_plan(id) == Ok::<SubmitCall, Error>(call)
                        &&& pending@.orders == run@.orders
                        &&& pending@.results == run@.results
                    },
                    Ok(RunStep::Finished(_)) => false,
                    Err(error) => order.submit_plan(id) == Err::<SubmitCall, Error>(error),
                };
            match order.client_order_id {
                ClientOrderIdStrategy::Manual(given) => asked(given),
                ClientOrderIdStrategy::Auto => exists|id: i64| #[trigger]
                    crate::clock::drawn_from_clock(id) && 0 <= id < i64::MAX && asked(id),
            }
        },
{
}

/// A bracket that is being submitted submits its orders in turn: the signer is asked for exactly
/// what the order after the last that gave a result is submitted with, under the identifier that it
/// was given or that was drawn for it, and reduce-only exactly where it was set so. Once all of
/// them have given results, the entry's is handed out and then those of the protective orders, of
/// which there must be one.
pub proof fn submitting_bracket_asks_for_the_order_whose_turn_it_is<'a, P>(
    run: BracketRun<'a, Submitting, P>,
    drawn: i64,
    step: Result<BracketStep<'a, Submitting, P>, Error>,
)
    requires
        call_ensures(BracketRun::<'a, Submitting, P>::next_with, (run, drawn), step),
    ensures
        ({
            let order = run@.orders[run@.results.len() as int];
            let id: i64 = match order.client_order_id {
                ClientOrderIdStrategy::Manual(given) => given,
                ClientOrderIdStrategy::Auto => drawn,
            };
            match step {
                Ok(BracketStep::Call(call, pending)) => {
                    &&& run@.results.len() < run@.orders.len()
                    &&& order.submit_plan(id) == Ok::<SubmitCall, Error>(call)
                    &&& pending@.orders == run@.orders
                    &&& pending@.results == run@.results
                    &&& match call {
                        SubmitCall::CreateOrder(sent) => {
                            &&& sent.client_order_id == id
                            &&& sent.reduce_only == order.reduce_only
                            &&& order.qty == Some(BaseQty(sent.base_amount))
                        },
                        SubmitCall::CreateMarketOrderLimitedSlippage(sent)
                        | SubmitCall::CreateMarketOrderIfSlippage(sent) => {
                            &&& sent.client_order_id == id
                            &&& sent.reduce_only == order.reduce_only
                            &&& order.qty == Some(BaseQty(sent.base_amount))
                        },
                    }
                },
                Ok(BracketStep::Finished { entry, legs }) => {
                    &&& run@.results.len() == run@.orders.len()
                    &&& legs@.len() >= 1
                    &&& seq![entry] + legs@ == run@.results
                },
                Err(error) => if run@.results.len() < run@.orders.len() {
                    order.submit_plan(id) == Err::<SubmitCall, Error>(error)
                } else {
                    &&& run@.results.len() == 1
                    &&& error == (Error::InvalidConfig {
                        field: "bracket",
                        why: "configure at least one protective order",
                    })
                },
            }
        }),
{
}

/// Where the clock is at hand to draw from, the step is the same: an order that was given an
/// identifier goes out under it, and another under one that the clock gave, which is never
/// negative. Once every order has given a result, the results are handed out.
pub proof fn submitting_bracket_draws_only_what_is_wanted<'a, P>(
    run: BracketRun<'a, Submitting, P>,
    step: Result<BracketStep<'a, Submitting, P>, Error>,
)
    requires
        call_ensures(BracketRun::<'a, Submitting, P>::next, (run,), step),
    ensures
        run@.results.len() == run@.orders.len() ==> {
            ||| run@.results.len() == 1 && step == Err::<BracketStep<'a, Submitting, P>, Error>(
                Error::InvalidConfig {
                    field: "bracket",
                    why: "configure at least one protective order",
                },
            )
            ||| run@.results.len() > 1 && (step matches Ok(BracketStep::Finished { entry, legs })
                && seq![entry] + legs@ == run@.results)
        },
        run@.results.len() != run@.orders.len() ==> {
            let order = run@.orders[run@.results.len() as int];
            let asked = |id: i64|
                match step {
                    Ok(BracketStep::Call(call, pending)) => {
                        &&& order.submit_plan(id) == Ok::<SubmitCall, Error>(call)
                        &&& pending@.orders == run@.orders
                        &&& pending@.results == run@.results
                    },
                    Ok(BracketStep::Finished { .. }) => false,
                    Err(error) => order.submit_plan(id) == Err::<SubmitCall, Error>(error),
                };
            match order.client_order_id {
                ClientOrderIdStrategy::Manual(given) => asked(given),
                ClientOrderIdStrategy::Auto => exists|id: i64| #[trigger]
                    crate::clock::drawn_from_clock(id) && 0 <= id < i64::MAX && asked(id),
            }
        },
{
}

/// A signing run signs its orders in turn: the signer is asked for exactly what the order after the
/// last that gave a result is signed with, under the identifier that it was given or that was drawn
/// for it, and reduce-only exactly where it was set so. What has the order refused ends the run,
/// and once every order has given a result, those results are handed out.
pub proof fn signing_run_asks_for_the_order_whose_turn_it_is<'a, P>(
    run: OrderRun<'a, Signing, P>,
    drawn: i64,
    step: Result<RunStep<'a, Signing, P>, Error>,
)
    requires
        call_ensures(OrderRun::<'a, Signing, P>::next_with, (run, drawn), step),
    ensures
        ({
            let order = run@.orders[run@.results.len() as int];
            let id: i64 = match order.client_order_id {
                ClientOrderIdStrategy::Manual(given) => given,
                ClientOrderIdStrategy::Auto => drawn,
            };
            match step {
                Ok(RunStep::Call(call, pending)) => {
                    &&& run@.results.len() < run@.orders.len()
                    &&& order.sign_plan(id) == Ok::<SignCall, Error>(call)
                    &&& pending@.orders == run@.orders
                    &&& pending@.results == run@.results
                    &&& match call {
                        SignCall::SignCreateOrder(sent) => {
                            &&& sent.client_order_id == id
                            &&& sent.reduce_only == order.reduce_only
                            &&& order.qty == Some(BaseQty(sent.base_amount))
                        },
                        SignCall::SignMarketOrderLimitedSlippage(sent) => {
                            &&& sent.client_order_id == id
                            &&& sent.reduce_only == order.reduce_only
                            &&& order.qty == Some(BaseQty(sent.base_amount))
                        },
                    }
                },
                Ok(RunStep::Finished(given)) => {
                    &&& run@.results.len() == run@.orders.len()
                    &&& given@ == run@.results
                },
                Err(error) => {
                    &&& run@.results.len() < run@.orders.len()
                    &&& order.sign_plan(id) == Err::<SignCall, Error>(error)
                },
            }
        }),
{
}

/// Where the clock is at hand to draw from, the step is the same: an order that was given an
/// identifier goes out under it, and another under one that the clock gave, which is never
/// negative. Once every order has given a result, the results are handed out.
pub proof fn signing_run_draws_only_what_is_wanted<'a, P>(
    run: OrderRun<'a, Signing, P>,
    step: Result<RunStep<'a, Signing, P>, Error>,
)
    requires
        call_ensures(OrderRun::<'a, Signing, P>::next, (run,), step),
    ensures
        run@.results.len() == run@.orders.len() ==> (step matches Ok(RunStep::Finished(given))
            && given@ == run@.results),
        run@.results.len() != run@.orders.len() ==> {
            let order = run@.orders[run@.results.len() as int];
            let asked = |id: i64|
                match step {
                    Ok(RunStep::Call(call, pending)) => {
                        &&& order.sign_plan(id) == Ok::<SignCall, Error>(call)
                        &&& pending@.orders == run@.orders
                        &&& pending@.results == run@.results
                    },
                    Ok(RunStep::Finished(_)) => false,
                    Err(error) => order.sign_plan(id) == Err::<SignCall, Error>(error),
                };
            match order.client_order_id {
                ClientOrderIdStrategy::Manual(given) => asked(given),
                ClientOrderIdStrategy::Auto => exists|id: i64| #[trigger]
                    crate::clock::drawn_from_clock(id) && 0 <= id < i64::MAX && asked(id),
            }
        },
{
}

/// A bracket that is being signed signs its orders in turn: the signer is asked for exactly what
/// the order after the last that gave a result is signed with, under the identifier that it was
/// given or that was drawn for it, and reduce-only exactly where it was set so. Once all of them
/// have given results, the entry's is handed out and then those of the protective orders, of which
/// there must be one.
pub proof fn signing_bracket_asks_for_the_order_whose_turn_it_is<'a, P>(
    run: BracketRun<'a, Signing, P>,
    drawn: i64,
    step: Result<BracketStep<'a, Signing, P>, Error>,
)
    requires
        call_ensures(BracketRun::<'a, Signing, P>::next_with, (run, drawn), step),
    ensures
        ({
            let order = run@.orders[run@.results.len() as int];
            let id: i64 = match order.client_order_id {
                ClientOrderIdStrategy::Manual(given) => given,
                ClientOrderIdStrategy::Auto => drawn,
            };
            match step {
                Ok(BracketStep::Call(call, pending)) => {
                    &&& run@.results.len() < run@.orders.len()
                    &&& order.sign_plan(id) == Ok::<SignCall, Error>(call)
                    &&& pending@.orders == run@.orders
                    &&& pending@.results == run@.results
                    &&& match call {
                        SignCall::SignCreateOrder(sent) => {
                            &&& sent.client_order_id == id
                            &&& sent.reduce_only == order.reduce_only
                            &&& order.qty == Some(BaseQty(sent.base_amount))
                        },
                        SignCall::SignMarketOrderLimitedSlippage(sent) => {
                            &&& sent.client_order_id == id
                            &&& sent.reduce_only == order.reduce_only
                            &&& order.qty == Some(BaseQty(sent.base_amount))
                        },
                    }
                },
                Ok(BracketStep::Finished { entry, legs }) => {
                    &&& run@.results.len() == run@.orders.len()
                    &&& legs@.len() >= 1
                    &&& seq![entry] + legs@ == run@.results
                },
                Err(error) => if run@.results.len() < run@.orders.len() {
                    order.sign_plan(id) == Err::<SignCall, Error>(error)
                } else {
                    &&& run@.results.len() == 1
                    &&& error == (Error::InvalidConfig {
                        field: "bracket",
                        why: "configure at least one protective order",
                    })
                },
            }
        }),
{
}

/// Where the clock is at hand to draw from, the step is the same: an order that was given an
/// identifier goes out under it, and another under one that the clock gave, which is never
/// negative. Once every order has given a result, the results are handed out.
pub proof fn signing_bracket_draws_only_what_is_wanted<'a, P>(
    run: BracketRun<'a, Signing, P>,
    step: Result<BracketStep<'a, Signing, P>, Error>,
)
    requires
        call_ensures(BracketRun::<'a, Signing, P>::next, (run,), step),
    ensures
        run@.results.len() == run@.orders.len() ==> {
            ||| run@.results.len() == 1 && step == Err::<BracketStep<'a, Signing, P>, Error>(
                Error::InvalidConfig {
                    field: "bracket",
                    why: "configure at least one protective order",
                },
            )
            ||| run@.results.len() > 1 && (step matches Ok(BracketStep::Finished { entry, legs })
                && seq![entry] + legs@ == run@.results)
        },
        run@.results.len() != run@.orders.len() ==> {
            let order = run@.orders[run@.results.len() as int];
            let asked = |id: i64|
                match step {
                    Ok(BracketStep::Call(call, pending)) => {
                        &&& order.sign_plan(id) == Ok::<SignCall, Error>(call)
                        &&& pending@.orders == run@.orders
                        &&& pending@.results == run@.results
                    },
                    Ok(BracketStep::Finished { .. }) => false,
                    Err(error) => order.sign_plan(id) == Err::<SignCall, Error>(error),
                };
            match order.client_order_id {
                ClientOrderIdStrategy::Manual(given) => asked(given),
                ClientOrderIdStrategy::Auto => exists|id: i64| #[trigger]
                    crate::clock::drawn_from_clock(id) && 0 <= id < i64::MAX && asked(id),
            }
        },
{
}

/// A bracket starts as its entry alone.
pub proof fn bracket_starts_with_its_entry<'a>(
    entry: OrderBuilder<'a, OrderStateReady>,
    bracket: BracketBuilder<'a>,
)
    requires
        call_ensures(OrderBuilder::<'a, OrderStateReady>::bracket, (entry,), bracket),
    ensures
        bracket@.entry == entry@,
        bracket@.take_profit is None,
        bracket@.stop_loss is None,
{
}

/// A bracket goes out from its entry on, with one order for each protective order that was asked
/// for: what takes the profit before what stops the loss.
pub proof fn bracket_goes_out_from_its_entry_on<'a, T, R, P>(
    bracket: BracketBuilder<'a>,
    submitting: BracketRun<'a, Submitting, Submission<T, R>>,
    signing: BracketRun<'a, Signing, P>,
)
    requires
        call_ensures(BracketBuilder::<'a>::submit::<T, R>, (bracket,), submitting),
        call_ensures(BracketBuilder::<'a>::sign::<P>, (bracket,), signing),
    ensures
        submitting@.results.len() == 0,
        signing@.results.len() == 0,
        submitting@.orders == bracket@.orders(),
        signing@.orders == bracket@.orders(),
        submitting@.orders[0] == bracket@.entry,
        bracket@.take_profit is None && bracket@.stop_loss is None ==> submitting@.orders.len()
            == 1,
        bracket@.take_profit is Some ==> {
            &&& submitting@.orders.len() >= 2
            &&& submitting@.orders[1].kind == bracket@.take_profit
        },
        bracket@.stop_loss is Some ==> {
            &&& submitting@.orders.len() >= 2
            &&& submitting@.orders.last().kind == bracket@.stop_loss
        },
        bracket@.take_profit is Some && bracket@.stop_loss is Some ==> submitting@.orders.len()
            == 3,
        bracket@.take_profit is Some && bracket@.stop_loss is None ==> submitting@.orders.len()
            == 2,
        bracket@.take_profit is None && bracket@.stop_loss is Some ==> submitting@.orders.len()
            == 2,
{
}

/// The protective orders of a bracket follow its entry in the market, the size, the time in force,
/// the expiry and the API key; they stand on the other side and are reduce-only, have identifiers
/// drawn for them, and take over no nonce, no offset and no market settings.
pub proof fn protective_orders_follow_their_entry(bracket: BracketModel, i: int)
    requires
        1 <= i < bracket.orders().len(),
    ensures
        ({
            let leg = bracket.orders()[i];
            &&& leg.client == bracket.entry.client
            &&& leg.market == bracket.entry.market
            &&& leg.qty == bracket.entry.qty
            &&& leg.tif == bracket.entry.tif
            &&& leg.expiry == bracket.entry.expiry
            &&& leg.api_key_override == bracket.entry.api_key_override
            &&& bracket.entry.side == Some(OrderSide::Bid) ==> leg.side == Some(OrderSide::Ask)
            &&& bracket.entry.side == Some(OrderSide::Ask) ==> leg.side == Some(OrderSide::Bid)
            &&& bracket.entry.side is None ==> leg.side is None
            &&& leg.reduce_only
            &&& leg.client_order_id is Auto
            &&& leg.nonce is None
            &&& leg.price_offset_ticks == 0
            &&& leg.slippage is None
            &&& leg.avg_execution_override is None
            &&& leg.kind is Some
            &&& leg.kind == bracket.take_profit || leg.kind == bracket.stop_loss
        }),
{
}

/// What takes the profit of a bracket at the market price is sent with the trigger that the bracket
/// was given, and no price; it is signed with the same. It closes what the entry opened, and it is
/// accepted wherever the entry is complete and not post-only and the trigger fits.
pub proof fn bracket_take_profit_asks_for_what_it_was_told<'a>(
    before: BracketBuilder<'a>,
    trigger: Price,
    told: BracketBuilder<'a>,
    bracket: BracketBuilder<'a>,
    id: i64,
)
    requires
        call_ensures(BracketBuilder::<'a>::take_profit, (before, trigger), told),
        bracket@.take_profit == told@.take_profit,
    ensures
        told@.entry == before@.entry,
        told@.stop_loss == before@.stop_loss,
        bracket@.orders()[1].submit_plan(id) is Ok <==> {
            &&& bracket@.entry.side is Some
            &&& bracket@.entry.qty is Some
            &&& bracket@.entry.client.signer is Some
            &&& i32::MIN <= trigger.0 <= i32::MAX
            &&& bracket@.entry.tif != Some(OrderTimeInForce::PostOnly)
        },
        bracket@.orders()[1].submit_plan(id) matches Ok(call) ==> {
            let entry = bracket@.entry;
            let codes = entry.client.signer->0.codes;
            &&& call matches SubmitCall::CreateOrder(sent)
            &&& bracket@.orders()[1].sign_plan(id) == Ok::<SignCall, Error>(
                SignCall::SignCreateOrder(sent),
            )
            &&& sent.trigger_price == trigger.0
            &&& sent.price == -1
            &&& sent.order_type == codes.order_type_take_profit
            &&& sent.client_order_id == id
            &&& entry.market == MarketId(sent.market)
            &&& entry.qty == Some(BaseQty(sent.base_amount))
            &&& sent.is_ask <==> entry.side == Some(OrderSide::Bid)
            &&& sent.reduce_only
            &&& sent.nonce is None
            &&& sent.api_key is Some <==> entry.api_key_override is Some
            &&& sent.api_key is Some ==> (entry.api_key_override->0).0 == sent.api_key->0
            &&& entry.tif is None ==> sent.time_in_force
                == codes.time_in_force_immediate_or_cancel
            &&& entry.tif == Some(OrderTimeInForce::GoodTillTime) ==> sent.time_in_force
                == codes.time_in_force_good_till_time
            &&& entry.tif == Some(OrderTimeInForce::ImmediateOrCancel) ==> sent.time_in_force
                == codes.time_in_force_immediate_or_cancel
            &&& entry.tif == Some(OrderTimeInForce::PostOnly) ==> sent.time_in_force
                == codes.time_in_force_post_only
            &&& entry.expiry is Some ==> sent.expiry == entry.expiry->0.unix_millis
            &&& entry.expiry is None && entry.tif is None ==> sent.expiry
                == codes.default_ioc_expiry
        },
{
}

/// What takes the profit of a bracket at a limit price is sent with the trigger and the limit price
/// that the bracket was given, each in its own place; it is signed with the same. It closes what
/// the entry opened, and it is accepted wherever the entry is complete and its own prices fit.
pub proof fn bracket_take_profit_limit_asks_for_what_it_was_told<'a>(
    before: BracketBuilder<'a>,
    trigger: Price,
    price: Price,
    told: BracketBuilder<'a>,
    bracket: BracketBuilder<'a>,
    id: i64,
)
    requires
        call_ensures(BracketBuilder::<'a>::take_profit_limit, (before, trigger, price), told),
        bracket@.take_profit == told@.take_profit,
    ensures
        told@.entry == before@.entry,
        told@.stop_loss == before@.stop_loss,
        bracket@.orders()[1].submit_plan(id) is Ok <==> {
            &&& bracket@.entry.side is Some
            &&& bracket@.entry.qty is Some
            &&& bracket@.entry.client.signer is Some
            &&& i32::MIN <= trigger.0 <= i32::MAX
            &&& i32::MIN <= price.0 <= i32::MAX
        },
        bracket@.orders()[1].submit_plan(id) matches Ok(call) ==> {
            let entry = bracket@.entry;
            let codes = entry.client.signer->0.codes;
            &&& call matches SubmitCall::CreateOrder(sent)
            &&& bracket@.orders()[1].sign_plan(id) == Ok::<SignCall, Error>(
                SignCall::SignCreateOrder(sent),
            )
            &&& sent.trigger_price == trigger.0
            &&& sent.price == price.0
            &&& sent.order_type == codes.order_type_take_profit_limit
            &&& sent.client_order_id == id
            &&& entry.market == MarketId(sent.market)
            &&& entry.qty == Some(BaseQty(sent.base_amount))
            &&& sent.is_ask <==> entry.side == Some(OrderSide::Bid)
            &&& sent.reduce_only
            &&& sent.nonce is None
            &&& sent.api_key is Some <==> entry.api_key_override is Some
            &&& sent.api_key is Some ==> (entry.api_key_override->0).0 == sent.api_key->0
            &&& entry.tif is None ==> sent.time_in_force == codes.time_in_force_good_till_time
            &&& entry.tif == Some(OrderTimeInForce::GoodTillTime) ==> sent.time_in_force
                == codes.time_in_force_good_till_time
            &&& entry.tif == Some(OrderTimeInForce::ImmediateOrCancel) ==> sent.time_in_force
                == codes.time_in_force_immediate_or_cancel
            &&& entry.tif == Some(OrderTimeInForce::PostOnly) ==> sent.time_in_force
                == codes.time_in_force_post_only
            &&& entry.expiry is Some ==> sent.expiry == entry.expiry->0.unix_millis
            &&& entry.expiry is None && entry.tif is None ==> sent.expiry == -1
        },
{
}

/// What stops the loss of a bracket at the market price is sent with the trigger that the bracket
/// was given, and no price; it is signed with the same. It closes what the entry opened, and it is
/// accepted wherever the entry is complete and not post-only and the trigger fits.
pub proof fn bracket_stop_loss_asks_for_what_it_was_told<'a>(
    before: BracketBuilder<'a>,
    trigger: Price,
    told: BracketBuilder<'a>,
    bracket: BracketBuilder<'a>,
    id: i64,
)
    requires
        call_ensures(BracketBuilder::<'a>::stop_loss, (before, trigger), told),
        bracket@.stop_loss == told@.stop_loss,
    ensures
        told@.entry == before@.entry,
        told@.take_profit == before@.take_profit,
        bracket@.orders().last().submit_plan(id) is Ok <==> {
            &&& bracket@.entry.side is Some
            &&& bracket@.entry.qty is Some
            &&& bracket@.entry.client.signer is Some
            &&& i32::MIN <= trigger.0 <= i32::MAX
            &&& bracket@.entry.tif != Some(OrderTimeInForce::PostOnly)
        },
        bracket@.orders().last().submit_plan(id) matches Ok(call) ==> {
            let entry = bracket@.entry;
            let codes = entry.client.signer->0.codes;
            &&& call matches SubmitCall::CreateOrder(sent)
            &&& bracket@.orders().last().sign_plan(id) == Ok::<SignCall, Error>(
                SignCall::SignCreateOrder(sent),
            )
            &&& sent.trigger_price == trigger.0
            &&& sent.price == -1
            &&& sent.order_type == codes.order_type_stop_loss
            &&& sent.client_order_id == id
            &&& entry.market == MarketId(sent.market)
            &&& entry.qty == Some(BaseQty(sent.base_amount))
            &&& sent.is_ask <==> entry.side == Some(OrderSide::Bid)
            &&& sent.reduce_only
            &&& sent.nonce is None
            &&& sent.api_key is Some <==> entry.api_key_override is Some
            &&& sent.api_key is Some ==> (entry.api_key_override->0).0 == sent.api_key->0
            &&& entry.tif is None ==> sent.time_in_force
                == codes.time_in_force_immediate_or_cancel
            &&& entry.tif == Some(OrderTimeInForce::GoodTillTime) ==> sent.time_in_force
                == codes.time_in_force_good_till_time
            &&& entry.tif == Some(OrderTimeInForce::ImmediateOrCancel) ==> sent.time_in_force
                == codes.time_in_force_immediate_or_cancel
            &&& entry.tif == Some(OrderTimeInForce::PostOnly) ==> sent.time_in_force
                == codes.time_in_force_post_only
            &&& entry.expiry is Some ==> sent.expiry == entry.expiry->0.unix_millis
            &&& entry.expiry is None && entry.tif is None ==> sent.expiry
                == codes.default_ioc_expiry
        },
{
}

/// What stops the loss of a bracket at a limit price is sent with the trigger and the limit price
/// that the bracket was given, each in its own place; it is signed with the same. It closes what
/// the entry opened, and it is accepted wherever the entry is complete and its own prices fit.
pub proof fn bracket_stop_loss_limit_asks_for_what_it_was_told<'a>(
    before: BracketBuilder<'a>,
    trigger: Price,
    price: Price,
    told: BracketBuilder<'a>,
    bracket: BracketBuilder<'a>,
    id: i64,
)
    requires
        call_ensures(BracketBuilder::<'a>::stop_loss_limit, (before, trigger, price), told),
        bracket@.stop_loss == told@.stop_loss,
    ensures
        told@.entry == before@.entry,
        told@.take_profit == before@.take_profit,
        bracket@.orders().last().submit_plan(id) is Ok <==> {
            &&& bracket@.entry.side is Some
            &&& bracket@.entry.qty is Some
            &&& bracket@.entry.client.signer is Some
            &&& i32::MIN <= trigger.0 <= i32::MAX
            &&& i32::MIN <= price.0 <= i32::MAX
        },
        bracket@.orders().last().submit_plan(id) matches Ok(call) ==> {
            let entry = bracket@.entry;
            let codes = entry.client.signer->0.codes;
            &&& call matches SubmitCall::CreateOrder(sent)
            &&& bracket@.orders().last().sign_plan(id) == Ok::<SignCall, Error>(
                SignCall::SignCreateOrder(sent),
            )
            &&& sent.trigger_price == trigger.0
            &&& sent.price == price.0
            &&& sent.order_type == codes.order_type_stop_loss_limit
            &&& sent.client_order_id == id
            &&& entry.market == MarketId(sent.market)
            &&& entry.qty == Some(BaseQty(sent.base_amount))
            &&& sent.is_ask <==> entry.side == Some(OrderSide::Bid)
            &&& sent.reduce_only
            &&& sent.nonce is None
            &&& sent.api_key is Some <==> entry.api_key_override is Some
            &&& sent.api_key is Some ==> (entry.api_key_override->0).0 == sent.api_key->0
            &&& entry.tif is None ==> sent.time_in_force == codes.time_in_force_good_till_time
            &&& entry.tif == Some(OrderTimeInForce::GoodTillTime) ==> sent.time_in_force
                == codes.time_in_force_good_till_time
            &&& entry.tif == Some(OrderTimeInForce::ImmediateOrCancel) ==> sent.time_in_force
                == codes.time_in_force_immediate_or_cancel
            &&& entry.tif == Some(OrderTimeInForce::PostOnly) ==> sent.time_in_force
                == codes.time_in_force_post_only
            &&& entry.expiry is Some ==> sent.expiry == entry.expiry->0.unix_millis
            &&& entry.expiry is None && entry.tif is None ==> sent.expiry == -1
        },
{
}

} // verus!
