use lighter_client::client::LighterClient;
use lighter_client::errors::{Error, SignerError};
use lighter_client::order::{OrderBuilder, OrderStateReady};
use lighter_client::order_model::{CreateOrderParams, SignCall, SubmitCall};
use lighter_client::run::{
    BracketBuilder, BracketStep, OrderBatchBuilder, OrderRun, RunStep, Signing, Submitting,
};
use lighter_client::types::{
    AccountId, ApiKeyIndex, BaseQty, Configuration, Expiry, MarketId, MaxSlippage, Nonce, Price,
    SignerClient, SignerCodes, WsConfig,
};

fn client() -> LighterClient {
    let ws = WsConfig { host: "ws.example".to_string(), path: "/stream".to_string() };
    let signer = SignerClient {
        configuration: Configuration { base_path: "https://signer.example".to_string() },
        codes: SignerCodes {
            order_type_limit: 10,
            order_type_market: 11,
            order_type_stop_loss: 12,
            order_type_stop_loss_limit: 13,
            order_type_take_profit: 14,
            order_type_take_profit_limit: 15,
            time_in_force_immediate_or_cancel: 20,
            time_in_force_good_till_time: 21,
            time_in_force_post_only: 22,
            default_ioc_expiry: 7,
        },
    };
    let client = LighterClient::new("https://api.example".to_string(), ws).unwrap();
    client.with_account(AccountId(42), Ok(signer)).ok().unwrap().0
}

fn order(c: &LighterClient, id: i64) -> OrderBuilder<'_, OrderStateReady> {
    c.order(MarketId(3)).buy().qty(BaseQty(500)).limit(Price(100 + id)).with_client_order_id(id)
}

fn created(call: &SubmitCall) -> CreateOrderParams {
    match call {
        SubmitCall::CreateOrder(params) => *params,
        other => panic!("{other:?}"),
    }
}

fn drive(
    run: OrderRun<'_, Submitting, lighter_client::submission::Submission<i64, u16>>,
    fail_at: Option<usize>,
) -> (Vec<i64>, Result<Vec<i64>, Error>) {
    let mut asked = Vec::new();
    let mut run = run;
    loop {
        match run.next_with(1234) {
            Err(error) => return (asked, Err(error)),
            Ok(RunStep::Finished(results)) => {
                return (asked, Ok(results.into_iter().map(|s| s.into_payload()).collect()));
            }
            Ok(RunStep::Call(call, pending)) => {
                let id = created(&call).client_order_id;
                asked.push(id);
                let reply = if fail_at == Some(asked.len() - 1) {
                    Err(SignerError { message: "down".to_string() })
                } else {
                    Ok((id * 10, 200))
                };
                match pending.complete(lighter_client::submission::Submission::from_reply(reply)) {
                    Ok(next) => run = next,
                    Err(error) => return (asked, Err(error)),
                }
            }
        }
    }
}

#[test]
fn batch_goes_out_in_order() {
    let c = client();
    let mut batch = OrderBatchBuilder::new().push(order(&c, 1)).push(order(&c, 2));
    batch.add(order(&c, 3)).add(order(&c, 4));
    let (asked, outcome) = drive(batch.submit_all(), None);
    assert_eq!(asked, vec![1, 2, 3, 4]);
    assert_eq!(outcome, Ok(vec![10, 20, 30, 40]));
}

#[test]
fn empty_batch_asks_nothing() {
    let c = client();
    let (asked, outcome) = drive(c.order_batch().submit_all(), None);
    assert!(asked.is_empty());
    assert_eq!(outcome, Ok(vec![]));
    let (asked, _) = drive(OrderBatchBuilder::default().submit_all(), None);
    assert!(asked.is_empty());
}

#[test]
fn failure_ends_a_batch() {
    let c = client();
    let batch = c.order_batch().push(order(&c, 1)).push(order(&c, 2)).push(order(&c, 3));
    let (asked, outcome) = drive(batch.submit_all(), Some(1));
    assert_eq!(asked, vec![1, 2]);
    assert_eq!(outcome, Err(Error::Signer(SignerError { message: "down".to_string() })));
}

#[test]
fn unsound_order_ends_a_batch_when_its_turn_comes() {
    let c = client();
    let unsound = order(&c, 2).with_price_offset(i64::from(i32::MAX));
    let batch = c.order_batch().push(order(&c, 1)).push(unsound).push(order(&c, 3));
    let (asked, outcome) = drive(batch.submit_all(), None);
    assert_eq!(asked, vec![1]);
    let error = Error::InvalidConfig { field: "price", why: "price exceeds supported range" };
    assert_eq!(outcome, Err(error));
}

#[test]
fn identifiers_are_drawn_when_a_turn_comes() {
    let c = client();
    let batch = c.order_batch().push(order(&c, 1).auto_client_id()).push(order(&c, 2));
    let (asked, _) = drive(batch.submit_all(), None);
    assert_eq!(asked, vec![1234, 2]);
    let run: OrderRun<'_, Signing, ()> = c.order_batch().push(order(&c, 1).auto_client_id()).sign_all();
    match run.next().ok() {
        Some(RunStep::Call(SignCall::SignCreateOrder(params), _)) => {
            assert!(params.client_order_id > 1_600_000_000_000);
        }
        _ => panic!("expected a call"),
    }
}

#[test]
fn batch_is_signed_in_order() {
    let c = client();
    let mut run: OrderRun<'_, Signing, i64> =
        c.order_batch().push(order(&c, 1)).push(order(&c, 2)).sign_all();
    let results = loop {
        match run.next().ok().unwrap() {
            RunStep::Call(SignCall::SignCreateOrder(params), pending) => {
                run = pending.complete(Ok(params.client_order_id)).ok().unwrap();
            }
            RunStep::Call(other, _) => panic!("{other:?}"),
            RunStep::Finished(results) => break results,
        }
    };
    assert_eq!(results, vec![1, 2]);
}

fn drive_bracket(
    bracket: BracketBuilder<'_>,
) -> (Vec<CreateOrderParams>, Result<(i64, Vec<i64>), Error>) {
    let mut asked = Vec::new();
    let mut run = bracket.submit::<i64, u16>();
    loop {
        match run.next_with(1234) {
            Err(error) => return (asked, Err(error)),
            Ok(BracketStep::Finished { entry, legs }) => {
                let legs = legs.into_iter().map(|leg| leg.into_payload()).collect();
                return (asked, Ok((entry.into_payload(), legs)));
            }
            Ok(BracketStep::Call(call, pending)) => {
                let params = created(&call);
                asked.push(params);
                let reply = Ok((params.order_type as i64, 200));
                run = pending
                    .complete(lighter_client::submission::Submission::from_reply(reply))
                    .ok()
                    .unwrap();
            }
        }
    }
}

#[test]
fn bracket_sends_entry_and_legs() {
    let c = client();
    let entry = order(&c, 5)
        .expires_at(Expiry { unix: 1700, unix_millis: 1_700_123 })
        .with_api_key(ApiKeyIndex(4))
        .with_nonce(Nonce(9))
        .with_price_offset(1)
        .gtt();
    let bracket = entry.bracket().stop_loss_limit(Price(80), Price(79)).take_profit(Price(150));
    let (asked, outcome) = drive_bracket(bracket);
    let entry = CreateOrderParams {
        market: 3,
        client_order_id: 5,
        base_amount: 500,
        price: 106,
        is_ask: false,
        order_type: 10,
        time_in_force: 21,
        reduce_only: false,
        trigger_price: 0,
        expiry: 1_700_123,
        nonce: Some(9),
        api_key: Some(4),
    };
    let leg = CreateOrderParams {
        client_order_id: 1234,
        is_ask: true,
        reduce_only: true,
        nonce: None,
        ..entry
    };
    assert_eq!(
        asked,
        vec![
            entry,
            CreateOrderParams { price: -1, order_type: 14, trigger_price: 150, ..leg },
            CreateOrderParams { price: 79, order_type: 13, trigger_price: 80, ..leg },
        ]
    );
    assert_eq!(outcome, Ok((10, vec![14, 13])));
}

#[test]
fn bracket_around_a_guarded_market_order() {
    let c = client();
    let entry = || c.order(MarketId(3)).sell().qty(BaseQty(500)).with_api_key(ApiKeyIndex(4)).market();
    let guard = MaxSlippage { bits: 0.5f64.to_bits() };
    for entry in [entry().with_slippage(guard), entry().with_slippage_check(guard)] {
        let run = entry.with_nonce(Nonce(9)).bracket().take_profit(Price(90)).submit::<i64, u16>();
        let (opened, pending) = match run.next_with(1234).ok().unwrap() {
            BracketStep::Call(SubmitCall::CreateMarketOrderLimitedSlippage(params), pending)
            | BracketStep::Call(SubmitCall::CreateMarketOrderIfSlippage(params), pending) => {
                (params, pending)
            }
            _ => panic!("expected a guarded market order"),
        };
        let reply = lighter_client::submission::Submission::from_reply(Ok((1, 200)));
        let run = pending.complete(reply).ok().unwrap();
        let closed = match run.next_with(1234).ok().unwrap() {
            BracketStep::Call(call, _) => created(&call),
            BracketStep::Finished { .. } => panic!("the leg has not gone out"),
        };
        assert_eq!((closed.market, closed.base_amount), (opened.market, opened.base_amount));
        assert_eq!((opened.is_ask, closed.is_ask), (true, false));
        assert_eq!((opened.api_key, closed.api_key), (Some(4), Some(4)));
        assert_eq!((opened.nonce, closed.nonce), (Some(9), None));
        assert!(closed.reduce_only);
    }
}

#[test]
fn bracket_with_one_leg() {
    let c = client();
    let (_, outcome) = drive_bracket(order(&c, 5).bracket().stop_loss(Price(80)));
    assert_eq!(outcome, Ok((10, vec![12])));
    let (_, outcome) = drive_bracket(order(&c, 5).bracket().take_profit_limit(Price(80), Price(81)));
    assert_eq!(outcome, Ok((10, vec![15])));
}

#[test]
fn bracket_without_legs_is_refused_after_the_entry() {
    let c = client();
    let (asked, outcome) = drive_bracket(order(&c, 5).bracket());
    assert_eq!(asked.len(), 1);
    let error = Error::InvalidConfig {
        field: "bracket",
        why: "configure at least one protective order",
    };
    assert_eq!(outcome, Err(error));
}

#[test]
fn post_only_bracket_fails_at_a_market_leg() {
    let c = client();
    let (asked, outcome) = drive_bracket(order(&c, 5).post_only().bracket().take_profit(Price(9)));
    assert_eq!(asked.len(), 1);
    let error = Error::InvalidConfig {
        field: "time_in_force",
        why: "post-only is unsupported for this order type",
    };
    assert_eq!(outcome, Err(error));
}

#[test]
fn bracket_is_signed() {
    let c = client();
    let mut run = order(&c, 5).bracket().take_profit(Price(150)).sign::<i32>();
    let (entry, legs) = loop {
        match run.next().ok().unwrap() {
            BracketStep::Call(SignCall::SignCreateOrder(params), pending) => {
                run = pending.complete(Ok(params.order_type)).ok().unwrap();
            }
            BracketStep::Call(other, _) => panic!("{other:?}"),
            BracketStep::Finished { entry, legs } => break (entry, legs),
        }
    };
    assert_eq!((entry, legs), (10, vec![14]));
}

#[test]
fn bracket_entry_with_slippage_check_is_not_signed() {
    let c = client();
    let entry = c
        .order(MarketId(3))
        .buy()
        .qty(BaseQty(1))
        .market()
        .with_slippage_check(MaxSlippage { bits: 0 });
    let run = entry.bracket().take_profit(Price(150)).sign::<i32>();
    let error = Error::InvalidConfig {
        field: "slippage",
        why: "slippage check is unavailable when signing orders",
    };
    assert_eq!(run.next().err(), Some(error));
}

#[test]
fn failing_leg_ends_a_bracket() {
    let c = client();
    let run = order(&c, 5).bracket().take_profit(Price(150)).submit::<i64, u16>();
    match run.next().ok().unwrap() {
        BracketStep::Call(_, pending) => {
            let failure = SignerError { message: "down".to_string() };
            let ended = pending.complete(Err(Error::from(failure.clone())));
            assert_eq!(ended.err(), Some(Error::Signer(failure)));
        }
        BracketStep::Finished { .. } => panic!("nothing has gone out"),
    }
}
