use lighter_client::client::LighterClient;
use lighter_client::clock::{client_order_id_from_millis, generate_client_order_id};
use lighter_client::errors::{Error, SignerError};
use lighter_client::order::{default_order_expiry, resolve_time_in_force};
use lighter_client::order_model::{
    CreateOrderParams, MarketOrderParams, OrderSide, OrderTimeInForce, SignCall, SubmitCall,
};
use lighter_client::submission::Submission;
use lighter_client::types::{
    AccountId, ApiKeyIndex, BaseQty, Configuration, Expiry, MarketId, MaxSlippage, Nonce, Price,
    SignerClient, SignerCodes, UsdcAmount, WsConfig,
};

fn codes() -> SignerCodes {
    SignerCodes {
        order_type_limit: 10,
        order_type_market: 11,
        order_type_stop_loss: 12,
        order_type_stop_loss_limit: 13,
        order_type_take_profit: 14,
        order_type_take_profit_limit: 15,
        time_in_force_immediate_or_cancel: 20,
        time_in_force_good_till_time: 21,
        time_in_force_post_only: 22,
        default_ioc_expiry: 7,
    }
}

fn anonymous() -> LighterClient {
    let ws = WsConfig { host: "ws.example".to_string(), path: "/stream".to_string() };
    LighterClient::new("https://api.example".to_string(), ws).unwrap()
}

fn client() -> LighterClient {
    let signer = SignerClient {
        configuration: Configuration { base_path: "https://signer.example".to_string() },
        codes: codes(),
    };
    anonymous().with_account(AccountId(42), Ok(signer)).ok().unwrap().0
}

fn invalid(field: &'static str, why: &'static str) -> Error {
    Error::InvalidConfig { field, why }
}

fn half() -> MaxSlippage {
    MaxSlippage { bits: 0.5f64.to_bits() }
}

fn limit_params() -> CreateOrderParams {
    CreateOrderParams {
        market: 3,
        client_order_id: 0,
        base_amount: 500,
        price: 1000,
        is_ask: false,
        order_type: 10,
        time_in_force: 21,
        reduce_only: false,
        trigger_price: 0,
        expiry: -1,
        nonce: None,
        api_key: None,
    }
}

#[test]
fn plain_limit_order() {
    let c = client();
    let call = c.order(MarketId(3)).buy().qty(BaseQty(500)).limit(Price(1000)).submit();
    assert_eq!(call, Ok(SubmitCall::CreateOrder(limit_params())));
}

#[test]
fn limit_order_with_every_setting() {
    let c = client();
    let call = c
        .order(MarketId(3))
        .sell()
        .qty(BaseQty(500))
        .limit(Price(1000))
        .post_only()
        .reduce_only()
        .expires_at(Expiry { unix: 1700, unix_millis: 1_700_123 })
        .with_nonce(Nonce(9))
        .with_api_key(ApiKeyIndex(4))
        .with_client_order_id(77)
        .with_price_offset(-25)
        .submit();
    assert_eq!(
        call,
        Ok(SubmitCall::CreateOrder(CreateOrderParams {
            client_order_id: 77,
            price: 975,
            is_ask: true,
            time_in_force: 22,
            reduce_only: true,
            expiry: 1_700_123,
            nonce: Some(9),
            api_key: Some(4),
            ..limit_params()
        }))
    );
}

#[test]
fn market_order_defaults() {
    let c = client();
    let call = c.order(MarketId(3)).buy().qty(BaseQty(500)).market().submit();
    assert_eq!(
        call,
        Ok(SubmitCall::CreateOrder(CreateOrderParams {
            price: -1,
            order_type: 11,
            time_in_force: 20,
            expiry: 7,
            ..limit_params()
        }))
    );
}

#[test]
fn average_price_before_or_after_market() {
    let c = client();
    let before = c
        .order(MarketId(3))
        .buy()
        .qty(BaseQty(500))
        .with_avg_execution_price(Price(88))
        .market()
        .submit();
    let after = c
        .order(MarketId(3))
        .buy()
        .qty(BaseQty(500))
        .market()
        .with_avg_execution_price(Price(88))
        .submit();
    assert_eq!(before, after);
    match before {
        Ok(SubmitCall::CreateOrder(params)) => assert_eq!(params.price, 88),
        other => panic!("{other:?}"),
    }
}

fn guarded(ideal_price: Option<i64>) -> MarketOrderParams {
    MarketOrderParams {
        market: 3,
        client_order_id: 0,
        base_amount: 500,
        max_slippage: half(),
        is_ask: false,
        reduce_only: false,
        nonce: None,
        api_key: None,
        ideal_price,
    }
}

#[test]
fn slippage_before_or_after_market() {
    let c = client();
    let start = || c.order(MarketId(3)).buy().qty(BaseQty(500));
    let expected = Ok(SubmitCall::CreateMarketOrderLimitedSlippage(guarded(None)));
    assert_eq!(start().with_slippage(half()).market().submit(), expected);
    assert_eq!(start().market().with_slippage(half()).submit(), expected);
    assert_eq!(
        start().with_slippage_check(half()).with_slippage(half()).market().submit(),
        expected
    );
    assert_eq!(
        start().market().with_slippage_at_price(half(), Price(99)).submit(),
        Ok(SubmitCall::CreateMarketOrderLimitedSlippage(guarded(Some(99))))
    );
    assert_eq!(
        start().market().with_slippage_check(half()).submit(),
        Ok(SubmitCall::CreateMarketOrderIfSlippage(guarded(None)))
    );
    assert_eq!(
        start().market().with_slippage_check_at_price(half(), Price(99)).submit(),
        Ok(SubmitCall::CreateMarketOrderIfSlippage(guarded(Some(99))))
    );
}

#[test]
fn slippage_guard_ignores_an_unusable_average_price() {
    let c = client();
    let call = c
        .order(MarketId(3))
        .buy()
        .qty(BaseQty(500))
        .with_avg_execution_price(Price(i64::MAX))
        .with_slippage(half())
        .market()
        .submit();
    assert_eq!(call, Ok(SubmitCall::CreateMarketOrderLimitedSlippage(guarded(None))));
}

#[test]
fn signing_mirrors_submitting() {
    let c = client();
    let start = || c.order(MarketId(3)).buy().qty(BaseQty(500));
    assert_eq!(start().limit(Price(1000)).sign(), Ok(SignCall::SignCreateOrder(limit_params())));
    assert_eq!(
        start().market().with_slippage(half()).sign(),
        Ok(SignCall::SignMarketOrderLimitedSlippage(guarded(None)))
    );
    assert_eq!(
        start().market().with_slippage_check(half()).sign(),
        Err(invalid("slippage", "slippage check is unavailable when signing orders"))
    );
    let too_high = Price(i64::from(i32::MAX) + 1);
    assert_eq!(
        start().limit(too_high).sign(),
        Err(invalid("price", "price exceeds supported range"))
    );
}

#[test]
fn conditional_orders() {
    let c = client();
    let start = || c.order(MarketId(3)).sell().qty(BaseQty(500));
    let at_market = CreateOrderParams {
        price: -1,
        is_ask: true,
        time_in_force: 20,
        trigger_price: 900,
        expiry: 7,
        ..limit_params()
    };
    assert_eq!(
        start().stop_loss(Price(900)).submit(),
        Ok(SubmitCall::CreateOrder(CreateOrderParams { order_type: 12, ..at_market }))
    );
    assert_eq!(
        start().take_profit(Price(900)).submit(),
        Ok(SubmitCall::CreateOrder(CreateOrderParams { order_type: 14, ..at_market }))
    );
    let at_limit = CreateOrderParams {
        price: 895,
        is_ask: true,
        trigger_price: 900,
        ..limit_params()
    };
    assert_eq!(
        start().with_price_offset(5).stop_loss_limit(Price(900), Price(890)).submit(),
        Ok(SubmitCall::CreateOrder(CreateOrderParams { order_type: 13, ..at_limit }))
    );
    assert_eq!(
        start().take_profit_limit(Price(900), Price(895)).submit(),
        Ok(SubmitCall::CreateOrder(CreateOrderParams { order_type: 15, ..at_limit }))
    );
}

#[test]
fn post_only_is_refused_at_market() {
    let c = client();
    let start = || c.order(MarketId(3)).buy().qty(BaseQty(500)).post_only();
    let refused = Err(invalid("time_in_force", "post-only is unsupported for this order type"));
    assert_eq!(start().market().submit(), refused);
    assert_eq!(start().stop_loss(Price(9)).submit(), refused);
    assert_eq!(start().take_profit(Price(9)).submit(), refused);
    assert!(start().limit(Price(9)).submit().is_ok());
    assert!(start().stop_loss_limit(Price(9), Price(9)).submit().is_ok());
    assert!(start().market().ioc().submit().is_ok());
}

#[test]
fn slippage_on_other_orders() {
    let c = client();
    let start = || c.order(MarketId(3)).buy().qty(BaseQty(500)).with_slippage(half());
    let refused = Err(invalid("slippage", "slippage controls only apply to market orders"));
    assert!(start().limit(Price(9)).submit().is_ok());
    assert!(start().stop_loss(Price(9)).submit().is_ok());
    assert_eq!(start().stop_loss_limit(Price(9), Price(9)).submit(), refused);
    assert_eq!(start().take_profit(Price(9)).submit(), refused);
    assert_eq!(start().take_profit_limit(Price(9), Price(9)).submit(), refused);
    assert_eq!(start().limit(Price(9)).with_slippage(half()).submit(), refused);
    assert_eq!(start().limit(Price(9)).with_slippage(half()).sign(), Err(refused.unwrap_err()));
}

#[test]
fn prices_out_of_range() {
    let c = client();
    let start = || c.order(MarketId(3)).buy().qty(BaseQty(500));
    let high = Price(i64::from(i32::MAX));
    let over = Price(i64::from(i32::MAX) + 1);
    let too_large = |field| Err(invalid(field, "price exceeds supported range"));
    assert!(start().limit(high).submit().is_ok());
    assert_eq!(start().limit(over).submit(), too_large("price"));
    assert!(start().limit(over).with_price_offset(-1).submit().is_ok());
    assert_eq!(start().limit(high).with_price_offset(1).submit(), too_large("price"));
    assert!(start().limit(Price(i64::from(i32::MIN))).submit().is_ok());
    assert_eq!(start().limit(Price(i64::from(i32::MIN) - 1)).submit(), too_large("price"));
    assert_eq!(
        start().limit(Price(i64::MAX)).with_price_offset(1).submit(),
        Err(invalid("price", "price offset exceeds supported range"))
    );
    assert_eq!(
        start().limit(Price(i64::MIN)).with_price_offset(-1).submit(),
        Err(invalid("price", "price offset exceeds supported range"))
    );
    assert_eq!(start().stop_loss(over).submit(), too_large("trigger"));
    assert_eq!(start().stop_loss_limit(over, over).submit(), too_large("trigger"));
    assert_eq!(start().stop_loss_limit(high, over).submit(), too_large("limit_price"));
    assert_eq!(
        start().take_profit_limit(high, Price(i64::MAX)).with_price_offset(1).submit(),
        Err(invalid("limit_price", "price offset exceeds supported range"))
    );
    assert_eq!(
        start().market().with_avg_execution_price(over).submit(),
        too_large("avg_execution_price")
    );
    assert!(start().market().with_price_offset(i64::MAX).submit().is_ok());
}

#[test]
fn conditional_limit_prices_at_the_edges() {
    let c = client();
    let start = || c.order(MarketId(3)).sell().qty(BaseQty(500));
    let prices = |call: Result<SubmitCall, Error>| match call {
        Ok(SubmitCall::CreateOrder(params)) => (params.price, params.trigger_price),
        other => panic!("{other:?}"),
    };
    let high = Price(i64::from(i32::MAX));
    let low = Price(i64::from(i32::MIN));
    assert_eq!(
        prices(start().stop_loss_limit(high, Price(10)).with_price_offset(-4).submit()),
        (6, i32::MAX)
    );
    assert_eq!(
        prices(start().take_profit_limit(low, high).with_price_offset(-1).submit()),
        (i32::MAX - 1, i32::MIN)
    );
    assert!(start().take_profit_limit(low, low).with_price_offset(-1).submit().is_err());
}

#[test]
fn order_of_complaints() {
    let c = anonymous();
    let start = || c.order(MarketId(3)).buy().qty(BaseQty(500));
    assert_eq!(start().limit(Price(9)).submit(), Err(Error::NotAuthenticated));
    assert_eq!(start().limit(Price(i64::MAX)).submit(), Err(Error::NotAuthenticated));
    assert_eq!(start().limit(Price(9)).sign(), Err(Error::NotAuthenticated));
    assert_eq!(
        start().market().post_only().submit(),
        Err(invalid("time_in_force", "post-only is unsupported for this order type"))
    );
}

#[test]
fn times_in_force() {
    let c = client();
    let start = || c.order(MarketId(3)).buy().qty(BaseQty(500));
    let tif_and_expiry = |call: Result<SubmitCall, Error>| match call {
        Ok(SubmitCall::CreateOrder(params)) => (params.time_in_force, params.expiry),
        other => panic!("{other:?}"),
    };
    assert_eq!(tif_and_expiry(start().limit(Price(9)).submit()), (21, -1));
    assert_eq!(tif_and_expiry(start().ioc().limit(Price(9)).submit()), (20, 7));
    assert_eq!(tif_and_expiry(start().ioc().gtt().limit(Price(9)).submit()), (21, -1));
    assert_eq!(tif_and_expiry(start().market().gtt().submit()), (21, -1));
    assert_eq!(resolve_time_in_force(OrderTimeInForce::PostOnly, &codes()), 22);
    assert_eq!(default_order_expiry(OrderTimeInForce::PostOnly, &codes()), -1);
    assert_eq!(default_order_expiry(OrderTimeInForce::ImmediateOrCancel, &codes()), 7);
}

#[test]
fn drawn_identifiers() {
    let c = client();
    let start = || c.order(MarketId(3)).buy().qty(BaseQty(500)).limit(Price(9));
    let id = |call: Result<SubmitCall, Error>| match call {
        Ok(SubmitCall::CreateOrder(params)) => params.client_order_id,
        other => panic!("{other:?}"),
    };
    assert_eq!(id(start().submit_with(5)), 0);
    assert_eq!(id(start().with_client_order_id(8).submit_with(5)), 8);
    assert_eq!(id(start().auto_client_id().submit_with(5)), 5);
    assert_eq!(id(start().auto_client_id().with_client_order_id(8).submit_with(5)), 8);
    assert!(id(start().auto_client_id().submit()) > 1_600_000_000_000);
    match start().auto_client_id().sign_with(6) {
        Ok(SignCall::SignCreateOrder(params)) => assert_eq!(params.client_order_id, 6),
        other => panic!("{other:?}"),
    }
}

#[test]
fn identifiers_from_the_clock() {
    assert_eq!(client_order_id_from_millis(0), 0);
    assert_eq!(client_order_id_from_millis(1_700_000_000_123), 1_700_000_000_123);
    assert_eq!(client_order_id_from_millis(i64::MAX as u128 - 1), i64::MAX - 1);
    assert_eq!(client_order_id_from_millis(i64::MAX as u128), 0);
    assert_eq!(client_order_id_from_millis(u128::MAX), 3);
    let first = generate_client_order_id();
    let second = generate_client_order_id();
    assert!(first > 1_600_000_000_000);
    assert!(second >= first && second - first < 60_000);
}

#[test]
fn sides() {
    assert!(OrderSide::Ask.is_ask());
    assert!(!OrderSide::Bid.is_ask());
    assert_eq!(OrderSide::Ask.opposite(), OrderSide::Bid);
    assert_eq!(OrderSide::Bid.opposite().opposite(), OrderSide::Bid);
    assert_eq!(OrderSide::Ask.name(), "Ask");
    assert_eq!(OrderSide::Bid.name(), "Bid");
}

#[test]
fn cancelling_one_order() {
    let c = client();
    let params = c.cancel(MarketId(3), 17).nonce(Nonce(9)).api_key(ApiKeyIndex(4)).submit().unwrap();
    assert_eq!((params.market, params.order_index), (3, 17));
    assert_eq!((params.nonce, params.api_key), (Some(9), Some(4)));
    let bare = c.cancel(MarketId(3), 17).submit().unwrap();
    assert_eq!((bare.nonce, bare.api_key), (None, None));
    assert_eq!(anonymous().cancel(MarketId(3), 17).submit(), Err(Error::NotAuthenticated));
}

#[test]
fn cancelling_all_orders() {
    let c = client();
    let bare = c.cancel_all().submit().unwrap();
    assert_eq!((bare.time_in_force, bare.expiry), (21, -1));
    let ioc = c.cancel_all().tif(OrderTimeInForce::ImmediateOrCancel).submit().unwrap();
    assert_eq!((ioc.time_in_force, ioc.expiry), (20, 7));
    let full = c
        .cancel_all()
        .tif(OrderTimeInForce::PostOnly)
        .expires_at(Expiry { unix: 1700, unix_millis: 1_700_123 })
        .nonce(Nonce(9))
        .api_key(ApiKeyIndex(4))
        .submit()
        .unwrap();
    assert_eq!((full.time_in_force, full.expiry), (22, 1700));
    assert_eq!((full.nonce, full.api_key), (Some(9), Some(4)));
    assert_eq!(anonymous().cancel_all().submit(), Err(Error::NotAuthenticated));
}

#[test]
fn withdrawing() {
    let c = client();
    let params =
        c.withdraw(UsdcAmount(1_000_000)).nonce(Nonce(9)).api_key(ApiKeyIndex(4)).submit().unwrap();
    assert_eq!((params.amount, params.nonce, params.api_key), (1_000_000, Some(9), Some(4)));
    assert_eq!(anonymous().withdraw(UsdcAmount(1)).submit(), Err(Error::NotAuthenticated));
}

#[test]
fn submissions() {
    let submission = Submission::from_reply(Ok(("tx", 200))).unwrap();
    assert_eq!(*submission.payload(), "tx");
    assert_eq!(*submission.response(), 200);
    assert_eq!(submission.clone().into_payload(), "tx");
    assert_eq!(submission.into_parts(), ("tx", 200));
    let named = Submission::from_reply(Ok(("tx".to_string(), vec![1, 2]))).unwrap();
    assert_eq!(named.clone().into_payload(), "tx");
    assert_eq!(named.clone().into_parts(), named.into_parts());
    let failure = SignerError { message: "no".to_string() };
    let failed: Result<Submission<(), ()>, Error> = Submission::from_reply(Err(failure.clone()));
    assert_eq!(failed.err(), Some(Error::Signer(failure)));
}
