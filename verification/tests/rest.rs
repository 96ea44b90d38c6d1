use lighter_client::client::LighterClient;
use lighter_client::errors::{Error, RestError};
use lighter_client::params::{
    By, CandleResolution, FundingSide, HistoryFilter, HistoryQuery, InactiveOrdersQuery,
    OrderFilter, PageCursor, PnlResolution, PoolFilter, SortDir, TimeRange, Timestamp, TradeSort,
    TradesQuery,
};
use lighter_client::rest::{Endpoint, PendingRequest, RestCall, RestRequest};
use lighter_client::types::{
    AccountId, ApiKeyIndex, Configuration, MarketId, SignerClient, SignerCodes, WsConfig,
};

fn anonymous() -> LighterClient {
    let ws = WsConfig { host: "ws.example".to_string(), path: "/stream".to_string() };
    LighterClient::new("https://api.example".to_string(), ws).unwrap()
}

fn client() -> LighterClient {
    let signer = SignerClient {
        configuration: Configuration { base_path: "https://signer.example".to_string() },
        codes: SignerCodes {
            order_type_limit: 0,
            order_type_market: 1,
            order_type_stop_loss: 2,
            order_type_stop_loss_limit: 3,
            order_type_take_profit: 4,
            order_type_take_profit_limit: 5,
            time_in_force_immediate_or_cancel: 0,
            time_in_force_good_till_time: 1,
            time_in_force_post_only: 2,
            default_ioc_expiry: 0,
        },
    };
    anonymous().with_account(AccountId(-42), Ok(signer)).ok().unwrap().0
}

fn public(endpoint: Endpoint<'_>) -> Result<RestCall<'_>, Error> {
    Ok(RestCall::Ready(RestRequest { endpoint, auth: None }))
}

fn private(endpoint: Endpoint<'_>) -> Result<RestCall<'_>, Error> {
    Ok(RestCall::NeedsAuth(PendingRequest { endpoint }))
}

const REFUSED: Result<RestCall<'static>, Error> = Err(Error::NotAuthenticated);
const MARKET: MarketId = MarketId(3);
const RANGE: TimeRange = TimeRange { start: 100, end: 200 };

fn cursor(text: &str) -> Option<PageCursor<'_>> {
    Some(PageCursor { text })
}

#[test]
fn account_endpoints() {
    let c = client();
    let a = c.account();
    let value = || "-42".to_string();
    assert_eq!(a.details(), public(Endpoint::AccountDetails { account_value: value() }));
    assert_eq!(a.limits(), private(Endpoint::AccountLimits { account_index: -42 }));
    assert_eq!(a.metadata(), private(Endpoint::AccountMetadata { account_value: value() }));
    assert_eq!(
        a.api_keys(Some(ApiKeyIndex(2))),
        public(Endpoint::ApiKeys { account_index: -42, api_key_index: Some(ApiKeyIndex(2)) })
    );
    assert_eq!(
        a.change_tier("premium"),
        private(Endpoint::ChangeAccountTier { account_index: -42, new_tier: "premium" })
    );
    assert_eq!(a.l1_metadata("0xab"), private(Endpoint::L1Metadata { l1_address: "0xab" }));
    assert_eq!(
        a.liquidations(5, Some(MARKET), cursor("c")),
        private(Endpoint::Liquidations {
            account_index: -42,
            limit: 5,
            market: Some(MARKET),
            cursor: Some("c"),
        })
    );
    assert_eq!(
        a.pnl(PnlResolution { text: "1h" }, RANGE, 7, Some(true)),
        private(Endpoint::AccountPnl {
            account_value: value(),
            resolution: "1h",
            start: 100,
            end: 200,
            count_back: 7,
            ignore_transfers: Some(true),
        })
    );
    assert_eq!(
        a.position_funding(5, None, None, Some(FundingSide { text: "long" })),
        private(Endpoint::PositionFunding {
            account_index: -42,
            limit: 5,
            market: None,
            cursor: None,
            side: Some("long"),
        })
    );
    assert_eq!(
        a.public_pools(1, 2, Some(PoolFilter { text: "all" })),
        private(Endpoint::PublicPools {
            index: 1,
            limit: 2,
            filter: Some("all"),
            account_index: -42,
        })
    );
    assert_eq!(
        a.public_pools_metadata(1, 2, None),
        private(Endpoint::PublicPoolsMetadata {
            index: 1,
            limit: 2,
            filter: None,
            account_index: -42,
        })
    );
    assert_eq!(a.by_l1("0xab"), public(Endpoint::AccountsByL1Address { l1_address: "0xab" }));
    assert_eq!(
        a.active_orders(MARKET),
        private(Endpoint::AccountActiveOrders { account_index: -42, market: MARKET })
    );
    assert_eq!(
        a.transactions(5, Some(6), Some(vec![7, 8])),
        private(Endpoint::AccountTransactions {
            limit: 5,
            account_value: value(),
            index: Some(6),
            types: Some(vec![7, 8]),
        })
    );
    assert_eq!(
        a.next_nonce(ApiKeyIndex(2)),
        public(Endpoint::NextNonce { account_index: -42, api_key_index: ApiKeyIndex(2) })
    );
    assert_eq!(
        a.transfer_fee_info(Some(AccountId(8))),
        private(Endpoint::TransferFeeInfo {
            account_index: -42,
            to_account_index: Some(AccountId(8)),
        })
    );
}

fn inactive() -> InactiveOrdersQuery<'static> {
    InactiveOrdersQuery {
        limit: 5,
        market: Some(MARKET),
        filter: OrderFilter { query: Some(1) },
        between: Some(RANGE),
        cursor: cursor("start"),
    }
}

fn trades() -> TradesQuery<'static> {
    TradesQuery {
        sort: TradeSort { text: "timestamp" },
        limit: 5,
        market: None,
        order_index: Some(11),
        sort_dir: Some(SortDir { text: "desc" }),
        from: Some(Timestamp { unix: 1700 }),
        filter: OrderFilter { query: None },
        cursor: None,
    }
}

fn history() -> HistoryQuery<'static> {
    HistoryQuery { filter: Some(HistoryFilter { text: "all" }), cursor: cursor("start") }
}

fn trades_endpoint(cursor: Option<&str>) -> Endpoint<'_> {
    Endpoint::Trades {
        sort_by: TradeSort { text: "timestamp" },
        limit: 5,
        market: None,
        account_index: Some(-42),
        order_index: Some(11),
        sort_dir: Some(SortDir { text: "desc" }),
        cursor,
        from: Some(1700),
        ask_filter: None,
    }
}

#[test]
fn listings() {
    let c = client();
    let a = c.account();
    assert_eq!(
        a.inactive_orders(inactive()),
        private(Endpoint::AccountInactiveOrders {
            account_index: -42,
            limit: 5,
            market: Some(MARKET),
            ask_filter: Some(1),
            between: Some(RANGE),
            cursor: Some("start"),
        })
    );
    assert_eq!(a.trades(trades()), private(trades_endpoint(None)));
    assert_eq!(
        a.deposit_history("0xab", history()),
        private(Endpoint::DepositHistory {
            account_index: -42,
            l1_address: "0xab",
            cursor: Some("start"),
            filter: Some("all"),
        })
    );
    assert_eq!(
        a.transfer_history(history()),
        private(Endpoint::TransferHistory { account_index: -42, cursor: Some("start") })
    );
    assert_eq!(
        a.withdraw_history(history()),
        private(Endpoint::WithdrawHistory {
            account_index: -42,
            cursor: Some("start"),
            filter: Some("all"),
        })
    );
}

#[test]
fn pages_start_with_the_plain_request() {
    let c = client();
    let a = c.account();
    let orders = a.inactive_orders_stream(inactive()).ok().unwrap();
    assert_eq!(orders.initial_cursor(), Some("start"));
    assert_eq!(orders.page(orders.initial_cursor()), a.inactive_orders(inactive()));
    let fills = a.trades_stream(trades()).ok().unwrap();
    assert_eq!(fills.initial_cursor(), None);
    assert_eq!(fills.page(None), a.trades(trades()));
    assert_eq!(fills.page(Some("next")), private(trades_endpoint(Some("next"))));
    let deposits = a.deposit_history_stream("0xab", history()).ok().unwrap();
    assert_eq!(deposits.page(deposits.initial_cursor()), a.deposit_history("0xab", history()));
    let transfers = a.transfer_history_stream(history()).ok().unwrap();
    assert_eq!(transfers.page(transfers.initial_cursor()), a.transfer_history(history()));
    let withdrawals = a.withdraw_history_stream(history()).ok().unwrap();
    assert_eq!(withdrawals.page(withdrawals.initial_cursor()), a.withdraw_history(history()));
}

#[test]
fn anonymous_client_is_refused_account_endpoints() {
    let c = anonymous();
    let a = c.account();
    assert_eq!(a.details(), REFUSED);
    assert_eq!(a.limits(), REFUSED);
    assert_eq!(a.metadata(), REFUSED);
    assert_eq!(a.api_keys(None), REFUSED);
    assert_eq!(a.change_tier("premium"), REFUSED);
    assert_eq!(a.l1_metadata("0xab"), REFUSED);
    assert_eq!(a.liquidations(5, None, None), REFUSED);
    assert_eq!(a.pnl(PnlResolution { text: "1h" }, RANGE, 7, None), REFUSED);
    assert_eq!(a.position_funding(5, None, None, None), REFUSED);
    assert_eq!(a.public_pools(1, 2, None), REFUSED);
    assert_eq!(a.public_pools_metadata(1, 2, None), REFUSED);
    assert_eq!(a.active_orders(MARKET), REFUSED);
    assert_eq!(a.inactive_orders(inactive()), REFUSED);
    assert_eq!(a.trades(trades()), REFUSED);
    assert_eq!(a.transactions(5, None, None), REFUSED);
    assert_eq!(a.deposit_history("0xab", history()), REFUSED);
    assert_eq!(a.transfer_history(history()), REFUSED);
    assert_eq!(a.withdraw_history(history()), REFUSED);
    assert_eq!(a.next_nonce(ApiKeyIndex(2)), REFUSED);
    assert_eq!(a.transfer_fee_info(None), REFUSED);
    assert_eq!(a.inactive_orders_stream(inactive()).err(), Some(Error::NotAuthenticated));
    assert_eq!(a.trades_stream(trades()).err(), Some(Error::NotAuthenticated));
    assert_eq!(a.deposit_history_stream("0x", history()).err(), Some(Error::NotAuthenticated));
    assert_eq!(a.transfer_history_stream(history()).err(), Some(Error::NotAuthenticated));
    assert_eq!(a.withdraw_history_stream(history()).err(), Some(Error::NotAuthenticated));
    assert_eq!(a.by_l1("0xab"), public(Endpoint::AccountsByL1Address { l1_address: "0xab" }));
    assert_eq!(c.notifications().acknowledge("n"), REFUSED);
    assert_eq!(c.orders().export("trade", None, true), REFUSED);
    let sort = TradeSort { text: "timestamp" };
    assert_eq!(c.orders().trades(sort, 5, None, None, None, None, None), REFUSED);
}

#[test]
fn public_endpoints() {
    let c = anonymous();
    let by = By { text: "hash" };
    assert_eq!(c.blocks().one(by, "v"), public(Endpoint::Block { by, value: "v" }));
    let sort = Some(SortDir { text: "asc" });
    assert_eq!(
        c.blocks().list(5, Some(6), sort),
        public(Endpoint::Blocks { limit: 5, index: Some(6), sort })
    );
    assert_eq!(c.blocks().current_height(), public(Endpoint::CurrentHeight));
    assert_eq!(
        c.blocks().transactions(by, "v"),
        public(Endpoint::BlockTransactions { by, value: "v" })
    );
    assert_eq!(c.bridge().fastbridge_info(), public(Endpoint::FastbridgeInfo));
    let resolution = CandleResolution { text: "1m" };
    assert_eq!(
        c.candles().price(MARKET, resolution, RANGE, 7, Some(false)),
        public(Endpoint::Candlesticks {
            market: MARKET,
            resolution: "1m",
            start: 100,
            end: 200,
            count_back: 7,
            set_timestamp_to_end: Some(false),
        })
    );
    assert_eq!(
        c.candles().funding(MARKET, resolution, RANGE, 7),
        public(Endpoint::Fundings {
            market: MARKET,
            resolution: "1m",
            start: 100,
            end: 200,
            count_back: 7,
        })
    );
    assert_eq!(c.funding().rates(), public(Endpoint::FundingRates));
    assert_eq!(c.info().withdrawal_delay(), public(Endpoint::WithdrawalDelay));
    assert_eq!(
        c.orders().book(MARKET, 5),
        public(Endpoint::OrderBook { market: MARKET, limit: 5 })
    );
    assert_eq!(
        c.orders().book_details(None),
        public(Endpoint::OrderBookDetails { market: None })
    );
    assert_eq!(
        c.orders().books_metadata(Some(MARKET)),
        public(Endpoint::OrderBooksMetadata { market: Some(MARKET) })
    );
    assert_eq!(
        c.orders().recent(MARKET, 5),
        public(Endpoint::RecentTrades { market: MARKET, limit: 5 })
    );
    assert_eq!(c.orders().exchange_stats(), public(Endpoint::ExchangeStats));
    assert_eq!(
        c.orders().export("trade", Some(MARKET), false),
        public(Endpoint::Export {
            export_type: "trade",
            account_index: None,
            market: Some(MARKET),
        })
    );
    assert_eq!(c.transactions().one(by, "v"), public(Endpoint::Transaction { by, value: "v" }));
    assert_eq!(
        c.transactions().by_l1_hash("0xh"),
        public(Endpoint::TransactionFromL1Hash { hash: "0xh" })
    );
    assert_eq!(
        c.transactions().list(5, None),
        public(Endpoint::Transactions { limit: 5, index: None })
    );
}

#[test]
fn account_scoped_helpers_beside_the_account_handle() {
    let c = client();
    assert_eq!(
        c.notifications().acknowledge("n"),
        private(Endpoint::AcknowledgeNotification { notification_id: "n", account_index: -42 })
    );
    assert_eq!(
        c.orders().export("trade", None, true),
        private(Endpoint::Export {
            export_type: "trade",
            account_index: Some(-42),
            market: None,
        })
    );
    assert_eq!(
        c.orders().trades(
            TradeSort { text: "timestamp" },
            5,
            Some(MARKET),
            Some(SortDir { text: "desc" }),
            cursor("c"),
            Some(1700),
            Some(1),
        ),
        private(Endpoint::Trades {
            sort_by: TradeSort { text: "timestamp" },
            limit: 5,
            market: Some(MARKET),
            account_index: Some(-42),
            order_index: None,
            sort_dir: Some(SortDir { text: "desc" }),
            cursor: Some("c"),
            from: Some(1700),
            ask_filter: Some(1),
        })
    );
}

#[test]
fn authorizing_a_request() {
    let pending = || PendingRequest { endpoint: Endpoint::L1Metadata { l1_address: "0xab" } };
    assert_eq!(
        pending().authorize(Ok("header".to_string())),
        Ok(RestRequest {
            endpoint: Endpoint::L1Metadata { l1_address: "0xab" },
            auth: Some("header".to_string()),
        })
    );
    let failure = Error::Rest(RestError { message: "down".to_string() });
    assert_eq!(pending().authorize(Err(failure.clone())), Err(failure));
}
