//! REST helpers that need no account, and the few beside them that do.

use vstd::prelude::*;

use crate::account::cursor_text;
use crate::client::{ClientModel, LighterClient};
use crate::errors::Error;
use crate::params::{By, CandleResolution, PageCursor, SortDir, TimeRange, TradeSort};
use crate::rest::{Endpoint, RestCall};
use crate::types::MarketId;

verus! {

/// Block helper exposing block REST endpoints.
pub struct BlocksHandle<'a> {
    c: &'a LighterClient,
}

impl<'a> View for BlocksHandle<'a> {
    type V = ClientModel;

    closed spec fn view(&self) -> ClientModel {
        self.c@
    }
}

impl<'a> BlocksHandle<'a> {
    pub(crate) fn new(c: &'a LighterClient) -> (handle: Self)
        ensures
            handle@ == c@,
    {
        BlocksHandle { c }
    }

    /// One block.
    pub fn one<'r>(&self, by: By, value: &'r str) -> (call: Result<RestCall<'r>, Error>)
        ensures
            call == Ok::<_, Error>(
                crate::rest::public_call(
                    Endpoint::Block { by, value },
                ),
            ),
    {
        Ok(
            RestCall::public(
                Endpoint::Block { by, value },
            ),
        )
    }

    /// A listing of blocks.
    pub fn list<'r>(
        &self,
        limit: i64,
        index: Option<i64>,
        sort: Option<SortDir>,
    ) -> (call: Result<RestCall<'r>, Error>)
        ensures
            call == Ok::<_, Error>(
                crate::rest::public_call(
                    Endpoint::Blocks { limit, index, sort },
                ),
            ),
    {
        Ok(
            RestCall::public(
                Endpoint::Blocks { limit, index, sort },
            ),
        )
    }

    /// The height of the chain.
    pub fn current_height<'r>(&self) -> (call: Result<RestCall<'r>, Error>)
        ensures
            call == Ok::<_, Error>(
                crate::rest::public_call(
                    Endpoint::CurrentHeight,
                ),
            ),
    {
        Ok(
            RestCall::public(
                Endpoint::CurrentHeight,
            ),
        )
    }

    /// Transactions of a block.
    pub fn transactions<'r>(&self, by: By, value: &'r str) -> (call: Result<RestCall<'r>, Error>)
        ensures
            call == Ok::<_, Error>(
                crate::rest::public_call(
                    Endpoint::BlockTransactions { by, value },
                ),
            ),
    {
        Ok(
            RestCall::public(
                Endpoint::BlockTransactions { by, value },
            ),
        )
    }
}

/// Bridge helper exposing cross-chain endpoints.
pub struct BridgeHandle<'a> {
    c: &'a LighterClient,
}

impl<'a> View for BridgeHandle<'a> {
    type V = ClientModel;

    closed spec fn view(&self) -> ClientModel {
        self.c@
    }
}

impl<'a> BridgeHandle<'a> {
    pub(crate) fn new(c: &'a LighterClient) -> (handle: Self)
        ensures
            handle@ == c@,
    {
        BridgeHandle { c }
    }

    /// State of the fast bridge.
    pub fn fastbridge_info<'r>(&self) -> (call: Result<RestCall<'r>, Error>)
        ensures
            call == Ok::<_, Error>(
                crate::rest::public_call(
                    Endpoint::FastbridgeInfo,
                ),
            ),
    {
        Ok(
            RestCall::public(
                Endpoint::FastbridgeInfo,
            ),
        )
    }
}

/// Candlestick helper exposing price and funding candles.
pub struct CandlesHandle<'a> {
    c: &'a LighterClient,
}

impl<'a> View for CandlesHandle<'a> {
    type V = ClientModel;

    closed spec fn view(&self) -> ClientModel {
        self.c@
    }
}

impl<'a> CandlesHandle<'a> {
    pub(crate) fn new(c: &'a LighterClient) -> (handle: Self)
        ensures
            handle@ == c@,
    {
        CandlesHandle { c }
    }

    /// Price candles of a market.
    pub fn price<'r>(
        &self,
        market: MarketId,
        resolution: CandleResolution<'r>,
        range: TimeRange,
        count_back: i64,
        set_timestamp_to_end: Option<bool>,
    ) -> (call: Result<RestCall<'r>, Error>)
        ensures
            call == Ok::<_, Error>(
                crate::rest::public_call(
                    Endpoint::Candlesticks {
                        market,
                        resolution: resolution.text,
                        start: range.start,
                        end: range.end,
                        count_back,
                        set_timestamp_to_end,
                    },
                ),
            ),
    {
        Ok(
            RestCall::public(
                Endpoint::Candlesticks {
                    market,
                    resolution: resolution.text,
                    start: range.start,
                    end: range.end,
                    count_back,
                    set_timestamp_to_end,
                },
            ),
        )
    }

    /// Funding candles of a market.
    pub fn funding<'r>(
        &self,
        market: MarketId,
        resolution: CandleResolution<'r>,
        range: TimeRange,
        count_back: i64,
    ) -> (call: Result<RestCall<'r>, Error>)
        ensures
            call == Ok::<_, Error>(
                crate::rest::public_call(
                    Endpoint::Fundings {
                        market,
                        resolution: resolution.text,
                        start: range.start,
                        end: range.end,
                        count_back,
                    },
                ),
            ),
    {
        Ok(
            RestCall::public(
                Endpoint::Fundings {
                    market,
                    resolution: resolution.text,
                    start: range.start,
                    end: range.end,
                    count_back,
                },
            ),
        )
    }
}

/// Funding helper for rates endpoints.
pub struct FundingHandle<'a> {
    c: &'a LighterClient,
}

impl<'a> View for FundingHandle<'a> {
    type V = ClientModel;

    closed spec fn view(&self) -> ClientModel {
        self.c@
    }
}

impl<'a> FundingHandle<'a> {
    pub(crate) fn new(c: &'a LighterClient) -> (handle: Self)
        ensures
            handle@ == c@,
    {
        FundingHandle { c }
    }

    /// Current funding rates.
    pub fn rates<'r>(&self) -> (call: Result<RestCall<'r>, Error>)
        ensures
            call == Ok::<_, Error>(
                crate::rest::public_call(
                    Endpoint::FundingRates,
                ),
            ),
    {
        Ok(
            RestCall::public(
                Endpoint::FundingRates,
            ),
        )
    }
}

/// Info helper for general informational endpoints.
pub struct InfoHandle<'a> {
    c: &'a LighterClient,
}

impl<'a> View for InfoHandle<'a> {
    type V = ClientModel;

    closed spec fn view(&self) -> ClientModel {
        self.c@
    }
}

impl<'a> InfoHandle<'a> {
    pub(crate) fn new(c: &'a LighterClient) -> (handle: Self)
        ensures
            handle@ == c@,
    {
        InfoHandle { c }
    }

    /// How long withdrawals take.
    pub fn withdrawal_delay<'r>(&self) -> (call: Result<RestCall<'r>, Error>)
        ensures
            call == Ok::<_, Error>(
                crate::rest::public_call(
                    Endpoint::WithdrawalDelay,
                ),
            ),
    {
        Ok(
            RestCall::public(
                Endpoint::WithdrawalDelay,
            ),
        )
    }
}

/// Notification helper for account scoped notifications.
pub struct NotificationsHandle<'a> {
    c: &'a LighterClient,
}

impl<'a> View for NotificationsHandle<'a> {
    type V = ClientModel;

    closed spec fn view(&self) -> ClientModel {
        self.c@
    }
}

impl<'a> NotificationsHandle<'a> {
    pub(crate) fn new(c: &'a LighterClient) -> (handle: Self)
        ensures
            handle@ == c@,
    {
        NotificationsHandle { c }
    }

    /// Mark a notification of the account as read.
    pub fn acknowledge<'r>(&self, notification_id: &'r str) -> (call: Result<RestCall<'r>, Error>)
        ensures
            call == self@.private_call(
                Endpoint::AcknowledgeNotification {
                    notification_id,
                    account_index: self@.account_index(),
                },
            ),
    {
        let account_index: i64 = match self.c.require_account_i64() {
            Ok(index) => index,
            Err(error) => {
                return Err(error);
            },
        };
        self.c.auth_header(
            Endpoint::AcknowledgeNotification { notification_id, account_index },
        )
    }
}

/// Orders helper for public order and trade endpoints.
pub struct OrdersHandle<'a> {
    c: &'a LighterClient,
}

impl<'a> View for OrdersHandle<'a> {
    type V = ClientModel;

    closed spec fn view(&self) -> ClientModel {
        self.c@
    }
}

impl<'a> OrdersHandle<'a> {
    pub(crate) fn new(c: &'a LighterClient) -> (handle: Self)
        ensures
            handle@ == c@,
    {
        OrdersHandle { c }
    }

    /// The order book of a market.
    pub fn book<'r>(&self, market: MarketId, limit: i64) -> (call: Result<RestCall<'r>, Error>)
        ensures
            call == Ok::<_, Error>(
                crate::rest::public_call(
                    Endpoint::OrderBook { market, limit },
                ),
            ),
    {
        Ok(
            RestCall::public(
                Endpoint::OrderBook { market, limit },
            ),
        )
    }

    /// Details of one order book, or of all.
    pub fn book_details<'r>(&self, market: Option<MarketId>) -> (call: Result<RestCall<'r>, Error>)
        ensures
            call == Ok::<_, Error>(
                crate::rest::public_call(
                    Endpoint::OrderBookDetails { market },
                ),
            ),
    {
        Ok(
            RestCall::public(
                Endpoint::OrderBookDetails { market },
            ),
        )
    }

    /// Metadata of one order book, or of all.
    pub fn books_metadata<'r>(
        &self,
        market: Option<MarketId>,
    ) -> (call: Result<RestCall<'r>, Error>)
        ensures
            call == Ok::<_, Error>(
                crate::rest::public_call(
                    Endpoint::OrderBooksMetadata { market },
                ),
            ),
    {
        Ok(
            RestCall::public(
                Endpoint::OrderBooksMetadata { market },
            ),
        )
    }

    /// Latest trades in a market.
    pub fn recent<'r>(&self, market: MarketId, limit: i64) -> (call: Result<RestCall<'r>, Error>)
        ensures
            call == Ok::<_, Error>(
                crate::rest::public_call(
                    Endpoint::RecentTrades { market, limit },
                ),
            ),
    {
        Ok(
            RestCall::public(
                Endpoint::RecentTrades { market, limit },
            ),
        )
    }

    /// Trades of the account, by plain parameters.
    pub fn trades<'r>(
        &self,
        sort_by: TradeSort<'r>,
        limit: i64,
        market: Option<MarketId>,
        sort_dir: Option<SortDir>,
        cursor: Option<PageCursor<'r>>,
        from: Option<i64>,
        ask_filter: Option<i32>,
    ) -> (call: Result<RestCall<'r>, Error>)
        ensures
            call == self@.private_call(
                Endpoint::Trades {
                    sort_by,
                    limit,
                    market,
                    account_index: Some(self@.account_index()),
                    order_index: None,
                    sort_dir,
                    cursor: crate::account::cursor_of(cursor),
                    from,
                    ask_filter,
                },
            ),
    {
        let account_index: i64 = match self.c.require_account_i64() {
            Ok(index) => index,
            Err(error) => {
                return Err(error);
            },
        };
        self.c.auth_header(
            Endpoint::Trades {
                sort_by,
                limit,
                market,
                account_index: Some(account_index),
                order_index: None,
                sort_dir,
                cursor: cursor_text(cursor),
                from,
                ask_filter,
            },
        )
    }

    /// Statistics of the exchange.
    pub fn exchange_stats<'r>(&self) -> (call: Result<RestCall<'r>, Error>)
        ensures
            call == Ok::<_, Error>(
                crate::rest::public_call(
                    Endpoint::ExchangeStats,
                ),
            ),
    {
        Ok(
            RestCall::public(
                Endpoint::ExchangeStats,
            ),
        )
    }

    /// Data for export: of the exchange, or of the account where it is to be included.
    pub fn export<'r>(
        &self,
        export_type: &'r str,
        market: Option<MarketId>,
        include_account: bool,
    ) -> (call: Result<RestCall<'r>, Error>)
        ensures
            include_account ==> call == self@.private_call(
                Endpoint::Export {
                    export_type,
                    account_index: Some(self@.account_index()),
                    market,
                },
            ),
            !include_account ==> call == Ok::<_, Error>(
                crate::rest::public_call(
                    Endpoint::Export { export_type, account_index: None, market },
                ),
            ),
    {
        if include_account {
            let account_index: i64 = match self.c.require_account_i64() {
                Ok(index) => index,
                Err(error) => {
                    return Err(error);
                },
            };
            self.c.auth_header(
                Endpoint::Export { export_type, account_index: Some(account_index), market },
            )
        } else {
            Ok(
                RestCall::public(
                    Endpoint::Export { export_type, account_index: None, market },
                ),
            )
        }
    }
}

/// Transaction helper for public transaction endpoints.
pub struct TransactionsHandle<'a> {
    c: &'a LighterClient,
}

impl<'a> View for TransactionsHandle<'a> {
    type V = ClientModel;

    closed spec fn view(&self) -> ClientModel {
        self.c@
    }
}

impl<'a> TransactionsHandle<'a> {
    pub(crate) fn new(c: &'a LighterClient) -> (handle: Self)
        ensures
            handle@ == c@,
    {
        TransactionsHandle { c }
    }

    /// One transaction.
    pub fn one<'r>(&self, by: By, value: &'r str) -> (call: Result<RestCall<'r>, Error>)
        ensures
            call == Ok::<_, Error>(
                crate::rest::public_call(
                    Endpoint::Transaction { by, value },
                ),
            ),
    {
        Ok(
            RestCall::public(
                Endpoint::Transaction { by, value },
            ),
        )
    }

    /// The transaction that an L1 transaction gave rise to.
    pub fn by_l1_hash<'r>(&self, hash: &'r str) -> (call: Result<RestCall<'r>, Error>)
        ensures
            call == Ok::<_, Error>(
                crate::rest::public_call(
                    Endpoint::TransactionFromL1Hash { hash },
                ),
            ),
    {
        Ok(
            RestCall::public(
                Endpoint::TransactionFromL1Hash { hash },
            ),
        )
    }

    /// A listing of transactions.
    pub fn list<'r>(&self, limit: i64, index: Option<i64>) -> (call: Result<RestCall<'r>, Error>)
        ensures
            call == Ok::<_, Error>(
                crate::rest::public_call(
                    Endpoint::Transactions { limit, index },
                ),
            ),
    {
        Ok(
            RestCall::public(
                Endpoint::Transactions { limit, index },
            ),
        )
    }
}

} // verus!
