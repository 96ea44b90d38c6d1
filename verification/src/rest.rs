//! REST requests as values: which endpoint is asked for, with which parameters, and whether an
//! auth header goes with them.

use vstd::prelude::*;

use crate::errors::Error;
use crate::params::{By, SortDir, TimeRange, TradeSort};
use crate::types::{AccountId, ApiKeyIndex, MarketId};

verus! {

/// An endpoint together with its parameters.
#[allow(inconsistent_fields)]
#[derive(Debug, PartialEq, Eq)]
pub enum Endpoint<'r> {
    AccountDetails { account_value: String },
    AccountLimits { account_index: i64 },
    AccountMetadata { account_value: String },
    ApiKeys { account_index: i64, api_key_index: Option<ApiKeyIndex> },
    ChangeAccountTier { account_index: i64, new_tier: &'r str },
    L1Metadata { l1_address: &'r str },
    Liquidations {
        account_index: i64,
        limit: i64,
        market: Option<MarketId>,
        cursor: Option<&'r str>,
    },
    AccountPnl {
        account_value: String,
        resolution: &'r str,
        start: i64,
        end: i64,
        count_back: i64,
        ignore_transfers: Option<bool>,
    },
    PositionFunding {
        account_index: i64,
        limit: i64,
        market: Option<MarketId>,
        cursor: Option<&'r str>,
        side: Option<&'static str>,
    },
    PublicPools { index: i64, limit: i64, filter: Option<&'r str>, account_index: i64 },
    PublicPoolsMetadata { index: i64, limit: i64, filter: Option<&'r str>, account_index: i64 },
    AccountsByL1Address { l1_address: &'r str },
    AccountActiveOrders { account_index: i64, market: MarketId },
    AccountInactiveOrders {
        account_index: i64,
        limit: i64,
        market: Option<MarketId>,
        ask_filter: Option<i32>,
        between: Option<TimeRange>,
        cursor: Option<&'r str>,
    },
    Trades {
        sort_by: TradeSort<'r>,
        limit: i64,
        market: Option<MarketId>,
        account_index: Option<i64>,
        order_index: Option<i64>,
        sort_dir: Option<SortDir>,
        cursor: Option<&'r str>,
        from: Option<i64>,
        ask_filter: Option<i32>,
    },
    AccountTransactions {
        limit: i64,
        account_value: String,
        index: Option<i64>,
        types: Option<Vec<i32>>,
    },
    DepositHistory {
        account_index: i64,
        l1_address: &'r str,
        cursor: Option<&'r str>,
        filter: Option<&'r str>,
    },
    TransferHistory { account_index: i64, cursor: Option<&'r str> },
    WithdrawHistory { account_index: i64, cursor: Option<&'r str>, filter: Option<&'r str> },
    NextNonce { account_index: i64, api_key_index: ApiKeyIndex },
    TransferFeeInfo { account_index: i64, to_account_index: Option<AccountId> },
    Block { by: By, value: &'r str },
    Blocks { limit: i64, index: Option<i64>, sort: Option<SortDir> },
    CurrentHeight,
    BlockTransactions { by: By, value: &'r str },
    FastbridgeInfo,
    Candlesticks {
        market: MarketId,
        resolution: &'r str,
        start: i64,
        end: i64,
        count_back: i64,
        set_timestamp_to_end: Option<bool>,
    },
    Fundings {
        market: MarketId,
        resolution: &'r str,
        start: i64,
        end: i64,
        count_back: i64,
    },
    FundingRates,
    WithdrawalDelay,
    AcknowledgeNotification { notification_id: &'r str, account_index: i64 },
    OrderBook { market: MarketId, limit: i64 },
    OrderBookDetails { market: Option<MarketId> },
    OrderBooksMetadata { market: Option<MarketId> },
    RecentTrades { market: MarketId, limit: i64 },
    ExchangeStats,
    Export { export_type: &'r str, account_index: Option<i64>, market: Option<MarketId> },
    Transaction { by: By, value: &'r str },
    TransactionFromL1Hash { hash: &'r str },
    Transactions { limit: i64, index: Option<i64> },
}

/// A request that is ready to go out.
#[derive(Debug, PartialEq, Eq)]
pub struct RestRequest<'r> {
    pub endpoint: Endpoint<'r>,
    /// The auth header that goes with the request.
    pub auth: Option<String>,
}

/// A request that waits for its auth header.
#[derive(Debug, PartialEq, Eq)]
pub struct PendingRequest<'r> {
    pub endpoint: Endpoint<'r>,
}

/// What is to be done for a REST call.
#[derive(Debug, PartialEq, Eq)]
pub enum RestCall<'r> {
    /// Send the request.
    Ready(RestRequest<'r>),
    /// Obtain an auth header from the signer and hand it to [`PendingRequest::authorize`].
    NeedsAuth(PendingRequest<'r>),
}

/// The call of an endpoint that anybody may ask.
pub open spec fn public_call<'r>(endpoint: Endpoint<'r>) -> RestCall<'r> {
    RestCall::Ready(RestRequest { endpoint, auth: None })
}

/// The call of an endpoint that wants an auth header.
pub open spec fn private_call<'r>(endpoint: Endpoint<'r>) -> RestCall<'r> {
    RestCall::NeedsAuth(PendingRequest { endpoint })
}

impl<'r> RestCall<'r> {
    pub(crate) fn public(endpoint: Endpoint<'r>) -> (call: Self)
        ensures
            call == public_call(endpoint),
    {
        RestCall::Ready(RestRequest { endpoint, auth: None })
    }

    pub(crate) fn private(endpoint: Endpoint<'r>) -> (call: Self)
        ensures
            call == private_call(endpoint),
    {
        RestCall::NeedsAuth(PendingRequest { endpoint })
    }
}

impl<'r> PendingRequest<'r> {
    /// Attaches the auth header. A failure to obtain it is the failure of the request, which
    /// then does not go out.
    pub fn authorize(self, header: Result<String, Error>) -> (request: Result<
        RestRequest<'r>,
        Error,
    >)
        ensures
            request == (match header {
                Ok(text) => Ok(RestRequest { endpoint: self.endpoint, auth: Some(text) }),
                Err(error) => Err(error),
            }),
    {
        match header {
            Ok(text) => Ok(RestRequest { endpoint: self.endpoint, auth: Some(text) }),
            Err(error) => Err(error),
        }
    }
}

} // verus!
