//! What holds of REST calls: which endpoint is asked for, with which parameters.

use vstd::prelude::*;

use crate::account::{AccountHandle, PageSource};
use crate::client::{ClientModel, LighterClient};
use crate::errors::Error;
use crate::handles::OrdersHandle;
use crate::params::{
    FundingSide, HistoryQuery, InactiveOrdersQuery, PageCursor, PnlResolution, PoolFilter, SortDir,
    TimeRange, TradeSort, TradesQuery,
};
use crate::rest::{Endpoint, PendingRequest, RestCall, RestRequest};
use crate::types::{AccountId, MarketId};

verus! {

/// A request that anybody may make goes out as it is, without an auth header; one that wants an
/// auth header waits for it. A request that refers to the account or needs a header is made by a
/// client that has what it takes, and by no other.
pub proof fn calls_go_out_for_their_endpoint<'r>(client: ClientModel, endpoint: Endpoint<'r>)
    ensures
        crate::rest::public_call(endpoint) == RestCall::Ready(RestRequest { endpoint, auth: None }),
        crate::rest::private_call(endpoint) == RestCall::NeedsAuth(PendingRequest { endpoint }),
        client.signer is Some ==> client.signed_call(endpoint) == Ok::<RestCall<'r>, Error>(
            RestCall::NeedsAuth(PendingRequest { endpoint }),
        ),
        client.signer is None ==> client.signed_call(endpoint) == Err::<RestCall<'r>, Error>(
            Error::NotAuthenticated,
        ),
        client.account_id is Some ==> client.account_call(endpoint) == Ok::<RestCall<'r>, Error>(
            RestCall::Ready(RestRequest { endpoint, auth: None }),
        ),
        client.account_id is None ==> client.account_call(endpoint) == Err::<RestCall<'r>, Error>(
            Error::NotAuthenticated,
        ),
        client.account_id is Some && client.signer is Some ==> client.private_call(endpoint)
            == Ok::<RestCall<'r>, Error>(RestCall::NeedsAuth(PendingRequest { endpoint })),
        client.account_id is None || client.signer is None ==> client.private_call(endpoint)
            == Err::<RestCall<'r>, Error>(Error::NotAuthenticated),
{
}

/// Requests refer to the account by its number, or by that number in decimal.
pub proof fn requests_refer_to_the_account(client: ClientModel, account: AccountId)
    requires
        client.account_id == Some(account),
    ensures
        client.account_index() == account.0,
        client.account_value() == crate::decimal::decimal(account.0 as int),
{
}

/// A number in decimal is its digits from the first to the last, each standing for ten times what
/// the one after it stands for, and behind a minus sign where it is negative.
pub proof fn decimals_are_positional(number: int, digit: int)
    requires
        0 <= digit < 10,
    ensures
        crate::decimal::decimal(digit).len() == 1,
        crate::decimal::decimal(digit)[0] as int == '0' as int + digit,
        number > 0 ==> crate::decimal::decimal(10 * number + digit) == crate::decimal::decimal(
            number,
        ) + crate::decimal::decimal(digit),
        number > 0 ==> crate::decimal::decimal(-number) == seq!['-'] + crate::decimal::decimal(
            number,
        ),
{
    if number > 0 {
        let whole = (10 * number + digit) as nat;
        assert(whole / 10 == number && whole % 10 == digit);
    }
}

/// The request for a page of trades carries the market, the order, the sorting, the direction, the
/// limit, the start time and the side filter of the query, the number of the account, and the
/// cursor of the page: the query's for the plain request, the one that was asked for otherwise.
pub proof fn trades_request_carries_its_query<'q>(
    client: &'q LighterClient,
    handle: &'q AccountHandle<'q>,
    query: TradesQuery<'q>,
    call: Result<RestCall<'q>, Error>,
    pages: &'q PageSource<'q>,
    cursor: Option<&'q str>,
    page: Result<RestCall<'q>, Error>,
)
    requires
        call_ensures(LighterClient::account, (client,), *handle),
        call_ensures(AccountHandle::<'q>::trades, (handle, query), call),
        call_ensures(AccountHandle::<'q>::trades_stream, (handle, query), Ok(*pages)),
        call_ensures(PageSource::<'q>::page, (pages, cursor), page),
    ensures
        client@.account_id is Some,
        call matches Ok(RestCall::NeedsAuth(waiting)) && waiting.endpoint matches Endpoint::Trades {
            sort_by,
            limit,
            market,
            account_index,
            order_index,
            sort_dir,
            cursor: from_cursor,
            from,
            ask_filter,
        } && {
            &&& sort_by == query.sort
            &&& limit == query.limit
            &&& market == query.market
            &&& account_index == Some((client@.account_id->0).0)
            &&& order_index == query.order_index
            &&& sort_dir == query.sort_dir
            &&& query.cursor is Some ==> from_cursor == Some(query.cursor->0.text)
            &&& query.cursor is None ==> from_cursor is None
            &&& query.from is Some ==> from == Some(query.from->0.unix)
            &&& query.from is None ==> from is None
            &&& ask_filter == query.filter.query
        },
        page matches Ok(RestCall::NeedsAuth(waiting)) && waiting.endpoint matches Endpoint::Trades {
            sort_by,
            limit,
            market,
            account_index,
            order_index,
            sort_dir,
            cursor: from_cursor,
            from,
            ask_filter,
        } && {
            &&& sort_by == query.sort
            &&& limit == query.limit
            &&& market == query.market
            &&& account_index == Some((client@.account_id->0).0)
            &&& order_index == query.order_index
            &&& sort_dir == query.sort_dir
            &&& from_cursor == cursor
            &&& query.from is Some ==> from == Some(query.from->0.unix)
            &&& query.from is None ==> from is None
            &&& ask_filter == query.filter.query
        },
{
    client.signer_comes_with_account();
}

/// The request for a page of closed orders carries the limit, the market, the side filter and the
/// stretch of time of the query, the number of the account, and the cursor of the page.
pub proof fn inactive_orders_request_carries_its_query<'q>(
    client: &'q LighterClient,
    handle: &'q AccountHandle<'q>,
    query: InactiveOrdersQuery<'q>,
    call: Result<RestCall<'q>, Error>,
    pages: &'q PageSource<'q>,
    cursor: Option<&'q str>,
    page: Result<RestCall<'q>, Error>,
)
    requires
        call_ensures(LighterClient::account, (client,), *handle),
        call_ensures(AccountHandle::<'q>::inactive_orders, (handle, query), call),
        call_ensures(AccountHandle::<'q>::inactive_orders_stream, (handle, query), Ok(*pages)),
        call_ensures(PageSource::<'q>::page, (pages, cursor), page),
    ensures
        client@.account_id is Some,
        call matches Ok(RestCall::NeedsAuth(waiting)) && waiting.endpoint
            matches Endpoint::AccountInactiveOrders {
            account_index,
            limit,
            market,
            ask_filter,
            between,
            cursor: from_cursor,
        } && {
            &&& account_index == (client@.account_id->0).0
            &&& limit == query.limit
            &&& market == query.market
            &&& ask_filter == query.filter.query
            &&& between == query.between
            &&& query.cursor is Some ==> from_cursor == Some(query.cursor->0.text)
            &&& query.cursor is None ==> from_cursor is None
        },
        page matches Ok(RestCall::NeedsAuth(waiting)) && waiting.endpoint
            matches Endpoint::AccountInactiveOrders {
            account_index,
            limit,
            market,
            ask_filter,
            between,
            cursor: from_cursor,
        } && {
            &&& account_index == (client@.account_id->0).0
            &&& limit == query.limit
            &&& market == query.market
            &&& ask_filter == query.filter.query
            &&& between == query.between
            &&& from_cursor == cursor
        },
{
    client.signer_comes_with_account();
}

/// The request for a page of deposits carries the L1 address, the filter of the query, the number
/// of the account, and the cursor of the page.
pub proof fn deposit_request_carries_its_query<'q>(
    client: &'q LighterClient,
    handle: &'q AccountHandle<'q>,
    l1_address: &'q str,
    query: HistoryQuery<'q>,
    call: Result<RestCall<'q>, Error>,
    pages: &'q PageSource<'q>,
    cursor: Option<&'q str>,
    page: Result<RestCall<'q>, Error>,
)
    requires
        call_ensures(LighterClient::account, (client,), *handle),
        call_ensures(AccountHandle::<'q>::deposit_history, (handle, l1_address, query), call),
        call_ensures(
            AccountHandle::<'q>::deposit_history_stream,
            (handle, l1_address, query),
            Ok(*pages),
        ),
        call_ensures(PageSource::<'q>::page, (pages, cursor), page),
    ensures
        client@.account_id is Some,
        call matches Ok(RestCall::NeedsAuth(waiting)) && waiting.endpoint
            matches Endpoint::DepositHistory {
            account_index,
            l1_address: address,
            cursor: from_cursor,
            filter,
        } && {
            &&& account_index == (client@.account_id->0).0
            &&& address == l1_address
            &&& query.filter is Some ==> filter == Some(query.filter->0.text)
            &&& query.filter is None ==> filter is None
            &&& query.cursor is Some ==> from_cursor == Some(query.cursor->0.text)
            &&& query.cursor is None ==> from_cursor is None
        },
        page matches Ok(RestCall::NeedsAuth(waiting)) && waiting.endpoint
            matches Endpoint::DepositHistory {
            account_index,
            l1_address: address,
            cursor: from_cursor,
            filter,
        } && {
            &&& account_index == (client@.account_id->0).0
            &&& address == l1_address
            &&& query.filter is Some ==> filter == Some(query.filter->0.text)
            &&& query.filter is None ==> filter is None
            &&& from_cursor == cursor
        },
{
    client.signer_comes_with_account();
}

/// The request for a page of transfers carries the number of the account and the cursor of the
/// page; transfers are not filtered.
pub proof fn transfer_request_carries_its_cursor<'q>(
    client: &'q LighterClient,
    handle: &'q AccountHandle<'q>,
    query: HistoryQuery<'q>,
    call: Result<RestCall<'q>, Error>,
    pages: &'q PageSource<'q>,
    cursor: Option<&'q str>,
    page: Result<RestCall<'q>, Error>,
)
    requires
        call_ensures(LighterClient::account, (client,), *handle),
        call_ensures(AccountHandle::<'q>::transfer_history, (handle, query), call),
        call_ensures(AccountHandle::<'q>::transfer_history_stream, (handle, query), Ok(*pages)),
        call_ensures(PageSource::<'q>::page, (pages, cursor), page),
    ensures
        client@.account_id is Some,
        call matches Ok(RestCall::NeedsAuth(waiting)) && waiting.endpoint
            matches Endpoint::TransferHistory { account_index, cursor: from_cursor } && {
            &&& account_index == (client@.account_id->0).0
            &&& query.cursor is Some ==> from_cursor == Some(query.cursor->0.text)
            &&& query.cursor is None ==> from_cursor is None
        },
        page matches Ok(RestCall::NeedsAuth(waiting)) && waiting.endpoint
            matches Endpoint::TransferHistory { account_index, cursor: from_cursor } && {
            &&& account_index == (client@.account_id->0).0
            &&& from_cursor == cursor
        },
{
    client.signer_comes_with_account();
}

/// The request for a page of withdrawals carries the filter of the query, the number of the
/// account, and the cursor of the page.
pub proof fn withdrawal_request_carries_its_query<'q>(
    client: &'q LighterClient,
    handle: &'q AccountHandle<'q>,
    query: HistoryQuery<'q>,
    call: Result<RestCall<'q>, Error>,
    pages: &'q PageSource<'q>,
    cursor: Option<&'q str>,
    page: Result<RestCall<'q>, Error>,
)
    requires
        call_ensures(LighterClient::account, (client,), *handle),
        call_ensures(AccountHandle::<'q>::withdraw_history, (handle, query), call),
        call_ensures(AccountHandle::<'q>::withdraw_history_stream, (handle, query), Ok(*pages)),
        call_ensures(PageSource::<'q>::page, (pages, cursor), page),
    ensures
        client@.account_id is Some,
        call matches Ok(RestCall::NeedsAuth(waiting)) && waiting.endpoint
            matches Endpoint::WithdrawHistory { account_index, cursor: from_cursor, filter } && {
            &&& account_index == (client@.account_id->0).0
            &&& query.filter is Some ==> filter == Some(query.filter->0.text)
            &&& query.filter is None ==> filter is None
            &&& query.cursor is Some ==> from_cursor == Some(query.cursor->0.text)
            &&& query.cursor is None ==> from_cursor is None
        },
        page matches Ok(RestCall::NeedsAuth(waiting)) && waiting.endpoint
            matches Endpoint::WithdrawHistory { account_index, cursor: from_cursor, filter } && {
            &&& account_index == (client@.account_id->0).0
            &&& query.filter is Some ==> filter == Some(query.filter->0.text)
            &&& query.filter is None ==> filter is None
            &&& from_cursor == cursor
        },
{
    client.signer_comes_with_account();
}

/// A listing starts where its query says: at the query's cursor, or at the beginning.
pub proof fn listings_start_at_the_cursor_of_their_query<'q>(
    handle: &'q AccountHandle<'q>,
    l1_address: &'q str,
    orders: InactiveOrdersQuery<'q>,
    trades: TradesQuery<'q>,
    history: HistoryQuery<'q>,
    pages: &'q PageSource<'q>,
    first: Option<&'q str>,
)
    requires
        call_ensures(PageSource::<'q>::initial_cursor, (pages,), first),
    ensures
        call_ensures(AccountHandle::<'q>::inactive_orders_stream, (handle, orders), Ok(*pages))
            ==> {
            &&& orders.cursor is Some ==> first == Some(orders.cursor->0.text)
            &&& orders.cursor is None ==> first is None
        },
        call_ensures(AccountHandle::<'q>::trades_stream, (handle, trades), Ok(*pages)) ==> {
            &&& trades.cursor is Some ==> first == Some(trades.cursor->0.text)
            &&& trades.cursor is None ==> first is None
        },
        call_ensures(
            AccountHandle::<'q>::deposit_history_stream,
            (handle, l1_address, history),
            Ok(*pages),
        ) || call_ensures(
            AccountHandle::<'q>::transfer_history_stream,
            (handle, history),
            Ok(*pages),
        ) || call_ensures(
            AccountHandle::<'q>::withdraw_history_stream,
            (handle, history),
            Ok(*pages),
        ) ==> {
            &&& history.cursor is Some ==> first == Some(history.cursor->0.text)
            &&& history.cursor is None ==> first is None
        },
{
}

/// A client without an account is refused every listing, plain or paged; a client with one gets
/// them all.
pub proof fn listings_need_an_account<'q>(
    client: &'q LighterClient,
    handle: &'q AccountHandle<'q>,
    l1_address: &'q str,
    orders: InactiveOrdersQuery<'q>,
    trades: TradesQuery<'q>,
    history: HistoryQuery<'q>,
    call: Result<RestCall<'q>, Error>,
    pages: Result<PageSource<'q>, Error>,
)
    requires
        call_ensures(LighterClient::account, (client,), *handle),
        ({
            ||| call_ensures(AccountHandle::<'q>::inactive_orders, (handle, orders), call)
            ||| call_ensures(AccountHandle::<'q>::trades, (handle, trades), call)
            ||| call_ensures(
                AccountHandle::<'q>::deposit_history,
                (handle, l1_address, history),
                call,
            )
            ||| call_ensures(AccountHandle::<'q>::transfer_history, (handle, history), call)
            ||| call_ensures(AccountHandle::<'q>::withdraw_history, (handle, history), call)
        }),
        ({
            ||| call_ensures(AccountHandle::<'q>::inactive_orders_stream, (handle, orders), pages)
            ||| call_ensures(AccountHandle::<'q>::trades_stream, (handle, trades), pages)
            ||| call_ensures(
                AccountHandle::<'q>::deposit_history_stream,
                (handle, l1_address, history),
                pages,
            )
            ||| call_ensures(AccountHandle::<'q>::transfer_history_stream, (handle, history), pages)
            ||| call_ensures(AccountHandle::<'q>::withdraw_history_stream, (handle, history), pages)
        }),
    ensures
        client@.account_id is None ==> {
            &&& call == Err::<RestCall<'q>, Error>(Error::NotAuthenticated)
            &&& pages == Err::<PageSource<'q>, Error>(Error::NotAuthenticated)
        },
        client@.account_id is Some ==> call is Ok && pages is Ok,
{
    client.signer_comes_with_account();
}

/// Asking for trades by plain parameters carries each of them, the number of the account, and no
/// order.
pub proof fn plain_trades_request_carries_its_arguments<'q>(
    client: &'q LighterClient,
    handle: &'q OrdersHandle<'q>,
    sort_by: TradeSort<'q>,
    limit: i64,
    market: Option<MarketId>,
    sort_dir: Option<SortDir>,
    cursor: Option<PageCursor<'q>>,
    from: Option<i64>,
    ask_filter: Option<i32>,
    call: Result<RestCall<'q>, Error>,
)
    requires
        call_ensures(LighterClient::orders, (client,), *handle),
        call_ensures(
            OrdersHandle::<'q>::trades,
            (handle, sort_by, limit, market, sort_dir, cursor, from, ask_filter),
            call,
        ),
    ensures
        client@.account_id is None ==> call == Err::<RestCall<'q>, Error>(Error::NotAuthenticated),
        client@.account_id is Some ==> call == Ok::<RestCall<'q>, Error>(
            RestCall::NeedsAuth(
                PendingRequest {
                    endpoint: Endpoint::Trades {
                        sort_by,
                        limit,
                        market,
                        account_index: Some((client@.account_id->0).0),
                        order_index: None,
                        sort_dir,
                        cursor: if cursor is Some { Some(cursor->0.text) } else { None },
                        from,
                        ask_filter,
                    },
                },
            ),
        ),
{
    client.signer_comes_with_account();
}

/// Requests for liquidations, funding payments and pools carry what they were asked with, and the
/// number of the account.
pub proof fn account_requests_carry_their_arguments<'q>(
    client: &'q LighterClient,
    handle: &'q AccountHandle<'q>,
    limit: i64,
    index: i64,
    market: Option<MarketId>,
    cursor: Option<PageCursor<'q>>,
    side: Option<FundingSide>,
    pools: Option<PoolFilter<'q>>,
    call: Result<RestCall<'q>, Error>,
)
    requires
        call_ensures(LighterClient::account, (client,), *handle),
        client@.account_id is Some,
    ensures
        call_ensures(AccountHandle::<'q>::liquidations, (handle, limit, market, cursor), call)
            ==> call == Ok::<RestCall<'q>, Error>(
            RestCall::NeedsAuth(
                PendingRequest {
                    endpoint: Endpoint::Liquidations {
                        account_index: (client@.account_id->0).0,
                        limit,
                        market,
                        cursor: if cursor is Some { Some(cursor->0.text) } else { None },
                    },
                },
            ),
        ),
        call_ensures(
            AccountHandle::<'q>::position_funding,
            (handle, limit, market, cursor, side),
            call,
        ) ==> call == Ok::<RestCall<'q>, Error>(
            RestCall::NeedsAuth(
                PendingRequest {
                    endpoint: Endpoint::PositionFunding {
                        account_index: (client@.account_id->0).0,
                        limit,
                        market,
                        cursor: if cursor is Some { Some(cursor->0.text) } else { None },
                        side: if side is Some { Some(side->0.text) } else { None },
                    },
                },
            ),
        ),
        call_ensures(AccountHandle::<'q>::public_pools, (handle, index, limit, pools), call)
            ==> call == Ok::<RestCall<'q>, Error>(
            RestCall::NeedsAuth(
                PendingRequest {
                    endpoint: Endpoint::PublicPools {
                        index,
                        limit,
                        filter: if pools is Some { Some(pools->0.text) } else { None },
                        account_index: (client@.account_id->0).0,
                    },
                },
            ),
        ),
        call_ensures(
            AccountHandle::<'q>::public_pools_metadata,
            (handle, index, limit, pools),
            call,
        ) ==> call == Ok::<RestCall<'q>, Error>(
            RestCall::NeedsAuth(
                PendingRequest {
                    endpoint: Endpoint::PublicPoolsMetadata {
                        index,
                        limit,
                        filter: if pools is Some { Some(pools->0.text) } else { None },
                        account_index: (client@.account_id->0).0,
                    },
                },
            ),
        ),
{
    client.signer_comes_with_account();
}

/// Requests that name the account by its value name it in decimal, and carry what they were asked
/// with besides.
pub proof fn account_value_is_the_number_in_decimal<'q>(
    client: &'q LighterClient,
    handle: &'q AccountHandle<'q>,
    resolution: PnlResolution<'q>,
    range: TimeRange,
    count_back: i64,
    ignore_transfers: Option<bool>,
    limit: i64,
    index: Option<i64>,
    types: Option<Vec<i32>>,
    call: Result<RestCall<'q>, Error>,
)
    requires
        call_ensures(LighterClient::account, (client,), *handle),
        client@.account_id is Some,
    ensures
        call_ensures(AccountHandle::<'q>::details, (handle,), call) ==> {
            &&& call matches Ok(RestCall::Ready(request))
            &&& request.auth is None
            &&& request.endpoint matches Endpoint::AccountDetails { account_value }
            &&& account_value@ == crate::decimal::decimal((client@.account_id->0).0 as int)
        },
        call_ensures(AccountHandle::<'q>::metadata, (handle,), call) ==> {
            &&& call matches Ok(RestCall::NeedsAuth(waiting))
            &&& waiting.endpoint matches Endpoint::AccountMetadata { account_value }
            &&& account_value@ == crate::decimal::decimal((client@.account_id->0).0 as int)
        },
        call_ensures(
            AccountHandle::<'q>::pnl,
            (handle, resolution, range, count_back, ignore_transfers),
            call,
        ) ==> {
            &&& call matches Ok(RestCall::NeedsAuth(waiting))
            &&& waiting.endpoint matches Endpoint::AccountPnl {
                account_value,
                resolution: step,
                start,
                end,
                count_back: back,
                ignore_transfers: ignored,
            }
            &&& account_value@ == crate::decimal::decimal((client@.account_id->0).0 as int)
            &&& step == resolution.text
            &&& start == range.start
            &&& end == range.end
            &&& back == count_back
            &&& ignored == ignore_transfers
        },
        call_ensures(AccountHandle::<'q>::transactions, (handle, limit, index, types), call) ==> {
            &&& call matches Ok(RestCall::NeedsAuth(waiting))
            &&& waiting.endpoint matches Endpoint::AccountTransactions {
                limit: most,
                account_value,
                index: from_index,
                types: kinds,
            }
            &&& account_value@ == crate::decimal::decimal((client@.account_id->0).0 as int)
            &&& most == limit
            &&& from_index == index
            &&& kinds == types
        },
{
    client.signer_comes_with_account();
}

} // verus!
