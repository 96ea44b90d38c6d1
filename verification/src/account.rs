//! Account scoped REST helpers.

use vstd::prelude::*;

use crate::client::{ClientModel, LighterClient};
use crate::errors::Error;
use crate::params::{
    FundingSide, HistoryFilter, HistoryQuery, InactiveOrdersQuery, PageCursor, PnlResolution,
    PoolFilter, TimeRange, TradesQuery,
};
use crate::rest::{Endpoint, RestCall};
use crate::types::{AccountId, ApiKeyIndex, MarketId};

verus! {

/// The text of a cursor, if there is one.
pub open spec fn cursor_of<'r>(cursor: Option<PageCursor<'r>>) -> Option<&'r str> {
    match cursor {
        Some(page) => Some(page.text),
        None => None,
    }
}

pub(crate) fn cursor_text<'r>(cursor: Option<PageCursor<'r>>) -> (text: Option<&'r str>)
    ensures
        text == cursor_of(cursor),
{
    match cursor {
        Some(page) => Some(page.text),
        None => None,
    }
}

/// The text of a pool filter, if there is one.
pub open spec fn pool_of<'r>(filter: Option<PoolFilter<'r>>) -> Option<&'r str> {
    match filter {
        Some(pools) => Some(pools.text),
        None => None,
    }
}

fn pool_text<'r>(filter: Option<PoolFilter<'r>>) -> (text: Option<&'r str>)
    ensures
        text == pool_of(filter),
{
    match filter {
        Some(pools) => Some(pools.text),
        None => None,
    }
}

/// The text of a history filter, if there is one.
pub open spec fn history_of<'r>(filter: Option<HistoryFilter<'r>>) -> Option<&'r str> {
    match filter {
        Some(entries) => Some(entries.text),
        None => None,
    }
}

fn history_text<'r>(filter: Option<HistoryFilter<'r>>) -> (text: Option<&'r str>)
    ensures
        text == history_of(filter),
{
    match filter {
        Some(entries) => Some(entries.text),
        None => None,
    }
}

/// The text of a funding side, if there is one.
pub open spec fn side_of(side: Option<FundingSide>) -> Option<&'static str> {
    match side {
        Some(payer) => Some(payer.text),
        None => None,
    }
}

fn side_text(side: Option<FundingSide>) -> (text: Option<&'static str>)
    ensures
        text == side_of(side),
{
    match side {
        Some(payer) => Some(payer.text),
        None => None,
    }
}

/// A listing of the account that comes in pages.
#[derive(Debug, Clone, Copy, PartialEq, Eq)]
pub enum Listing<'q> {
    InactiveOrders(InactiveOrdersQuery<'q>),
    Trades(TradesQuery<'q>),
    Deposits { l1_address: &'q str, filter: Option<&'q str> },
    Transfers,
    Withdrawals { filter: Option<&'q str> },
}

/// The endpoint that gives the page of a listing that starts at a cursor.
pub open spec fn page_endpoint<'r>(
    listing: Listing<'r>,
    account_index: i64,
    cursor: Option<&'r str>,
) -> Endpoint<'r> {
    match listing {
        Listing::InactiveOrders(query) => Endpoint::AccountInactiveOrders {
            account_index,
            limit: query.limit,
            market: query.market,
            ask_filter: query.filter.query,
            between: query.between,
            cursor,
        },
        Listing::Trades(query) => Endpoint::Trades {
            sort_by: query.sort,
            limit: query.limit,
            market: query.market,
            account_index: Some(account_index),
            order_index: query.order_index,
            sort_dir: query.sort_dir,
            cursor,
            from: match query.from {
                Some(moment) => Some(moment.unix),
                None => None,
            },
            ask_filter: query.filter.query,
        },
        Listing::Deposits { l1_address, filter } => Endpoint::DepositHistory {
            account_index,
            l1_address,
            cursor,
            filter,
        },
        Listing::Transfers => Endpoint::TransferHistory { account_index, cursor },
        Listing::Withdrawals { filter } => Endpoint::WithdrawHistory {
            account_index,
            cursor,
            filter,
        },
    }
}

/// The call that fetches the page of a listing that starts at a cursor.
pub open spec fn page_call<'r>(
    client: ClientModel,
    listing: Listing<'r>,
    cursor: Option<&'r str>,
) -> Result<RestCall<'r>, Error> {
    client.private_call(page_endpoint(listing, client.account_index(), cursor))
}

/// The pages of a listing, one request each.
pub struct PageSource<'q> {
    c: &'q LighterClient,
    listing: Listing<'q>,
    initial_cursor: Option<&'q str>,
}

/// Mathematical view of a [`PageSource`].
pub struct PageSourceModel<'q> {
    pub client: ClientModel,
    pub listing: Listing<'q>,
    pub initial_cursor: Option<&'q str>,
}

impl<'q> View for PageSource<'q> {
    type V = PageSourceModel<'q>;

    closed spec fn view(&self) -> PageSourceModel<'q> {
        PageSourceModel {
            client: self.c@,
            listing: self.listing,
            initial_cursor: self.initial_cursor,
        }
    }
}

impl<'q> PageSourceModel<'q> {
    /// The call that fetches the page which starts at a cursor.
    pub open spec fn page(self, cursor: Option<&'q str>) -> Result<RestCall<'q>, Error> {
        page_call(self.client, self.listing, cursor)
    }
}

impl<'q> PageSource<'q> {
    /// Where the first page starts.
    pub fn initial_cursor(&self) -> (cursor: Option<&'q str>)
        ensures
            cursor == self@.initial_cursor,
    {
        self.initial_cursor
    }

    /// The call that fetches the page which starts at a cursor.
    pub fn page<'r>(&'r self, cursor: Option<&'r str>) -> (call: Result<RestCall<'r>, Error>)
        ensures
            call == self@.page(cursor),
    {
        AccountHandle::new(self.c).request_page(self.listing, cursor)
    }
}

/// Account scoped helper providing access to authenticated endpoints.
pub struct AccountHandle<'a> {
    c: &'a LighterClient,
}

impl<'a> View for AccountHandle<'a> {
    type V = ClientModel;

    closed spec fn view(&self) -> ClientModel {
        self.c@
    }
}

impl<'a> AccountHandle<'a> {
    pub(crate) fn new(c: &'a LighterClient) -> (handle: Self)
        ensures
            handle@ == c@,
    {
        AccountHandle { c }
    }

    /// Details of the account.
    pub fn details<'r>(&self) -> (call: Result<RestCall<'r>, Error>)
        ensures
            self@.account_id is None ==> call == Err::<RestCall<'r>, _>(Error::NotAuthenticated),
            self@.account_id is Some ==> exists|account_value: String| #[trigger]
                account_value@ == self@.account_value() && call == Ok::<_, Error>(
                    crate::rest::public_call(
                        Endpoint::AccountDetails { account_value },
                    ),
                ),
    {
        let account_value = match self.c.require_account_value() {
            Ok(value) => value,
            Err(error) => {
                return Err(error);
            },
        };
        Ok(
            RestCall::public(
                Endpoint::AccountDetails { account_value },
            ),
        )
    }

    /// Limits of the account.
    pub fn limits<'r>(&self) -> (call: Result<RestCall<'r>, Error>)
        ensures
            call == self@.private_call(
                Endpoint::AccountLimits { account_index: self@.account_index() },
            ),
    {
        let account_index: i64 = match self.c.require_account_i64() {
            Ok(index) => index,
            Err(error) => {
                return Err(error);
            },
        };
        self.c.auth_header(
            Endpoint::AccountLimits { account_index },
        )
    }

    /// Metadata of the account.
    pub fn metadata<'r>(&self) -> (call: Result<RestCall<'r>, Error>)
        ensures
            !self@.authenticated() ==> call == Err::<RestCall<'r>, _>(Error::NotAuthenticated),
            self@.authenticated() ==> exists|account_value: String| #[trigger]
                account_value@ == self@.account_value() && call == Ok::<_, Error>(
                    crate::rest::private_call(
                        Endpoint::AccountMetadata { account_value },
                    ),
                ),
    {
        let account_value = match self.c.require_account_value() {
            Ok(value) => value,
            Err(error) => {
                return Err(error);
            },
        };
        self.c.auth_header(
            Endpoint::AccountMetadata { account_value },
        )
    }

    /// API keys of the account: one of them, or all.
    pub fn api_keys<'r>(
        &self,
        api_key_index: Option<ApiKeyIndex>,
    ) -> (call: Result<RestCall<'r>, Error>)
        ensures
            call == self@.account_call(
                Endpoint::ApiKeys { account_index: self@.account_index(), api_key_index },
            ),
    {
        let account_index: i64 = match self.c.require_account_i64() {
            Ok(index) => index,
            Err(error) => {
                return Err(error);
            },
        };
        Ok(
            RestCall::public(
                Endpoint::ApiKeys { account_index, api_key_index },
            ),
        )
    }

    /// Move the account to another tier.
    pub fn change_tier<'r>(&self, new_tier: &'r str) -> (call: Result<RestCall<'r>, Error>)
        ensures
            call == self@.private_call(
                Endpoint::ChangeAccountTier { account_index: self@.account_index(), new_tier },
            ),
    {
        let account_index: i64 = match self.c.require_account_i64() {
            Ok(index) => index,
            Err(error) => {
                return Err(error);
            },
        };
        self.c.auth_header(
            Endpoint::ChangeAccountTier { account_index, new_tier },
        )
    }

    /// Metadata of an L1 address.
    pub fn l1_metadata<'r>(&self, l1_address: &'r str) -> (call: Result<RestCall<'r>, Error>)
        ensures
            call == self@.signed_call(
                Endpoint::L1Metadata { l1_address },
            ),
    {
        self.c.auth_header(
            Endpoint::L1Metadata { l1_address },
        )
    }

    /// Liquidations of the account.
    pub fn liquidations<'r>(
        &self,
        limit: i64,
        market: Option<MarketId>,
        cursor: Option<PageCursor<'r>>,
    ) -> (call: Result<RestCall<'r>, Error>)
        ensures
            call == self@.private_call(
                Endpoint::Liquidations {
                    account_index: self@.account_index(),
                    limit,
                    market,
                    cursor: cursor_of(cursor),
                },
            ),
    {
        let account_index: i64 = match self.c.require_account_i64() {
            Ok(index) => index,
            Err(error) => {
                return Err(error);
            },
        };
        self.c.auth_header(
            Endpoint::Liquidations { account_index, limit, market, cursor: cursor_text(cursor) },
        )
    }

    /// Profit and loss of the account over a stretch of time.
    pub fn pnl<'r>(
        &self,
        resolution: PnlResolution<'r>,
        range: TimeRange,
        count_back: i64,
        ignore_transfers: Option<bool>,
    ) -> (call: Result<RestCall<'r>, Error>)
        ensures
            !self@.authenticated() ==> call == Err::<RestCall<'r>, _>(Error::NotAuthenticated),
            self@.authenticated() ==> exists|account_value: String| #[trigger]
                account_value@ == self@.account_value() && call == Ok::<_, Error>(
                    crate::rest::private_call(
                        Endpoint::AccountPnl {
                            account_value,
                            resolution: resolution.text,
                            start: range.start,
                            end: range.end,
                            count_back,
                            ignore_transfers,
                        },
                    ),
                ),
    {
        let account_value = match self.c.require_account_value() {
            Ok(value) => value,
            Err(error) => {
                return Err(error);
            },
        };
        self.c.auth_header(
            Endpoint::AccountPnl {
                account_value,
                resolution: resolution.text,
                start: range.start,
                end: range.end,
                count_back,
                ignore_transfers,
            },
        )
    }

    /// Funding payments on positions of the account.
    pub fn position_funding<'r>(
        &self,
        limit: i64,
        market: Option<MarketId>,
        cursor: Option<PageCursor<'r>>,
        side: Option<FundingSide>,
    ) -> (call: Result<RestCall<'r>, Error>)
        ensures
            call == self@.private_call(
                Endpoint::PositionFunding {
                    account_index: self@.account_index(),
                    limit,
                    market,
                    cursor: cursor_of(cursor),
                    side: side_of(side),
                },
            ),
    {
        let account_index: i64 = match self.c.require_account_i64() {
            Ok(index) => index,
            Err(error) => {
                return Err(error);
            },
        };
        self.c.auth_header(
            Endpoint::PositionFunding {
                account_index,
                limit,
                market,
                cursor: cursor_text(cursor),
                side: side_text(side),
            },
        )
    }

    /// Public pools, as the account sees them.
    pub fn public_pools<'r>(
        &self,
        index: i64,
        limit: i64,
        filter: Option<PoolFilter<'r>>,
    ) -> (call: Result<RestCall<'r>, Error>)
        ensures
            call == self@.private_call(
                Endpoint::PublicPools {
                    index,
                    limit,
                    filter: pool_of(filter),
                    account_index: self@.account_index(),
                },
            ),
    {
        let account_index: i64 = match self.c.require_account_i64() {
            Ok(index) => index,
            Err(error) => {
                return Err(error);
            },
        };
        self.c.auth_header(
            Endpoint::PublicPools { index, limit, filter: pool_text(filter), account_index },
        )
    }

    /// Metadata of public pools, as the account sees them.
    pub fn public_pools_metadata<'r>(
        &self,
        index: i64,
        limit: i64,
        filter: Option<PoolFilter<'r>>,
    ) -> (call: Result<RestCall<'r>, Error>)
        ensures
            call == self@.private_call(
                Endpoint::PublicPoolsMetadata {
                    index,
                    limit,
                    filter: pool_of(filter),
                    account_index: self@.account_index(),
                },
            ),
    {
        let account_index: i64 = match self.c.require_account_i64() {
            Ok(index) => index,
            Err(error) => {
                return Err(error);
            },
        };
        self.c.auth_header(
            Endpoint::PublicPoolsMetadata {
                index,
                limit,
                filter: pool_text(filter),
                account_index,
            },
        )
    }

    /// Accounts of an L1 address.
    pub fn by_l1<'r>(&self, l1_address: &'r str) -> (call: Result<RestCall<'r>, Error>)
        ensures
            call == Ok::<_, Error>(
                crate::rest::public_call(
                    Endpoint::AccountsByL1Address { l1_address },
                ),
            ),
    {
        Ok(
            RestCall::public(
                Endpoint::AccountsByL1Address { l1_address },
            ),
        )
    }

    /// Resting orders of the account in a market.
    pub fn active_orders<'r>(&self, market: MarketId) -> (call: Result<RestCall<'r>, Error>)
        ensures
            call == self@.private_call(
                Endpoint::AccountActiveOrders { account_index: self@.account_index(), market },
            ),
    {
        let account_index: i64 = match self.c.require_account_i64() {
            Ok(index) => index,
            Err(error) => {
                return Err(error);
            },
        };
        self.c.auth_header(
            Endpoint::AccountActiveOrders { account_index, market },
        )
    }

    /// Transactions of the account.
    pub fn transactions<'r>(
        &self,
        limit: i64,
        index: Option<i64>,
        types: Option<Vec<i32>>,
    ) -> (call: Result<RestCall<'r>, Error>)
        ensures
            !self@.authenticated() ==> call == Err::<RestCall<'r>, _>(Error::NotAuthenticated),
            self@.authenticated() ==> exists|account_value: String| #[trigger]
                account_value@ == self@.account_value() && call == Ok::<_, Error>(
                    crate::rest::private_call(
                        Endpoint::AccountTransactions { account_value, limit, index, types },
                    ),
                ),
    {
        let account_value = match self.c.require_account_value() {
            Ok(value) => value,
            Err(error) => {
                return Err(error);
            },
        };
        self.c.auth_header(
            Endpoint::AccountTransactions { account_value, limit, index, types },
        )
    }

    /// The nonce that the next transaction with an API key uses.
    pub fn next_nonce<'r>(&self, api_key_index: ApiKeyIndex) -> (call: Result<RestCall<'r>, Error>)
        ensures
            call == self@.account_call(
                Endpoint::NextNonce { account_index: self@.account_index(), api_key_index },
            ),
    {
        let account_index: i64 = match self.c.require_account_i64() {
            Ok(index) => index,
            Err(error) => {
                return Err(error);
            },
        };
        Ok(
            RestCall::public(
                Endpoint::NextNonce { account_index, api_key_index },
            ),
        )
    }

    /// What a transfer from the account costs.
    pub fn transfer_fee_info<'r>(
        &self,
        to_account_index: Option<AccountId>,
    ) -> (call: Result<RestCall<'r>, Error>)
        ensures
            call == self@.private_call(
                Endpoint::TransferFeeInfo {
                    account_index: self@.account_index(),
                    to_account_index,
                },
            ),
    {
        let account_index: i64 = match self.c.require_account_i64() {
            Ok(index) => index,
            Err(error) => {
                return Err(error);
            },
        };
        self.c.auth_header(
            Endpoint::TransferFeeInfo { account_index, to_account_index },
        )
    }

    /// The call that fetches one page of a listing.
    fn request_page<'r>(&self, listing: Listing<'r>, cursor: Option<&'r str>) -> (call: Result<
        RestCall<'r>,
        Error,
    >)
        ensures
            call == page_call(self@, listing, cursor),
    {
        match listing {
            Listing::InactiveOrders(query) => self.request_inactive_orders_with_cursor(
                &query,
                cursor,
            ),
            Listing::Trades(query) => self.request_trades_with_cursor(&query, cursor),
            Listing::Deposits { l1_address, filter } => self.request_deposit_history_with_cursor(
                l1_address,
                filter,
                cursor,
            ),
            Listing::Transfers => self.request_transfer_history_with_cursor(cursor),
            Listing::Withdrawals { filter } => self.request_withdraw_history_with_cursor(
                filter,
                cursor,
            ),
        }
    }

    /// The pages of a listing of the account, from a cursor on.
    fn pages(&self, listing: Listing<'a>, initial_cursor: Option<&'a str>) -> (pages: Result<
        PageSource<'a>,
        Error,
    >)
        ensures
            self@.account_id is None ==> pages == Err::<PageSource<'a>, _>(Error::NotAuthenticated),
            pages is Ok ==> self@.authenticated(),
            self@.account_id is Some ==> pages is Ok && pages->Ok_0@ == (PageSourceModel {
                client: self@,
                listing,
                initial_cursor,
            }),
    {
        proof {
            self.c.signer_comes_with_account();
        }
        match self.c.require_account_i64() {
            Ok(_) => Ok(PageSource { c: self.c, listing, initial_cursor }),
            Err(error) => Err(error),
        }
    }

    fn request_inactive_orders_with_cursor<'r>(
        &self,
        query: &InactiveOrdersQuery<'r>,
        cursor: Option<&'r str>,
    ) -> (call: Result<RestCall<'r>, Error>)
        ensures
            call == page_call(self@, Listing::InactiveOrders(*query), cursor),
    {
        let account_index: i64 = match self.c.require_account_i64() {
            Ok(index) => index,
            Err(error) => {
                return Err(error);
            },
        };
        self.c.auth_header(
            Endpoint::AccountInactiveOrders {
                account_index,
                limit: query.limit,
                market: query.market,
                ask_filter: query.filter.query,
                between: query.between,
                cursor,
            },
        )
    }

    fn request_trades_with_cursor<'r>(
        &self,
        query: &TradesQuery<'r>,
        cursor: Option<&'r str>,
    ) -> (call: Result<RestCall<'r>, Error>)
        ensures
            call == page_call(self@, Listing::Trades(*query), cursor),
    {
        let account_index: i64 = match self.c.require_account_i64() {
            Ok(index) => index,
            Err(error) => {
                return Err(error);
            },
        };
        self.c.auth_header(
            Endpoint::Trades {
                sort_by: query.sort,
                limit: query.limit,
                market: query.market,
                account_index: Some(account_index),
                order_index: query.order_index,
                sort_dir: query.sort_dir,
                cursor,
                from: match query.from {
                    Some(moment) => Some(moment.unix),
                    None => None,
                },
                ask_filter: query.filter.query,
            },
        )
    }

    fn request_deposit_history_with_cursor<'r>(
        &self,
        l1_address: &'r str,
        filter: Option<&'r str>,
        cursor: Option<&'r str>,
    ) -> (call: Result<RestCall<'r>, Error>)
        ensures
            call == page_call(self@, Listing::Deposits { l1_address, filter }, cursor),
    {
        let account_index: i64 = match self.c.require_account_i64() {
            Ok(index) => index,
            Err(error) => {
                return Err(error);
            },
        };
        self.c.auth_header(
            Endpoint::DepositHistory { account_index, l1_address, cursor, filter },
        )
    }

    fn request_transfer_history_with_cursor<'r>(
        &self,
        cursor: Option<&'r str>,
    ) -> (call: Result<RestCall<'r>, Error>)
        ensures
            call == page_call(self@, Listing::Transfers, cursor),
    {
        let account_index: i64 = match self.c.require_account_i64() {
            Ok(index) => index,
            Err(error) => {
                return Err(error);
            },
        };
        self.c.auth_header(
            Endpoint::TransferHistory { account_index, cursor },
        )
    }

    fn request_withdraw_history_with_cursor<'r>(
        &self,
        filter: Option<&'r str>,
        cursor: Option<&'r str>,
    ) -> (call: Result<RestCall<'r>, Error>)
        ensures
            call == page_call(self@, Listing::Withdrawals { filter }, cursor),
    {
        let account_index: i64 = match self.c.require_account_i64() {
            Ok(index) => index,
            Err(error) => {
                return Err(error);
            },
        };
        self.c.auth_header(
            Endpoint::WithdrawHistory { account_index, cursor, filter },
        )
    }

    /// Closed orders of the account: the page that the query's cursor points to.
    pub fn inactive_orders<'r>(
        &self,
        query: InactiveOrdersQuery<'r>,
    ) -> (call: Result<RestCall<'r>, Error>)
        ensures
            call == page_call(
                self@,
                Listing::InactiveOrders(query),
                cursor_of(query.cursor),
            ),
    {
        self.request_inactive_orders_with_cursor(&query, cursor_text(query.cursor))
    }

    /// Closed orders of the account: all pages from the query's cursor on.
    pub fn inactive_orders_stream(
        &self,
        query: InactiveOrdersQuery<'a>,
    ) -> (pages: Result<PageSource<'a>, Error>)
        ensures
            self@.account_id is None ==> pages == Err::<PageSource<'a>, _>(Error::NotAuthenticated),
            pages is Ok ==> self@.authenticated(),
            self@.account_id is Some ==> pages is Ok && pages->Ok_0@ == (PageSourceModel {
                client: self@,
                listing: Listing::InactiveOrders(query),
                initial_cursor: cursor_of(query.cursor),
            }),
    {
        self.pages(
            Listing::InactiveOrders(query),
            cursor_text(query.cursor),
        )
    }

    /// Trades of the account: the page that the query's cursor points to.
    pub fn trades<'r>(
        &self,
        query: TradesQuery<'r>,
    ) -> (call: Result<RestCall<'r>, Error>)
        ensures
            call == page_call(
                self@,
                Listing::Trades(query),
                cursor_of(query.cursor),
            ),
    {
        self.request_trades_with_cursor(&query, cursor_text(query.cursor))
    }

    /// Trades of the account: all pages from the query's cursor on.
    pub fn trades_stream(
        &self,
        query: TradesQuery<'a>,
    ) -> (pages: Result<PageSource<'a>, Error>)
        ensures
            self@.account_id is None ==> pages == Err::<PageSource<'a>, _>(Error::NotAuthenticated),
            pages is Ok ==> self@.authenticated(),
            self@.account_id is Some ==> pages is Ok && pages->Ok_0@ == (PageSourceModel {
                client: self@,
                listing: Listing::Trades(query),
                initial_cursor: cursor_of(query.cursor),
            }),
    {
        self.pages(
            Listing::Trades(query),
            cursor_text(query.cursor),
        )
    }

    /// Deposits of the account from an L1 address: the page that the query's cursor points to.
    pub fn deposit_history<'r>(
        &self,
        l1_address: &'r str,
        query: HistoryQuery<'r>,
    ) -> (call: Result<RestCall<'r>, Error>)
        ensures
            call == page_call(
                self@,
                Listing::Deposits { l1_address, filter: history_of(query.filter) },
                cursor_of(query.cursor),
            ),
    {
        self.request_deposit_history_with_cursor(
            l1_address,
            history_text(query.filter),
            cursor_text(query.cursor),
        )
    }

    /// Deposits of the account from an L1 address: all pages from the query's cursor on.
    pub fn deposit_history_stream(
        &self,
        l1_address: &'a str,
        query: HistoryQuery<'a>,
    ) -> (pages: Result<PageSource<'a>, Error>)
        ensures
            self@.account_id is None ==> pages == Err::<PageSource<'a>, _>(Error::NotAuthenticated),
            pages is Ok ==> self@.authenticated(),
            self@.account_id is Some ==> pages is Ok && pages->Ok_0@ == (PageSourceModel {
                client: self@,
                listing: Listing::Deposits { l1_address, filter: history_of(query.filter) },
                initial_cursor: cursor_of(query.cursor),
            }),
    {
        self.pages(
            Listing::Deposits { l1_address, filter: history_text(query.filter) },
            cursor_text(query.cursor),
        )
    }

    /// Transfers of the account: the page that the query's cursor points to.
    pub fn transfer_history<'r>(
        &self,
        query: HistoryQuery<'r>,
    ) -> (call: Result<RestCall<'r>, Error>)
        ensures
            call == page_call(
                self@,
                Listing::Transfers,
                cursor_of(query.cursor),
            ),
    {
        self.request_transfer_history_with_cursor(cursor_text(query.cursor))
    }

    /// Transfers of the account: all pages from the query's cursor on.
    pub fn transfer_history_stream(
        &self,
        query: HistoryQuery<'a>,
    ) -> (pages: Result<PageSource<'a>, Error>)
        ensures
            self@.account_id is None ==> pages == Err::<PageSource<'a>, _>(Error::NotAuthenticated),
            pages is Ok ==> self@.authenticated(),
            self@.account_id is Some ==> pages is Ok && pages->Ok_0@ == (PageSourceModel {
                client: self@,
                listing: Listing::Transfers,
                initial_cursor: cursor_of(query.cursor),
            }),
    {
        self.pages(
            Listing::Transfers,
            cursor_text(query.cursor),
        )
    }

    /// Withdrawals of the account: the page that the query's cursor points to.
    pub fn withdraw_history<'r>(
        &self,
        query: HistoryQuery<'r>,
    ) -> (call: Result<RestCall<'r>, Error>)
        ensures
            call == page_call(
                self@,
                Listing::Withdrawals { filter: history_of(query.filter) },
                cursor_of(query.cursor),
            ),
    {
        self.request_withdraw_history_with_cursor(
            history_text(query.filter),
            cursor_text(query.cursor),
        )
    }

    /// Withdrawals of the account: all pages from the query's cursor on.
    pub fn withdraw_history_stream(
        &self,
        query: HistoryQuery<'a>,
    ) -> (pages: Result<PageSource<'a>, Error>)
        ensures
            self@.account_id is None ==> pages == Err::<PageSource<'a>, _>(Error::NotAuthenticated),
            pages is Ok ==> self@.authenticated(),
            self@.account_id is Some ==> pages is Ok && pages->Ok_0@ == (PageSourceModel {
                client: self@,
                listing: Listing::Withdrawals { filter: history_of(query.filter) },
                initial_cursor: cursor_of(query.cursor),
            }),
    {
        self.pages(
            Listing::Withdrawals { filter: history_text(query.filter) },
            cursor_text(query.cursor),
        )
    }
}

} // verus!
