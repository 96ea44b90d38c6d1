//! Parameters of REST requests.

use vstd::prelude::*;

use crate::types::MarketId;

verus! {

/// Where a page of a longer listing starts.
#[derive(Debug, Clone, Copy, PartialEq, Eq)]
pub struct PageCursor<'a> {
    pub text: &'a str,
}

/// Width of a candle.
#[derive(Debug, Clone, Copy, PartialEq, Eq)]
pub struct CandleResolution<'a> {
    pub text: &'a str,
}

/// Width of a step in a profit-and-loss series.
#[derive(Debug, Clone, Copy, PartialEq, Eq)]
pub struct PnlResolution<'a> {
    pub text: &'a str,
}

/// Which public pools to list.
#[derive(Debug, Clone, Copy, PartialEq, Eq)]
pub struct PoolFilter<'a> {
    pub text: &'a str,
}

/// Which entries of a history to list.
#[derive(Debug, Clone, Copy, PartialEq, Eq)]
pub struct HistoryFilter<'a> {
    pub text: &'a str,
}

/// By what trades are sorted.
#[derive(Debug, Clone, Copy, PartialEq, Eq)]
pub struct TradeSort<'a> {
    pub text: &'a str,
}

/// In which direction a listing is sorted.
#[derive(Debug, Clone, Copy, PartialEq, Eq)]
pub struct SortDir {
    pub text: &'static str,
}

/// By what a block or a transaction is looked up.
#[derive(Debug, Clone, Copy, PartialEq, Eq)]
pub struct By {
    pub text: &'static str,
}

/// Which side of a funding payment to list.
#[derive(Debug, Clone, Copy, PartialEq, Eq)]
pub struct FundingSide {
    pub text: &'static str,
}

/// Which side of the book to list; no number lists both.
#[derive(Debug, Clone, Copy, PartialEq, Eq)]
pub struct OrderFilter {
    pub query: Option<i32>,
}

/// A moment, in Unix time.
#[derive(Debug, Clone, Copy, PartialEq, Eq)]
pub struct Timestamp {
    pub unix: i64,
}

/// A stretch of time, in Unix time.
#[derive(Debug, Clone, Copy, PartialEq, Eq)]
pub struct TimeRange {
    pub start: i64,
    pub end: i64,
}

/// Selects closed orders of the account.
#[derive(Debug, Clone, Copy, PartialEq, Eq)]
pub struct InactiveOrdersQuery<'a> {
    pub limit: i64,
    pub market: Option<MarketId>,
    pub filter: OrderFilter,
    pub between: Option<TimeRange>,
    pub cursor: Option<PageCursor<'a>>,
}

/// Selects trades of the account.
#[derive(Debug, Clone, Copy, PartialEq, Eq)]
pub struct TradesQuery<'a> {
    pub sort: TradeSort<'a>,
    pub limit: i64,
    pub market: Option<MarketId>,
    pub order_index: Option<i64>,
    pub sort_dir: Option<SortDir>,
    pub from: Option<Timestamp>,
    pub filter: OrderFilter,
    pub cursor: Option<PageCursor<'a>>,
}

/// Selects deposits, transfers or withdrawals of the account.
#[derive(Debug, Clone, Copy, PartialEq, Eq)]
pub struct HistoryQuery<'a> {
    pub filter: Option<HistoryFilter<'a>>,
    pub cursor: Option<PageCursor<'a>>,
}

} // verus!
