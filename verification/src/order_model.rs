//! What an order is made of, and what it comes to when it is submitted or signed.

use vstd::prelude::*;

use crate::client::ClientModel;
use crate::errors::Error;
use crate::types::{
    ApiKeyIndex, BaseQty, Expiry, MarketId, MaxSlippage, Nonce, Price, SignerCodes,
};

verus! {

/// Order side representation.
#[derive(Debug, Clone, Copy, PartialEq, Eq)]
pub enum OrderSide {
    Bid,
    Ask,
}

impl OrderSide {
    /// The side that an order on this one trades against.
    pub open spec fn flipped(self) -> OrderSide {
        match self {
            OrderSide::Bid => OrderSide::Ask,
            OrderSide::Ask => OrderSide::Bid,
        }
    }

    /// The name of the side.
    pub open spec fn label(self) -> Seq<char> {
        match self {
            OrderSide::Bid => "Bid"@,
            OrderSide::Ask => "Ask"@,
        }
    }

    pub fn is_ask(self) -> (ask: bool)
        ensures
            ask == (self == OrderSide::Ask),
    {
        match self {
            OrderSide::Ask => true,
            OrderSide::Bid => false,
        }
    }

    pub fn opposite(self) -> (side: OrderSide)
        ensures
            side == self.flipped(),
    {
        match self {
            OrderSide::Bid => OrderSide::Ask,
            OrderSide::Ask => OrderSide::Bid,
        }
    }

    /// The name of the side, as it is shown to users.
    pub fn name(self) -> (text: &'static str)
        ensures
            text@ == self.label(),
    {
        match self {
            OrderSide::Bid => "Bid",
            OrderSide::Ask => "Ask",
        }
    }
}

/// Supported order time in force strategies.
#[derive(Debug, Clone, Copy, PartialEq, Eq)]
pub enum OrderTimeInForce {
    ImmediateOrCancel,
    GoodTillTime,
    PostOnly,
}

/// Where the client order identifier of an order comes from.
#[derive(Debug, Clone, Copy, PartialEq, Eq)]
pub enum ClientOrderIdStrategy {
    /// It was given.
    Manual(i64),
    /// It is drawn from the system clock when the order goes out.
    Auto,
}

/// How a market order is guarded against slippage.
#[derive(Debug, Clone, Copy, PartialEq, Eq)]
pub enum SlippageStrategy {
    /// The order is priced so that it cannot slip further.
    Enforced { max_slippage: MaxSlippage, ideal_price: Option<Price> },
    /// The order goes out only if it would not slip further.
    CheckOnly { max_slippage: MaxSlippage, ideal_price: Option<Price> },
}

/// The type of an order, with the prices that belong to it.
#[derive(Debug, Clone, Copy, PartialEq, Eq)]
pub enum OrderKind {
    Limit { price: Price },
    Market { avg_execution_price: Option<Price>, slippage: Option<SlippageStrategy> },
    StopLossMarket { trigger: Price },
    StopLossLimit { trigger: Price, limit_price: Price },
    TakeProfitMarket { trigger: Price },
    TakeProfitLimit { trigger: Price, limit_price: Price },
}

impl OrderKind {
    /// Whether the order executes at the market price once it is live.
    pub open spec fn at_market(self) -> bool {
        self is Market || self is StopLossMarket || self is TakeProfitMarket
    }

    /// The number by which the signer knows the type.
    pub open spec fn code(self, codes: SignerCodes) -> i32 {
        match self {
            OrderKind::Limit { .. } => codes.order_type_limit,
            OrderKind::Market { .. } => codes.order_type_market,
            OrderKind::StopLossMarket { .. } => codes.order_type_stop_loss,
            OrderKind::StopLossLimit { .. } => codes.order_type_stop_loss_limit,
            OrderKind::TakeProfitMarket { .. } => codes.order_type_take_profit,
            OrderKind::TakeProfitLimit { .. } => codes.order_type_take_profit_limit,
        }
    }
}

impl OrderTimeInForce {
    /// The number by which the signer knows the policy.
    pub open spec fn code(self, codes: SignerCodes) -> i32 {
        match self {
            OrderTimeInForce::ImmediateOrCancel => codes.time_in_force_immediate_or_cancel,
            OrderTimeInForce::GoodTillTime => codes.time_in_force_good_till_time,
            OrderTimeInForce::PostOnly => codes.time_in_force_post_only,
        }
    }

    /// When an order lapses that was given no expiry.
    pub open spec fn default_expiry(self, codes: SignerCodes) -> i64 {
        if self is ImmediateOrCancel {
            codes.default_ioc_expiry
        } else {
            DEFAULT_ORDER_EXPIRY
        }
    }
}

/// The trigger price of an order that waits for none.
pub const DEFAULT_TRIGGER_PRICE: i32 = 0;

/// The price of an order that takes whatever the market gives.
pub const DEFAULT_MARKET_PRICE: i32 = -1;

/// The expiry that stands for the exchange's own default.
pub const DEFAULT_ORDER_EXPIRY: i64 = -1;

/// What the signer needs to know of an order that states its price.
#[derive(Debug, Clone, Copy, PartialEq, Eq)]
pub struct CreateOrderParams {
    pub market: i32,
    pub client_order_id: i64,
    pub base_amount: i64,
    pub price: i32,
    pub is_ask: bool,
    pub order_type: i32,
    pub time_in_force: i32,
    pub reduce_only: bool,
    pub trigger_price: i32,
    pub expiry: i64,
    pub nonce: Option<i64>,
    pub api_key: Option<i32>,
}

/// What the signer needs to know of a market order whose price follows from a slippage tolerance.
#[derive(Debug, Clone, Copy, PartialEq, Eq)]
pub struct MarketOrderParams {
    pub market: i32,
    pub client_order_id: i64,
    pub base_amount: i64,
    pub max_slippage: MaxSlippage,
    pub is_ask: bool,
    pub reduce_only: bool,
    pub nonce: Option<i64>,
    pub api_key: Option<i32>,
    pub ideal_price: Option<i64>,
}

/// The signer operation that submits an order.
#[derive(Debug, Clone, Copy, PartialEq, Eq)]
pub enum SubmitCall {
    CreateOrder(CreateOrderParams),
    CreateMarketOrderLimitedSlippage(MarketOrderParams),
    CreateMarketOrderIfSlippage(MarketOrderParams),
}

/// What every order that goes to the signer states, however its price comes about.
pub struct OrderOutline {
    pub market: i32,
    pub client_order_id: i64,
    pub base_amount: i64,
    pub is_ask: bool,
    pub reduce_only: bool,
    pub nonce: Option<i64>,
    pub api_key: Option<i32>,
}

impl SubmitCall {
    /// The outline of the order that is submitted.
    pub open spec fn outline(self) -> OrderOutline {
        match self {
            SubmitCall::CreateOrder(params) => OrderOutline {
                market: params.market,
                client_order_id: params.client_order_id,
                base_amount: params.base_amount,
                is_ask: params.is_ask,
                reduce_only: params.reduce_only,
                nonce: params.nonce,
                api_key: params.api_key,
            },
            SubmitCall::CreateMarketOrderLimitedSlippage(params)
            | SubmitCall::CreateMarketOrderIfSlippage(params) => OrderOutline {
                market: params.market,
                client_order_id: params.client_order_id,
                base_amount: params.base_amount,
                is_ask: params.is_ask,
                reduce_only: params.reduce_only,
                nonce: params.nonce,
                api_key: params.api_key,
            },
        }
    }
}

/// The signer operation that signs an order without sending it.
#[derive(Debug, Clone, Copy, PartialEq, Eq)]
pub enum SignCall {
    SignCreateOrder(CreateOrderParams),
    SignMarketOrderLimitedSlippage(MarketOrderParams),
}

/// The nonce as the signer takes it.
pub open spec fn nonce_number(nonce: Option<Nonce>) -> Option<i64> {
    match nonce {
        Some(value) => Some(value.0),
        None => None,
    }
}

/// The API key index as the signer takes it.
pub open spec fn key_number(index: Option<ApiKeyIndex>) -> Option<i32> {
    match index {
        Some(value) => Some(value.0),
        None => None,
    }
}

/// A price as the signer takes it, if it fits.
pub open spec fn signer_price(label: &'static str, ticks: i64) -> Result<i32, Error> {
    if i32::MIN <= ticks <= i32::MAX {
        Ok(ticks as i32)
    } else {
        Err(Error::InvalidConfig { field: label, why: "price exceeds supported range" })
    }
}

/// A price moved by an offset as the signer takes it, if it fits.
pub open spec fn offset_price(label: &'static str, price: Price, offset: i64) -> Result<
    i32,
    Error,
> {
    if i64::MIN <= price.0 + offset <= i64::MAX {
        signer_price(label, (price.0 + offset) as i64)
    } else {
        Err(Error::InvalidConfig { field: label, why: "price offset exceeds supported range" })
    }
}

/// Everything that an order builder has gathered.
pub struct OrderModel {
    pub client: ClientModel,
    pub market: MarketId,
    pub client_order_id: ClientOrderIdStrategy,
    pub side: Option<OrderSide>,
    pub qty: Option<BaseQty>,
    pub tif: Option<OrderTimeInForce>,
    pub reduce_only: bool,
    pub expiry: Option<Expiry>,
    pub nonce: Option<Nonce>,
    pub api_key_override: Option<ApiKeyIndex>,
    pub kind: Option<OrderKind>,
    pub avg_execution_override: Option<Price>,
    pub slippage: Option<SlippageStrategy>,
    pub price_offset_ticks: i64,
}

impl OrderModel {
    /// An order of which only the market is known.
    pub open spec fn blank(client: ClientModel, market: MarketId) -> Self {
        OrderModel {
            client,
            market,
            client_order_id: ClientOrderIdStrategy::Manual(0),
            side: None,
            qty: None,
            tif: None,
            reduce_only: false,
            expiry: None,
            nonce: None,
            api_key_override: None,
            kind: None,
            avg_execution_override: None,
            slippage: None,
            price_offset_ticks: 0,
        }
    }

    /// The order with a time in force of its own.
    pub open spec fn with_tif(self, tif: OrderTimeInForce) -> Self {
        OrderModel { tif: Some(tif), ..self }
    }

    /// The order with an expected average price: kept with the market order that it is for, or
    /// set aside for one that may follow.
    pub open spec fn with_avg_execution_price(self, price: Price) -> Self {
        match self.kind {
            Some(OrderKind::Market { slippage, .. }) => OrderModel {
                kind: Some(OrderKind::Market { avg_execution_price: Some(price), slippage }),
                ..self
            },
            _ => OrderModel { avg_execution_override: Some(price), ..self },
        }
    }

    /// The order with a slippage guard: kept with the market order that it is for, or set aside
    /// for one that may follow.
    pub open spec fn with_slippage_strategy(self, strategy: SlippageStrategy) -> Self {
        match self.kind {
            Some(OrderKind::Market { avg_execution_price, .. }) => OrderModel {
                kind: Some(
                    OrderKind::Market { avg_execution_price, slippage: Some(strategy) },
                ),
                ..self
            },
            _ => OrderModel { slippage: Some(strategy), ..self },
        }
    }

    /// The order without the settings that only a market order could use.
    pub open spec fn without_market_settings(self) -> Self {
        OrderModel { slippage: None, avg_execution_override: None, ..self }
    }

    /// The order with its type decided.
    pub open spec fn with_kind(self, kind: OrderKind) -> Self {
        OrderModel { kind: Some(kind), ..self }
    }

    /// A market order; what was set aside for it goes into it.
    pub open spec fn as_market(self) -> Self {
        self.without_market_settings().with_kind(
            OrderKind::Market {
                avg_execution_price: self.avg_execution_override,
                slippage: self.slippage,
            },
        )
    }

    /// The protective order of a given kind that belongs to this entry order: it closes what the
    /// entry opened.
    pub open spec fn protective_leg(self, kind: OrderKind) -> Self {
        OrderModel {
            client_order_id: ClientOrderIdStrategy::Auto,
            side: match self.side {
                Some(side) => Some(side.flipped()),
                None => None,
            },
            qty: self.qty,
            tif: self.tif,
            reduce_only: true,
            expiry: self.expiry,
            api_key_override: self.api_key_override,
            kind: Some(kind),
            ..OrderModel::blank(self.client, self.market)
        }
    }

    /// What is wrong with the order, if anything is.
    pub open spec fn defect(self) -> Option<Error> {
        if self.side is None {
            Some(
                Error::InvalidConfig {
                    field: "side",
                    why: "must be specified via buy() or sell()",
                },
            )
        } else if self.qty is None {
            Some(Error::InvalidConfig { field: "qty", why: "must be provided via qty()" })
        } else if self.kind is None {
            Some(
                Error::InvalidConfig {
                    field: "kind",
                    why: "must be selected via limit(), market(), or conditional helpers",
                },
            )
        } else if self.tif == Some(OrderTimeInForce::PostOnly) && self.kind->0.at_market() {
            Some(
                Error::InvalidConfig {
                    field: "time_in_force",
                    why: "post-only is unsupported for this order type",
                },
            )
        } else if self.slippage is Some && !(self.kind->0 is Market) {
            Some(
                Error::InvalidConfig {
                    field: "slippage",
                    why: "slippage controls only apply to market orders",
                },
            )
        } else {
            None
        }
    }

    /// The time in force that was asked for, or else the one that suits the type.
    pub open spec fn time_in_force(self) -> OrderTimeInForce {
        match self.tif {
            Some(tif) => tif,
            None => if self.kind is Some && self.kind->0.at_market() {
                OrderTimeInForce::ImmediateOrCancel
            } else {
                OrderTimeInForce::GoodTillTime
            },
        }
    }

    /// When the order lapses.
    pub open spec fn expiry_millis(self, codes: SignerCodes) -> i64 {
        match self.expiry {
            Some(expiry) => expiry.unix_millis,
            None => self.time_in_force().default_expiry(codes),
        }
    }

    /// The identifier that the order goes out under, where one is drawn for it if it wants that.
    pub open spec fn resolved_id(self, drawn: i64) -> i64 {
        match self.client_order_id {
            ClientOrderIdStrategy::Manual(id) => id,
            ClientOrderIdStrategy::Auto => drawn,
        }
    }

    /// Whether the order may go out under an identifier.
    pub open spec fn may_use_id(self, id: i64) -> bool {
        match self.client_order_id {
            ClientOrderIdStrategy::Manual(given) => id == given,
            ClientOrderIdStrategy::Auto => crate::clock::drawn_from_clock(id) && 0 <= id < i64::MAX,
        }
    }

    /// The price and the trigger price of the order.
    pub open spec fn prices(self) -> Result<(i32, i32), Error> {
        match self.kind->0 {
            OrderKind::Limit { price } => match offset_price(
                "price",
                price,
                self.price_offset_ticks,
            ) {
                Ok(ticks) => Ok((ticks, DEFAULT_TRIGGER_PRICE)),
                Err(error) => Err(error),
            },
            OrderKind::Market { avg_execution_price: Some(price), .. } => match signer_price(
                "avg_execution_price",
                price.0,
            ) {
                Ok(ticks) => Ok((ticks, DEFAULT_TRIGGER_PRICE)),
                Err(error) => Err(error),
            },
            OrderKind::Market { avg_execution_price: None, .. } => Ok(
                (DEFAULT_MARKET_PRICE, DEFAULT_TRIGGER_PRICE),
            ),
            OrderKind::StopLossMarket { trigger }
            | OrderKind::TakeProfitMarket { trigger } => match signer_price("trigger", trigger.0) {
                Ok(trigger_ticks) => Ok((DEFAULT_MARKET_PRICE, trigger_ticks)),
                Err(error) => Err(error),
            },
            OrderKind::StopLossLimit { trigger, limit_price }
            | OrderKind::TakeProfitLimit { trigger, limit_price } => match signer_price(
                "trigger",
                trigger.0,
            ) {
                Ok(trigger_ticks) => match offset_price(
                    "limit_price",
                    limit_price,
                    self.price_offset_ticks,
                ) {
                    Ok(ticks) => Ok((ticks, trigger_ticks)),
                    Err(error) => Err(error),
                },
                Err(error) => Err(error),
            },
        }
    }

    /// The order as the signer takes it, at given prices.
    pub open spec fn create_params(self, id: i64, prices: (i32, i32)) -> CreateOrderParams {
        let codes = self.client.signer->0.codes;
        CreateOrderParams {
            market: self.market.0,
            client_order_id: id,
            base_amount: (self.qty->0).0,
            price: prices.0,
            is_ask: self.side->0 == OrderSide::Ask,
            order_type: self.kind->0.code(codes),
            time_in_force: self.time_in_force().code(codes),
            reduce_only: self.reduce_only,
            trigger_price: prices.1,
            expiry: self.expiry_millis(codes),
            nonce: nonce_number(self.nonce),
            api_key: key_number(self.api_key_override),
        }
    }

    /// The order as the signer takes it where the price follows from a slippage tolerance.
    pub open spec fn market_params(
        self,
        id: i64,
        max_slippage: MaxSlippage,
        ideal_price: Option<Price>,
    ) -> MarketOrderParams {
        MarketOrderParams {
            market: self.market.0,
            client_order_id: id,
            base_amount: (self.qty->0).0,
            max_slippage,
            is_ask: self.side->0 == OrderSide::Ask,
            reduce_only: self.reduce_only,
            nonce: nonce_number(self.nonce),
            api_key: key_number(self.api_key_override),
            ideal_price: match ideal_price {
                Some(price) => Some(price.0),
                None => None,
            },
        }
    }

    /// How the order is guarded against slippage, which only a market order can be.
    pub open spec fn guard(self) -> Option<SlippageStrategy> {
        match self.kind->0 {
            OrderKind::Market { slippage, .. } => slippage,
            _ => None,
        }
    }

    /// Why the order can be neither submitted nor signed before its prices have been looked at.
    pub open spec fn refusal(self) -> Option<Error> {
        match self.defect() {
            Some(error) => Some(error),
            None => if self.client.signer is None {
                Some(Error::NotAuthenticated)
            } else {
                None
            },
        }
    }

    /// What submitting the order under an identifier asks of the signer.
    pub open spec fn submit_plan(self, id: i64) -> Result<SubmitCall, Error> {
        match self.refusal() {
            Some(error) => Err(error),
            None => match self.guard() {
                Some(SlippageStrategy::Enforced { max_slippage, ideal_price }) => Ok(
                    SubmitCall::CreateMarketOrderLimitedSlippage(
                        self.market_params(id, max_slippage, ideal_price),
                    ),
                ),
                Some(SlippageStrategy::CheckOnly { max_slippage, ideal_price }) => Ok(
                    SubmitCall::CreateMarketOrderIfSlippage(
                        self.market_params(id, max_slippage, ideal_price),
                    ),
                ),
                None => match self.prices() {
                    Ok(prices) => Ok(SubmitCall::CreateOrder(self.create_params(id, prices))),
                    Err(error) => Err(error),
                },
            },
        }
    }

    /// What signing the order under an identifier asks of the signer.
    pub open spec fn sign_plan(self, id: i64) -> Result<SignCall, Error> {
        match self.refusal() {
            Some(error) => Err(error),
            None => match self.guard() {
                Some(SlippageStrategy::Enforced { max_slippage, ideal_price }) => Ok(
                    SignCall::SignMarketOrderLimitedSlippage(
                        self.market_params(id, max_slippage, ideal_price),
                    ),
                ),
                Some(SlippageStrategy::CheckOnly { .. }) => Err(
                    Error::InvalidConfig {
                        field: "slippage",
                        why: "slippage check is unavailable when signing orders",
                    },
                ),
                None => match self.prices() {
                    Ok(prices) => Ok(SignCall::SignCreateOrder(self.create_params(id, prices))),
                    Err(error) => Err(error),
                },
            },
        }
    }
}

} // verus!
