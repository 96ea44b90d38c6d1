//! Fluent construction of orders.

use std::marker::PhantomData;

use vstd::prelude::*;

use crate::client::LighterClient;
use crate::clock::generate_client_order_id;
use crate::errors::Error;
use crate::order_model::{
    ClientOrderIdStrategy, CreateOrderParams, MarketOrderParams, OrderKind, OrderModel, OrderSide,
    OrderTimeInForce, SignCall, SlippageStrategy, SubmitCall, DEFAULT_MARKET_PRICE,
    DEFAULT_ORDER_EXPIRY, DEFAULT_TRIGGER_PRICE,
};
use crate::run::BracketBuilder;
use crate::types::{
    ApiKeyIndex, BaseQty, Expiry, MarketId, MaxSlippage, Nonce, Price, SignerCodes,
};

verus! {

/// The number by which the signer knows a time-in-force policy.
pub fn resolve_time_in_force(time_in_force: OrderTimeInForce, codes: &SignerCodes) -> (code: i32)
    ensures
        code == time_in_force.code(*codes),
{
    match time_in_force {
        OrderTimeInForce::ImmediateOrCancel => codes.time_in_force_immediate_or_cancel,
        OrderTimeInForce::GoodTillTime => codes.time_in_force_good_till_time,
        OrderTimeInForce::PostOnly => codes.time_in_force_post_only,
    }
}

/// When an order lapses that was given no expiry.
pub fn default_order_expiry(time_in_force: OrderTimeInForce, codes: &SignerCodes) -> (expiry: i64)
    ensures
        expiry == time_in_force.default_expiry(*codes),
{
    match time_in_force {
        OrderTimeInForce::ImmediateOrCancel => codes.default_ioc_expiry,
        OrderTimeInForce::GoodTillTime | OrderTimeInForce::PostOnly => DEFAULT_ORDER_EXPIRY,
    }
}

/// The nonce as the signer takes it.
pub(crate) fn nonce_argument(nonce: Option<Nonce>) -> (number: Option<i64>)
    ensures
        number == crate::order_model::nonce_number(nonce),
{
    match nonce {
        Some(value) => Some(value.0),
        None => None,
    }
}

/// The API key index as the signer takes it.
pub(crate) fn key_argument(index: Option<ApiKeyIndex>) -> (number: Option<i32>)
    ensures
        number == crate::order_model::key_number(index),
{
    match index {
        Some(value) => Some(value.0),
        None => None,
    }
}

/// What an order builder has gathered so far.
pub struct OrderBuilderState<'a> {
    client: &'a LighterClient,
    market: MarketId,
    client_order_id: ClientOrderIdStrategy,
    side: Option<OrderSide>,
    qty: Option<BaseQty>,
    tif: Option<OrderTimeInForce>,
    reduce_only: bool,
    expiry: Option<Expiry>,
    nonce: Option<Nonce>,
    api_key_override: Option<ApiKeyIndex>,
    kind: Option<OrderKind>,
    avg_execution_override: Option<Price>,
    slippage: Option<SlippageStrategy>,
    price_offset_ticks: i64,
}

impl<'a> View for OrderBuilderState<'a> {
    type V = OrderModel;

    closed spec fn view(&self) -> OrderModel {
        OrderModel {
            client: self.client@,
            market: self.market,
            client_order_id: self.client_order_id,
            side: self.side,
            qty: self.qty,
            tif: self.tif,
            reduce_only: self.reduce_only,
            expiry: self.expiry,
            nonce: self.nonce,
            api_key_override: self.api_key_override,
            kind: self.kind,
            avg_execution_override: self.avg_execution_override,
            slippage: self.slippage,
            price_offset_ticks: self.price_offset_ticks,
        }
    }
}

impl<'a> OrderBuilderState<'a> {
    pub(crate) fn new(client: &'a LighterClient, market: MarketId) -> (state: Self)
        ensures
            state@ == OrderModel::blank(client@, market),
    {
        OrderBuilderState {
            client,
            market,
            client_order_id: ClientOrderIdStrategy::Manual(0),
            side: None,
            qty: None,
            tif: None,
            reduce_only: false,
            expiry: None,
            nonce: None,
            api_key_override: None,
            kind: None,
            avg_execution_override: None,
            slippage: None,
            price_offset_ticks: 0,
        }
    }

    fn with_side(&mut self, side: OrderSide)
        ensures
            final(self)@ == (OrderModel { side: Some(side), ..old(self)@ }),
    {
        self.side = Some(side);
    }

    fn with_qty(&mut self, qty: BaseQty)
        ensures
            final(self)@ == (OrderModel { qty: Some(qty), ..old(self)@ }),
    {
        self.qty = Some(qty);
    }

    fn with_kind(&mut self, kind: OrderKind)
        ensures
            final(self)@ == old(self)@.with_kind(kind),
    {
        self.kind = Some(kind);
    }

    /// The protective order of a given kind that belongs to this entry order.
    pub(crate) fn leg(&self, kind: OrderKind) -> (state: OrderBuilderState<'a>)
        ensures
            state@ == self@.protective_leg(kind),
    {
        let mut state = OrderBuilderState::new(self.client, self.market);
        state.client_order_id = ClientOrderIdStrategy::Auto;
        state.side = match self.side {
            Some(side) => Some(side.opposite()),
            None => None,
        };
        state.qty = self.qty;
        state.reduce_only = true;
        state.tif = self.tif;
        state.expiry = self.expiry;
        state.api_key_override = self.api_key_override;
        state.kind = Some(kind);
        state
    }

    /// Checks that the order is complete and that its settings go together.
    pub(crate) fn validate(&self) -> (result: Result<(), Error>)
        ensures
            result == (match self@.defect() {
                Some(error) => Err(error),
                None => Ok::<(), Error>(()),
            }),
    {
        if self.side.is_none() {
            return Err(
                Error::InvalidConfig {
                    field: "side",
                    why: "must be specified via buy() or sell()",
                },
            );
        }
        if self.qty.is_none() {
            return Err(Error::InvalidConfig { field: "qty", why: "must be provided via qty()" });
        }
        let kind = match self.kind {
            Some(kind) => kind,
            None => {
                return Err(
                    Error::InvalidConfig {
                        field: "kind",
                        why: "must be selected via limit(), market(), or conditional helpers",
                    },
                );
            },
        };
        if let Some(OrderTimeInForce::PostOnly) = self.tif {
            match kind {
                OrderKind::Market { .. }
                | OrderKind::StopLossMarket { .. }
                | OrderKind::TakeProfitMarket { .. } => {
                    return Err(
                        Error::InvalidConfig {
                            field: "time_in_force",
                            why: "post-only is unsupported for this order type",
                        },
                    );
                },
                _ => {},
            }
        }
        if self.slippage.is_some() {
            match kind {
                OrderKind::Market { .. } => {},
                _ => {
                    return Err(
                        Error::InvalidConfig {
                            field: "slippage",
                            why: "slippage controls only apply to market orders",
                        },
                    );
                },
            }
        }
        Ok(())
    }

    /// The time in force that was asked for, or else the one that suits the type.
    pub(crate) fn time_in_force(&self) -> (tif: OrderTimeInForce)
        ensures
            tif == self@.time_in_force(),
    {
        if let Some(tif) = self.tif {
            return tif;
        }
        match self.kind {
            Some(OrderKind::Market { .. })
            | Some(OrderKind::StopLossMarket { .. })
            | Some(OrderKind::TakeProfitMarket { .. }) => OrderTimeInForce::ImmediateOrCancel,
            _ => OrderTimeInForce::GoodTillTime,
        }
    }

    fn expiry(&self, codes: &SignerCodes) -> (expiry: i64)
        ensures
            expiry == self@.expiry_millis(*codes),
    {
        match self.expiry {
            Some(expiry) => expiry.unix_millis,
            None => default_order_expiry(self.time_in_force(), codes),
        }
    }

    fn nonce(&self) -> (nonce: Option<i64>)
        ensures
            nonce == crate::order_model::nonce_number(self@.nonce),
    {
        nonce_argument(self.nonce)
    }

    fn api_key_override(&self) -> (index: Option<i32>)
        ensures
            index == crate::order_model::key_number(self@.api_key_override),
    {
        key_argument(self.api_key_override)
    }

    /// The identifier that the order goes out under, drawn from the system clock if it wants that.
    pub(crate) fn resolved_client_order_id(&self) -> (id: i64)
        ensures
            self@.may_use_id(id),
    {
        match self.client_order_id {
            ClientOrderIdStrategy::Manual(id) => id,
            ClientOrderIdStrategy::Auto => generate_client_order_id(),
        }
    }

    /// The identifier that the order goes out under, where `drawn` has been drawn for it.
    pub(crate) fn resolve_id(&self, drawn: i64) -> (id: i64)
        ensures
            id == self@.resolved_id(drawn),
    {
        match self.client_order_id {
            ClientOrderIdStrategy::Manual(id) => id,
            ClientOrderIdStrategy::Auto => drawn,
        }
    }

    fn qty(&self) -> (qty: i64)
        requires
            self@.qty is Some,
        ensures
            qty == (self@.qty->0).0,
    {
        self.qty.unwrap().0
    }

    fn side(&self) -> (side: OrderSide)
        requires
            self@.side is Some,
        ensures
            side == self@.side->0,
    {
        self.side.unwrap()
    }

    fn apply_price_offset(&self, price: Price, label: &'static str) -> (ticks: Result<i32, Error>)
        ensures
            ticks == crate::order_model::offset_price(label, price, self@.price_offset_ticks),
    {
        match price.0.checked_add(self.price_offset_ticks) {
            Some(adjusted) => Self::convert_price(label, adjusted),
            None => Err(
                Error::InvalidConfig { field: label, why: "price offset exceeds supported range" },
            ),
        }
    }

    fn convert_price(label: &'static str, value: i64) -> (ticks: Result<i32, Error>)
        ensures
            ticks == crate::order_model::signer_price(label, value),
    {
        match i32::try_from(value) {
            Ok(ticks) => Ok(ticks),
            Err(_) => Err(
                Error::InvalidConfig { field: label, why: "price exceeds supported range" },
            ),
        }
    }

    fn trigger_ticks(trigger: Price) -> (ticks: Result<i32, Error>)
        ensures
            ticks == crate::order_model::signer_price("trigger", trigger.0),
    {
        Self::convert_price("trigger", trigger.0)
    }

    fn market_price_ticks(&self, price: Option<Price>) -> (ticks: Result<i32, Error>)
        ensures
            ticks == (match price {
                Some(value) => crate::order_model::signer_price("avg_execution_price", value.0),
                None => Ok::<i32, Error>(DEFAULT_MARKET_PRICE),
            }),
    {
        match price {
            Some(value) => Self::convert_price("avg_execution_price", value.0),
            None => Ok(DEFAULT_MARKET_PRICE),
        }
    }

    fn order_type(&self, codes: &SignerCodes) -> (code: i32)
        requires
            self@.kind is Some,
        ensures
            code == self@.kind->0.code(*codes),
    {
        match self.kind.unwrap() {
            OrderKind::Limit { .. } => codes.order_type_limit,
            OrderKind::Market { .. } => codes.order_type_market,
            OrderKind::StopLossMarket { .. } => codes.order_type_stop_loss,
            OrderKind::StopLossLimit { .. } => codes.order_type_stop_loss_limit,
            OrderKind::TakeProfitMarket { .. } => codes.order_type_take_profit,
            OrderKind::TakeProfitLimit { .. } => codes.order_type_take_profit_limit,
        }
    }

    fn time_in_force_code(&self, codes: &SignerCodes) -> (code: i32)
        ensures
            code == self@.time_in_force().code(*codes),
    {
        resolve_time_in_force(self.time_in_force(), codes)
    }

    /// The price and the trigger price of the order.
    fn prices(&self) -> (prices: Result<(i32, i32), Error>)
        requires
            self@.kind is Some,
        ensures
            prices == self@.prices(),
    {
        match self.kind.unwrap() {
            OrderKind::Limit { price } => match self.apply_price_offset(price, "price") {
                Ok(ticks) => Ok((ticks, DEFAULT_TRIGGER_PRICE)),
                Err(error) => Err(error),
            },
            OrderKind::Market { avg_execution_price, .. } => match self.market_price_ticks(
                avg_execution_price,
            ) {
                Ok(ticks) => Ok((ticks, DEFAULT_TRIGGER_PRICE)),
                Err(error) => Err(error),
            },
            OrderKind::StopLossMarket { trigger }
            | OrderKind::TakeProfitMarket { trigger } => match Self::trigger_ticks(trigger) {
                Ok(ticks) => Ok((DEFAULT_MARKET_PRICE, ticks)),
                Err(error) => Err(error),
            },
            OrderKind::StopLossLimit { trigger, limit_price }
            | OrderKind::TakeProfitLimit { trigger, limit_price } => match Self::trigger_ticks(
                trigger,
            ) {
                Ok(trigger_ticks) => match self.apply_price_offset(limit_price, "limit_price") {
                    Ok(ticks) => Ok((ticks, trigger_ticks)),
                    Err(error) => Err(error),
                },
                Err(error) => Err(error),
            },
        }
    }

    fn create_params(&self, codes: &SignerCodes, id: i64, prices: (i32, i32)) -> (params:
        CreateOrderParams)
        requires
            self@.defect() is None,
            self@.client.signer is Some,
            self@.client.signer->0.codes == *codes,
        ensures
            params == self@.create_params(id, prices),
    {
        CreateOrderParams {
            market: self.market.0,
            client_order_id: id,
            base_amount: self.qty(),
            price: prices.0,
            is_ask: self.side().is_ask(),
            order_type: self.order_type(codes),
            time_in_force: self.time_in_force_code(codes),
            reduce_only: self.reduce_only,
            trigger_price: prices.1,
            expiry: self.expiry(codes),
            nonce: self.nonce(),
            api_key: self.api_key_override(),
        }
    }

    fn market_params(&self, id: i64, max_slippage: MaxSlippage, ideal_price: Option<Price>) -> (
    params: MarketOrderParams)
        requires
            self@.defect() is None,
        ensures
            params == self@.market_params(id, max_slippage, ideal_price),
    {
        MarketOrderParams {
            market: self.market.0,
            client_order_id: id,
            base_amount: self.qty(),
            max_slippage,
            is_ask: self.side().is_ask(),
            reduce_only: self.reduce_only,
            nonce: self.nonce(),
            api_key: self.api_key_override(),
            ideal_price: match ideal_price {
                Some(price) => Some(price.0),
                None => None,
            },
        }
    }

    /// Checks that the order can be handed to the signer, and gives the signer's codes.
    fn admitted(&self) -> (codes: Result<SignerCodes, Error>)
        ensures
            codes == (match self@.refusal() {
                Some(error) => Err(error),
                None => Ok::<SignerCodes, Error>(self@.client.signer->0.codes),
            }),
    {
        match self.validate() {
            Ok(_) => match self.client.signer_ref() {
                Ok(signer) => Ok(signer.codes),
                Err(error) => Err(error),
            },
            Err(error) => Err(error),
        }
    }

    /// What submitting the order under an identifier asks of the signer.
    pub(crate) fn submit(&self, client_order_id: i64) -> (call: Result<SubmitCall, Error>)
        ensures
            call == self@.submit_plan(client_order_id),
    {
        let codes = match self.admitted() {
            Ok(codes) => codes,
            Err(error) => {
                return Err(error);
            },
        };
        if let Some(OrderKind::Market { slippage: Some(strategy), .. }) = self.kind {
            return Ok(
                match strategy {
                    SlippageStrategy::Enforced {
                        max_slippage,
                        ideal_price,
                    } => SubmitCall::CreateMarketOrderLimitedSlippage(
                        self.market_params(client_order_id, max_slippage, ideal_price),
                    ),
                    SlippageStrategy::CheckOnly {
                        max_slippage,
                        ideal_price,
                    } => SubmitCall::CreateMarketOrderIfSlippage(
                        self.market_params(client_order_id, max_slippage, ideal_price),
                    ),
                },
            );
        }
        match self.prices() {
            Ok(prices) => Ok(
                SubmitCall::CreateOrder(self.create_params(&codes, client_order_id, prices)),
            ),
            Err(error) => Err(error),
        }
    }

    /// What signing the order under an identifier asks of the signer.
    pub(crate) fn sign(&self, client_order_id: i64) -> (call: Result<SignCall, Error>)
        ensures
            call == self@.sign_plan(client_order_id),
    {
        let codes = match self.admitted() {
            Ok(codes) => codes,
            Err(error) => {
                return Err(error);
            },
        };
        if let Some(OrderKind::Market { slippage: Some(strategy), .. }) = self.kind {
            return match strategy {
                SlippageStrategy::Enforced { max_slippage, ideal_price } => Ok(
                    SignCall::SignMarketOrderLimitedSlippage(
                        self.market_params(client_order_id, max_slippage, ideal_price),
                    ),
                ),
                SlippageStrategy::CheckOnly { .. } => Err(
                    Error::InvalidConfig {
                        field: "slippage",
                        why: "slippage check is unavailable when signing orders",
                    },
                ),
            };
        }
        match self.prices() {
            Ok(prices) => Ok(
                SignCall::SignCreateOrder(self.create_params(&codes, client_order_id, prices)),
            ),
            Err(error) => Err(error),
        }
    }
}

/// How far an order builder has come.
pub trait OrderState {
    /// Whether a builder that has come this far may have, or lack, a side, a size and a type.
    spec fn admits(side: bool, qty: bool, kind: bool) -> bool;
}

/// Nothing has been decided.
pub struct OrderStateInit;

/// The side has been decided.
pub struct OrderStateSide;

/// Side and size have been decided.
pub struct OrderStateQty;

/// Side, size and type have been decided.
pub struct OrderStateReady;

impl OrderState for OrderStateInit {
    open spec fn admits(side: bool, qty: bool, kind: bool) -> bool {
        !side && !qty && !kind
    }
}

impl OrderState for OrderStateSide {
    open spec fn admits(side: bool, qty: bool, kind: bool) -> bool {
        side && !qty && !kind
    }
}

impl OrderState for OrderStateQty {
    open spec fn admits(side: bool, qty: bool, kind: bool) -> bool {
        side && qty && !kind
    }
}

impl OrderState for OrderStateReady {
    open spec fn admits(side: bool, qty: bool, kind: bool) -> bool {
        side && qty && kind
    }
}

/// Fluent order builder that enforces required fields at compile time.
pub struct OrderBuilder<'a, S: OrderState> {
    state: OrderBuilderState<'a>,
    _marker: PhantomData<S>,
}

impl<'a, S: OrderState> View for OrderBuilder<'a, S> {
    type V = OrderModel;

    closed spec fn view(&self) -> OrderModel {
        self.state@
    }
}

impl<'a, S: OrderState> OrderBuilder<'a, S> {
    #[verifier::type_invariant]
    spec fn stage_holds(self) -> bool {
        S::admits(self.state@.side is Some, self.state@.qty is Some, self.state@.kind is Some)
    }
}

impl<'a> OrderBuilder<'a, OrderStateInit> {
    pub(crate) fn new(client: &'a LighterClient, market: MarketId) -> (builder: Self)
        ensures
            builder@ == OrderModel::blank(client@, market),
    {
        OrderBuilder { state: OrderBuilderState::new(client, market), _marker: PhantomData }
    }

    pub fn buy(self) -> (builder: OrderBuilder<'a, OrderStateSide>)
        ensures
            self@.side is None && self@.qty is None && self@.kind is None,
            builder@ == (OrderModel { side: Some(OrderSide::Bid), ..self@ }),
    {
        proof {
            use_type_invariant(&self);
        }
        let mut state = self.state;
        state.with_side(OrderSide::Bid);
        OrderBuilder { state, _marker: PhantomData }
    }

    pub fn sell(self) -> (builder: OrderBuilder<'a, OrderStateSide>)
        ensures
            self@.side is None && self@.qty is None && self@.kind is None,
            builder@ == (OrderModel { side: Some(OrderSide::Ask), ..self@ }),
    {
        proof {
            use_type_invariant(&self);
        }
        let mut state = self.state;
        state.with_side(OrderSide::Ask);
        OrderBuilder { state, _marker: PhantomData }
    }
}

impl<'a> OrderBuilder<'a, OrderStateSide> {
    pub fn qty(self, qty: BaseQty) -> (builder: OrderBuilder<'a, OrderStateQty>)
        ensures
            self@.side is Some && self@.qty is None && self@.kind is None,
            builder@ == (OrderModel { qty: Some(qty), ..self@ }),
    {
        proof {
            use_type_invariant(&self);
        }
        let mut state = self.state;
        state.with_qty(qty);
        OrderBuilder { state, _marker: PhantomData }
    }
}

impl<'a, S: OrderState> OrderBuilder<'a, S> {
    /// Fill what can be filled at once and cancel the rest.
    pub fn ioc(self) -> (builder: Self)
        ensures
            builder@ == self@.with_tif(OrderTimeInForce::ImmediateOrCancel),
    {
        proof {
            use_type_invariant(&self);
        }
        OrderBuilder {
            state: OrderBuilderState {
                tif: Some(OrderTimeInForce::ImmediateOrCancel),
                ..self.state
            },
            _marker: PhantomData,
        }
    }

    /// Rest until the order lapses.
    pub fn gtt(self) -> (builder: Self)
        ensures
            builder@ == self@.with_tif(OrderTimeInForce::GoodTillTime),
    {
        proof {
            use_type_invariant(&self);
        }
        OrderBuilder {
            state: OrderBuilderState { tif: Some(OrderTimeInForce::GoodTillTime), ..self.state },
            _marker: PhantomData,
        }
    }

    /// Only ever add liquidity.
    pub fn post_only(self) -> (builder: Self)
        ensures
            builder@ == self@.with_tif(OrderTimeInForce::PostOnly),
    {
        proof {
            use_type_invariant(&self);
        }
        OrderBuilder {
            state: OrderBuilderState { tif: Some(OrderTimeInForce::PostOnly), ..self.state },
            _marker: PhantomData,
        }
    }

    /// Only ever reduce a position.
    pub fn reduce_only(self) -> (builder: Self)
        ensures
            builder@ == (OrderModel { reduce_only: true, ..self@ }),
    {
        proof {
            use_type_invariant(&self);
        }
        OrderBuilder {
            state: OrderBuilderState { reduce_only: true, ..self.state },
            _marker: PhantomData,
        }
    }

    /// When the order lapses.
    pub fn expires_at(self, expiry: Expiry) -> (builder: Self)
        ensures
            builder@ == (OrderModel { expiry: Some(expiry), ..self@ }),
    {
        proof {
            use_type_invariant(&self);
        }
        OrderBuilder {
            state: OrderBuilderState { expiry: Some(expiry), ..self.state },
            _marker: PhantomData,
        }
    }

    /// Use a given nonce.
    pub fn with_nonce(self, nonce: Nonce) -> (builder: Self)
        ensures
            builder@ == (OrderModel { nonce: Some(nonce), ..self@ }),
    {
        proof {
            use_type_invariant(&self);
        }
        OrderBuilder {
            state: OrderBuilderState { nonce: Some(nonce), ..self.state },
            _marker: PhantomData,
        }
    }

    /// Sign with a given API key.
    pub fn with_api_key(self, index: ApiKeyIndex) -> (builder: Self)
        ensures
            builder@ == (OrderModel { api_key_override: Some(index), ..self@ }),
    {
        proof {
            use_type_invariant(&self);
        }
        OrderBuilder {
            state: OrderBuilderState { api_key_override: Some(index), ..self.state },
            _marker: PhantomData,
        }
    }

    /// Use a given client order identifier.
    pub fn with_client_order_id(self, id: i64) -> (builder: Self)
        ensures
            builder@ == (OrderModel {
                client_order_id: ClientOrderIdStrategy::Manual(id),
                ..self@
            }),
    {
        proof {
            use_type_invariant(&self);
        }
        OrderBuilder {
            state: OrderBuilderState {
                client_order_id: ClientOrderIdStrategy::Manual(id),
                ..self.state
            },
            _marker: PhantomData,
        }
    }

    /// Draw the client order identifier from the system clock.
    pub fn auto_client_id(self) -> (builder: Self)
        ensures
            builder@ == (OrderModel { client_order_id: ClientOrderIdStrategy::Auto, ..self@ }),
    {
        proof {
            use_type_invariant(&self);
        }
        OrderBuilder {
            state: OrderBuilderState { client_order_id: ClientOrderIdStrategy::Auto, ..self.state },
            _marker: PhantomData,
        }
    }

    /// Move limit prices by a number of ticks.
    pub fn with_price_offset(self, ticks: i64) -> (builder: Self)
        ensures
            builder@ == (OrderModel { price_offset_ticks: ticks, ..self@ }),
    {
        proof {
            use_type_invariant(&self);
        }
        OrderBuilder {
            state: OrderBuilderState { price_offset_ticks: ticks, ..self.state },
            _marker: PhantomData,
        }
    }

    /// The average price at which a market order is expected to execute.
    pub fn with_avg_execution_price(self, price: Price) -> (builder: Self)
        ensures
            builder@ == self@.with_avg_execution_price(price),
    {
        proof {
            use_type_invariant(&self);
        }
        let state = match self.state.kind {
            Some(OrderKind::Market { slippage, .. }) => OrderBuilderState {
                kind: Some(OrderKind::Market { avg_execution_price: Some(price), slippage }),
                ..self.state
            },
            _ => OrderBuilderState { avg_execution_override: Some(price), ..self.state },
        };
        OrderBuilder { state, _marker: PhantomData }
    }

    /// Keep a market order from slipping further than a tolerance.
    pub fn with_slippage(self, max_slippage: MaxSlippage) -> (builder: Self)
        ensures
            builder@ == self@.with_slippage_strategy(
                SlippageStrategy::Enforced { max_slippage, ideal_price: None },
            ),
    {
        self.update_slippage(SlippageStrategy::Enforced { max_slippage, ideal_price: None })
    }

    /// Keep a market order from slipping further than a tolerance,
    /// measured from a given price.
    pub fn with_slippage_at_price(self, max_slippage: MaxSlippage, price: Price) -> (builder: Self)
        ensures
            builder@ == self@.with_slippage_strategy(
                SlippageStrategy::Enforced { max_slippage, ideal_price: Some(price) },
            ),
    {
        self.update_slippage(SlippageStrategy::Enforced { max_slippage, ideal_price: Some(price) })
    }

    /// Send a market order only if it would not slip further than a tolerance.
    pub fn with_slippage_check(self, max_slippage: MaxSlippage) -> (builder: Self)
        ensures
            builder@ == self@.with_slippage_strategy(
                SlippageStrategy::CheckOnly { max_slippage, ideal_price: None },
            ),
    {
        self.update_slippage(SlippageStrategy::CheckOnly { max_slippage, ideal_price: None })
    }

    /// Send a market order only if it would not slip further than a tolerance,
    /// measured from a given price.
    pub fn with_slippage_check_at_price(self, max_slippage: MaxSlippage, price: Price) -> (
    builder: Self)
        ensures
            builder@ == self@.with_slippage_strategy(
                SlippageStrategy::CheckOnly { max_slippage, ideal_price: Some(price) },
            ),
    {
        self.update_slippage(SlippageStrategy::CheckOnly { max_slippage, ideal_price: Some(price) })
    }

    fn update_slippage(self, strategy: SlippageStrategy) -> (builder: Self)
        ensures
            builder@ == self@.with_slippage_strategy(strategy),
    {
        proof {
            use_type_invariant(&self);
        }
        let state = match self.state.kind {
            Some(OrderKind::Market { avg_execution_price, .. }) => OrderBuilderState {
                kind: Some(
                    OrderKind::Market { avg_execution_price, slippage: Some(strategy) },
                ),
                ..self.state
            },
            _ => OrderBuilderState { slippage: Some(strategy), ..self.state },
        };
        OrderBuilder { state, _marker: PhantomData }
    }
}

impl<'a> OrderBuilder<'a, OrderStateQty> {
    /// A limit order. Settings that only a market order could use are dropped.
    pub fn limit(self, price: Price) -> (builder: OrderBuilder<'a, OrderStateReady>)
        ensures
            self@.side is Some && self@.qty is Some && self@.kind is None,
            builder@ == self@.without_market_settings().with_kind(OrderKind::Limit { price }),
    {
        proof {
            use_type_invariant(&self);
        }
        let mut state = self.state;
        state.slippage = None;
        state.avg_execution_override = None;
        state.with_kind(OrderKind::Limit { price });
        OrderBuilder { state, _marker: PhantomData }
    }

    /// A market order. The average price and the slippage guard that were set go into it.
    pub fn market(self) -> (builder: OrderBuilder<'a, OrderStateReady>)
        ensures
            self@.side is Some && self@.qty is Some && self@.kind is None,
            builder@ == self@.as_market(),
    {
        proof {
            use_type_invariant(&self);
        }
        let mut state = self.state;
        let avg_execution_price = state.avg_execution_override.take();
        let slippage = state.slippage.take();
        state.with_kind(OrderKind::Market { avg_execution_price, slippage });
        OrderBuilder { state, _marker: PhantomData }
    }

    /// A market order that goes live once the price moves against a position. Settings that only
    /// a market order could use are dropped.
    pub fn stop_loss(self, trigger: Price) -> (builder: OrderBuilder<'a, OrderStateReady>)
        ensures
            self@.side is Some && self@.qty is Some && self@.kind is None,
            builder@ == self@.without_market_settings().with_kind(
                OrderKind::StopLossMarket { trigger },
            ),
    {
        proof {
            use_type_invariant(&self);
        }
        let mut state = self.state;
        state.slippage = None;
        state.avg_execution_override = None;
        state.with_kind(OrderKind::StopLossMarket { trigger });
        OrderBuilder { state, _marker: PhantomData }
    }

    /// A limit order that goes live once the price moves against a position.
    /// A slippage guard that was set stays, and has the order refused.
    pub fn stop_loss_limit(self, trigger: Price, price: Price) -> (builder: OrderBuilder<
        'a,
        OrderStateReady,
    >)
        ensures
            self@.side is Some && self@.qty is Some && self@.kind is None,
            builder@ == self@.with_kind(OrderKind::StopLossLimit { trigger, limit_price: price }),
    {
        proof {
            use_type_invariant(&self);
        }
        let mut state = self.state;
        state.with_kind(OrderKind::StopLossLimit { trigger, limit_price: price });
        OrderBuilder { state, _marker: PhantomData }
    }

    /// A market order that goes live once the price moves in favour of a position.
    /// A slippage guard that was set stays, and has the order refused.
    pub fn take_profit(self, trigger: Price) -> (builder: OrderBuilder<'a, OrderStateReady>)
        ensures
            self@.side is Some && self@.qty is Some && self@.kind is None,
            builder@ == self@.with_kind(OrderKind::TakeProfitMarket { trigger }),
    {
        proof {
            use_type_invariant(&self);
        }
        let mut state = self.state;
        state.with_kind(OrderKind::TakeProfitMarket { trigger });
        OrderBuilder { state, _marker: PhantomData }
    }

    /// A limit order that goes live once the price moves in favour of a position.
    /// A slippage guard that was set stays, and has the order refused.
    pub fn take_profit_limit(self, trigger: Price, price: Price) -> (builder: OrderBuilder<
        'a,
        OrderStateReady,
    >)
        ensures
            self@.side is Some && self@.qty is Some && self@.kind is None,
            builder@ == self@.with_kind(OrderKind::TakeProfitLimit { trigger, limit_price: price }),
    {
        proof {
            use_type_invariant(&self);
        }
        let mut state = self.state;
        state.with_kind(OrderKind::TakeProfitLimit { trigger, limit_price: price });
        OrderBuilder { state, _marker: PhantomData }
    }
}

impl<'a> OrderBuilder<'a, OrderStateReady> {
    /// What submitting the order asks of the signer. Its answer goes to
    /// [`Submission::from_reply`](crate::submission::Submission::from_reply).
    ///
    /// A side, a size and a type are never what is wrong with the order: the builder could not
    /// have come this far without them.
    pub fn submit(self) -> (call: Result<SubmitCall, Error>)
        ensures
            self@.side is Some && self@.qty is Some && self@.kind is Some,
            exists|id: i64|
                self@.may_use_id(id) && call == #[trigger] self@.submit_plan(id),
    {
        proof {
            use_type_invariant(&self);
        }
        let id: i64 = self.state.resolved_client_order_id();
        self.state.submit(id)
    }

    /// What submitting the order asks of the signer, where `drawn` is the identifier that has
    /// been drawn for it in case it wants one.
    pub fn submit_with(self, drawn: i64) -> (call: Result<SubmitCall, Error>)
        ensures
            self@.side is Some && self@.qty is Some && self@.kind is Some,
            call == self@.submit_plan(self@.resolved_id(drawn)),
    {
        proof {
            use_type_invariant(&self);
        }
        self.state.submit(self.state.resolve_id(drawn))
    }

    /// What signing the order without sending it asks of the signer.
    pub fn sign(self) -> (call: Result<SignCall, Error>)
        ensures
            self@.side is Some && self@.qty is Some && self@.kind is Some,
            exists|id: i64| self@.may_use_id(id) && call == #[trigger] self@.sign_plan(id),
    {
        proof {
            use_type_invariant(&self);
        }
        let id: i64 = self.state.resolved_client_order_id();
        self.state.sign(id)
    }

    /// What signing the order without sending it asks of the signer, where `drawn` is the
    /// identifier that has been drawn for it in case it wants one.
    pub fn sign_with(self, drawn: i64) -> (call: Result<SignCall, Error>)
        ensures
            self@.side is Some && self@.qty is Some && self@.kind is Some,
            call == self@.sign_plan(self@.resolved_id(drawn)),
    {
        proof {
            use_type_invariant(&self);
        }
        self.state.sign(self.state.resolve_id(drawn))
    }

    pub(crate) fn into_state(self) -> (state: OrderBuilderState<'a>)
        ensures
            state@ == self@,
            state@.side is Some && state@.qty is Some && state@.kind is Some,
    {
        proof {
            use_type_invariant(&self);
        }
        self.state
    }

    /// Surround the order with protective orders.
    pub fn bracket(self) -> (bracket: BracketBuilder<'a>)
        ensures
            bracket@ == (crate::run::BracketModel {
                entry: self@,
                take_profit: None,
                stop_loss: None,
            }),
    {
        BracketBuilder::new(self.into_state())
    }
}

} // verus!
