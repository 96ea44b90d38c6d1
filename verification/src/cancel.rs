//! Cancellation and withdrawal.

use vstd::prelude::*;

use crate::client::{ClientModel, LighterClient};
use crate::errors::Error;
use crate::order::{default_order_expiry, key_argument, nonce_argument, resolve_time_in_force};
use crate::order_model::OrderTimeInForce;
use crate::types::{ApiKeyIndex, Expiry, MarketId, Nonce, UsdcAmount};

verus! {

/// What the signer needs to know to cancel an order.
#[derive(Debug, Clone, Copy, PartialEq, Eq)]
pub struct CancelOrderParams {
    pub market: i32,
    pub order_index: i64,
    pub nonce: Option<i64>,
    pub api_key: Option<i32>,
}

/// What the signer needs to know to cancel all orders.
#[derive(Debug, Clone, Copy, PartialEq, Eq)]
pub struct CancelAllParams {
    pub time_in_force: i32,
    /// In Unix seconds, unlike the expiry of an order.
    pub expiry: i64,
    pub nonce: Option<i64>,
    pub api_key: Option<i32>,
}

/// What the signer needs to know to withdraw.
#[derive(Debug, Clone, Copy, PartialEq, Eq)]
pub struct WithdrawParams {
    pub amount: i64,
    pub nonce: Option<i64>,
    pub api_key: Option<i32>,
}

/// Cancel order builder.
pub struct CancelOrderBuilder<'a> {
    client: &'a LighterClient,
    market: MarketId,
    order_index: i64,
    nonce: Option<Nonce>,
    api_key_override: Option<ApiKeyIndex>,
}

/// Mathematical view of a [`CancelOrderBuilder`].
pub struct CancelModel {
    pub client: ClientModel,
    pub market: MarketId,
    pub order_index: i64,
    pub nonce: Option<Nonce>,
    pub api_key_override: Option<ApiKeyIndex>,
}

impl<'a> View for CancelOrderBuilder<'a> {
    type V = CancelModel;

    closed spec fn view(&self) -> CancelModel {
        CancelModel {
            client: self.client@,
            market: self.market,
            order_index: self.order_index,
            nonce: self.nonce,
            api_key_override: self.api_key_override,
        }
    }
}

impl CancelModel {
    /// A cancellation of which only the order is known.
    pub open spec fn blank(client: ClientModel, market: MarketId, order_index: i64) -> Self {
        CancelModel { client, market, order_index, nonce: None, api_key_override: None }
    }
}

impl<'a> CancelOrderBuilder<'a> {
    pub(crate) fn new(client: &'a LighterClient, market: MarketId, order_index: i64) -> (builder:
        Self)
        ensures
            builder@ == CancelModel::blank(client@, market, order_index),
    {
        CancelOrderBuilder { client, market, order_index, nonce: None, api_key_override: None }
    }

    pub fn nonce(self, nonce: Nonce) -> (builder: Self)
        ensures
            builder@ == (CancelModel { nonce: Some(nonce), ..self@ }),
    {
        CancelOrderBuilder { nonce: Some(nonce), ..self }
    }

    pub fn api_key(self, index: ApiKeyIndex) -> (builder: Self)
        ensures
            builder@ == (CancelModel { api_key_override: Some(index), ..self@ }),
    {
        CancelOrderBuilder { api_key_override: Some(index), ..self }
    }

    /// What the cancellation asks of the signer.
    pub fn submit(self) -> (params: Result<CancelOrderParams, Error>)
        ensures
            params == (if self@.client.signer is Some {
                Ok(
                    CancelOrderParams {
                        market: self@.market.0,
                        order_index: self@.order_index,
                        nonce: crate::order_model::nonce_number(self@.nonce),
                        api_key: crate::order_model::key_number(self@.api_key_override),
                    },
                )
            } else {
                Err(Error::NotAuthenticated)
            }),
    {
        match self.client.signer_ref() {
            Ok(_) => Ok(
                CancelOrderParams {
                    market: self.market.0,
                    order_index: self.order_index,
                    nonce: nonce_argument(self.nonce),
                    api_key: key_argument(self.api_key_override),
                },
            ),
            Err(error) => Err(error),
        }
    }
}

/// Cancel all orders builder.
pub struct CancelAllBuilder<'a> {
    client: &'a LighterClient,
    tif: Option<OrderTimeInForce>,
    expiry: Option<Expiry>,
    nonce: Option<Nonce>,
    api_key_override: Option<ApiKeyIndex>,
}

/// Mathematical view of a [`CancelAllBuilder`].
pub struct CancelAllModel {
    pub client: ClientModel,
    pub tif: Option<OrderTimeInForce>,
    pub expiry: Option<Expiry>,
    pub nonce: Option<Nonce>,
    pub api_key_override: Option<ApiKeyIndex>,
}

impl<'a> View for CancelAllBuilder<'a> {
    type V = CancelAllModel;

    closed spec fn view(&self) -> CancelAllModel {
        CancelAllModel {
            client: self.client@,
            tif: self.tif,
            expiry: self.expiry,
            nonce: self.nonce,
            api_key_override: self.api_key_override,
        }
    }
}

impl CancelAllModel {
    /// A cancellation of all orders with nothing set.
    pub open spec fn blank(client: ClientModel) -> Self {
        CancelAllModel { client, tif: None, expiry: None, nonce: None, api_key_override: None }
    }

    /// The policy that was asked for, or good till time.
    pub open spec fn time_in_force(self) -> OrderTimeInForce {
        match self.tif {
            Some(tif) => tif,
            None => OrderTimeInForce::GoodTillTime,
        }
    }
}

impl<'a> CancelAllBuilder<'a> {
    pub(crate) fn new(client: &'a LighterClient) -> (builder: Self)
        ensures
            builder@ == CancelAllModel::blank(client@),
    {
        CancelAllBuilder { client, tif: None, expiry: None, nonce: None, api_key_override: None }
    }

    pub fn tif(self, tif: OrderTimeInForce) -> (builder: Self)
        ensures
            builder@ == (CancelAllModel { tif: Some(tif), ..self@ }),
    {
        CancelAllBuilder { tif: Some(tif), ..self }
    }

    pub fn expires_at(self, expiry: Expiry) -> (builder: Self)
        ensures
            builder@ == (CancelAllModel { expiry: Some(expiry), ..self@ }),
    {
        CancelAllBuilder { expiry: Some(expiry), ..self }
    }

    pub fn nonce(self, nonce: Nonce) -> (builder: Self)
        ensures
            builder@ == (CancelAllModel { nonce: Some(nonce), ..self@ }),
    {
        CancelAllBuilder { nonce: Some(nonce), ..self }
    }

    pub fn api_key(self, index: ApiKeyIndex) -> (builder: Self)
        ensures
            builder@ == (CancelAllModel { api_key_override: Some(index), ..self@ }),
    {
        CancelAllBuilder { api_key_override: Some(index), ..self }
    }

    /// What the cancellation asks of the signer.
    pub fn submit(self) -> (params: Result<CancelAllParams, Error>)
        ensures
            params == (match self@.client.signer {
                Some(signer) => Ok(
                    CancelAllParams {
                        time_in_force: self@.time_in_force().code(signer.codes),
                        expiry: match self@.expiry {
                            Some(expiry) => expiry.unix,
                            None => self@.time_in_force().default_expiry(signer.codes),
                        },
                        nonce: crate::order_model::nonce_number(self@.nonce),
                        api_key: crate::order_model::key_number(self@.api_key_override),
                    },
                ),
                None => Err(Error::NotAuthenticated),
            }),
    {
        let signer = match self.client.signer_ref() {
            Ok(signer) => signer,
            Err(error) => {
                return Err(error);
            },
        };
        let tif = match self.tif {
            Some(tif) => tif,
            None => OrderTimeInForce::GoodTillTime,
        };
        Ok(
            CancelAllParams {
                time_in_force: resolve_time_in_force(tif, &signer.codes),
                expiry: match self.expiry {
                    Some(expiry) => expiry.unix,
                    None => default_order_expiry(tif, &signer.codes),
                },
                nonce: nonce_argument(self.nonce),
                api_key: key_argument(self.api_key_override),
            },
        )
    }
}

/// Withdraw builder.
pub struct WithdrawBuilder<'a> {
    client: &'a LighterClient,
    amount: UsdcAmount,
    nonce: Option<Nonce>,
    api_key_override: Option<ApiKeyIndex>,
}

/// Mathematical view of a [`WithdrawBuilder`].
pub struct WithdrawModel {
    pub client: ClientModel,
    pub amount: UsdcAmount,
    pub nonce: Option<Nonce>,
    pub api_key_override: Option<ApiKeyIndex>,
}

impl<'a> View for WithdrawBuilder<'a> {
    type V = WithdrawModel;

    closed spec fn view(&self) -> WithdrawModel {
        WithdrawModel {
            client: self.client@,
            amount: self.amount,
            nonce: self.nonce,
            api_key_override: self.api_key_override,
        }
    }
}

impl WithdrawModel {
    /// A withdrawal of which only the amount is known.
    pub open spec fn blank(client: ClientModel, amount: UsdcAmount) -> Self {
        WithdrawModel { client, amount, nonce: None, api_key_override: None }
    }
}

impl<'a> WithdrawBuilder<'a> {
    pub(crate) fn new(client: &'a LighterClient, amount: UsdcAmount) -> (builder: Self)
        ensures
            builder@ == WithdrawModel::blank(client@, amount),
    {
        WithdrawBuilder { client, amount, nonce: None, api_key_override: None }
    }

    pub fn nonce(self, nonce: Nonce) -> (builder: Self)
        ensures
            builder@ == (WithdrawModel { nonce: Some(nonce), ..self@ }),
    {
        WithdrawBuilder { nonce: Some(nonce), ..self }
    }

    pub fn api_key(self, index: ApiKeyIndex) -> (builder: Self)
        ensures
            builder@ == (WithdrawModel { api_key_override: Some(index), ..self@ }),
    {
        WithdrawBuilder { api_key_override: Some(index), ..self }
    }

    /// What the withdrawal asks of the signer.
    pub fn submit(self) -> (params: Result<WithdrawParams, Error>)
        ensures
            params == (if self@.client.signer is Some {
                Ok(
                    WithdrawParams {
                        amount: self@.amount.0,
                        nonce: crate::order_model::nonce_number(self@.nonce),
                        api_key: crate::order_model::key_number(self@.api_key_override),
                    },
                )
            } else {
                Err(Error::NotAuthenticated)
            }),
    {
        match self.client.signer_ref() {
            Ok(_) => Ok(
                WithdrawParams {
                    amount: self.amount.0,
                    nonce: nonce_argument(self.nonce),
                    api_key: key_argument(self.api_key_override),
                },
            ),
            Err(error) => Err(error),
        }
    }
}

} // verus!
