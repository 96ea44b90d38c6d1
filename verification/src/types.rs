//! Plain value types that orders, requests and settings are made of.

use vstd::prelude::*;

verus! {

/// Identifies a trading account.
#[derive(Debug, Clone, Copy, PartialEq, Eq)]
pub struct AccountId(pub i64);

/// Selects one of an account's API keys.
#[derive(Debug, Clone, Copy, PartialEq, Eq)]
pub struct ApiKeyIndex(pub i32);

/// Identifies a market.
#[derive(Debug, Clone, Copy, PartialEq, Eq)]
pub struct MarketId(pub i32);

/// An order size in base units of its market.
#[derive(Debug, Clone, Copy, PartialEq, Eq)]
pub struct BaseQty(pub i64);

/// A transaction nonce.
#[derive(Debug, Clone, Copy, PartialEq, Eq)]
pub struct Nonce(pub i64);

/// A price in ticks of its market.
#[derive(Debug, Clone, Copy, PartialEq, Eq)]
pub struct Price(pub i64);

/// An amount of USDC in its smallest unit.
#[derive(Debug, Clone, Copy, PartialEq, Eq)]
pub struct UsdcAmount(pub i64);

/// The moment at which something lapses, in both units that the exchange uses: seconds for auth
/// tokens and mass cancellation, milliseconds for orders.
#[derive(Debug, Clone, Copy, PartialEq, Eq)]
pub struct Expiry {
    pub unix: i64,
    pub unix_millis: i64,
}

/// A slippage tolerance, as the bit pattern of an IEEE 754 double. It is handed on to the signer
/// untouched.
#[derive(Debug, Clone, Copy, PartialEq, Eq)]
pub struct MaxSlippage {
    pub bits: u64,
}

/// How the signer obtains nonces.
#[derive(Debug, Clone, Copy, PartialEq, Eq)]
pub enum NonceManagerType {
    /// Count locally and correct on rejection.
    Optimistic,
    /// Ask the exchange before each transaction.
    Api,
}

/// Where the websocket endpoint is.
#[derive(Debug, PartialEq, Eq)]
pub struct WsConfig {
    pub host: String,
    pub path: String,
}

/// Mathematical view of a [`WsConfig`].
pub struct WsModel {
    pub host: Seq<char>,
    pub path: Seq<char>,
}

impl View for WsConfig {
    type V = WsModel;

    open spec fn view(&self) -> WsModel {
        WsModel { host: self.host@, path: self.path@ }
    }
}

impl Clone for WsConfig {
    fn clone(&self) -> (copy: Self)
        ensures
            copy == *self,
    {
        WsConfig { host: self.host.clone(), path: self.path.clone() }
    }
}

/// Where the REST API is.
#[derive(Debug, PartialEq, Eq)]
pub struct Configuration {
    pub base_path: String,
}

impl View for Configuration {
    type V = Seq<char>;

    open spec fn view(&self) -> Seq<char> {
        self.base_path@
    }
}

impl Clone for Configuration {
    fn clone(&self) -> (copy: Self)
        ensures
            copy == *self,
    {
        Configuration { base_path: self.base_path.clone() }
    }
}

/// The numbers by which a signer refers to order types, time-in-force policies and expiries.
#[derive(Debug, Clone, Copy, PartialEq, Eq)]
pub struct SignerCodes {
    pub order_type_limit: i32,
    pub order_type_market: i32,
    pub order_type_stop_loss: i32,
    pub order_type_stop_loss_limit: i32,
    pub order_type_take_profit: i32,
    pub order_type_take_profit_limit: i32,
    pub time_in_force_immediate_or_cancel: i32,
    pub time_in_force_good_till_time: i32,
    pub time_in_force_post_only: i32,
    pub default_ioc_expiry: i64,
}

/// What the client knows of the signer that an account is configured with.
#[derive(Debug, PartialEq, Eq)]
pub struct SignerClient {
    pub configuration: Configuration,
    pub codes: SignerCodes,
}

/// Mathematical view of a [`SignerClient`].
pub struct SignerModel {
    pub base_path: Seq<char>,
    pub codes: SignerCodes,
}

impl View for SignerClient {
    type V = SignerModel;

    open spec fn view(&self) -> SignerModel {
        SignerModel { base_path: self.configuration@, codes: self.codes }
    }
}

impl SignerClient {
    /// The REST configuration that the signer talks to.
    pub fn configuration(&self) -> (configuration: Configuration)
        ensures
            configuration@ == self@.base_path,
    {
        self.configuration.clone()
    }
}

} // verus!
