//! The client: settings, credentials and the entry points to everything else.

use std::collections::HashMap;
use std::path::PathBuf;

use vstd::prelude::*;

use crate::account::AccountHandle;
use crate::builder::LighterClientBuilder;
use crate::cancel::{CancelAllBuilder, CancelOrderBuilder, WithdrawBuilder};
use crate::decimal::render_decimal;
use crate::errors::{Error, SignerError};
use crate::handles::{
    BlocksHandle, BridgeHandle, CandlesHandle, FundingHandle, InfoHandle, NotificationsHandle,
    OrdersHandle, TransactionsHandle,
};
use crate::options::{LighterClientOptions, OptionsModel};
use crate::order::{OrderBuilder, OrderStateInit};
use crate::rest::{Endpoint, RestCall};
use crate::run::OrderBatchBuilder;
use crate::types::{
    AccountId, ApiKeyIndex, Configuration, Expiry, MarketId, NonceManagerType, SignerClient,
    SignerModel, UsdcAmount, WsConfig, WsModel,
};

verus! {

/// Top level wrapper that exposes a high level API for both REST and transaction signing
/// capabilities.
pub struct LighterClient {
    rest: Configuration,
    /// The signer and the account that it signs for, which come together or not at all.
    session: Option<Session>,
    ws_cfg: WsConfig,
    opts: LighterClientOptions,
}

/// A configured account.
struct Session {
    signer: SignerClient,
    account_id: AccountId,
}

/// Mathematical view of a [`LighterClient`].
pub struct ClientModel {
    pub base_path: Seq<char>,
    pub signer: Option<SignerModel>,
    pub websocket: WsModel,
    pub account_id: Option<AccountId>,
    pub options: OptionsModel,
}

impl View for LighterClient {
    type V = ClientModel;

    closed spec fn view(&self) -> ClientModel {
        ClientModel {
            base_path: self.rest@,
            signer: match self.session {
                Some(session) => Some(session.signer@),
                None => None,
            },
            websocket: self.ws_cfg@,
            account_id: match self.session {
                Some(session) => Some(session.account_id),
                None => None,
            },
            options: self.opts@,
        }
    }
}

impl ClientModel {
    /// A client that has no account yet.
    pub open spec fn fresh(api_url: Seq<char>, options: OptionsModel, ws_default: WsModel) -> Self {
        ClientModel {
            base_path: api_url,
            signer: None,
            websocket: match options.websocket {
                Some(config) => config,
                None => ws_default,
            },
            account_id: None,
            options,
        }
    }

    /// The client once an account has been configured: it talks to the API that the signer
    /// talks to.
    pub open spec fn with_account(self, account_index: AccountId, signer: SignerModel) -> Self {
        ClientModel {
            base_path: signer.base_path,
            signer: Some(signer),
            account_id: Some(account_index),
            ..self
        }
    }

    /// A signer and an account come together or not at all.
    pub open spec fn coherent(self) -> bool {
        self.signer is Some <==> self.account_id is Some
    }

    /// Both what account scoped requests refer to and what they are authorised by are there.
    pub open spec fn authenticated(self) -> bool {
        self.account_id is Some && self.signer is Some
    }

    /// The call of an endpoint that needs an auth header.
    pub open spec fn signed_call<'r>(self, endpoint: Endpoint<'r>) -> Result<RestCall<'r>, Error> {
        if self.signer is Some {
            Ok(crate::rest::private_call(endpoint))
        } else {
            Err(Error::NotAuthenticated)
        }
    }

    /// The call of a public endpoint that refers to the account.
    pub open spec fn account_call<'r>(self, endpoint: Endpoint<'r>) -> Result<RestCall<'r>, Error> {
        if self.account_id is Some {
            Ok(crate::rest::public_call(endpoint))
        } else {
            Err(Error::NotAuthenticated)
        }
    }

    /// The call of an endpoint that refers to the account and needs an auth header.
    pub open spec fn private_call<'r>(self, endpoint: Endpoint<'r>) -> Result<RestCall<'r>, Error> {
        if self.authenticated() {
            Ok(crate::rest::private_call(endpoint))
        } else {
            Err(Error::NotAuthenticated)
        }
    }

    /// The number of the configured account.
    pub open spec fn account_index(self) -> i64 {
        (self.account_id->0).0
    }

    /// The number of the configured account in decimal.
    pub open spec fn account_value(self) -> Seq<char> {
        crate::decimal::decimal(self.account_index() as int)
    }

    /// What the signer of an account is set up from.
    pub open spec fn signer_setup(
        self,
        private_key: Seq<char>,
        api_key_index: ApiKeyIndex,
        account_index: AccountId,
    ) -> SetupModel {
        SetupModel {
            base_path: self.base_path,
            private_key,
            api_key_index: api_key_index.0,
            account_index: account_index.0,
            max_api_key_index: match self.options.max_api_key_index {
                Some(index) => Some(index.0),
                None => None,
            },
            extra_private_keys: if self.options.extra_private_keys.is_empty() {
                None
            } else {
                Some(self.options.extra_private_keys)
            },
            nonce_management: self.options.nonce_management,
            signer_library_path: self.options.signer_library_path,
        }
    }
}

/// Everything that the signer of an account is set up from.
#[derive(Debug)]
pub struct SignerSetup<'s> {
    pub base_path: &'s str,
    pub private_key: &'s str,
    pub api_key_index: i32,
    pub account_index: i64,
    pub max_api_key_index: Option<i32>,
    pub extra_private_keys: Option<HashMap<i32, String>>,
    pub nonce_management: NonceManagerType,
    pub signer_library_path: Option<&'s PathBuf>,
}

/// Mathematical view of a [`SignerSetup`].
#[verifier::ext_equal]
pub struct SetupModel {
    pub base_path: Seq<char>,
    pub private_key: Seq<char>,
    pub api_key_index: i32,
    pub account_index: i64,
    pub max_api_key_index: Option<i32>,
    pub extra_private_keys: Option<Map<i32, Seq<char>>>,
    pub nonce_management: NonceManagerType,
    pub signer_library_path: Option<PathBuf>,
}

impl<'s> View for SignerSetup<'s> {
    type V = SetupModel;

    open spec fn view(&self) -> SetupModel {
        SetupModel {
            base_path: self.base_path@,
            private_key: self.private_key@,
            api_key_index: self.api_key_index,
            account_index: self.account_index,
            max_api_key_index: self.max_api_key_index,
            extra_private_keys: match self.extra_private_keys {
                Some(keys) => Some(crate::options::texts(keys@)),
                None => None,
            },
            nonce_management: self.nonce_management,
            signer_library_path: match self.signer_library_path {
                Some(path) => Some(*path),
                None => None,
            },
        }
    }
}

/// Says that a cached auth header no longer holds and is to be dropped.
#[must_use]
#[derive(Debug, Clone, Copy, PartialEq, Eq)]
pub struct InvalidateAuth;

/// A request to the signer for an auth token.
#[derive(Debug, Clone, Copy, PartialEq, Eq)]
pub struct AuthTokenRequest {
    /// When the token lapses, in Unix seconds; the signer chooses where nothing is given.
    pub expiry: Option<i64>,
}

/// An auth token as the signer issues it.
#[derive(Debug, PartialEq, Eq)]
pub struct AuthToken {
    pub token: String,
}

impl AuthTokenRequest {
    /// What the signer's answer to the request comes to.
    pub fn complete(self, reply: Result<AuthToken, SignerError>) -> (token: Result<String, Error>)
        ensures
            match reply {
                Ok(issued) => token == Ok::<String, Error>(issued.token),
                Err(failure) => token == Err::<String, Error>(Error::Signer(failure)),
            },
    {
        match reply {
            Ok(issued) => Ok(issued.token),
            Err(failure) => Err(Error::from(failure)),
        }
    }
}

/// Entry point to the websocket API of a client.
pub struct WsBuilder<'a> {
    client: &'a LighterClient,
}

impl<'a> View for WsBuilder<'a> {
    type V = ClientModel;

    closed spec fn view(&self) -> ClientModel {
        self.client@
    }
}

impl<'a> WsBuilder<'a> {
    /// A websocket builder scoped to a client.
    pub fn new(client: &'a LighterClient) -> (builder: Self)
        ensures
            builder@ == client@,
    {
        WsBuilder { client }
    }

    /// The endpoint that the websocket connects to.
    pub fn config(&self) -> (config: &WsConfig)
        ensures
            config@ == self@.websocket,
    {
        self.client.websocket_config()
    }
}

impl LighterClient {
    /// Every client has both a signer and an account, or neither.
    pub proof fn signer_comes_with_account(&self)
        ensures
            self@.coherent(),
            self@.authenticated() <==> self@.account_id is Some,
            self@.authenticated() <==> self@.signer is Some,
    {
    }

    /// Create a new builder used to configure a [`LighterClient`].
    pub fn builder() -> (builder: LighterClientBuilder)
        ensures
            builder@ == crate::builder::BuilderModel::initial(),
    {
        LighterClientBuilder::new()
    }

    /// Construct a new [`LighterClient`] instance without configuring an account.
    ///
    /// `ws_default` is where the websocket endpoint is unless the options say otherwise.
    pub fn new(api_url: String, ws_default: WsConfig) -> (client: Result<Self, Error>)
        ensures
            client is Ok,
            client->Ok_0@ == ClientModel::fresh(api_url@, OptionsModel::initial(), ws_default@),
    {
        Self::new_with_options(api_url, LighterClientOptions::default(), ws_default)
    }

    /// Construct a new [`LighterClient`] instance allowing custom options.
    pub fn new_with_options(
        api_url: String,
        options: LighterClientOptions,
        ws_default: WsConfig,
    ) -> (client: Result<Self, Error>)
        ensures
            client is Ok,
            client->Ok_0@ == ClientModel::fresh(api_url@, options@, ws_default@),
            client->Ok_0@.coherent(),
    {
        let ws_cfg = match options.websocket() {
            Some(config) => config.clone(),
            None => ws_default,
        };
        Ok(
            LighterClient {
                rest: Configuration { base_path: api_url },
                session: None,
                ws_cfg,
                opts: options,
            },
        )
    }

    /// Underlying REST configuration. This can be used to call any REST API directly when a
    /// specialised helper is not present.
    pub fn configuration(&self) -> (configuration: Configuration)
        ensures
            configuration@ == self@.base_path,
    {
        self.rest.clone()
    }

    /// Primary account identifier managed by this client.
    pub fn account_id(&self) -> (account_id: Option<AccountId>)
        ensures
            account_id == self@.account_id,
            account_id is Some == self@.signer is Some,
    {
        match &self.session {
            Some(session) => Some(session.account_id),
            None => None,
        }
    }

    /// Access the inner [`SignerClient`] for advanced use cases.
    pub fn signer(&self) -> (signer: Option<&SignerClient>)
        ensures
            signer is Some == self@.signer is Some,
            signer is Some ==> signer->0@ == self@.signer->0,
            signer is Some == self@.account_id is Some,
    {
        match &self.session {
            Some(session) => Some(&session.signer),
            None => None,
        }
    }

    /// Access account scoped REST helpers.
    pub fn account(&self) -> (handle: AccountHandle<'_>)
        ensures
            handle@ == self@,
    {
        AccountHandle::new(self)
    }

    /// Access block REST helpers.
    pub fn blocks(&self) -> (handle: BlocksHandle<'_>)
        ensures
            handle@ == self@,
    {
        BlocksHandle::new(self)
    }

    /// Access bridge REST helpers.
    pub fn bridge(&self) -> (handle: BridgeHandle<'_>)
        ensures
            handle@ == self@,
    {
        BridgeHandle::new(self)
    }

    /// Access candlestick REST helpers.
    pub fn candles(&self) -> (handle: CandlesHandle<'_>)
        ensures
            handle@ == self@,
    {
        CandlesHandle::new(self)
    }

    /// Access funding REST helpers.
    pub fn funding(&self) -> (handle: FundingHandle<'_>)
        ensures
            handle@ == self@,
    {
        FundingHandle::new(self)
    }

    /// Access general information REST helpers.
    pub fn info(&self) -> (handle: InfoHandle<'_>)
        ensures
            handle@ == self@,
    {
        InfoHandle::new(self)
    }

    /// Access notification REST helpers.
    pub fn notifications(&self) -> (handle: NotificationsHandle<'_>)
        ensures
            handle@ == self@,
    {
        NotificationsHandle::new(self)
    }

    /// Access public order and trade REST helpers.
    pub fn orders(&self) -> (handle: OrdersHandle<'_>)
        ensures
            handle@ == self@,
    {
        OrdersHandle::new(self)
    }

    /// Access transaction REST helpers.
    pub fn transactions(&self) -> (handle: TransactionsHandle<'_>)
        ensures
            handle@ == self@,
    {
        TransactionsHandle::new(self)
    }

    /// Create a fluent order builder scoped to the provided market.
    pub fn order(&self, market: MarketId) -> (builder: OrderBuilder<'_, OrderStateInit>)
        ensures
            builder@ == crate::order_model::OrderModel::blank(self@, market),
    {
        OrderBuilder::new(self, market)
    }

    /// Create an empty batch of orders.
    pub fn order_batch(&self) -> (batch: OrderBatchBuilder<'_>)
        ensures
            batch@ == Seq::<crate::order_model::OrderModel>::empty(),
    {
        OrderBatchBuilder::new()
    }

    /// Create a cancellation builder for a specific order.
    pub fn cancel(&self, market: MarketId, order_index: i64) -> (builder: CancelOrderBuilder<'_>)
        ensures
            builder@ == crate::cancel::CancelModel::blank(self@, market, order_index),
    {
        CancelOrderBuilder::new(self, market, order_index)
    }

    /// Create a builder that cancels all resting orders for the configured account.
    pub fn cancel_all(&self) -> (builder: CancelAllBuilder<'_>)
        ensures
            builder@ == crate::cancel::CancelAllModel::blank(self@),
    {
        CancelAllBuilder::new(self)
    }

    /// Create a withdrawal builder for the active account.
    pub fn withdraw(&self, amount: UsdcAmount) -> (builder: WithdrawBuilder<'_>)
        ensures
            builder@ == crate::cancel::WithdrawModel::blank(self@, amount),
    {
        WithdrawBuilder::new(self, amount)
    }

    /// Create a websocket builder scoped to this client.
    pub fn ws(&self) -> (builder: WsBuilder<'_>)
        ensures
            builder@ == self@,
    {
        WsBuilder::new(self)
    }

    /// Ask for an auth token (with an optional custom expiry). The signer's answer goes to
    /// [`AuthTokenRequest::complete`].
    pub fn create_auth_token(&self, expiry: Option<Expiry>) -> (request: Result<
        AuthTokenRequest,
        Error,
    >)
        ensures
            self@.signer is None ==> request == Err::<AuthTokenRequest, _>(Error::NotAuthenticated),
            self@.signer is Some ==> request == Ok::<_, Error>(
                AuthTokenRequest {
                    expiry: match expiry {
                        Some(value) => Some(value.unix),
                        None => None,
                    },
                },
            ),
    {
        match self.signer_ref() {
            Ok(_) => Ok(
                AuthTokenRequest {
                    expiry: match expiry {
                        Some(value) => Some(value.unix),
                        None => None,
                    },
                },
            ),
            Err(error) => Err(error),
        }
    }

    /// Begin to configure the client with an authenticated account: what the signer for it is to
    /// be set up from. The outcome of setting it up goes to [`LighterClient::account_configured`]
    /// or [`LighterClient::with_account`].
    pub fn configure_account<'s>(
        &'s self,
        private_key: &'s str,
        api_key_index: ApiKeyIndex,
        account_index: AccountId,
    ) -> (setup: SignerSetup<'s>)
        ensures
            setup@ == self@.signer_setup(private_key@, api_key_index, account_index),
    {
        SignerSetup {
            base_path: self.rest_base_path(),
            private_key,
            api_key_index: api_key_index.0,
            account_index: account_index.0,
            max_api_key_index: match self.opts.max_api_key_index() {
                Some(index) => Some(index.0),
                None => None,
            },
            extra_private_keys: self.opts.extra_private_keys(),
            nonce_management: self.opts.nonce_management(),
            signer_library_path: self.opts.signer_library_path(),
        }
    }

    /// Finish configuring the account in place, with what setting up its signer gave. Where that
    /// failed, the client stays as it is.
    pub fn account_configured(
        &mut self,
        account_index: AccountId,
        outcome: Result<SignerClient, SignerError>,
    ) -> (result: Result<InvalidateAuth, Error>)
        ensures
            match outcome {
                Ok(signer) => {
                    &&& result == Ok::<_, Error>(InvalidateAuth)
                    &&& final(self)@ == old(self)@.with_account(account_index, signer@)
                },
                Err(failure) => {
                    &&& result == Err::<InvalidateAuth, _>(Error::Signer(failure))
                    &&& *final(self) == *old(self)
                },
            },
            final(self)@.coherent(),
    {
        match outcome {
            Ok(signer) => {
                self.rest = signer.configuration();
                self.session = Some(Session { signer, account_id: account_index });
                Ok(InvalidateAuth)
            },
            Err(failure) => Err(Error::from(failure)),
        }
    }

    /// Finish configuring the account, handing the client back.
    pub fn with_account(
        self,
        account_index: AccountId,
        outcome: Result<SignerClient, SignerError>,
    ) -> (result: Result<(Self, InvalidateAuth), Error>)
        ensures
            match outcome {
                Ok(signer) => {
                    &&& result is Ok
                    &&& result->Ok_0.0@ == self@.with_account(account_index, signer@)
                    &&& result->Ok_0.1 == InvalidateAuth
                },
                Err(failure) => result == Err::<(Self, InvalidateAuth), _>(Error::Signer(failure)),
            },
    {
        let mut client = self;
        match client.account_configured(account_index, outcome) {
            Ok(invalidate) => Ok((client, invalidate)),
            Err(error) => Err(error),
        }
    }

    pub(crate) fn signer_ref(&self) -> (signer: Result<&SignerClient, Error>)
        ensures
            self@.signer is None ==> signer == Err::<&SignerClient, _>(Error::NotAuthenticated),
            self@.signer is Some ==> signer is Ok && signer->Ok_0@ == self@.signer->0,
    {
        match self.signer() {
            Some(signer) => Ok(signer),
            None => Err(Error::NotAuthenticated),
        }
    }

    pub(crate) fn require_account(&self) -> (account: Result<AccountId, Error>)
        ensures
            account == (match self@.account_id {
                Some(id) => Ok::<_, Error>(id),
                None => Err(Error::NotAuthenticated),
            }),
    {
        match self.account_id() {
            Some(id) => Ok(id),
            None => Err(Error::NotAuthenticated),
        }
    }

    pub(crate) fn require_account_i64(&self) -> (account: Result<i64, Error>)
        ensures
            account == (match self@.account_id {
                Some(id) => Ok::<_, Error>(id.0),
                None => Err(Error::NotAuthenticated),
            }),
    {
        match self.require_account() {
            Ok(id) => Ok(id.0),
            Err(error) => Err(error),
        }
    }

    pub(crate) fn require_account_value(&self) -> (account: Result<String, Error>)
        ensures
            self@.account_id is None ==> account == Err::<String, _>(Error::NotAuthenticated),
            self@.account_id is Some ==> account is Ok && account->Ok_0@ == self@.account_value(),
    {
        match self.require_account_i64() {
            Ok(value) => Ok(render_decimal(value)),
            Err(error) => Err(error),
        }
    }

    /// The call of an endpoint that wants an auth header; a client without a signer gets none.
    pub(crate) fn auth_header<'r>(&self, endpoint: Endpoint<'r>) -> (call: Result<
        RestCall<'r>,
        Error,
    >)
        ensures
            call == self@.signed_call(endpoint),
    {
        match self.signer_ref() {
            Ok(_) => Ok(RestCall::private(endpoint)),
            Err(error) => Err(error),
        }
    }

    pub(crate) fn websocket_config(&self) -> (config: &WsConfig)
        ensures
            config@ == self@.websocket,
    {
        &self.ws_cfg
    }

    pub(crate) fn rest_base_path(&self) -> (base_path: &str)
        ensures
            base_path@ == self@.base_path,
    {
        self.rest.base_path.as_str()
    }
}

} // verus!
