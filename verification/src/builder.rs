//! Step by step configuration of a client.

use std::path::PathBuf;

use vstd::prelude::*;

use crate::client::LighterClient;
use crate::errors::Error;
use crate::options::{LighterClientOptions, OptionsModel};
use crate::types::{AccountId, ApiKeyIndex, NonceManagerType, WsConfig, WsModel};

verus! {

/// Builder returned by [`LighterClient::builder`] that makes it easier to configure the client.
pub struct LighterClientBuilder {
    api_url: Option<String>,
    private_key: Option<String>,
    api_key_index: Option<ApiKeyIndex>,
    account_index: Option<AccountId>,
    options: LighterClientOptions,
}

/// Mathematical view of a [`LighterClientBuilder`].
pub struct BuilderModel {
    pub api_url: Option<Seq<char>>,
    pub private_key: Option<Seq<char>>,
    pub api_key_index: Option<ApiKeyIndex>,
    pub account_index: Option<AccountId>,
    pub options: OptionsModel,
}

impl View for LighterClientBuilder {
    type V = BuilderModel;

    closed spec fn view(&self) -> BuilderModel {
        BuilderModel {
            api_url: match self.api_url {
                Some(url) => Some(url@),
                None => None,
            },
            private_key: match self.private_key {
                Some(key) => Some(key@),
                None => None,
            },
            api_key_index: self.api_key_index,
            account_index: self.account_index,
            options: self.options@,
        }
    }
}

impl BuilderModel {
    /// Nothing has been set.
    pub open spec fn initial() -> Self {
        BuilderModel {
            api_url: None,
            private_key: None,
            api_key_index: None,
            account_index: None,
            options: OptionsModel::initial(),
        }
    }

    /// The same settings with other options.
    pub open spec fn with_options(self, options: OptionsModel) -> Self {
        BuilderModel { options, ..self }
    }

    /// The credentials of an account, where all three parts have been given.
    pub open spec fn login(self) -> Option<LoginModel> {
        match (self.private_key, self.api_key_index, self.account_index) {
            (Some(private_key), Some(api_key_index), Some(account_index)) => Some(
                LoginModel { private_key, api_key_index, account_index },
            ),
            _ => None,
        }
    }
}

/// The credentials of an account.
#[derive(Debug, PartialEq, Eq)]
pub struct Login {
    pub private_key: String,
    pub api_key_index: ApiKeyIndex,
    pub account_index: AccountId,
}

/// Mathematical view of a [`Login`].
pub struct LoginModel {
    pub private_key: Seq<char>,
    pub api_key_index: ApiKeyIndex,
    pub account_index: AccountId,
}

impl View for Login {
    type V = LoginModel;

    open spec fn view(&self) -> LoginModel {
        LoginModel {
            private_key: self.private_key@,
            api_key_index: self.api_key_index,
            account_index: self.account_index,
        }
    }
}

/// What a builder comes to: a client, and the account that is still to be configured on it, if
/// one was asked for.
pub struct BuiltClient {
    pub client: LighterClient,
    pub login: Option<Login>,
}

impl LighterClientBuilder {
    pub(crate) fn new() -> (builder: Self)
        ensures
            builder@ == BuilderModel::initial(),
    {
        LighterClientBuilder {
            api_url: None,
            private_key: None,
            api_key_index: None,
            account_index: None,
            options: LighterClientOptions::default(),
        }
    }

    pub fn api_url(self, url: String) -> (builder: Self)
        ensures
            builder@ == (BuilderModel { api_url: Some(url@), ..self@ }),
    {
        LighterClientBuilder { api_url: Some(url), ..self }
    }

    pub fn private_key(self, private_key: String) -> (builder: Self)
        ensures
            builder@ == (BuilderModel { private_key: Some(private_key@), ..self@ }),
    {
        LighterClientBuilder { private_key: Some(private_key), ..self }
    }

    pub fn api_key_index(self, index: ApiKeyIndex) -> (builder: Self)
        ensures
            builder@ == (BuilderModel { api_key_index: Some(index), ..self@ }),
    {
        LighterClientBuilder { api_key_index: Some(index), ..self }
    }

    pub fn account_index(self, index: AccountId) -> (builder: Self)
        ensures
            builder@ == (BuilderModel { account_index: Some(index), ..self@ }),
    {
        LighterClientBuilder { account_index: Some(index), ..self }
    }

    pub fn nonce_management(self, nonce_management: NonceManagerType) -> (builder: Self)
        ensures
            builder@ == self@.with_options(self@.options.with_nonce_management(nonce_management)),
    {
        LighterClientBuilder {
            options: self.options.with_nonce_management(nonce_management),
            ..self
        }
    }

    pub fn signer_library_path(self, path: PathBuf) -> (builder: Self)
        ensures
            builder@ == self@.with_options(self@.options.with_signer_library_path(path)),
    {
        LighterClientBuilder { options: self.options.with_signer_library_path(path), ..self }
    }

    pub fn websocket(self, host: String, path: String) -> (builder: Self)
        ensures
            builder@ == self@.with_options(
                self@.options.with_websocket(WsModel { host: host@, path: path@ }),
            ),
    {
        LighterClientBuilder {
            options: self.options.with_websocket(WsConfig { host, path }),
            ..self
        }
    }

    pub fn extra_private_key(self, index: ApiKeyIndex, private_key: String) -> (builder: Self)
        ensures
            builder@ == self@.with_options(
                self@.options.with_extra_private_key(index, private_key@),
            ),
    {
        LighterClientBuilder {
            options: self.options.with_extra_private_key(index, private_key),
            ..self
        }
    }

    pub fn max_api_key_index(self, index: ApiKeyIndex) -> (builder: Self)
        ensures
            builder@ == self@.with_options(self@.options.with_max_api_key_index(index)),
    {
        LighterClientBuilder { options: self.options.with_max_api_key_index(index), ..self }
    }

    /// Build the client. An account is configured on it only where a private key, an API key
    /// index and an account index have all been given.
    ///
    /// `ws_default` is where the websocket endpoint is unless the options say otherwise.
    pub fn build(self, ws_default: WsConfig) -> (built: Result<BuiltClient, Error>)
        ensures
            self@.api_url is None ==> built == Err::<BuiltClient, _>(
                Error::InvalidConfig { field: "api_url", why: "must be provided" },
            ),
            self@.api_url is Some ==> {
                &&& built is Ok
                &&& built->Ok_0.client@ == crate::client::ClientModel::fresh(
                    self@.api_url->0,
                    self@.options,
                    ws_default@,
                )
                &&& built->Ok_0.login is Some == self@.login() is Some
                &&& built->Ok_0.login is Some ==> built->Ok_0.login->0@ == self@.login()->0
            },
    {
        let api_url = match self.api_url {
            Some(url) => url,
            None => {
                return Err(Error::InvalidConfig { field: "api_url", why: "must be provided" });
            },
        };
        let client = match LighterClient::new_with_options(api_url, self.options, ws_default) {
            Ok(client) => client,
            Err(error) => {
                return Err(error);
            },
        };
        let login = match (self.private_key, self.api_key_index, self.account_index) {
            (Some(private_key), Some(api_key_index), Some(account_index)) => Some(
                Login { private_key, api_key_index, account_index },
            ),
            _ => None,
        };
        Ok(BuiltClient { client, login })
    }
}

} // verus!
