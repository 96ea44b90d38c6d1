//! What holds of clients: what they are set up from and what becomes of it.

use std::path::PathBuf;

use vstd::prelude::*;

use crate::builder::{BuilderModel, BuiltClient, LighterClientBuilder};
use crate::client::{ClientModel, InvalidateAuth, LighterClient, SignerSetup, WsBuilder};
use crate::errors::{Error, SignerError};
use crate::options::{LighterClientOptions, OptionsModel};
use crate::types::{
    AccountId, ApiKeyIndex, Configuration, NonceManagerType, SignerClient, SignerModel, WsConfig,
    WsModel,
};

verus! {

/// Options start out with no settings of their own, and with nonces counted locally.
pub proof fn options_start_out_empty(options: LighterClientOptions)
    requires
        call_ensures(LighterClientOptions::default, (), options),
    ensures
        options@.max_api_key_index is None,
        forall|index: i32| !#[trigger] options@.extra_private_keys.contains_key(index),
        options@.nonce_management is Optimistic,
        options@.signer_library_path is None,
        options@.websocket is None,
{
}

/// Each option is kept as it was given, and giving it changes no other; a private key changes the
/// one for its own index and leaves those for other indices alone.
pub proof fn options_keep_apart(
    before: LighterClientOptions,
    index: ApiKeyIndex,
    key: String,
    nonce_management: NonceManagerType,
    path: PathBuf,
    config: WsConfig,
    after: LighterClientOptions,
)
    ensures
        call_ensures(LighterClientOptions::with_max_api_key_index, (before, index), after)
            ==> after@ == (OptionsModel { max_api_key_index: Some(index), ..before@ }),
        call_ensures(LighterClientOptions::with_extra_private_key, (before, index, key), after)
            ==> after@ == (OptionsModel {
            extra_private_keys: before@.extra_private_keys.insert(index.0, key@),
            ..before@
        }),
        call_ensures(LighterClientOptions::with_nonce_management, (before, nonce_management), after)
            ==> after@ == (OptionsModel { nonce_management, ..before@ }),
        call_ensures(LighterClientOptions::with_signer_library_path, (before, path), after)
            ==> after@ == (OptionsModel { signer_library_path: Some(path), ..before@ }),
        call_ensures(LighterClientOptions::with_websocket, (before, config), after) ==> after@ == (
        OptionsModel {
            websocket: Some(WsModel { host: config.host@, path: config.path@ }),
            ..before@
        }),
{
}

/// A builder starts out with nothing given.
pub proof fn builder_starts_out_empty(builder: LighterClientBuilder)
    requires
        call_ensures(LighterClient::builder, (), builder),
    ensures
        builder@.api_url is None,
        builder@.private_key is None,
        builder@.api_key_index is None,
        builder@.account_index is None,
        builder@.options.max_api_key_index is None,
        forall|index: i32| !#[trigger] builder@.options.extra_private_keys.contains_key(index),
        builder@.options.nonce_management is Optimistic,
        builder@.options.signer_library_path is None,
        builder@.options.websocket is None,
{
}

/// Each setting of a builder is kept as it was given, and giving it changes no other.
pub proof fn builder_settings_keep_apart(
    before: LighterClientBuilder,
    text: String,
    other: String,
    index: ApiKeyIndex,
    account: AccountId,
    nonce_management: NonceManagerType,
    library: PathBuf,
    after: LighterClientBuilder,
)
    ensures
        call_ensures(LighterClientBuilder::api_url, (before, text), after) ==> after@ == (
        BuilderModel { api_url: Some(text@), ..before@ }),
        call_ensures(LighterClientBuilder::private_key, (before, text), after) ==> after@ == (
        BuilderModel { private_key: Some(text@), ..before@ }),
        call_ensures(LighterClientBuilder::api_key_index, (before, index), after) ==> after@ == (
        BuilderModel { api_key_index: Some(index), ..before@ }),
        call_ensures(LighterClientBuilder::account_index, (before, account), after) ==> after@ == (
        BuilderModel { account_index: Some(account), ..before@ }),
        call_ensures(LighterClientBuilder::nonce_management, (before, nonce_management), after)
            ==> after@ == (BuilderModel {
            options: OptionsModel { nonce_management, ..before@.options },
            ..before@
        }),
        call_ensures(LighterClientBuilder::signer_library_path, (before, library), after) ==> after@
            == (BuilderModel {
            options: OptionsModel { signer_library_path: Some(library), ..before@.options },
            ..before@
        }),
        call_ensures(LighterClientBuilder::websocket, (before, text, other), after) ==> after@ == (
        BuilderModel {
            options: OptionsModel {
                websocket: Some(WsModel { host: text@, path: other@ }),
                ..before@.options
            },
            ..before@
        }),
        call_ensures(LighterClientBuilder::extra_private_key, (before, index, text), after)
            ==> after@ == (BuilderModel {
            options: OptionsModel {
                extra_private_keys: before@.options.extra_private_keys.insert(index.0, text@),
                ..before@.options
            },
            ..before@
        }),
        call_ensures(LighterClientBuilder::max_api_key_index, (before, index), after) ==> after@
            == (BuilderModel {
            options: OptionsModel { max_api_key_index: Some(index), ..before@.options },
            ..before@
        }),
{
}

/// Building needs an API URL and nothing else. The client gets that URL and the options; an
/// account is to be configured exactly where a private key, an API key index and an account index
/// were all given, and then with those.
pub proof fn building_uses_what_was_given(
    builder: LighterClientBuilder,
    ws_default: WsConfig,
    built: Result<BuiltClient, Error>,
)
    requires
        call_ensures(LighterClientBuilder::build, (builder, ws_default), built),
    ensures
        builder@.api_url is None ==> built == Err::<BuiltClient, Error>(
            Error::InvalidConfig { field: "api_url", why: "must be provided" },
        ),
        builder@.api_url is Some ==> {
            &&& built matches Ok(product)
            &&& product.client@.base_path == builder@.api_url->0
            &&& product.client@.options == builder@.options
            &&& product.client@.signer is None
            &&& product.client@.account_id is None
            &&& builder@.options.websocket is Some ==> product.client@.websocket
                == builder@.options.websocket->0
            &&& builder@.options.websocket is None ==> product.client@.websocket == (WsModel {
                host: ws_default.host@,
                path: ws_default.path@,
            })
            &&& product.login is Some <==> {
                &&& builder@.private_key is Some
                &&& builder@.api_key_index is Some
                &&& builder@.account_index is Some
            }
            &&& product.login matches Some(login) ==> {
                &&& builder@.private_key == Some(login.private_key@)
                &&& builder@.api_key_index == Some(login.api_key_index)
                &&& builder@.account_index == Some(login.account_index)
            }
        },
{
}

/// A new client talks to the API that it was given and has no account. Its websocket endpoint is
/// the one that the options name, or else the default.
pub proof fn new_client_is_as_it_was_asked_for(
    api_url: String,
    options: LighterClientOptions,
    ws_default: WsConfig,
    client: LighterClient,
    plain: LighterClient,
)
    requires
        call_ensures(
            LighterClient::new_with_options,
            (api_url, options, ws_default),
            Ok(client),
        ),
        call_ensures(LighterClient::new, (api_url, ws_default), Ok(plain)),
    ensures
        client@.base_path == api_url@,
        client@.signer is None,
        client@.account_id is None,
        client@.options == options@,
        options@.websocket is Some ==> client@.websocket == options@.websocket->0,
        options@.websocket is None ==> client@.websocket == (WsModel {
            host: ws_default.host@,
            path: ws_default.path@,
        }),
        plain@.base_path == api_url@,
        plain@.signer is None,
        plain@.account_id is None,
        plain@.options.max_api_key_index is None,
        forall|index: i32| !#[trigger] plain@.options.extra_private_keys.contains_key(index),
        plain@.options.nonce_management is Optimistic,
        plain@.options.signer_library_path is None,
        plain@.options.websocket is None,
        plain@.websocket == (WsModel { host: ws_default.host@, path: ws_default.path@ }),
{
}

/// What a client hands out of itself is what it holds, down to the last field.
pub proof fn client_hands_out_what_it_holds<'a>(
    client: &'a LighterClient,
    configuration: Configuration,
    account: Option<AccountId>,
    signer: Option<&'a SignerClient>,
    websocket: &'a WsBuilder<'a>,
    config: &'a WsConfig,
)
    requires
        call_ensures(LighterClient::configuration, (client,), configuration),
        call_ensures(LighterClient::account_id, (client,), account),
        call_ensures(LighterClient::signer, (client,), signer),
        call_ensures(LighterClient::ws, (client,), *websocket),
        call_ensures(WsBuilder::<'a>::config, (websocket,), config),
    ensures
        configuration.base_path@ == client@.base_path,
        account == client@.account_id,
        signer is Some <==> client@.signer is Some,
        signer matches Some(inner) ==> client@.signer == Some(
            SignerModel { base_path: inner.configuration.base_path@, codes: inner.codes },
        ),
        config.host@ == client@.websocket.host,
        config.path@ == client@.websocket.path,
        account is Some <==> signer is Some,
{
}

/// The signer of an account is set up from the key, the key index and the account that were
/// given, from the API that the client talks to, and from the options: all further private keys,
/// each under its index, or none at all.
pub proof fn signer_is_set_up_from_what_was_given<'s>(
    client: &'s LighterClient,
    private_key: &'s str,
    api_key_index: ApiKeyIndex,
    account_index: AccountId,
    setup: SignerSetup<'s>,
)
    requires
        call_ensures(
            LighterClient::configure_account,
            (client, private_key, api_key_index, account_index),
            setup,
        ),
    ensures
        setup.base_path@ == client@.base_path,
        setup.private_key@ == private_key@,
        api_key_index == ApiKeyIndex(setup.api_key_index),
        account_index == AccountId(setup.account_index),
        setup.max_api_key_index is Some <==> client@.options.max_api_key_index is Some,
        setup.max_api_key_index matches Some(index) ==> client@.options.max_api_key_index == Some(
            ApiKeyIndex(index),
        ),
        setup.extra_private_keys is None <==> (forall|index: i32|
            !#[trigger] client@.options.extra_private_keys.contains_key(index)),
        setup.extra_private_keys matches Some(keys) ==> forall|index: i32|
            #![trigger keys@.contains_key(index)]
            #![trigger client@.options.extra_private_keys.contains_key(index)]
            {
                &&& keys@.contains_key(index)
                    <==> client@.options.extra_private_keys.contains_key(index)
                &&& keys@.contains_key(index) ==> keys@[index]@
                    == client@.options.extra_private_keys[index]
            },
        setup.nonce_management == client@.options.nonce_management,
        setup.signer_library_path is Some <==> client@.options.signer_library_path is Some,
        setup.signer_library_path matches Some(path) ==> client@.options.signer_library_path
            == Some(*path),
{
}

/// Once an account has been configured, the client answers for that account with that signer and
/// talks to the API that the signer talks to; its websocket endpoint and its options stay. A
/// signer that could not be set up is the failure of the whole.
pub proof fn configuring_an_account_takes_over_its_signer(
    client: LighterClient,
    account: AccountId,
    outcome: Result<SignerClient, SignerError>,
    result: Result<(LighterClient, InvalidateAuth), Error>,
)
    requires
        call_ensures(LighterClient::with_account, (client, account, outcome), result),
    ensures
        outcome matches Ok(signer) ==> {
            &&& result matches Ok(configured)
            &&& configured.0@.base_path == signer.configuration.base_path@
            &&& configured.0@.signer == Some(
                SignerModel { base_path: signer.configuration.base_path@, codes: signer.codes },
            )
            &&& configured.0@.account_id == Some(account)
            &&& configured.0@.websocket == client@.websocket
            &&& configured.0@.options == client@.options
        },
        outcome matches Err(failure) ==> result == Err::<(LighterClient, InvalidateAuth), Error>(
            Error::Signer(failure),
        ),
{
}

/// A configured account is there with its signer, and nothing else of the client changes but the
/// API that it talks to.
pub proof fn account_is_there_once_configured(
    client: ClientModel,
    account: AccountId,
    signer: SignerModel,
)
    ensures
        client.with_account(account, signer).base_path == signer.base_path,
        client.with_account(account, signer).signer == Some(signer),
        client.with_account(account, signer).account_id == Some(account),
        client.with_account(account, signer).websocket == client.websocket,
        client.with_account(account, signer).options == client.options,
{
}

/// A client is authenticated exactly where it has both a signer and an account, and coherent
/// exactly where it has neither or both; every client is coherent.
pub proof fn authenticated_clients_have_signer_and_account(
    client: &LighterClient,
    model: ClientModel,
)
    ensures
        model.authenticated() <==> model.signer is Some && model.account_id is Some,
        model.coherent() <==> (model.signer is Some <==> model.account_id is Some),
        client@.signer is Some <==> client@.account_id is Some,
{
    client.signer_comes_with_account();
}

/// The parts of an endpoint, a REST configuration and a signer are read as they stand.
pub proof fn plain_settings_are_read_as_they_stand(
    endpoint: WsConfig,
    configuration: Configuration,
    signer: SignerClient,
    handed_out: Configuration,
)
    requires
        call_ensures(SignerClient::configuration, (&signer,), handed_out),
    ensures
        endpoint@.host == endpoint.host@,
        endpoint@.path == endpoint.path@,
        configuration@ == configuration.base_path@,
        signer@.base_path == signer.configuration.base_path@,
        signer@.codes == signer.codes,
        handed_out.base_path@ == signer.configuration.base_path@,
{
}

} // verus!
