use std::path::PathBuf;

use lighter_client::client::{AuthToken, AuthTokenRequest, InvalidateAuth, LighterClient};
use lighter_client::decimal::render_decimal;
use lighter_client::errors::{Error, SignerError};
use lighter_client::options::LighterClientOptions;
use lighter_client::types::{
    AccountId, ApiKeyIndex, Configuration, Expiry, NonceManagerType, SignerClient, SignerCodes,
    WsConfig,
};

fn ws(host: &str) -> WsConfig {
    WsConfig { host: host.to_string(), path: "/stream".to_string() }
}

fn signer(base_path: &str) -> SignerClient {
    SignerClient {
        configuration: Configuration { base_path: base_path.to_string() },
        codes: SignerCodes {
            order_type_limit: 0,
            order_type_market: 1,
            order_type_stop_loss: 2,
            order_type_stop_loss_limit: 3,
            order_type_take_profit: 4,
            order_type_take_profit_limit: 5,
            time_in_force_immediate_or_cancel: 0,
            time_in_force_good_till_time: 1,
            time_in_force_post_only: 2,
            default_ioc_expiry: 0,
        },
    }
}

fn fresh() -> LighterClient {
    LighterClient::new("https://api.example".to_string(), ws("default")).unwrap()
}

#[test]
fn fresh_client() {
    let c = fresh();
    assert_eq!(c.configuration().base_path, "https://api.example");
    assert_eq!(c.account_id(), None);
    assert!(c.signer().is_none());
    assert_eq!(c.ws().config(), &ws("default"));
    assert_eq!(c.create_auth_token(None), Err(Error::NotAuthenticated));
}

#[test]
fn chosen_websocket() {
    let options = LighterClientOptions::default().with_websocket(ws("chosen"));
    let c =
        LighterClient::new_with_options("u".to_string(), options.clone(), ws("default")).unwrap();
    assert_eq!(c.ws().config(), &ws("chosen"));
}

#[test]
fn setup_without_options() {
    let c = fresh();
    let setup = c.configure_account("key", ApiKeyIndex(2), AccountId(42));
    assert_eq!(setup.base_path, "https://api.example");
    assert_eq!(setup.private_key, "key");
    assert_eq!((setup.api_key_index, setup.account_index), (2, 42));
    assert_eq!(setup.max_api_key_index, None);
    assert!(setup.extra_private_keys.is_none());
    assert_eq!(setup.nonce_management, NonceManagerType::Optimistic);
    assert_eq!(setup.signer_library_path, None);
}

#[test]
fn setup_with_options() {
    let options = LighterClientOptions::default()
        .with_max_api_key_index(ApiKeyIndex(9))
        .with_extra_private_key(ApiKeyIndex(3), "old".to_string())
        .with_extra_private_key(ApiKeyIndex(5), "five".to_string())
        .with_extra_private_key(ApiKeyIndex(3), "three".to_string())
        .with_nonce_management(NonceManagerType::Api)
        .with_signer_library_path(PathBuf::from("/lib/signer.so"));
    let c = LighterClient::new_with_options("u".to_string(), options, ws("default")).unwrap();
    let setup = c.configure_account("key", ApiKeyIndex(2), AccountId(42));
    assert_eq!(setup.max_api_key_index, Some(9));
    let keys = setup.extra_private_keys.unwrap();
    assert_eq!(keys.len(), 2);
    assert_eq!(keys[&3], "three");
    assert_eq!(keys[&5], "five");
    assert_eq!(setup.nonce_management, NonceManagerType::Api);
    assert_eq!(setup.signer_library_path, Some(&PathBuf::from("/lib/signer.so")));
}

#[test]
fn configuring_an_account() {
    let mut c = fresh();
    let result = c.account_configured(AccountId(42), Ok(signer("https://signer.example")));
    assert_eq!(result, Ok(InvalidateAuth));
    assert_eq!(c.account_id(), Some(AccountId(42)));
    assert_eq!(c.signer(), Some(&signer("https://signer.example")));
    assert_eq!(c.configuration().base_path, "https://signer.example");
    assert_eq!(c.signer().unwrap().configuration().base_path, "https://signer.example");
    assert_eq!(c.ws().config(), &ws("default"));
    let again = c.account_configured(AccountId(43), Ok(signer("https://other.example")));
    assert_eq!(again, Ok(InvalidateAuth));
    assert_eq!(c.account_id(), Some(AccountId(43)));
    assert_eq!(c.configuration().base_path, "https://other.example");
}

#[test]
fn failing_to_configure_changes_nothing() {
    let failure = SignerError { message: "bad key".to_string() };
    let mut c = fresh();
    let result = c.account_configured(AccountId(42), Err(failure.clone()));
    assert_eq!(result, Err(Error::Signer(failure.clone())));
    assert_eq!(c.account_id(), None);
    assert!(c.signer().is_none());
    assert_eq!(c.configuration().base_path, "https://api.example");
    let lost = c.with_account(AccountId(42), Err(failure.clone()));
    assert_eq!(lost.err(), Some(Error::Signer(failure)));
}

#[test]
fn signer_and_account_come_together() {
    let together = |c: &LighterClient| c.signer().is_some() == c.account_id().is_some();
    let mut c = fresh();
    assert!(together(&c));
    let failure = SignerError { message: "bad key".to_string() };
    assert!(c.account_configured(AccountId(42), Err(failure.clone())).is_err());
    assert!(together(&c));
    assert!(c.account_configured(AccountId(42), Ok(signer("s"))).is_ok());
    assert!(together(&c) && c.signer().is_some());
    assert!(c.account_configured(AccountId(43), Err(failure)).is_err());
    assert!(together(&c));
    assert_eq!(c.account_id(), Some(AccountId(42)));
}

#[test]
fn auth_tokens() {
    let c = fresh().with_account(AccountId(42), Ok(signer("s"))).ok().unwrap().0;
    assert_eq!(c.create_auth_token(None), Ok(AuthTokenRequest { expiry: None }));
    let request =
        c.create_auth_token(Some(Expiry { unix: 1700, unix_millis: 1_700_123 })).unwrap();
    assert_eq!(request, AuthTokenRequest { expiry: Some(1700) });
    let issued = AuthToken { token: "secret".to_string() };
    assert_eq!(request.complete(Ok(issued)), Ok("secret".to_string()));
    let failure = SignerError { message: "down".to_string() };
    assert_eq!(request.complete(Err(failure.clone())), Err(Error::Signer(failure)));
}

#[test]
fn building_needs_a_url() {
    let built = LighterClient::builder().private_key("key".to_string()).build(ws("default"));
    let error = Error::InvalidConfig { field: "api_url", why: "must be provided" };
    assert_eq!(built.err(), Some(error));
}

#[test]
fn building_with_credentials() {
    let built = LighterClient::builder()
        .api_url("https://api.example".to_string())
        .private_key("key".to_string())
        .api_key_index(ApiKeyIndex(2))
        .account_index(AccountId(42))
        .nonce_management(NonceManagerType::Api)
        .signer_library_path(PathBuf::from("/lib/signer.so"))
        .websocket("ws.example".to_string(), "/ws".to_string())
        .extra_private_key(ApiKeyIndex(3), "three".to_string())
        .max_api_key_index(ApiKeyIndex(9))
        .build(ws("default"))
        .ok()
        .unwrap();
    let login = built.login.unwrap();
    assert_eq!(login.private_key, "key");
    assert_eq!((login.api_key_index, login.account_index), (ApiKeyIndex(2), AccountId(42)));
    let c = built.client;
    assert_eq!(c.account_id(), None);
    assert_eq!(c.ws().config().host, "ws.example");
    assert_eq!(c.ws().config().path, "/ws");
    let setup = c.configure_account(&login.private_key, login.api_key_index, login.account_index);
    assert_eq!(setup.base_path, "https://api.example");
    assert_eq!(setup.max_api_key_index, Some(9));
    assert_eq!(setup.extra_private_keys.unwrap()[&3], "three");
    assert_eq!(setup.nonce_management, NonceManagerType::Api);
    assert_eq!(setup.signer_library_path, Some(&PathBuf::from("/lib/signer.so")));
}

#[test]
fn building_with_partial_credentials_configures_no_account() {
    let base = || LighterClient::builder().api_url("u".to_string());
    let key = || "key".to_string();
    let login = |builder: lighter_client::builder::LighterClientBuilder| {
        builder.build(ws("default")).ok().unwrap().login
    };
    assert!(login(base()).is_none());
    assert!(login(base().private_key(key()).api_key_index(ApiKeyIndex(1))).is_none());
    assert!(login(base().private_key(key()).account_index(AccountId(1))).is_none());
    assert!(login(base().api_key_index(ApiKeyIndex(1)).account_index(AccountId(1))).is_none());
    let last = base()
        .private_key("first".to_string())
        .private_key("second".to_string())
        .api_key_index(ApiKeyIndex(1))
        .account_index(AccountId(1));
    assert_eq!(login(last).unwrap().private_key, "second");
}

#[test]
fn decimals() {
    assert_eq!(render_decimal(0), "0");
    assert_eq!(render_decimal(7), "7");
    assert_eq!(render_decimal(10), "10");
    assert_eq!(render_decimal(1_234_567_890), "1234567890");
    assert_eq!(render_decimal(-1), "-1");
    assert_eq!(render_decimal(-905), "-905");
    assert_eq!(render_decimal(i64::MAX), i64::MAX.to_string());
    assert_eq!(render_decimal(i64::MIN), i64::MIN.to_string());
}
