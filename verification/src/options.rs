//! Configuration options of the client.

use std::collections::HashMap;
use std::path::PathBuf;

use vstd::prelude::*;

use crate::types::{ApiKeyIndex, NonceManagerType, WsConfig, WsModel};

verus! {

/// `std::path::PathBuf`, opaque: a path is carried through unread.
#[verifier::external_type_specification]
#[verifier::external_body]
pub struct ExPathBuf(PathBuf);

/// Configuration options for [`LighterClient`](crate::client::LighterClient).
#[derive(Debug, Clone)]
pub struct LighterClientOptions {
    max_api_key_index: Option<ApiKeyIndex>,
    /// Further private keys, by the number of the API key each belongs to.
    extra_private_keys: HashMap<i32, String>,
    nonce_management: NonceManagerType,
    signer_library_path: Option<PathBuf>,
    websocket: Option<WsConfig>,
}

/// Mathematical view of [`LighterClientOptions`].
pub struct OptionsModel {
    pub max_api_key_index: Option<ApiKeyIndex>,
    pub extra_private_keys: Map<i32, Seq<char>>,
    pub nonce_management: NonceManagerType,
    pub signer_library_path: Option<PathBuf>,
    pub websocket: Option<WsModel>,
}

/// The texts that a table of strings holds.
pub open spec fn texts(table: Map<i32, String>) -> Map<i32, Seq<char>> {
    table.map_values(|text: String| text@)
}

impl View for LighterClientOptions {
    type V = OptionsModel;

    closed spec fn view(&self) -> OptionsModel {
        OptionsModel {
            max_api_key_index: self.max_api_key_index,
            extra_private_keys: texts(self.extra_private_keys@),
            nonce_management: self.nonce_management,
            signer_library_path: self.signer_library_path,
            websocket: match self.websocket {
                Some(config) => Some(config@),
                None => None,
            },
        }
    }
}

impl OptionsModel {
    /// What a client starts out with.
    pub open spec fn initial() -> Self {
        OptionsModel {
            max_api_key_index: None,
            extra_private_keys: Map::empty(),
            nonce_management: NonceManagerType::Optimistic,
            signer_library_path: None,
            websocket: None,
        }
    }

    pub open spec fn with_max_api_key_index(self, index: ApiKeyIndex) -> Self {
        OptionsModel { max_api_key_index: Some(index), ..self }
    }

    /// A key given for an index takes the place of an earlier one for that index.
    pub open spec fn with_extra_private_key(self, index: ApiKeyIndex, key: Seq<char>) -> Self {
        OptionsModel {
            extra_private_keys: self.extra_private_keys.insert(index.0, key),
            ..self
        }
    }

    pub open spec fn with_nonce_management(self, nonce_management: NonceManagerType) -> Self {
        OptionsModel { nonce_management, ..self }
    }

    pub open spec fn with_signer_library_path(self, path: PathBuf) -> Self {
        OptionsModel { signer_library_path: Some(path), ..self }
    }

    pub open spec fn with_websocket(self, config: WsModel) -> Self {
        OptionsModel { websocket: Some(config), ..self }
    }
}

impl Default for LighterClientOptions {
    fn default() -> (options: Self)
        ensures
            options@ == OptionsModel::initial(),
    {
        let options = LighterClientOptions {
            max_api_key_index: None,
            extra_private_keys: HashMap::new(),
            nonce_management: NonceManagerType::Optimistic,
            signer_library_path: None,
            websocket: None,
        };
        assert(texts(options.extra_private_keys@) =~= Map::<i32, Seq<char>>::empty());
        options
    }
}

impl LighterClientOptions {
    pub fn with_max_api_key_index(self, index: ApiKeyIndex) -> (options: Self)
        ensures
            options@ == self@.with_max_api_key_index(index),
    {
        LighterClientOptions { max_api_key_index: Some(index), ..self }
    }

    pub fn with_extra_private_key(self, index: ApiKeyIndex, value: String) -> (options: Self)
        ensures
            options@ == self@.with_extra_private_key(index, value@),
    {
        broadcast use vstd::std_specs::hash::group_hash_axioms;

        let mut options = self;
        options.extra_private_keys.insert(index.0, value);
        assert(texts(options.extra_private_keys@) =~= texts(self.extra_private_keys@).insert(
            index.0,
            value@,
        ));
        options
    }

    pub fn with_nonce_management(self, nonce_management: NonceManagerType) -> (options: Self)
        ensures
            options@ == self@.with_nonce_management(nonce_management),
    {
        LighterClientOptions { nonce_management, ..self }
    }

    pub fn with_signer_library_path(self, path: PathBuf) -> (options: Self)
        ensures
            options@ == self@.with_signer_library_path(path),
    {
        LighterClientOptions { signer_library_path: Some(path), ..self }
    }

    pub fn with_websocket(self, config: WsConfig) -> (options: Self)
        ensures
            options@ == self@.with_websocket(config@),
    {
        LighterClientOptions { websocket: Some(config), ..self }
    }

    /// The websocket endpoint that was asked for, if one was.
    pub(crate) fn websocket(&self) -> (config: Option<&WsConfig>)
        ensures
            config is Some == self@.websocket is Some,
            config is Some ==> config->0@ == self@.websocket->0,
    {
        self.websocket.as_ref()
    }

    pub(crate) fn max_api_key_index(&self) -> (index: Option<ApiKeyIndex>)
        ensures
            index == self@.max_api_key_index,
    {
        self.max_api_key_index
    }

    pub(crate) fn nonce_management(&self) -> (nonce_management: NonceManagerType)
        ensures
            nonce_management == self@.nonce_management,
    {
        self.nonce_management
    }

    pub(crate) fn signer_library_path(&self) -> (path: Option<&PathBuf>)
        ensures
            path is Some == self@.signer_library_path is Some,
            path is Some ==> *path->0 == self@.signer_library_path->0,
    {
        self.signer_library_path.as_ref()
    }

    /// A copy of the further private keys, or nothing where there are none.
    pub(crate) fn extra_private_keys(&self) -> (keys: Option<HashMap<i32, String>>)
        ensures
            keys is None <==> self@.extra_private_keys.is_empty(),
            keys is Some ==> texts(keys->0@) == self@.extra_private_keys,
    {
        broadcast use vstd::std_specs::hash::group_hash_axioms;

        let ghost source = self.extra_private_keys@;
        if self.extra_private_keys.is_empty() {
            return None;
        }
        let mut keys: HashMap<i32, String> = HashMap::with_capacity(self.extra_private_keys.len());
        for entry in entries: self.extra_private_keys.iter()
            invariant
                source == self.extra_private_keys@,
                keys@.submap_of(source),
                forall|key: i32| #[trigger]
                    source.contains_key(key) ==> entries.seq().contains((&key, &source[key])),
                forall|i: int| 0 <= i < entries.index() ==> keys@.contains_key(
                    *(#[trigger] entries.seq()[i]).0),
        {
            keys.insert(*entry.0, entry.1.clone());
        }
        assert forall|key: i32| #[trigger] source.contains_key(key) implies keys@.contains_key(
            key,
        ) by {}
        Some(keys)
    }
}

} // verus!
