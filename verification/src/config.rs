//! The configuration store: the API's base URL and the shared secret.

use crate::text::{trim_trailing_slashes, without_trailing_slashes};
use vstd::prelude::*;

verus! {

/// Where the remote API is and the secret that it asks for.
#[derive(Debug)]
pub struct ApiConfig {
    /// The base URL, held without a `/` at its end.
    pub server_url: String,
    pub api_secret: String,
}

/// What an [`ApiConfig`] holds, as mathematical values.
pub ghost struct ApiConfigView {
    pub server_url: Seq<char>,
    pub api_secret: Seq<char>,
}

impl View for ApiConfig {
    type V = ApiConfigView;

    open spec fn view(&self) -> ApiConfigView {
        ApiConfigView { server_url: self.server_url@, api_secret: self.api_secret@ }
    }
}

/// A base URL as the store holds it: with no `/` at its end.
pub open spec fn is_base_url(url: Seq<char>) -> bool {
    url.len() == 0 || url.last() != '/'
}

/// The configuration that is stored for a given URL and secret.
pub open spec fn stored_config(server_url: Seq<char>, api_secret: Seq<char>) -> ApiConfigView {
    ApiConfigView { server_url: without_trailing_slashes(server_url), api_secret }
}

/// The store after a configuration was set: the new one, whatever the store
/// held before.
pub open spec fn after_set(
    before: Option<ApiConfigView>,
    server_url: Seq<char>,
    api_secret: Seq<char>,
) -> Option<ApiConfigView> {
    Some(stored_config(server_url, api_secret))
}

impl ApiConfig {
    /// The base URL has no `/` at its end.
    pub open spec fn wf(&self) -> bool {
        is_base_url(self.server_url@)
    }

    /// The configuration for a URL as it was typed and a secret: the URL
    /// without the `/` characters at its end, the secret as it is.
    pub fn new(server_url: &str, api_secret: String) -> (config: ApiConfig)
        ensures
            config@ == stored_config(server_url@, api_secret@),
            config.wf(),
    {
        proof {
            crate::text::lemma_without_trailing_slashes(server_url@);
        }
        ApiConfig { server_url: trim_trailing_slashes(server_url), api_secret }
    }
}

/// The store: empty until a configuration is set, then the one set last.
#[derive(Debug)]
pub struct AppState {
    pub api_config: Option<ApiConfig>,
}

impl View for AppState {
    type V = Option<ApiConfigView>;

    open spec fn view(&self) -> Option<ApiConfigView> {
        match self.api_config {
            Some(config) => Some(config@),
            None => None,
        }
    }
}

impl Default for AppState {
    fn default() -> (state: AppState)
        ensures
            state@ is None,
            state.wf(),
    {
        AppState { api_config: None }
    }
}

impl AppState {
    /// The stored base URL, if there is one, has no `/` at its end.
    pub open spec fn wf(&self) -> bool {
        match self.api_config {
            Some(config) => config.wf(),
            None => true,
        }
    }

    /// An empty store.
    pub fn new() -> (state: AppState)
        ensures
            state@ is None,
            state.wf(),
    {
        AppState { api_config: None }
    }

    /// Puts a configuration in place of whatever the store held.
    pub fn set(&mut self, server_url: &str, api_secret: String)
        ensures
            final(self)@ == after_set(old(self)@, server_url@, api_secret@),
            final(self).wf(),
    {
        self.api_config = Some(ApiConfig::new(server_url, api_secret));
    }

    /// The configuration, or `None` while none was set.
    pub fn read(&self) -> (config: Option<&ApiConfig>)
        ensures
            match config {
                Some(c) => self.api_config == Some(*c),
                None => self.api_config is None,
            },
    {
        self.api_config.as_ref()
    }
}

} // verus!
