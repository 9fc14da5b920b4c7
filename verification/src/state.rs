//! The state every request handler shares, and the check that admits a
//! request by its bearer token.

use crate::config::Config;
use crate::error::Error;
use crate::text::{copy_opt_text, opt_str_text, opt_text, same_text};
use std::sync::Arc;
use vstd::prelude::*;

verus! {

/// The outbound HTTP client of `reqwest`. Nothing is claimed of what it holds:
/// the state carries it to the handlers, which send requests through it.
#[verifier::external_type_specification]
#[verifier::external_body]
pub struct ExClient(reqwest::Client);

/// `Clone::clone` of `reqwest::Client`, which hands out another handle to the
/// same connection pool. Nothing is claimed of the handle.
pub assume_specification[ <reqwest::Client as Clone>::clone ](client: &reqwest::Client) -> reqwest::Client;

/// What is shared by all requests: the outbound client and the API key that
/// callers must present, if one is configured. It does not change once built.
#[derive(Clone)]
pub struct AppState {
    client: reqwest::Client,
    api_key: Arc<Option<String>>,
}

/// Whether a request that carries `bearer` is admitted under `api_key`: with
/// no key configured every request is; with a key, only the one whose token is
/// that key.
pub open spec fn authorized(api_key: Option<Seq<char>>, bearer: Option<Seq<char>>) -> bool {
    match api_key {
        None => true,
        Some(key) => bearer == Some(key),
    }
}

impl std::ops::Deref for AppState {
    type Target = reqwest::Client;

    /// The outbound client: the state stands in for it wherever a request is
    /// sent. It is the client the state was built with.
    fn deref(&self) -> (client: &reqwest::Client)
        ensures
            *client == self.outbound(),
    {
        &self.client
    }
}

impl AppState {
    /// The configured API key, if there is one.
    pub closed spec fn key(&self) -> Option<Seq<char>> {
        opt_text(*self.api_key)
    }

    /// The outbound client that all requests share.
    pub closed spec fn outbound(&self) -> reqwest::Client {
        self.client
    }

    /// Builds the shared state from the outbound client and the API key.
    pub fn new(client: reqwest::Client, api_key: Arc<Option<String>>) -> (state: AppState)
        ensures
            state.outbound() == client,
            state.key() == opt_text(*api_key),
    {
        AppState { client, api_key }
    }

    /// Builds the shared state of a gateway that is started with `config`: it
    /// asks callers for the API key that `config` holds, or for none.
    pub fn from_config(client: reqwest::Client, config: &Config) -> (state: AppState)
        ensures
            state.outbound() == client,
            state.key() == config@.api_key,
    {
        AppState::new(client, Arc::new(copy_opt_text(&config.api_key)))
    }

    /// Checks the bearer token of a request against the configured API key.
    ///
    /// With no key configured every request passes, whatever it carries. With
    /// a key configured a request passes only if it carries a token and the
    /// token is the key, byte for byte; any other fails with `InvalidApiKey`.
    pub fn valid_key(&self, bearer: Option<&str>) -> (result: Result<(), Error>)
        ensures
            self.key() is None ==> result is Ok,
            self.key() matches Some(key) ==> (result is Ok <==> opt_str_text(bearer) == Some(key)),
            result matches Err(error) ==> error == Error::InvalidApiKey,
            result is Ok <==> authorized(self.key(), opt_str_text(bearer)),
    {
        match &*self.api_key {
            None => Ok(()),
            Some(key) => match bearer {
                Some(token) => {
                    if same_text(key.as_str(), token) {
                        Ok(())
                    } else {
                        Err(Error::InvalidApiKey)
                    }
                },
                None => Err(Error::InvalidApiKey),
            },
        }
    }
}

} // verus!
