//! The process-wide state: the resolved secret beside the handle of the
//! data-store client.
//!
//! A state is built once, from a configuration and a client that both are
//! already there, and is never changed afterwards: it has no method that
//! takes it mutably, and its fields are read through accessors only.

use crate::secret::{config_view, get_token, secret_of};
use std::sync::Arc;
use vstd::prelude::*;

verus! {

/// `aws_sdk_dynamodb::Client`, carried through as an opaque value.
#[verifier::external_type_specification]
#[verifier::external_body]
pub struct ExClient(aws_sdk_dynamodb::Client);

/// The region that the data-store client is bound to where the environment
/// names none.
pub const FALLBACK_REGION: &'static str = "eu-west-2";

/// The state that every request is answered from.
#[derive(Clone, Debug)]
pub struct AppState {
    oauth: String,
    db_client: Arc<aws_sdk_dynamodb::Client>,
}

/// What a state holds.
pub struct AppStateView {
    /// The resolved secret; empty where the configuration gave none.
    pub secret: Seq<char>,
    /// The shared handle of the data-store client.
    pub client: Arc<aws_sdk_dynamodb::Client>,
}

impl View for AppState {
    type V = AppStateView;

    closed spec fn view(&self) -> AppStateView {
        AppStateView { secret: self.oauth@, client: self.db_client }
    }
}

impl AppState {
    /// Whether this state is the one built from `config` and `client`:
    /// its secret is the one that `config` resolves to, and its handle is
    /// `client`.
    pub open spec fn built_from(
        &self,
        config: Option<Seq<u8>>,
        client: Arc<aws_sdk_dynamodb::Client>,
    ) -> bool {
        self@.secret == secret_of(config) && self@.client == client
    }

    /// Builds the state: resolves the secret from `config`, the bytes of
    /// the configuration document or `None` where it could not be read, and
    /// puts it beside `db_client`.
    pub fn new(config: Option<&[u8]>, db_client: Arc<aws_sdk_dynamodb::Client>) -> (state: AppState)
        ensures
            state.built_from(config_view(config), db_client),
    {
        AppState { oauth: get_token(config), db_client }
    }

    /// The resolved secret.
    pub fn oauth(&self) -> (secret: &str)
        ensures
            secret@ == self@.secret,
    {
        self.oauth.as_str()
    }

    /// The shared handle of the data-store client.
    pub fn db_client(&self) -> (client: &Arc<aws_sdk_dynamodb::Client>)
        ensures
            *client == self@.client,
    {
        &self.db_client
    }
}

} // verus!
