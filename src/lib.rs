//! Core authorization engine of an OAuth 2.0 / OpenID Connect identity
//! provider: token codec, CSRF protocol, authorization-grant state machine,
//! session and token ledger, grant completion and introspection decisions.

pub mod browser_error;
pub mod callback;
pub mod client;
pub mod csrf;
pub mod discovery;
pub mod encoding;
pub mod flow;
pub mod grant;
pub mod introspection;
pub mod ledger;
pub mod model;
pub mod pkce;
pub mod scope;
pub mod store;
pub mod text;
pub mod token;
pub mod token_endpoint;
pub mod views;
