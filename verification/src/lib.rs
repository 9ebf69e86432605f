//! Verified core of an authentication and authorization service.

pub mod account;
pub mod authz;
pub mod errors;
pub mod ident;
pub mod logging;
pub mod models;
pub mod passkey;
pub mod passwdless;
pub mod proxy;
pub mod refresh;
pub mod reset;
pub mod session;
pub mod text;
pub mod token;
