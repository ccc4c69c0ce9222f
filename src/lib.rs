//! A gateway that turns a creature's English flavour text into an archaic
//! rewrite: the decision logic, with its contracts.
pub mod endpoint;
pub mod errors;
pub mod fun_translations_client;
pub mod poke_api_client;
pub mod request_error;
pub mod services;
pub mod services_api_models;
pub mod text;
