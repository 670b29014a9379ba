//! A normalized representation of the ways a client can identify an account
//! when logging in, together with a verified codec between that representation
//! and the JSON wire document that two protocol generations share.

pub mod json;
pub mod login;
