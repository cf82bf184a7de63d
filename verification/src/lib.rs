//! Account rules of an authentication service: error answers, request
//! checks, password and reset-code handling, and the decision steps of each
//! endpoint. Storage, mail delivery and HTTP live outside this library.

mod text;
pub mod error;
pub mod passwords;
pub mod ids;
pub mod models;
pub mod requests;
pub mod auth;
pub mod session;
pub mod mail;
pub mod google;
