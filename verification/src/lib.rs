pub mod text;
pub mod errors;
pub mod jwt;
pub mod secrets;
pub mod auth;
pub mod speech;
pub mod routes;
pub mod metadata;
pub mod url;
