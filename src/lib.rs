pub mod access;
pub mod app;
pub mod auth;
pub mod curl;
pub mod environment;
pub mod request;
pub mod text;
