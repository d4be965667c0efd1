//! Decay: a Turborepo remote cache backed by S3.
//!
//! The library holds what the server decides: how settings are read, which
//! requests the token check lets through, what the artifact paths and their
//! metadata are, how S3 failures read, and the upload protocol.
pub mod app_settings;
pub mod auth;
pub mod decimal;
pub mod domain;
pub mod gha;
pub mod http_span;
pub mod routes;
pub mod storage;
pub mod text;
pub mod usecases;
