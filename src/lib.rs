//! Authentication, authorization and document-ingestion logic for a resume
//! service, with its behaviour stated as contracts.
pub mod error;
pub mod token;
pub mod ids;
pub mod password;
pub mod models;
pub mod config;
pub mod auth;
pub mod documents;
pub mod dtos;
pub mod account;
