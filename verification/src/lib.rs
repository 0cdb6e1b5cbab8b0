//! Velox: the verified core of a small file-storage service with
//! passwordless (magic link) authentication.

pub mod error;
pub mod text;
pub mod crypto;
pub mod time;
pub mod ids;
pub mod models;
pub mod auth;
pub mod storage;
pub mod files;
pub mod validation;
pub mod dto;
pub mod mail;
pub mod handlers;
pub mod scoped;
pub mod tables;
pub mod laws;
