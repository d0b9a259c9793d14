//! Ingestion of user-submitted images: decoding, derivation of the
//! resolution tiers, encoding in three formats, the sharded layout of the
//! artifacts on disk, and the records that an external search index keeps.

pub mod auth;
pub mod config;
pub mod converter;
pub mod coordinator;
pub mod error;
pub mod identity;
pub mod index;
pub mod models;
pub mod raster;
pub mod storage;
pub mod store_model;
