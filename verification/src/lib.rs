//! Decisions and computations of a database layer for an inference platform.

pub mod analytics;
pub mod cluster_manager;
pub mod connection;
pub mod digest;
pub mod error;
pub mod field_encryption;
pub mod ids;
pub mod json;
pub mod migrations;
pub mod models;
pub mod patroni_discovery;
pub mod repositories;
pub mod sort;
pub mod spend_backfill;
pub mod statements;
pub mod text;
pub mod text_map;
pub mod time;
pub mod waterfall;
