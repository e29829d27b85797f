//! Inventory of the resources of a cloud provider.
//!
//! A run selects collectors by the tokens of a list ([`services`],
//! [`collectors`]), keeps them in a registry ([`collector_core`]), lets each
//! discover the resources of its service and merges what they found into
//! one list of records ([`discovery`], [`record`]), and hands that list to
//! a sink, in batches and with retries where the sink is remote ([`out`]).
//!
//! The library decides and computes; it makes no outside call. A collector
//! of the library serves the fixed records of its service and turns what a
//! provider reports into records. Asking the provider, and sending to the
//! sink, is left to the caller, who follows the decisions made here.

pub mod collector_core;
pub mod collectors;
pub mod common;
pub mod discovery;
pub mod ecr;
pub mod http;
pub mod mock;
pub mod numbers;
pub mod out;
pub mod rds;
pub mod record;
pub mod s3;
pub mod services;
pub mod strmap;
pub mod text;
pub mod types;
pub mod utils;
