//! Ingestion of wallet transactions and a registry of known customers into a
//! relational store, and the deposit reports computed from it, written without
//! any input or output of its own: every workflow is a machine that names the
//! next request to perform and is resumed with the reply.

pub mod config;
pub mod database;
pub mod errors;
pub mod handlers;
pub mod logger;
pub mod models;
pub mod protocol;
pub mod sequencer;
pub mod text;
