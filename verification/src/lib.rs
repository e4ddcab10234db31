//! Verified core of a blockchain ingestion pipeline.
//!
//! The library renders domain entities (blocks, transactions, rewards,
//! event logs, topics) into multi-row SQL INSERT statements, computes
//! miner rewards, and drives the batch-extraction state machine that an
//! I/O layer runs against a node client and a relational store.

pub mod builder;
pub mod codec;
pub mod encode;
pub mod entities;
pub mod pipe;
pub mod reward;
