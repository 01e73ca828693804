//! A solo Stratum-V1 mining pool for Bitcoin Core.
//!
//! This crate is the verified part of the pool. It builds jobs from block templates, answers
//! miners, assembles headers and blocks, and says what is recorded. Sockets, the node's RPC, the
//! database and the web server are driven by the binary around it, which hands plain values in
//! and performs what comes out.
//!
//! Not verified are the hashrate, which is a floating-point number that the binary computes, and
//! what the database computes: which shares fall into a window of time, their count and sum, and
//! their grouping by the minute.
pub mod text;

pub mod chain;
pub mod merkle;
pub mod json;
pub mod coinbase;
pub mod job;
pub mod stratum;
pub mod session;
pub mod laws;
pub mod config;
pub mod feed;
pub mod node;
pub mod storage;
pub mod web;
