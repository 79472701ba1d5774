//! A client for Google Bigtable: how it connects, what it asks for, and how it names tables.
//!
//! Everything here computes; nothing here performs I/O. A program drives a connection by
//! answering the questions of a [`connect::Connecting`], opens the channel that the resulting
//! [`connect::ConnectionPlan`] describes, and works with the [`table::BigTable`] it gets.
pub mod client;
pub mod config;
pub mod connect;
pub mod endpoint;
pub mod error;
pub mod laws;
pub mod outside;
pub mod table;
pub mod util;
pub mod v2;
