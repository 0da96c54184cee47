//! A service registry built on nanomsg sockets: discovery, health checking,
//! routing and providers exchange JSON messages over scalability protocols.
//!
//! This crate holds the decisions of those services: how endpoint addresses
//! are written, how a connection is set up step by step, and how a health
//! cycle reacts to the clock and to the socket. Sockets, clocks, threads and
//! JSON encoding are driven by the caller.

pub mod connection;
pub mod data;
pub mod service;
pub mod provider;
