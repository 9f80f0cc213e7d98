//! A small HTTP file server, split into the parts that decide and the parts
//! that act.
//!
//! This library holds the deciding parts, each with a machine-checked
//! contract:
//!
//! - the worker pool: its dispatch queue ([`queue`]), the pool itself
//!   ([`pool`]), the state machine that every call of it is a step of
//!   ([`model`]) and what holds of that machine ([`laws`]);
//! - the mapping from a request line to a file and a content type
//!   ([`route`], over the helpers of [`text`]);
//! - the text of a response ([`response`]);
//! - the order of steps taken for one connection ([`connection`]);
//! - the listening address ([`address`]).
//!
//! Sockets, files and threads belong to the program built on top of it.

pub mod address;
pub mod connection;
pub mod laws;
pub mod model;
pub mod pool;
pub mod queue;
pub mod response;
pub mod route;
pub mod text;
