//! Session management for the execution environments of a compute
//! provider, and the small pieces of the hub and of its client that decide
//! something.
//!
//! A provider is a worker node. It serves sessions in one or more
//! environments; each environment has a backend, which keeps the sessions
//! in a registry and runs batches of commands against them. This crate
//! holds the decisions of that machinery and proves them against their
//! contracts. It performs no I/O: wherever the file system, the network or
//! the container engine is needed, a function hands out what is to be done
//! and a second one takes the outcome in.
//!
//! - [`envman`]: the messages, the errors and the table of the backends
//! - [`deployment`]: the registry of the sessions of one backend
//! - [`workspace`]: what a session owns on disk
//! - [`pipeline`]: the policy of a batch of commands
//! - [`dockerman`], [`engine`], [`model`]: the container backend
//! - [`session`]: what a backend reports of a session
//! - [`client`], [`hub_server`], [`provider_server`], [`plugin`]: the
//!   hub's client, the two servers and the hub's plugins
//! - [`table`], [`text`], [`host_path`]: what the others are built from

pub mod client;
pub mod deployment;
pub mod dockerman;
pub mod engine;
pub mod envman;
pub mod host_path;
pub mod hub_server;
pub mod model;
pub mod pipeline;
pub mod plugin;
pub mod provider_server;
pub mod session;
pub mod table;
pub mod text;
pub mod workspace;
