//! The broadcast core of a local plot viewer. A producer publishes visual
//! artifacts; the server keeps the most recent ones and fans each new one out
//! to the viewers that are connected, after replaying the history to each
//! viewer when it connects.
//!
//! - `artifact`: the artifact model and its wire form
//! - `store`: the bounded history and the live feeds of the viewers
//! - `trace`, `viewing`: what holds of the store and of a session over whole
//!   runs
//! - `auth`: the token check
//! - `session`: the viewer session protocol
//! - `publish`: the publish endpoint
//! - `server`: the serving lifecycle and the handle
//! - `config`, `cli`, `assets`: settings, the decisions of the command line,
//!   and the choice of the file that answers a request for an asset
//! - `outside`: the calls into other crates, whose contracts are taken on
//!   trust
//!
//! The library decides and keeps state. Sockets, files, clocks of the
//! runtime and processes belong to its caller.

pub mod artifact;
pub mod assets;
pub mod auth;
pub mod cli;
pub mod config;
pub mod outside;
pub mod publish;
pub mod server;
pub mod session;
pub mod store;
pub mod text;
pub mod trace;
pub mod viewing;
