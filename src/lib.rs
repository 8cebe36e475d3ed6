//! A streaming connection server core: a stack-based state dispatcher per
//! connection, a directory of live connections, and the per-connection
//! supervisor that decides what to do with each transport event.

pub mod command;
pub mod states;
pub mod state_dispatcher;
pub mod client;
pub mod registry;
pub mod supervisor;
pub mod auth;
pub mod shared_registry;
