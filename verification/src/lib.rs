//! A small collection of building blocks: integer helpers, a counter, server
//! configuration, user records with roles, and a toy credential scheme.
//!
//! Every function carries a contract over a mathematical model of its data.
//! The contracts are proved, with one exception: drawing a random identifier
//! is left to the `uuid` crate, and what is assumed of it is stated in
//! [`ident`].

pub mod arith;
pub mod auth;
pub mod config;
pub mod counter;
pub mod ident;
pub mod server;
pub mod user;
