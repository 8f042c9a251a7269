//! The connection session and protocol dispatch engine of a small
//! TLS-terminated messaging server.
//!
//! Clients authenticate, then create and read users, conversations and
//! messages over a compact JSON protocol: one request document in, one
//! response document out. This crate holds everything that decides —
//! decoding the wire grammar into canonical requests ([`api`]), the
//! per-connection authentication state ([`auth`]), validation,
//! authorization gating and dispatch of each request to the data access it
//! needs ([`handle`], [`db`]), and the encoding of responses — each with a
//! verified contract. The I/O around it (sockets, TLS, the SQL store) is
//! the caller's: it performs the prepared data access and hands the
//! outcome back.

pub mod api;
pub mod auth;
pub mod db;
pub mod error;
pub mod handle;
pub mod wire;
