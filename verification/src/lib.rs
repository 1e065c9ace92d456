//! The decision core of a binding to a native, versioned, content-addressed
//! key-value store.
//!
//! The store lives behind a C interface. This crate holds everything that the
//! binding decides: how a path is marshalled, what each status code means, when
//! a foreign buffer is copied and when it is released, and which calls may follow
//! which. It performs no foreign call itself. A driver performs each
//! [`call::NativeCall`] that the [`database::Database`] hands out and feeds the
//! reply back in; every decision in between is verified.

pub mod status;
pub mod error;
pub mod path;
pub mod record;
pub mod call;
pub mod protocol;
pub mod database;
pub mod audit;
pub mod store;
