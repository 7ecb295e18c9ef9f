//! Request routing.

pub mod http;
