//! Wire protocols that clients speak to the router.

pub mod anthropic_error;
pub mod envelope;
pub mod laws;
