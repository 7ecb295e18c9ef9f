//! Reply handling for an inference router: error mapping for the Anthropic
//! Messages endpoint, and ownership of response streams.

pub mod headers;
pub mod json;
pub mod protocols;
pub mod routers;
pub mod text;
