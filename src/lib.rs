//! Client-side pieces of a clipboard manager: the bridge to external selector
//! programs, the authenticating call hook, the RPC client configuration and the
//! server's version responder.
pub mod config;
pub mod finder;
pub mod interceptor;
pub mod system;
pub mod client;
