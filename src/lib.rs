//! Client-side core of a game-server status service: the topic protocol's wire format, the
//! status record it carries, a token-bucket rate limiter, and the rules that turn query
//! results into per-server reports.
pub mod bucket;
pub mod error;
pub mod http;
pub mod server;
pub mod status;
pub mod text;
pub mod topic;
