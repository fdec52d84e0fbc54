//! Command dispatch pipeline for a chat bot: per-group prefix resolution,
//! windowed rate limiting, ordered dispatch checks, a cascading delivery
//! fallback chain, and user-facing rendering of dispatch failures.

pub mod cmd_error;
pub mod cmd_prefix;
pub mod cmd_search;
pub mod delivery;
pub mod dispatch;
pub mod globals;
pub mod ratelimit;
pub mod text;
