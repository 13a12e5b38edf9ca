//! Core logic of a quote-collection web application: pagination windows for
//! listing screens, and the session / authentication flow (signed session
//! tokens, CSRF and redirect checks, one-shot flash messages).
pub mod config;
pub mod filters;
pub mod markdown;
pub mod model;
pub mod pagination;
pub mod quotes;
pub mod session;
pub mod sessions;
