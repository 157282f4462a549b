//! The decisions behind a window: which windows are open, which pages are being waited on, what
//! is done about each event, and what is kept from one page or one run to the next.
//!
//! Nothing in this crate touches a window. Every handler takes what happened as plain values,
//! changes the state it owns, and answers with the [`effect::Effect`]s that are to be performed,
//! in the order in which they are to be performed.

pub mod app;
pub mod app_laws;
pub mod browser;
pub mod config;
pub mod effect;
pub mod head_record;
pub mod hot_reload;
pub mod mobile;
pub mod opened_urls;
pub mod platform;
pub mod reload;
pub mod reload_laws;
pub mod session_env;
pub mod text;
pub mod toast;
pub mod window_state;
