//! Watches content feeds for new items and fans each new item out to the
//! delivery endpoints subscribed to its feed, at most once per item.
//!
//! The polling engine: rate limiting, feed batching, the freshness window,
//! the dedup ledger, endpoint resolution and fan-out, connection retry.
pub mod models;
pub mod text;
pub mod poller;
pub mod store;
pub mod memory_store;
pub mod dispatch;
pub mod rate_limiter;
pub mod retry;
pub mod shutdown;

// The configuration interface's state: navigation, widgets and screens.
pub mod keys;
pub mod navigation;
pub mod text_input;
pub mod checkbox_list;
pub mod paginated_view;
pub mod dropdown;
pub mod selectable_table;
pub mod form_field;
pub mod messages;
pub mod dialog;
pub mod config_builder;
pub mod validators;
pub mod screens;
