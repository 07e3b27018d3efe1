//! Verified core of the portfolio terminal front end: themes, window
//! bookkeeping, the message-driven application state, request gating and
//! the small parsers and calculators the user interface relies on.

pub mod theme;
pub mod string_map;
pub mod app_state;
pub mod messages;
pub mod windows;
pub mod url_params;
pub mod text;
pub mod performance;
pub mod strategy;
pub mod standalone;
pub mod series;
pub mod api_errors;
