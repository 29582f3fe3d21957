//! Text injection policy for the ColdVox dictation pipeline: the decisions that
//! choose, order, pace and retry injection backends, the buffered dictation
//! session, and the small data types shared with the platform adapters.

pub mod text;
pub mod time;
pub mod types;
pub mod env;
pub mod backend;
pub mod backend_plan;
pub mod detection;
pub mod records;
pub mod clipboard;
pub mod unified_clipboard;
pub mod focus;
pub mod patterns;
pub mod registry;
pub mod backoff;
pub mod manager;
pub mod confirm;
pub mod orchestrator;
pub mod config_timeout;
pub mod constants;
pub mod probe;
pub mod outcome;
pub mod error;
pub mod metrics;
pub mod logging;
pub mod prewarm;
pub mod compat;
pub mod processor;
pub mod injectors;
pub mod window;
pub mod session;
