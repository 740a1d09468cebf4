//! Authentication, classification and dispatch of signed Slack webhook
//! callbacks, together with the per-workspace credential store that the
//! dispatcher consults.
//!
//! Every function in this crate carries a contract that Verus proves. The
//! few places where the crate relies on another crate (HMAC-SHA256, hex
//! encoding, JSON parsing) are small wrappers whose doc comments say what is
//! taken on trust.

pub mod blocks;
pub mod events;
pub mod oauth;
pub mod signature;
pub mod text;
pub mod types;
pub mod webhook;

pub use blocks::Block;
pub use events::Event;
pub use types::{SigningSecret, Token};
pub use webhook::{
    handle_push_event, AppState, NoopHandler, SlackEventHandler, DEFAULT_WEBHOOK_PATH,
};
