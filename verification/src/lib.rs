//! Core of an interactive terminal chat client for a locally hosted
//! language-model endpoint: the conversation store, the streamed-reply
//! ingestion protocol with cooperative cancellation, and the history-cursor
//! arithmetic that lets the user browse prior exchanges while a new reply
//! may still be streaming.

pub mod config;
pub mod conversation;
pub mod session;
pub mod stream;

pub use config::{select_profile, Profile};
pub use conversation::{Converation, Message, Role};
pub use session::{pane_height, KeyEffect, KeyInput, RenderPlan, Session};
pub use stream::{apply_fragment, drain_step, incomplete_marker, DrainOutcome};
