//! Guild-scoped playback session management for a voice chat music bot.
//!
//! The heart of the crate is the per-guild playback session: an ordered
//! queue of pending tracks, the currently streaming track, and the
//! transport status (idle / playing / paused) with a loop flag. A
//! process-wide registry maps guild identifiers to their sessions and
//! hands out generation-stamped handles so that mutations racing with a
//! session teardown are rejected instead of resurrecting dead state.
//!
//! Everything that talks to the network (the chat gateway, the audio
//! transport, the metadata providers) lives outside this crate; the
//! session logic here is pure and fully specified.

pub mod dispatch;
pub mod help;
pub mod laws;
pub mod playlist;
pub mod registry;
pub mod session;
pub mod text;
pub mod track;

pub use dispatch::{ButtonKind, CommandKind};
pub use help::get_help_text;
pub use playlist::{create_link_youtbe, get_id_playlist, is_valid_youtube_url};
pub use registry::{SessionHandle, SessionRegistry};
pub use session::{EnqueueOutcome, QueueView, Session, SessionError, Status};
pub use track::Track;
