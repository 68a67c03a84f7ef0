//! Tracks whether a system is in sync with the latest published revision of
//! an update channel, and how many consecutive remote revisions it has missed.
//!
//! The crate holds the pure core of a periodic checker: the synchronization
//! state machine, the binary persistence encoding of its record, and the
//! status-message formatting. Reading the two revision strings and touching
//! the state file are left to the surrounding program, which hands this
//! library plain values.

mod channel;
mod codec;
mod display;
mod state;

pub use channel::channel_url;
pub use codec::lemma_encode_decode;
pub use codec::spec_decode;
pub use codec::spec_encode;
pub use display::display_message;
pub use display::replace_marker;
pub use display::spec_decimal;
pub use display::spec_digit;
pub use display::spec_replace_marker;
pub use display::u32_to_decimal;
pub use state::RecordModel;
pub use state::UpdateState;
