//! Structural and semantic validation of Slippi replay files.
//!
//! The library decodes the binary event stream of a replay, checks each
//! record against its version-gated layout, and follows the per-frame order
//! of events against the cycle that the match's roster implies.

pub mod cycle;
pub mod events;
pub mod float_bits;
pub mod frame;
pub mod game_start;
pub mod itemframe;
pub mod lookup;
pub mod metadata;
pub mod order;
pub mod parse;
pub mod player;
pub mod postframe;
pub mod preframe;
pub mod reader;
pub mod session;
pub mod text;
pub mod types;
pub mod utils;
