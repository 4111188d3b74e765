//! Decoding of the Linux inotify event stream, and the flag words that
//! describe what a watch is interested in and what an event reports.

use vstd::prelude::*;

pub mod channel;
pub mod event;
pub mod mask;

pub use channel::Error;
pub use event::{ByteOrder, DecodeError, Decoder, Event, Step, Watch};
pub use mask::{Flag, Mask};
