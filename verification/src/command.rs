//! The messages that travel from the control side to the render side.

use vstd::prelude::*;

verus! {

/// One control instruction for the render engine.
///
/// A command is a plain value: it is copied into the queue and applied
/// exactly once by [`crate::voice::VoiceBank::apply`].
#[derive(Clone, Copy, Debug, PartialEq, Eq, Structural)]
pub enum AudioCommand {
    /// Start `note` on voice `channel`, with the oscillator shape selected by
    /// `instrument` and the initial level given by `velocity` (0..=127).
    PlayNote { note: u8, instrument: u8, velocity: u8, channel: usize },
    /// Silence voice `channel` at once.
    StopNote { channel: usize },
    /// Record a new tempo, in beats per minute.
    SetBpm(u32),
}

/// A note event from an input device, reduced to what the editor reads.
///
/// `status` is the message kind with the device channel masked away:
/// `0x90` for note-on, `0x80` for note-off.
#[derive(Clone, Copy, Debug, PartialEq, Eq, Structural)]
pub struct MidiInputEvent {
    pub note: u8,
    pub velocity: u8,
    pub status: u8,
}

} // verus!
