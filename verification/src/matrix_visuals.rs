//! What the falling-letters display is told about the notes being played.

use vstd::prelude::*;
use crate::command::AudioCommand;
use crate::editor::{note_name, pitch_name};

verus! {

/// One note for the display: its name without octave, and the channel it
/// sounds on.
#[derive(Clone, Debug)]
pub struct VisualNoteEvent {
    pub note_name: String,
    pub channel: usize,
}

/// Whether `event` is what the display is told of `cmd`: every note that is
/// sent is shown, under its pitch name and on its channel; nothing else is.
pub open spec fn shows(event: Option<VisualNoteEvent>, cmd: AudioCommand) -> bool {
    match cmd {
        AudioCommand::PlayNote { note, channel, .. } => {
            &&& event is Some
            &&& event->0.note_name@ == pitch_name(note as int % 12)
            &&& event->0.channel == channel
        },
        _ => event is None,
    }
}

/// The display event that goes with a command.
pub fn visual_note(cmd: &AudioCommand) -> (event: Option<VisualNoteEvent>)
    ensures
        shows(event, *cmd),
{
    match cmd {
        AudioCommand::PlayNote { note, channel, .. } => Some(
            VisualNoteEvent { note_name: note_name(*note), channel: *channel },
        ),
        _ => None,
    }
}

} // verus!
