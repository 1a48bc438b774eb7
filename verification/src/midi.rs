//! Reading raw messages of a note-input device.

use vstd::prelude::*;
use crate::command::MidiInputEvent;

verus! {

/// Status of a note-on message, device channel masked away.
pub const NOTE_ON: u8 = 0x90;

/// Status of a note-off message, device channel masked away.
pub const NOTE_OFF: u8 = 0x80;

/// The kind of a message: its first byte without the low four bits, which
/// carry the device channel.
pub open spec fn status_of(first: u8) -> u8 {
    first & 0xF0
}

/// The event a raw message stands for: a message of at least three bytes
/// whose kind is note-on or note-off gives its kind, its second byte as the
/// note and its third as the velocity. Every other message gives nothing.
pub open spec fn parsed(message: Seq<u8>) -> Option<MidiInputEvent> {
    if message.len() >= 3 && (status_of(message[0]) == NOTE_ON || status_of(message[0])
        == NOTE_OFF) {
        Some(
            MidiInputEvent { note: message[1], velocity: message[2], status: status_of(message[0]) },
        )
    } else {
        None
    }
}

/// Reads one raw message.
pub fn parse_message(message: &[u8]) -> (event: Option<MidiInputEvent>)
    ensures
        event == parsed(message@),
{
    if message.len() >= 3 {
        let status: u8 = message[0] & 0xF0;
        if status == NOTE_ON || status == NOTE_OFF {
            return Some(MidiInputEvent { note: message[1], velocity: message[2], status });
        }
    }
    None
}

/// A message is a note-on on any of the sixteen device channels exactly when
/// its first byte lies in `0x90..=0x9F`, and a note-off exactly when it lies
/// in `0x80..=0x8F`.
pub proof fn lemma_status_ranges(first: u8)
    ensures
        status_of(first) == NOTE_ON <==> 0x90 <= first <= 0x9F,
        status_of(first) == NOTE_OFF <==> 0x80 <= first <= 0x8F,
{
    assert((first & 0xF0 == 0x90) <==> (0x90 <= first && first <= 0x9F)) by (bit_vector);
    assert((first & 0xF0 == 0x80) <==> (0x80 <= first && first <= 0x8F)) by (bit_vector);
}

} // verus!
