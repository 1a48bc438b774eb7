//! Core of a step-sequenced music tracker: the command vocabulary, the
//! discrete state of the polyphonic voice bank, the sequencer clock that
//! turns tempo and elapsed time into row advances, and the note-input policy
//! of the editor. Everything here is integer logic with machine-checked
//! contracts; signal arithmetic and device handling live with the caller.

pub mod channel;
pub mod command;
pub mod data;
pub mod editor;
pub mod matrix_visuals;
pub mod midi;
pub mod playback;
pub mod themes;
pub mod voice;
