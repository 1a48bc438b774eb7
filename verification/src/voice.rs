//! The voice bank: the discrete state of the fixed set of oscillator slots,
//! and how commands change it.

use vstd::prelude::*;
use crate::command::AudioCommand;

verus! {

/// Number of voices that can sound at once.
pub const NUM_VOICES: usize = 8;

/// Tempo a fresh bank reports until a command sets another.
pub const DEFAULT_BPM: u32 = 120;

/// The oscillator shapes a voice can have.
#[derive(Clone, Copy, Debug, PartialEq, Eq, Structural)]
pub enum Waveform {
    Sine,
    Square,
    Saw,
    Pulse,
}

/// The shape that instrument number `id` selects: the number modulo four.
pub open spec fn waveform_of(id: u8) -> Waveform {
    if id % 4 == 0 {
        Waveform::Sine
    } else if id % 4 == 1 {
        Waveform::Square
    } else if id % 4 == 2 {
        Waveform::Saw
    } else {
        Waveform::Pulse
    }
}

impl Waveform {
    /// Selects the shape for an instrument number. Every number above three
    /// falls onto one of the same four shapes.
    pub fn from_instrument(id: u8) -> (w: Waveform)
        ensures
            w == waveform_of(id),
    {
        let k: u8 = id % 4;
        if k == 0 {
            Waveform::Sine
        } else if k == 1 {
            Waveform::Square
        } else if k == 2 {
            Waveform::Saw
        } else {
            Waveform::Pulse
        }
    }
}

/// One oscillator slot, as far as commands decide it.
///
/// `velocity` is the level the note was started with; the amplitude that
/// decays from it is kept by the renderer.
#[derive(Clone, Copy, Debug, PartialEq, Eq, Structural)]
pub struct Voice {
    pub active: bool,
    pub note: u8,
    pub instrument: u8,
    pub velocity: u8,
}

/// The voice a bank starts with: silent, everything zero.
pub open spec fn silent_voice() -> Voice {
    Voice { active: false, note: 0, instrument: 0, velocity: 0 }
}

impl Voice {
    /// A silent voice.
    pub fn new() -> (v: Voice)
        ensures
            v == silent_voice(),
    {
        Voice { active: false, note: 0, instrument: 0, velocity: 0 }
    }

    /// The oscillator shape this voice plays.
    pub fn waveform(&self) -> (w: Waveform)
        ensures
            w == waveform_of(self.instrument),
    {
        Waveform::from_instrument(self.instrument)
    }
}

impl Default for Voice {
    fn default() -> (v: Voice)
        ensures
            v == silent_voice(),
    {
        Voice::new()
    }
}

/// What the renderer has to do after a command started a note: restart the
/// oscillator of `channel` and set its amplitude from `velocity`.
#[derive(Clone, Copy, Debug, PartialEq, Eq, Structural)]
pub struct NoteStart {
    pub channel: usize,
    pub velocity: u8,
}

/// The voices after `cmd`, given the voices before it.
///
/// A command that names a channel outside the bank changes nothing, and a
/// tempo command never touches a voice.
pub open spec fn voices_after(voices: Seq<Voice>, cmd: AudioCommand) -> Seq<Voice> {
    match cmd {
        AudioCommand::PlayNote { note, instrument, velocity, channel } => {
            if channel < voices.len() {
                voices.update(
                    channel as int,
                    Voice { active: true, note, instrument, velocity },
                )
            } else {
                voices
            }
        },
        AudioCommand::StopNote { channel } => {
            if channel < voices.len() {
                voices.update(channel as int, Voice { active: false, ..voices[channel as int] })
            } else {
                voices
            }
        },
        AudioCommand::SetBpm(_) => voices,
    }
}

/// The tempo on record after `cmd`.
pub open spec fn bpm_after(bpm: u32, cmd: AudioCommand) -> u32 {
    match cmd {
        AudioCommand::SetBpm(b) => b,
        _ => bpm,
    }
}

/// The note that `cmd` starts in a bank of `len` voices, if it starts one.
pub open spec fn note_started(len: nat, cmd: AudioCommand) -> Option<NoteStart> {
    match cmd {
        AudioCommand::PlayNote { note, instrument, velocity, channel } => {
            if channel < len {
                Some(NoteStart { channel, velocity })
            } else {
                None
            }
        },
        _ => None,
    }
}

/// The voices after every command of `cmds`, applied first to last.
pub open spec fn voices_after_all(voices: Seq<Voice>, cmds: Seq<AudioCommand>) -> Seq<Voice>
    decreases cmds.len(),
{
    if cmds.len() == 0 {
        voices
    } else {
        voices_after(voices_after_all(voices, cmds.drop_last()), cmds.last())
    }
}

/// The tempo on record after every command of `cmds`.
pub open spec fn bpm_after_all(bpm: u32, cmds: Seq<AudioCommand>) -> u32
    decreases cmds.len(),
{
    if cmds.len() == 0 {
        bpm
    } else {
        bpm_after(bpm_after_all(bpm, cmds.drop_last()), cmds.last())
    }
}

/// The render engine's state: a fixed bank of voices and the tempo on record.
#[derive(Clone, Copy, Debug)]
pub struct VoiceBank {
    pub voices: [Voice; NUM_VOICES],
    pub bpm: u32,
}

impl View for VoiceBank {
    type V = Seq<Voice>;

    open spec fn view(&self) -> Seq<Voice> {
        self.voices@
    }
}

impl VoiceBank {
    /// A bank with every voice silent and the default tempo.
    pub fn new() -> (bank: VoiceBank)
        ensures
            bank@.len() == NUM_VOICES,
            forall|i: int| 0 <= i < NUM_VOICES ==> bank@[i] == silent_voice(),
            bank.bpm == DEFAULT_BPM,
    {
        VoiceBank { voices: [Voice::new(); NUM_VOICES], bpm: DEFAULT_BPM }
    }

    /// Applies one command.
    ///
    /// Returns the note the command started, if any, so that the renderer can
    /// restart that oscillator. A channel outside the bank is ignored.
    pub fn apply(&mut self, cmd: AudioCommand) -> (started: Option<NoteStart>)
        ensures
            final(self)@ == voices_after(old(self)@, cmd),
            final(self).bpm == bpm_after(old(self).bpm, cmd),
            started == note_started(NUM_VOICES as nat, cmd),
    {
        match cmd {
            AudioCommand::PlayNote { note, instrument, velocity, channel } => {
                if channel < NUM_VOICES {
                    self.voices[channel] = Voice { active: true, note, instrument, velocity };
                    assert(self@ =~= voices_after(old(self)@, cmd));
                    Some(NoteStart { channel, velocity })
                } else {
                    None
                }
            },
            AudioCommand::StopNote { channel } => {
                if channel < NUM_VOICES {
                    let v: Voice = self.voices[channel];
                    self.voices[channel] = Voice { active: false, ..v };
                    assert(self@ =~= voices_after(old(self)@, cmd));
                }
                None
            },
            AudioCommand::SetBpm(bpm) => {
                self.bpm = bpm;
                None
            },
        }
    }

    /// Applies every command of `cmds`, first to last.
    pub fn apply_all(&mut self, cmds: &Vec<AudioCommand>)
        ensures
            final(self)@ == voices_after_all(old(self)@, cmds@),
            final(self).bpm == bpm_after_all(old(self).bpm, cmds@),
    {
        let mut i: usize = 0;
        while i < cmds.len()
            invariant
                i <= cmds.len(),
                self@ == voices_after_all(old(self)@, cmds@.take(i as int)),
                self.bpm == bpm_after_all(old(self).bpm, cmds@.take(i as int)),
            decreases cmds.len() - i,
        {
            let _ = self.apply(cmds[i]);
            proof {
                let next = cmds@.take(i + 1);
                assert(next.drop_last() =~= cmds@.take(i as int));
                assert(next.last() == cmds@[i as int]);
            }
            i += 1;
        }
        proof {
            assert(cmds@.take(cmds.len() as int) =~= cmds@);
        }
    }

    /// Marks voice `channel` as finished. The renderer calls this when the
    /// amplitude of the voice has fallen below the silence threshold; it is
    /// what a stop command does.
    pub fn release(&mut self, channel: usize)
        ensures
            final(self)@ == voices_after(old(self)@, AudioCommand::StopNote { channel }),
            final(self).bpm == old(self).bpm,
    {
        let _ = self.apply(AudioCommand::StopNote { channel });
    }

    /// Whether voice `channel` is sounding. A channel outside the bank never is.
    pub fn is_active(&self, channel: usize) -> (on: bool)
        ensures
            on == (channel < NUM_VOICES && self@[channel as int].active),
    {
        channel < NUM_VOICES && self.voices[channel].active
    }
}

/// A command changes no voice but the one it names, and keeps the number of
/// voices.
pub proof fn lemma_command_touches_one_voice(voices: Seq<Voice>, cmd: AudioCommand, other: int)
    requires
        0 <= other < voices.len(),
        match cmd {
            AudioCommand::PlayNote { channel, .. } => channel != other,
            AudioCommand::StopNote { channel } => channel != other,
            AudioCommand::SetBpm(_) => true,
        },
    ensures
        voices_after(voices, cmd).len() == voices.len(),
        voices_after(voices, cmd)[other] == voices[other],
{
}

/// A note for a channel outside the bank changes nothing: no voice, not the
/// tempo, and no oscillator is restarted.
pub proof fn lemma_play_out_of_range_is_ignored(
    voices: Seq<Voice>,
    bpm: u32,
    note: u8,
    instrument: u8,
    velocity: u8,
    channel: usize,
)
    requires
        channel >= voices.len(),
    ensures
        voices_after(voices, AudioCommand::PlayNote { note, instrument, velocity, channel })
            == voices,
        bpm_after(bpm, AudioCommand::PlayNote { note, instrument, velocity, channel }) == bpm,
        note_started(voices.len(), AudioCommand::PlayNote { note, instrument, velocity, channel })
            is None,
{
}

/// A note for a channel of the bank makes that voice sound with exactly the
/// note, instrument and velocity of the command.
pub proof fn lemma_play_in_range_starts_voice(
    voices: Seq<Voice>,
    note: u8,
    instrument: u8,
    velocity: u8,
    channel: usize,
)
    requires
        channel < voices.len(),
    ensures
        voices_after(voices, AudioCommand::PlayNote { note, instrument, velocity, channel })[
            channel as int
        ] == (Voice { active: true, note, instrument, velocity }),
        note_started(voices.len(), AudioCommand::PlayNote { note, instrument, velocity, channel })
            == Some(NoteStart { channel, velocity }),
{
}

/// Stopping a voice that is already silent, or a channel outside the bank,
/// changes nothing.
pub proof fn lemma_stop_silent_is_noop(voices: Seq<Voice>, bpm: u32, channel: usize)
    requires
        channel < voices.len() ==> !voices[channel as int].active,
    ensures
        voices_after(voices, AudioCommand::StopNote { channel }) == voices,
        bpm_after(bpm, AudioCommand::StopNote { channel }) == bpm,
        note_started(voices.len(), AudioCommand::StopNote { channel }) is None,
{
    assert(voices_after(voices, AudioCommand::StopNote { channel }) =~= voices);
}

/// Stopping a voice twice is the same as stopping it once.
pub proof fn lemma_stop_is_idempotent(voices: Seq<Voice>, channel: usize)
    ensures
        voices_after(
            voices_after(voices, AudioCommand::StopNote { channel }),
            AudioCommand::StopNote { channel },
        ) == voices_after(voices, AudioCommand::StopNote { channel }),
{
    let once = voices_after(voices, AudioCommand::StopNote { channel });
    assert(voices_after(once, AudioCommand::StopNote { channel }) =~= once);
}

/// The channel a command writes to, if it writes to a voice at all.
pub open spec fn channel_of(cmd: AudioCommand) -> Option<usize> {
    match cmd {
        AudioCommand::PlayNote { channel, .. } => Some(channel),
        AudioCommand::StopNote { channel } => Some(channel),
        AudioCommand::SetBpm(_) => None,
    }
}

/// Commands for different voices do not interfere: in whichever order two
/// of them arrive, the voices end the same. A tempo command never
/// interferes with a voice command.
pub proof fn lemma_commands_on_different_voices_commute(
    voices: Seq<Voice>,
    first: AudioCommand,
    second: AudioCommand,
)
    requires
        channel_of(first) is None || channel_of(second) is None || channel_of(first)
            != channel_of(second),
    ensures
        voices_after(voices_after(voices, first), second) == voices_after(
            voices_after(voices, second),
            first,
        ),
{
    assert(voices_after(voices_after(voices, first), second) =~= voices_after(
        voices_after(voices, second),
        first,
    ));
}

} // verus!
