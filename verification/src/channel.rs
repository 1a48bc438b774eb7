//! The two ends of the command queue, as the sequencer and the render
//! engine use them. The queue itself is a `crossbeam_channel` channel; what
//! is proved here is what the library does with the messages, whatever the
//! other side of the queue did.

use vstd::prelude::*;
use crossbeam_channel::{Receiver, Sender};
use crate::command::{AudioCommand, MidiInputEvent};
use crate::midi::{parse_message, parsed};
use crate::voice::{
    bpm_after_all, note_started, voices_after_all, NoteStart, VoiceBank, NUM_VOICES,
};

verus! {

/// `crossbeam_channel::Sender`, the sending half of a channel. Nothing is
/// known of what it holds.
#[verifier::external_type_specification]
#[verifier::external_body]
#[verifier::reject_recursive_types(T)]
pub struct ExSender<T>(crossbeam_channel::Sender<T>);

/// `crossbeam_channel::Receiver`, the receiving half of a channel. Nothing
/// is known of what it holds.
#[verifier::external_type_specification]
#[verifier::external_body]
#[verifier::reject_recursive_types(T)]
pub struct ExReceiver<T>(crossbeam_channel::Receiver<T>);

/// Calls `crossbeam_channel::Sender::try_send`, which hands the message over
/// at once or gives it back, and never waits. The result is the message that
/// came back, if the channel did not take it. Whether the channel takes a
/// message depends on the other threads, so nothing is claimed of that; what
/// is claimed is that a message that comes back is the one that was offered,
/// as both errors of `try_send` carry it.
#[verifier::external_body]
fn offer<T>(sender: &Sender<T>, message: T) -> (refused: Option<T>)
    ensures
        refused is Some ==> refused == Some(message),
{
    match sender.try_send(message) {
        Ok(()) => None,
        Err(crossbeam_channel::TrySendError::Full(back)) => Some(back),
        Err(crossbeam_channel::TrySendError::Disconnected(back)) => Some(back),
    }
}

/// Calls `crossbeam_channel::Receiver::try_recv`, which takes the next
/// message if one is waiting, and never waits. Which message comes, if any,
/// depends on the other threads, so nothing is claimed of it.
#[verifier::external_body]
fn poll<T>(receiver: &Receiver<T>) -> (message: Option<T>) {
    receiver.try_recv().ok()
}

/// The number of offers the queue has taken, after one more offer: one more
/// where nothing came back, the same where the offer was refused.
pub fn tally(taken: usize, refused: Option<AudioCommand>) -> (next: usize)
    requires
        taken < usize::MAX,
    ensures
        next == if refused is None { taken + 1 } else { taken as int },
{
    match refused {
        None => taken + 1,
        Some(_) => taken,
    }
}

/// Offers every command of `cmds` to the queue, first to last, and returns
/// how many the queue took. A command the queue refuses is dropped and the
/// rest is still offered; the caller is never held up.
///
/// How many the queue takes is for the queue to decide: of no commands it
/// takes none, and it never takes more than were offered.
pub fn send_commands(sender: &Sender<AudioCommand>, cmds: &Vec<AudioCommand>) -> (accepted: usize)
    ensures
        accepted <= cmds@.len(),
{
    let mut accepted: usize = 0;
    let mut i: usize = 0;
    while i < cmds.len()
        invariant
            i <= cmds.len(),
            accepted <= i,
        decreases cmds.len() - i,
    {
        accepted = tally(accepted, offer(sender, cmds[i]));
        i += 1;
    }
    accepted
}

/// The control side's handle on the render engine: the sending half of the
/// command queue.
pub struct AudioEngine {
    pub sender: Sender<AudioCommand>,
}

impl AudioEngine {
    /// Offers one command to the render engine. Never waits. Where the
    /// queue does not take the command, the command comes back as the
    /// error, unchanged.
    pub fn send(&self, cmd: AudioCommand) -> (sent: Result<(), AudioCommand>)
        ensures
            sent is Err ==> sent == Err::<(), AudioCommand>(cmd),
    {
        match offer(&self.sender, cmd) {
            None => Ok(()),
            Some(back) => Err(back),
        }
    }

    /// Offers every command of `cmds` to the render engine, first to last,
    /// and returns how many the queue took.
    pub fn send_all(&self, cmds: &Vec<AudioCommand>) -> (accepted: usize)
        ensures
            accepted <= cmds@.len(),
    {
        send_commands(&self.sender, cmds)
    }
}

/// Reads one raw device message and, where it is a note event, offers the
/// event to the queue. Returns the event the message stands for, and whether
/// the queue took it.
pub fn forward_message(sender: &Sender<MidiInputEvent>, message: &[u8]) -> (out: (
    Option<MidiInputEvent>,
    bool,
))
    ensures
        out.0 == parsed(message@),
        out.0 is None ==> !out.1,
{
    match parse_message(message) {
        Some(event) => {
            let accepted = offer(sender, event).is_none();
            (Some(event), accepted)
        },
        None => (None, false),
    }
}

/// Which voices have been started, after `cmd`, given which had been before.
pub open spec fn started_after(started: Seq<bool>, cmd: AudioCommand) -> Seq<bool> {
    match note_started(started.len(), cmd) {
        Some(start) => started.update(start.channel as int, true),
        None => started,
    }
}

/// Which of `voices` voices the commands `cmds` start: those that a note of
/// `cmds` names.
pub open spec fn started_by(voices: nat, cmds: Seq<AudioCommand>) -> Seq<bool>
    decreases cmds.len(),
{
    if cmds.len() == 0 {
        Seq::new(voices, |i: int| false)
    } else {
        started_after(started_by(voices, cmds.drop_last()), cmds.last())
    }
}

/// What a drain reports: how many commands it took from the queue, and
/// which voices they started. The renderer restarts the oscillator of each
/// of these.
#[derive(Clone, Copy, Debug)]
pub struct Drained {
    pub taken: usize,
    pub started: [bool; NUM_VOICES],
}

/// Whether `cmds` are commands that take a bank from `before` to `after`
/// and account for the report `drained`.
pub open spec fn explains(
    cmds: Seq<AudioCommand>,
    before: VoiceBank,
    after: VoiceBank,
    drained: Drained,
) -> bool {
    &&& cmds.len() == drained.taken
    &&& after@ == voices_after_all(before@, cmds)
    &&& after.bpm == bpm_after_all(before.bpm, cmds)
    &&& drained.started@ == started_by(NUM_VOICES as nat, cmds)
}

/// Takes the commands waiting in the queue, at most `budget` of them, and
/// applies each to the bank in the order in which it came.
///
/// Never waits: it stops as soon as the queue has nothing ready. Whatever
/// the queue delivered, the bank ends as the commands taken leave it.
pub fn drain_commands(
    receiver: &Receiver<AudioCommand>,
    bank: &mut VoiceBank,
    budget: usize,
) -> (drained: Drained)
    ensures
        drained.taken <= budget,
        exists|cmds: Seq<AudioCommand>|
            #[trigger] explains(cmds, *old(bank), *final(bank), drained),
{
    let mut started: [bool; NUM_VOICES] = [false; NUM_VOICES];
    let mut taken: usize = 0;
    let ghost mut cmds: Seq<AudioCommand> = Seq::empty();
    assert(started@ =~= started_by(NUM_VOICES as nat, cmds));
    while taken < budget
        invariant
            taken <= budget,
            cmds.len() == taken,
            bank@ == voices_after_all(old(bank)@, cmds),
            bank.bpm == bpm_after_all(old(bank).bpm, cmds),
            started@ == started_by(NUM_VOICES as nat, cmds),
        decreases budget - taken,
    {
        let cmd: AudioCommand = match poll(receiver) {
            Some(c) => c,
            None => {
                break ;
            },
        };
        let start: Option<NoteStart> = bank.apply(cmd);
        if let Some(s) = start {
            started[s.channel] = true;
        }
        proof {
            let next = cmds.push(cmd);
            assert(next.drop_last() =~= cmds);
            assert(next.last() == cmd);
            assert(started@ =~= started_by(NUM_VOICES as nat, next));
            cmds = next;
        }
        taken += 1;
    }
    let drained = Drained { taken, started };
    assert(explains(cmds, *old(bank), *bank, drained));
    drained
}

} // verus!
