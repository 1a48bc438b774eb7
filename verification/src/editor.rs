//! The editor's side of the session: cursor movement, transport toggle, and
//! note entry from the keyboard and from an input device.

use vstd::prelude::*;
use crate::command::{AudioCommand, MidiInputEvent};
use crate::data::{grid_with, ChannelData, ProjectData, NUM_CHANNELS, ROWS_PER_PATTERN};
use crate::midi::NOTE_ON;
use crate::playback::{
    cell_command, note_command, plays_muted, resolve_instrument, resolved_instrument, track_of,
};

verus! {

/// Whether the editor only shows the grid or writes into it.
#[derive(Clone, Copy, Debug, PartialEq, Eq, Structural)]
pub enum EditMode {
    View,
    Edit,
}

impl Default for EditMode {
    fn default() -> (mode: EditMode)
        ensures
            mode == EditMode::View,
    {
        EditMode::View
    }
}

/// Volume written into a cell for a note entered from the keyboard.
pub const KEYBOARD_CELL_VOLUME: u8 = 64;

/// Velocity of the preview note for a note entered from the keyboard.
pub const KEYBOARD_VELOCITY: u8 = 127;

/// The instrument a note entered at the cursor gets: the instrument of the
/// cursor channel's track, else the editor's current one.
pub open spec fn entry_instrument(project: ProjectData) -> u8 {
    match track_of(project.tracks@, project.current_channel as int) {
        Some(track) => resolved_instrument(None, Some(track.index), project.current_instrument),
        None => project.current_instrument,
    }
}

/// The cell `cell` after a note was entered into it: note, instrument and
/// volume are set, the effect column stays.
pub open spec fn entered_cell(
    cell: ChannelData,
    note: u8,
    instrument: u8,
    volume: u8,
) -> ChannelData {
    ChannelData { note: Some(note), instrument: Some(instrument), volume: Some(volume), ..cell }
}

/// The cell `cell` after its note was deleted: note, instrument and volume
/// are gone, the effect column stays.
pub open spec fn cleared_cell(cell: ChannelData) -> ChannelData {
    ChannelData { note: None, instrument: None, volume: None, ..cell }
}

/// Whether the project has the pattern it names as current.
pub open spec fn has_current_pattern(project: ProjectData) -> bool {
    project.current_pattern < project.patterns@.len()
}

/// The row the cursor stands on after a note was entered at row `row`.
pub open spec fn row_after_entry(row: int, auto_advance: int) -> int {
    (row + auto_advance) % (ROWS_PER_PATTERN as int)
}

/// The grid after a note was entered at the cursor. Without a current
/// pattern nothing is written.
pub open spec fn grid_after_entry(
    project: ProjectData,
    grid: Seq<Seq<Seq<ChannelData>>>,
    row: int,
    note: u8,
    volume: u8,
) -> Seq<Seq<Seq<ChannelData>>> {
    if has_current_pattern(project) {
        let p = project.current_pattern as int;
        let c = project.current_channel as int;
        grid_with(
            grid,
            p,
            row,
            c,
            entered_cell(grid[p][row][c], note, entry_instrument(project), volume),
        )
    } else {
        grid
    }
}

/// The preview note that entering `note` at the cursor sends.
pub open spec fn entry_command(project: ProjectData, note: u8, velocity: u8) -> AudioCommand {
    AudioCommand::PlayNote {
        note,
        instrument: entry_instrument(project),
        velocity,
        channel: project.current_channel,
    }
}

/// Enters `note` at the cursor: writes it into the cell with the cursor
/// channel's instrument and with `volume`, moves the cursor down by the
/// project's auto-advance with wrap-around, and returns the preview note to
/// send, at `velocity`. A project without a current pattern is left as it
/// is, and nothing is sent.
pub fn enter_note(project: &mut ProjectData, note: u8, volume: u8, velocity: u8) -> (cmd: Option<AudioCommand>)
    requires
        old(project).cursor_in_grid(),
        old(project).current_row + old(project).auto_advance <= usize::MAX,
    ensures
        old(project).well_formed() ==> final(project).well_formed(),
        *final(project) == (ProjectData {
            patterns: final(project).patterns,
            current_row: final(project).current_row,
            ..*old(project)
        }),
        final(project).grid() == grid_after_entry(
            *old(project),
            old(project).grid(),
            old(project).current_row as int,
            note,
            volume,
        ),
        has_current_pattern(*old(project)) ==> {
            &&& final(project).current_row == row_after_entry(
                old(project).current_row as int,
                old(project).auto_advance as int,
            )
            &&& cmd == Some(entry_command(*old(project), note, velocity))
        },
        !has_current_pattern(*old(project)) ==> {
            &&& final(project).current_row == old(project).current_row
            &&& cmd is None
        },
{
    let p: usize = project.current_pattern;
    let r: usize = project.current_row;
    let c: usize = project.current_channel;
    if p < project.patterns.len() {
        let instrument: u8 = if c < project.tracks.len() {
            resolve_instrument(None, Some(project.tracks[c].index), project.current_instrument)
        } else {
            project.current_instrument
        };
        let cell: ChannelData = project.patterns[p].rows[r].channels[c];
        project.patterns[p].rows[r].channels[c] = ChannelData {
            note: Some(note),
            instrument: Some(instrument),
            volume: Some(volume),
            ..cell
        };
        project.current_row = (r + project.auto_advance) % ROWS_PER_PATTERN;
        proof {
            let new_grid = project.grid();
            let want = grid_after_entry(*old(project), old(project).grid(), r as int, note, volume);
            assert(new_grid.len() == want.len());
            assert forall|i: int| 0 <= i < new_grid.len() implies new_grid[i] =~~= want[i] by {
                if i == p {
                    assert forall|j: int| 0 <= j < new_grid[i].len() implies new_grid[i][j]
                        =~= want[i][j] by {}
                }
            }
            assert(new_grid =~~= want);
        }
        Some(AudioCommand::PlayNote { note, instrument, velocity, channel: c })
    } else {
        None
    }
}

/// Removes the note at the cursor: note, instrument and volume of the cell
/// are cleared. A project without a current pattern is left as it is.
pub fn delete_note(project: &mut ProjectData)
    requires
        old(project).cursor_in_grid(),
    ensures
        old(project).well_formed() ==> final(project).well_formed(),
        *final(project) == (ProjectData { patterns: final(project).patterns, ..*old(project) }),
        final(project).grid() == grid_after_delete(
            *old(project),
            old(project).grid(),
            old(project).current_row as int,
        ),
{
    let p: usize = project.current_pattern;
    let r: usize = project.current_row;
    let c: usize = project.current_channel;
    if p < project.patterns.len() {
        let cell: ChannelData = project.patterns[p].rows[r].channels[c];
        project.patterns[p].rows[r].channels[c] = ChannelData {
            note: None,
            instrument: None,
            volume: None,
            ..cell
        };
        proof {
            let new_grid = project.grid();
            let want = grid_after_delete(*old(project), old(project).grid(), r as int);
            assert(new_grid.len() == want.len());
            assert forall|i: int| 0 <= i < new_grid.len() implies new_grid[i] =~~= want[i] by {
                if i == p {
                    assert forall|j: int| 0 <= j < new_grid[i].len() implies new_grid[i][j]
                        =~= want[i][j] by {}
                }
            }
            assert(new_grid =~~= want);
        }
    }
}

/// The grid after the note at the cursor, in row `row`, was deleted.
pub open spec fn grid_after_delete(
    project: ProjectData,
    grid: Seq<Seq<Seq<ChannelData>>>,
    row: int,
) -> Seq<Seq<Seq<ChannelData>>> {
    if has_current_pattern(project) {
        let p = project.current_pattern as int;
        let c = project.current_channel as int;
        grid_with(grid, p, row, c, cleared_cell(grid[p][row][c]))
    } else {
        grid
    }
}

/// Whether a device event starts a note: a note-on with a velocity above
/// zero.
pub open spec fn is_note_on(event: MidiInputEvent) -> bool {
    event.status == NOTE_ON && event.velocity > 0
}

/// Whether `event` is entered into the grid of `project`.
pub open spec fn is_entered(project: ProjectData, event: MidiInputEvent) -> bool {
    is_note_on(event) && has_current_pattern(project)
}

/// The cursor row after the device events `events` were entered in turn.
pub open spec fn midi_row(project: ProjectData, events: Seq<MidiInputEvent>) -> int
    decreases events.len(),
{
    if events.len() == 0 {
        project.current_row as int
    } else {
        let before = midi_row(project, events.drop_last());
        if is_entered(project, events.last()) {
            row_after_entry(before, project.auto_advance as int)
        } else {
            before
        }
    }
}

/// The grid after the device events `events` were entered in turn: each
/// note-on writes its note at the cursor, with half its velocity as the
/// cell's volume.
pub open spec fn midi_grid(
    project: ProjectData,
    events: Seq<MidiInputEvent>,
) -> Seq<Seq<Seq<ChannelData>>>
    decreases events.len(),
{
    if events.len() == 0 {
        project.grid()
    } else {
        let before = midi_grid(project, events.drop_last());
        let event = events.last();
        if is_entered(project, event) {
            grid_after_entry(
                project,
                before,
                midi_row(project, events.drop_last()),
                event.note,
                event.velocity / 2,
            )
        } else {
            before
        }
    }
}

/// The note a device event sounds as: its note at the cursor channel, with
/// the event's velocity as the level, resolved against the channel's track
/// exactly as the sequencer resolves a cell. A muted track gives nothing.
pub open spec fn device_command(project: ProjectData, event: MidiInputEvent) -> Option<AudioCommand> {
    cell_command(
        device_cell(event),
        track_of(project.tracks@, project.current_channel as int),
        project.current_instrument,
        project.current_channel,
    )
}

/// A device event seen as a cell: its note, at its velocity.
pub open spec fn device_cell(event: MidiInputEvent) -> ChannelData {
    ChannelData {
        note: Some(event.note),
        instrument: None,
        volume: Some(event.velocity),
        effect: None,
        effect_value: None,
    }
}

/// The notes sent while the device events `events` were entered: one for
/// each note-on that was entered, unless the cursor channel's track is
/// muted.
pub open spec fn midi_commands(project: ProjectData, events: Seq<MidiInputEvent>) -> Seq<AudioCommand>
    decreases events.len(),
{
    if events.len() == 0 {
        Seq::empty()
    } else {
        let before = midi_commands(project, events.drop_last());
        let event = events.last();
        if is_entered(project, event) {
            match device_command(project, event) {
                Some(cmd) => before.push(cmd),
                None => before,
            }
        } else {
            before
        }
    }
}

/// No device note sounds on a muted track: whatever the events, none of
/// the notes sent names a channel whose track is muted.
pub proof fn lemma_muted_track_mutes_device_notes(
    project: ProjectData,
    events: Seq<MidiInputEvent>,
)
    ensures
        forall|i: int|
            0 <= i < midi_commands(project, events).len() ==> !plays_muted(
                project.tracks@,
                #[trigger] midi_commands(project, events)[i],
            ),
    decreases events.len(),
{
    if events.len() > 0 {
        let head = events.drop_last();
        lemma_muted_track_mutes_device_notes(project, head);
        let before = midi_commands(project, head);
        let all = midi_commands(project, events);
        assert forall|i: int| 0 <= i < all.len() implies !plays_muted(
            project.tracks@,
            #[trigger] all[i],
        ) by {
            if i < before.len() {
                assert(all[i] == before[i]);
            }
        }
    }
}

/// Enters the notes of a batch of device events at the cursor and returns
/// the notes to send, in order.
///
/// Outside edit mode the events are ignored. In edit mode every note-on with
/// a velocity above zero is written at the cursor like a typed note, and
/// sounds through the cursor channel's track: with the track's instrument,
/// at the event's velocity scaled by the track's gain, and not at all where
/// the track is muted. Note-offs and note-ons with velocity zero are passed
/// over.
pub fn handle_midi_input(
    events: &Vec<MidiInputEvent>,
    project: &mut ProjectData,
    edit_mode: EditMode,
) -> (commands: Vec<AudioCommand>)
    requires
        old(project).well_formed(),
        old(project).auto_advance + ROWS_PER_PATTERN <= usize::MAX,
    ensures
        final(project).well_formed(),
        *final(project) == (ProjectData {
            patterns: final(project).patterns,
            current_row: final(project).current_row,
            ..*old(project)
        }),
        edit_mode != EditMode::Edit ==> {
            &&& final(project).grid() == old(project).grid()
            &&& final(project).current_row == old(project).current_row
            &&& commands@.len() == 0
        },
        edit_mode == EditMode::Edit ==> {
            &&& final(project).grid() == midi_grid(*old(project), events@)
            &&& final(project).current_row == midi_row(*old(project), events@)
            &&& commands@ == midi_commands(*old(project), events@)
        },
{
    let mut commands: Vec<AudioCommand> = Vec::new();
    if edit_mode != EditMode::Edit {
        return commands;
    }
    let mut i: usize = 0;
    while i < events.len()
        invariant
            i <= events.len(),
            old(project).well_formed(),
            old(project).auto_advance + ROWS_PER_PATTERN <= usize::MAX,
            project.well_formed(),
            *project == (ProjectData {
                patterns: project.patterns,
                current_row: project.current_row,
                ..*old(project)
            }),
            project.patterns@.len() == old(project).patterns@.len(),
            project.grid() == midi_grid(*old(project), events@.take(i as int)),
            project.current_row == midi_row(*old(project), events@.take(i as int)),
            commands@ == midi_commands(*old(project), events@.take(i as int)),
        decreases events.len() - i,
    {
        let event: MidiInputEvent = events[i];
        proof {
            let next = events@.take(i + 1);
            assert(next.drop_last() =~= events@.take(i as int));
            assert(next.last() == event);
            assert(has_current_pattern(*project) == has_current_pattern(*old(project)));
            assert(entry_instrument(*project) == entry_instrument(*old(project)));
        }
        if event.status == NOTE_ON && event.velocity > 0 {
            let ghost before = *project;
            let heard = ChannelData {
                note: Some(event.note),
                instrument: None,
                volume: Some(event.velocity),
                effect: None,
                effect_value: None,
            };
            let sound = note_command(
                &heard,
                &project.tracks,
                project.current_instrument,
                project.current_channel,
            );
            let written = enter_note(project, event.note, event.velocity / 2, event.velocity);
            proof {
                assert(project.grid().len() == before.grid().len());
                assert(heard == device_cell(event));
                assert(sound == device_command(*old(project), event));
            }
            if written.is_some() {
                if let Some(c) = sound {
                    commands.push(c);
                }
            }
        }
        i += 1;
    }
    proof {
        assert(events@.take(events.len() as int) =~= events@);
    }
    commands
}

/// The keys the editor reacts to. Every other key is `Other`.
#[derive(Clone, Copy, Debug, PartialEq, Eq, Structural)]
pub enum Key {
    ArrowUp,
    ArrowDown,
    ArrowLeft,
    ArrowRight,
    Space,
    Enter,
    Backspace,
    Delete,
    KeyZ,
    KeyS,
    KeyX,
    KeyD,
    KeyC,
    KeyV,
    KeyG,
    KeyB,
    KeyH,
    KeyN,
    KeyJ,
    KeyM,
    Comma,
    Other,
}

/// Highest octave in which every note key still gives a note number that
/// fits a byte.
pub const MAX_OCTAVE: u8 = 20;

/// The semitone a key of the piano row stands for, counted from the C of the
/// current octave: the lower letter row holds the white keys, the row above
/// it the black ones, and the comma is the C an octave up.
pub open spec fn key_note(key: Option<Key>) -> Option<u8> {
    match key {
        Some(Key::KeyZ) => Some(0u8),
        Some(Key::KeyS) => Some(1u8),
        Some(Key::KeyX) => Some(2u8),
        Some(Key::KeyD) => Some(3u8),
        Some(Key::KeyC) => Some(4u8),
        Some(Key::KeyV) => Some(5u8),
        Some(Key::KeyG) => Some(6u8),
        Some(Key::KeyB) => Some(7u8),
        Some(Key::KeyH) => Some(8u8),
        Some(Key::KeyN) => Some(9u8),
        Some(Key::KeyJ) => Some(10u8),
        Some(Key::KeyM) => Some(11u8),
        Some(Key::Comma) => Some(12u8),
        _ => None,
    }
}

/// Maps a key of the piano row to its semitone.
pub fn key_to_note(key: Option<Key>) -> (offset: Option<u8>)
    ensures
        offset == key_note(key),
        offset is Some ==> offset->0 <= 12,
{
    match key {
        Some(Key::KeyZ) => Some(0),
        Some(Key::KeyS) => Some(1),
        Some(Key::KeyX) => Some(2),
        Some(Key::KeyD) => Some(3),
        Some(Key::KeyC) => Some(4),
        Some(Key::KeyV) => Some(5),
        Some(Key::KeyG) => Some(6),
        Some(Key::KeyB) => Some(7),
        Some(Key::KeyH) => Some(8),
        Some(Key::KeyN) => Some(9),
        Some(Key::KeyJ) => Some(10),
        Some(Key::KeyM) => Some(11),
        Some(Key::Comma) => Some(12),
        _ => None,
    }
}

/// The two-letter name of pitch class `class` (0 is C, 11 is B).
pub open spec fn pitch_name(class: int) -> Seq<char> {
    if class == 0 {
        "C-"@
    } else if class == 1 {
        "C#"@
    } else if class == 2 {
        "D-"@
    } else if class == 3 {
        "D#"@
    } else if class == 4 {
        "E-"@
    } else if class == 5 {
        "F-"@
    } else if class == 6 {
        "F#"@
    } else if class == 7 {
        "G-"@
    } else if class == 8 {
        "G#"@
    } else if class == 9 {
        "A-"@
    } else if class == 10 {
        "A#"@
    } else {
        "B-"@
    }
}

/// The name of a note without its octave, as the grid shows it.
pub fn note_name(midi_note: u8) -> (name: String)
    ensures
        name@ == pitch_name(midi_note as int % 12),
{
    let class: u8 = midi_note % 12;
    let text: &str = if class == 0 {
        "C-"
    } else if class == 1 {
        "C#"
    } else if class == 2 {
        "D-"
    } else if class == 3 {
        "D#"
    } else if class == 4 {
        "E-"
    } else if class == 5 {
        "F-"
    } else if class == 6 {
        "F#"
    } else if class == 7 {
        "G-"
    } else if class == 8 {
        "G#"
    } else if class == 9 {
        "A-"
    } else if class == 10 {
        "A#"
    } else {
        "B-"
    };
    text.to_string()
}

/// Whether `key` is among the keys pressed.
pub fn is_pressed(pressed: &Vec<Key>, key: Key) -> (found: bool)
    ensures
        found == pressed@.contains(key),
{
    let mut i: usize = 0;
    while i < pressed.len()
        invariant
            i <= pressed.len(),
            forall|k: int| 0 <= k < i ==> pressed@[k] != key,
        decreases pressed.len() - i,
    {
        if pressed[i] == key {
            return true;
        }
        i += 1;
    }
    false
}

/// The first of the keys pressed, if any.
pub open spec fn first_key(pressed: Seq<Key>) -> Option<Key> {
    if pressed.len() > 0 {
        Some(pressed[0])
    } else {
        None
    }
}

/// The cursor row after the arrow keys: up moves one row up and from the
/// first row to the last, down moves one row down and from the last row to
/// the first; up is handled before down.
pub open spec fn row_after_arrows(row: int, pressed: Seq<Key>) -> int {
    let up = if pressed.contains(Key::ArrowUp) {
        if row > 0 {
            row - 1
        } else {
            ROWS_PER_PATTERN - 1
        }
    } else {
        row
    };
    if pressed.contains(Key::ArrowDown) {
        (up + 1) % (ROWS_PER_PATTERN as int)
    } else {
        up
    }
}

/// The cursor channel after the arrow keys: left and right move by one and
/// stop at the first and the last channel; left is handled before right.
pub open spec fn channel_after_arrows(channel: int, pressed: Seq<Key>) -> int {
    let left = if pressed.contains(Key::ArrowLeft) && channel > 0 {
        channel - 1
    } else {
        channel
    };
    if pressed.contains(Key::ArrowRight) && left < NUM_CHANNELS - 1 {
        left + 1
    } else {
        left
    }
}

/// The edit mode after the keys: enter switches it over.
pub open spec fn mode_after(mode: EditMode, pressed: Seq<Key>) -> EditMode {
    if pressed.contains(Key::Enter) {
        match mode {
            EditMode::View => EditMode::Edit,
            EditMode::Edit => EditMode::View,
        }
    } else {
        mode
    }
}

/// The project after cursor movement and transport toggle: the arrows move
/// the cursor and space flips between playing and stopped.
pub open spec fn navigated(project: ProjectData, pressed: Seq<Key>) -> ProjectData {
    ProjectData {
        current_row: row_after_arrows(project.current_row as int, pressed) as usize,
        current_channel: channel_after_arrows(project.current_channel as int, pressed) as usize,
        playing: if pressed.contains(Key::Space) {
            !project.playing
        } else {
            project.playing
        },
        ..project
    }
}

/// The note the keys type, if any: in edit mode, the semitone of the first
/// key pressed above the C of the current octave.
pub open spec fn typed_note(project: ProjectData, mode: EditMode, pressed: Seq<Key>) -> Option<u8> {
    if mode_after(mode, pressed) == EditMode::Edit {
        match key_note(first_key(pressed)) {
            Some(offset) => Some((project.current_octave * 12 + offset) as u8),
            None => None,
        }
    } else {
        None
    }
}

/// Whether the keys delete the note at the cursor: in edit mode, backspace
/// or delete.
pub open spec fn deletes(mode: EditMode, pressed: Seq<Key>) -> bool {
    mode_after(mode, pressed) == EditMode::Edit && (pressed.contains(Key::Backspace)
        || pressed.contains(Key::Delete))
}

/// The preview note the keys send, if any.
pub open spec fn keyboard_command(
    project: ProjectData,
    mode: EditMode,
    pressed: Seq<Key>,
) -> Option<AudioCommand> {
    let moved = navigated(project, pressed);
    match typed_note(project, mode, pressed) {
        Some(note) => if has_current_pattern(moved) {
            Some(entry_command(moved, note, KEYBOARD_VELOCITY))
        } else {
            None
        },
        None => None,
    }
}

/// The cursor row after the keys: after the arrows, and after the
/// auto-advance where a note was typed.
pub open spec fn keyboard_row(project: ProjectData, mode: EditMode, pressed: Seq<Key>) -> int {
    let moved = navigated(project, pressed);
    if typed_note(project, mode, pressed) is Some && has_current_pattern(moved) {
        row_after_entry(moved.current_row as int, moved.auto_advance as int)
    } else {
        moved.current_row as int
    }
}

/// The grid after the keys: a typed note is entered where the arrows left
/// the cursor, and a deletion then clears the cell where the cursor stands
/// after that.
pub open spec fn keyboard_grid(
    project: ProjectData,
    mode: EditMode,
    pressed: Seq<Key>,
) -> Seq<Seq<Seq<ChannelData>>> {
    let moved = navigated(project, pressed);
    let typed = match typed_note(project, mode, pressed) {
        Some(note) => grid_after_entry(
            moved,
            project.grid(),
            moved.current_row as int,
            note,
            KEYBOARD_CELL_VOLUME,
        ),
        None => project.grid(),
    };
    if deletes(mode, pressed) {
        grid_after_delete(moved, typed, keyboard_row(project, mode, pressed))
    } else {
        typed
    }
}

/// Moves the cursor by the arrow keys and flips the transport on space.
pub fn navigate(project: &mut ProjectData, pressed: &Vec<Key>)
    requires
        old(project).current_row < usize::MAX,
    ensures
        old(project).well_formed() ==> final(project).well_formed(),
        *final(project) == navigated(*old(project), pressed@),
{
    if is_pressed(pressed, Key::ArrowUp) {
        if project.current_row > 0 {
            project.current_row -= 1;
        } else {
            project.current_row = ROWS_PER_PATTERN - 1;
        }
    }
    if is_pressed(pressed, Key::ArrowDown) {
        project.current_row = (project.current_row + 1) % ROWS_PER_PATTERN;
    }
    if is_pressed(pressed, Key::ArrowLeft) {
        if project.current_channel > 0 {
            project.current_channel -= 1;
        }
    }
    if is_pressed(pressed, Key::ArrowRight) {
        if project.current_channel < NUM_CHANNELS - 1 {
            project.current_channel += 1;
        }
    }
    if is_pressed(pressed, Key::Space) {
        project.playing = !project.playing;
    }
}

/// Switches the edit mode over where enter is among the keys.
pub fn switch_mode(mode: EditMode, pressed: &Vec<Key>) -> (next: EditMode)
    ensures
        next == mode_after(mode, pressed@),
{
    if is_pressed(pressed, Key::Enter) {
        match mode {
            EditMode::View => EditMode::Edit,
            EditMode::Edit => EditMode::View,
        }
    } else {
        mode
    }
}

/// The note a key types in octave `octave`: its semitone above the C of
/// that octave.
pub fn typed_key_note(octave: u8, key: Option<Key>) -> (note: Option<u8>)
    requires
        octave <= MAX_OCTAVE,
    ensures
        note == match key_note(key) {
            Some(offset) => Some((octave * 12 + offset) as u8),
            None => None,
        },
{
    match key_to_note(key) {
        Some(offset) => Some(octave * 12 + offset),
        None => None,
    }
}

/// Reacts to the keys pressed since the last update, given in the order in
/// which they were reported.
///
/// Arrows move the cursor, space starts and stops the sequencer, enter
/// switches the edit mode. In edit mode the first key, where it is a key of
/// the piano row, enters its note at the cursor and the preview note is
/// returned; backspace or delete then clears the cell under the cursor.
pub fn handle_keyboard(
    project: &mut ProjectData,
    edit_mode: &mut EditMode,
    pressed: &Vec<Key>,
) -> (cmd: Option<AudioCommand>)
    requires
        old(project).well_formed(),
        old(project).current_octave <= MAX_OCTAVE,
        old(project).auto_advance + ROWS_PER_PATTERN <= usize::MAX,
    ensures
        final(project).well_formed(),
        *final(edit_mode) == mode_after(*old(edit_mode), pressed@),
        *final(project) == (ProjectData {
            patterns: final(project).patterns,
            current_row: final(project).current_row,
            ..navigated(*old(project), pressed@)
        }),
        final(project).current_row == keyboard_row(*old(project), *old(edit_mode), pressed@),
        final(project).grid() == keyboard_grid(*old(project), *old(edit_mode), pressed@),
        cmd == keyboard_command(*old(project), *old(edit_mode), pressed@),
{
    navigate(project, pressed);
    *edit_mode = switch_mode(*edit_mode, pressed);
    let ghost moved = *project;
    let mut cmd: Option<AudioCommand> = None;
    if *edit_mode == EditMode::Edit {
        let first: Option<Key> = if pressed.len() > 0 {
            Some(pressed[0])
        } else {
            None
        };
        if let Some(note) = typed_key_note(project.current_octave, first) {
            cmd = enter_note(project, note, KEYBOARD_CELL_VOLUME, KEYBOARD_VELOCITY);
        }
        let ghost typed = *project;
        assert(has_current_pattern(typed) == has_current_pattern(moved)) by {
            assert(typed.grid().len() == moved.grid().len());
        }
        if is_pressed(pressed, Key::Backspace) || is_pressed(pressed, Key::Delete) {
            delete_note(project);
        }
    }
    cmd
}

} // verus!
