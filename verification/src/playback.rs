//! The sequencer clock: tempo and elapsed time in, row advances and note
//! commands out.
//!
//! Time is counted in whole microseconds. One tick lasts 2.5 seconds divided
//! by the tempo, and a row lasts `speed` ticks.

use vstd::prelude::*;
use vstd::arithmetic::div_mod::lemma_fundamental_div_mod_converse;
use crate::command::AudioCommand;
use crate::data::{
    ChannelData, ProjectData, TrackConfig, FULL_VOLUME, NUM_CHANNELS, ROWS_PER_PATTERN,
};

verus! {

/// Length of one tick at a tempo of one beat per minute, in microseconds.
pub const TICK_MICROS: u64 = 2_500_000;

/// Level of a cell that carries no volume of its own.
pub const DEFAULT_CELL_VOLUME: u8 = 64;

/// Highest velocity a command carries.
pub const MAX_VELOCITY: u8 = 127;

/// The velocity of a note: the cell's volume, or 64 where it has none, scaled
/// by the track's gain in thousandths, or by unity where the channel has no
/// track, and capped at 127.
pub open spec fn resolved_velocity(cell_volume: Option<u8>, track_volume: Option<u16>) -> u8 {
    let volume: int = match cell_volume {
        Some(v) => v as int,
        None => DEFAULT_CELL_VOLUME as int,
    };
    let gain: int = match track_volume {
        Some(g) => g as int,
        None => FULL_VOLUME as int,
    };
    let scaled: int = volume * gain / (FULL_VOLUME as int);
    if scaled > MAX_VELOCITY {
        MAX_VELOCITY
    } else {
        scaled as u8
    }
}

/// The instrument of a note: the track's, reduced to a byte, where the
/// channel has a track; else the cell's; else the editor's current one.
pub open spec fn resolved_instrument(
    cell_instrument: Option<u8>,
    track_index: Option<usize>,
    current: u8,
) -> u8 {
    match track_index {
        Some(index) => (index % 256) as u8,
        None => match cell_instrument {
            Some(i) => i,
            None => current,
        },
    }
}

/// The track of channel `channel`, where the project has one.
pub open spec fn track_of(tracks: Seq<TrackConfig>, channel: int) -> Option<TrackConfig> {
    if 0 <= channel < tracks.len() {
        Some(tracks[channel])
    } else {
        None
    }
}

/// What a cell makes the sequencer send: nothing where the cell has no note
/// or its track is muted, else one note with resolved instrument and
/// velocity.
pub open spec fn cell_command(
    cell: ChannelData,
    track: Option<TrackConfig>,
    current_instrument: u8,
    channel: usize,
) -> Option<AudioCommand> {
    match cell.note {
        None => None,
        Some(note) => match track {
            Some(t) => if t.muted {
                None
            } else {
                Some(
                    AudioCommand::PlayNote {
                        note,
                        instrument: resolved_instrument(
                            cell.instrument,
                            Some(t.index),
                            current_instrument,
                        ),
                        velocity: resolved_velocity(cell.volume, Some(t.volume)),
                        channel,
                    },
                )
            },
            None => Some(
                AudioCommand::PlayNote {
                    note,
                    instrument: resolved_instrument(cell.instrument, None, current_instrument),
                    velocity: resolved_velocity(cell.volume, None),
                    channel,
                },
            ),
        },
    }
}

/// The commands of the first `n` cells of a row, in channel order.
pub open spec fn cells_commands(
    cells: Seq<ChannelData>,
    tracks: Seq<TrackConfig>,
    current_instrument: u8,
    n: nat,
) -> Seq<AudioCommand>
    decreases n,
{
    if n == 0 || n > cells.len() {
        Seq::empty()
    } else {
        let before = cells_commands(cells, tracks, current_instrument, (n - 1) as nat);
        match cell_command(
            cells[n - 1],
            track_of(tracks, n - 1),
            current_instrument,
            (n - 1) as usize,
        ) {
            Some(cmd) => before.push(cmd),
            None => before,
        }
    }
}

/// The commands that playing row `row` of the current pattern sends. A row
/// or pattern that the project does not have sends none.
pub open spec fn row_commands(project: ProjectData, row: int) -> Seq<AudioCommand> {
    match project.row_cells(row) {
        Some(cells) => cells_commands(
            cells,
            project.tracks@,
            project.current_instrument,
            cells.len(),
        ),
        None => Seq::empty(),
    }
}

/// Computes the velocity of a note from the cell's volume and the track's
/// gain.
pub fn resolve_velocity(cell_volume: Option<u8>, track_volume: Option<u16>) -> (velocity: u8)
    ensures
        velocity == resolved_velocity(cell_volume, track_volume),
        velocity <= MAX_VELOCITY,
{
    let volume: u32 = match cell_volume {
        Some(v) => v as u32,
        None => DEFAULT_CELL_VOLUME as u32,
    };
    let gain: u32 = match track_volume {
        Some(g) => g as u32,
        None => FULL_VOLUME as u32,
    };
    assert(volume * gain <= 255 * 65535) by (nonlinear_arith)
        requires
            volume <= 255,
            gain <= 65535,
    ;
    let scaled: u32 = volume * gain / (FULL_VOLUME as u32);
    if scaled > MAX_VELOCITY as u32 {
        MAX_VELOCITY
    } else {
        scaled as u8
    }
}

/// Picks the instrument of a note.
pub fn resolve_instrument(
    cell_instrument: Option<u8>,
    track_index: Option<usize>,
    current: u8,
) -> (instrument: u8)
    ensures
        instrument == resolved_instrument(cell_instrument, track_index, current),
{
    match track_index {
        Some(index) => (index % 256) as u8,
        None => match cell_instrument {
            Some(i) => i,
            None => current,
        },
    }
}

/// Decides what the cell of channel `channel` sends.
pub fn note_command(
    cell: &ChannelData,
    tracks: &Vec<TrackConfig>,
    current_instrument: u8,
    channel: usize,
) -> (cmd: Option<AudioCommand>)
    ensures
        cmd == cell_command(*cell, track_of(tracks@, channel as int), current_instrument, channel),
{
    match cell.note {
        None => None,
        Some(note) => {
            if channel < tracks.len() {
                let track: &TrackConfig = &tracks[channel];
                if track.muted {
                    None
                } else {
                    Some(
                        AudioCommand::PlayNote {
                            note,
                            instrument: resolve_instrument(
                                cell.instrument,
                                Some(track.index),
                                current_instrument,
                            ),
                            velocity: resolve_velocity(cell.volume, Some(track.volume)),
                            channel,
                        },
                    )
                }
            } else {
                Some(
                    AudioCommand::PlayNote {
                        note,
                        instrument: resolve_instrument(cell.instrument, None, current_instrument),
                        velocity: resolve_velocity(cell.volume, None),
                        channel,
                    },
                )
            }
        },
    }
}

/// Appends to `out` the commands of row `row` of the current pattern.
pub fn play_row(project: &ProjectData, row: usize, out: &mut Vec<AudioCommand>)
    ensures
        final(out)@ == old(out)@ + row_commands(*project, row as int),
{
    if project.current_pattern < project.patterns.len() {
        let pattern = &project.patterns[project.current_pattern];
        if row < pattern.rows.len() {
            let cells = &pattern.rows[row].channels;
            let ghost view = pattern.rows@[row as int]@;
            assert(project.row_cells(row as int) == Some(view));
            let mut channel: usize = 0;
            while channel < NUM_CHANNELS
                invariant
                    channel <= NUM_CHANNELS,
                    cells@ == view,
                    view.len() == NUM_CHANNELS,
                    out@ == old(out)@ + cells_commands(
                        view,
                        project.tracks@,
                        project.current_instrument,
                        channel as nat,
                    ),
                decreases NUM_CHANNELS - channel,
            {
                let cmd = note_command(
                    &cells[channel],
                    &project.tracks,
                    project.current_instrument,
                    channel,
                );
                proof {
                    let before = cells_commands(
                        view,
                        project.tracks@,
                        project.current_instrument,
                        channel as nat,
                    );
                    let after = cells_commands(
                        view,
                        project.tracks@,
                        project.current_instrument,
                        (channel + 1) as nat,
                    );
                    if cmd is Some {
                        assert(after == before.push(cmd->0));
                        assert(old(out)@ + before.push(cmd->0) =~= (old(out)@ + before).push(
                            cmd->0,
                        ));
                    } else {
                        assert(after == before);
                    }
                }
                if let Some(c) = cmd {
                    out.push(c);
                }
                channel += 1;
            }
            return ;
        }
    }
    assert(old(out)@ + Seq::<AudioCommand>::empty() =~= old(out)@);
}

/// The row that follows `row`: the next one, or the first after the last.
pub open spec fn next_row(row: int) -> int {
    if row + 1 >= ROWS_PER_PATTERN {
        0
    } else {
        row + 1
    }
}

/// The play position after `n` row advances from `row`.
pub open spec fn row_after(row: int, n: nat) -> int
    decreases n,
{
    if n == 0 {
        row
    } else {
        next_row(row_after(row, (n - 1) as nat))
    }
}

/// Everything sent while playing `n` rows in turn, starting at `row`.
pub open spec fn rows_commands(project: ProjectData, row: int, n: nat) -> Seq<AudioCommand>
    decreases n,
{
    if n == 0 {
        Seq::empty()
    } else {
        rows_commands(project, row, (n - 1) as nat) + row_commands(
            project,
            row_after(row, (n - 1) as nat),
        )
    }
}

/// Length of a row in microseconds at `speed` ticks per row and tempo `bpm`,
/// rounded down. Meaningful for a tempo above zero.
pub open spec fn row_duration(speed: u32, bpm: u32) -> int {
    speed * TICK_MICROS / (bpm as int)
}

/// Whether the clock moves rows at all: it is running, and the tempo is not
/// zero (at tempo zero a row never ends).
pub open spec fn advancing(project: ProjectData) -> bool {
    project.playing && project.bpm > 0
}

/// How many rows a tick of `dt` microseconds plays, with `timer`
/// microseconds carried over from earlier ticks.
pub open spec fn rows_due(project: ProjectData, timer: u64, dt: u64) -> nat {
    if advancing(project) {
        ((timer + dt) / row_duration(project.speed, project.bpm)) as nat
    } else {
        0
    }
}

/// The time carried over after a tick: nothing while stopped, the remainder
/// of the running row while playing.
pub open spec fn timer_after(project: ProjectData, timer: u64, dt: u64) -> int {
    if !project.playing {
        0
    } else if project.bpm == 0 {
        timer + dt
    } else {
        (timer + dt) % row_duration(project.speed, project.bpm)
    }
}

/// The tempo command that opens a tick's output where the tempo differs from
/// the one last announced.
pub open spec fn tempo_commands(last_bpm: u32, bpm: u32) -> Seq<AudioCommand> {
    if last_bpm != bpm {
        seq![AudioCommand::SetBpm(bpm)]
    } else {
        Seq::empty()
    }
}

/// Computes the length of a row in microseconds, or nothing at tempo zero.
pub fn row_duration_micros(speed: u32, bpm: u32) -> (duration: Option<u64>)
    ensures
        bpm == 0 <==> duration is None,
        bpm > 0 ==> duration == Some(row_duration(speed, bpm) as u64),
        bpm > 0 ==> 0 <= row_duration(speed, bpm) <= u64::MAX,
{
    if bpm == 0 {
        None
    } else {
        assert(speed * TICK_MICROS <= 0xffff_ffff * 2_500_000) by (nonlinear_arith)
            requires
                speed <= 0xffff_ffff,
                TICK_MICROS == 2_500_000,
        ;
        let ticks: u64 = speed as u64 * TICK_MICROS;
        Some(ticks / (bpm as u64))
    }
}

/// The sequencer clock: the time of the running row that has passed, in
/// microseconds, and the tempo last announced to the render engine.
#[derive(Clone, Copy, Debug, PartialEq, Eq, Structural)]
pub struct SequencerClock {
    pub row_timer: u64,
    pub last_bpm: u32,
}

impl SequencerClock {
    /// A clock at rest that has announced no tempo yet.
    pub fn new() -> (clock: SequencerClock)
        ensures
            clock.row_timer == 0,
            clock.last_bpm == 0,
    {
        SequencerClock { row_timer: 0, last_bpm: 0 }
    }

    /// Whether [`SequencerClock::tick`] accepts this project and time step: a
    /// running project with a tempo must have a row length of at least one
    /// microsecond, and the carried time plus the step must fit the counter.
    pub open spec fn accepts(&self, project: ProjectData, dt: u64) -> bool {
        &&& advancing(project) ==> row_duration(project.speed, project.bpm) >= 1
        &&& project.playing ==> self.row_timer + dt <= u64::MAX
    }

    /// Decides [`SequencerClock::accepts`].
    pub fn can_tick(&self, project: &ProjectData, dt: u64) -> (ok: bool)
        ensures
            ok == self.accepts(*project, dt),
    {
        if !project.playing {
            return true;
        }
        if dt > u64::MAX - self.row_timer {
            return false;
        }
        match row_duration_micros(project.speed, project.bpm) {
            None => true,
            Some(duration) => duration >= 1,
        }
    }

    /// Advances the clock by `dt` microseconds and returns what to send to
    /// the render engine, in order.
    ///
    /// A changed tempo is announced first. While stopped, the carried time
    /// is cleared and nothing moves. While running, every row whose time has
    /// come is played, one after the other and none skipped, and the play
    /// position moves on with wrap-around; nothing else of the project
    /// changes.
    pub fn tick(&mut self, project: &mut ProjectData, dt: u64) -> (commands: Vec<AudioCommand>)
        requires
            old(self).accepts(*old(project), dt),
        ensures
            final(self).last_bpm == old(project).bpm,
            final(self).row_timer == timer_after(*old(project), old(self).row_timer, dt),
            *final(project) == (ProjectData {
                current_row: final(project).current_row,
                ..*old(project)
            }),
            final(project).current_row == row_after(
                old(project).current_row as int,
                rows_due(*old(project), old(self).row_timer, dt),
            ),
            commands@ == tempo_commands(old(self).last_bpm, old(project).bpm) + rows_commands(
                *old(project),
                old(project).current_row as int,
                rows_due(*old(project), old(self).row_timer, dt),
            ),
            forall|i: int|
                0 <= i < commands@.len() ==> !plays_muted(
                    old(project).tracks@,
                    #[trigger] commands@[i],
                ),
            old(project).well_formed() ==> final(project).well_formed(),
    {
        proof {
            lemma_tick_skips_muted_tracks(*old(self), *old(project), dt);
            if old(project).well_formed() {
                lemma_row_after_wraps(
                    old(project).current_row as int,
                    rows_due(*old(project), old(self).row_timer, dt),
                );
            }
        }
        let mut commands: Vec<AudioCommand> = Vec::new();
        if self.last_bpm != project.bpm {
            commands.push(AudioCommand::SetBpm(project.bpm));
            self.last_bpm = project.bpm;
        }
        let ghost prefix = commands@;
        assert(prefix =~= tempo_commands(old(self).last_bpm, old(project).bpm));
        assert(prefix + Seq::<AudioCommand>::empty() =~= prefix);
        if !project.playing {
            self.row_timer = 0;
            return commands;
        }
        let total: u64 = self.row_timer + dt;
        let duration: u64 = match row_duration_micros(project.speed, project.bpm) {
            None => {
                self.row_timer = total;
                return commands;
            },
            Some(d) => d,
        };
        let mut timer: u64 = total;
        let ghost mut played: nat = 0;
        while timer >= duration
            invariant
                duration >= 1,
                total == played * duration + timer,
                *project == (ProjectData { current_row: project.current_row, ..*old(project) }),
                project.current_row == row_after(old(project).current_row as int, played),
                commands@ == prefix + rows_commands(
                    *old(project),
                    old(project).current_row as int,
                    played,
                ),
            decreases timer,
        {
            timer -= duration;
            let ghost before = commands@;
            play_row(project, project.current_row, &mut commands);
            proof {
                let row = project.current_row as int;
                assert(project.row_cells(row) == old(project).row_cells(row));
                assert(row_commands(*project, row) == row_commands(*old(project), row));
                let start = old(project).current_row as int;
                let sent = rows_commands(*old(project), start, played);
                let more = row_commands(*old(project), row);
                assert(rows_commands(*old(project), start, played + 1) == sent + more);
                assert((prefix + sent) + more =~= prefix + (sent + more));
                assert((played + 1) * duration == played * duration + duration)
                    by (nonlinear_arith);
                played = played + 1;
            }
            if project.current_row >= ROWS_PER_PATTERN - 1 {
                project.current_row = 0;
            } else {
                project.current_row += 1;
            }
        }
        proof {
            lemma_fundamental_div_mod_converse(
                total as int,
                duration as int,
                played as int,
                timer as int,
            );
        }
        self.row_timer = timer;
        commands
    }
}

/// Whether `cmd` starts a note on a channel whose track is muted.
pub open spec fn plays_muted(tracks: Seq<TrackConfig>, cmd: AudioCommand) -> bool {
    match cmd {
        AudioCommand::PlayNote { channel, .. } => channel < tracks.len()
            && tracks[channel as int].muted,
        _ => false,
    }
}

/// Advancing `n` rows from a position inside the pattern lands on the
/// position `n` further on, counted round the pattern: after the last row
/// comes the first.
pub proof fn lemma_row_after_wraps(row: int, n: nat)
    requires
        0 <= row < ROWS_PER_PATTERN,
    ensures
        row_after(row, n) == (row + n) % (ROWS_PER_PATTERN as int),
    decreases n,
{
    if n > 0 {
        lemma_row_after_wraps(row, (n - 1) as nat);
    }
}

/// Advancing `n` rows and then `m` more is advancing `n + m` rows.
pub proof fn lemma_row_after_adds(row: int, n: nat, m: nat)
    ensures
        row_after(row_after(row, n), m) == row_after(row, n + m),
    decreases m,
{
    if m > 0 {
        lemma_row_after_adds(row, n, (m - 1) as nat);
    }
}

/// What a row sends does not depend on the play position or the cursor, on
/// the transport state, the tempo or the speed: only on the patterns, the
/// pattern chosen, the tracks and the current instrument.
pub proof fn lemma_row_commands_depend_on_grid(a: ProjectData, b: ProjectData, row: int)
    requires
        a.patterns == b.patterns,
        a.current_pattern == b.current_pattern,
        a.tracks == b.tracks,
        a.current_instrument == b.current_instrument,
    ensures
        row_commands(a, row) == row_commands(b, row),
{
}

/// Playing `n + m` rows in one go sends what playing `n` rows and then `m`
/// rows from where that ended sends: rows are neither skipped nor merged.
pub proof fn lemma_rows_commands_split(project: ProjectData, row: int, n: nat, m: nat)
    ensures
        rows_commands(project, row, n + m) == rows_commands(project, row, n) + rows_commands(
            project,
            row_after(row, n),
            m,
        ),
    decreases m,
{
    let first = rows_commands(project, row, n);
    if m == 0 {
        assert(first + Seq::<AudioCommand>::empty() =~= first);
    } else {
        let k = (m - 1) as nat;
        lemma_rows_commands_split(project, row, n, k);
        lemma_row_after_adds(row, n, k);
        let second = rows_commands(project, row_after(row, n), k);
        let last = row_commands(project, row_after(row, n + k));
        assert(rows_commands(project, row, n + m) == rows_commands(project, row, n + k) + last);
        assert((first + second) + last =~= first + (second + last));
    }
}

/// No cell sends a note for a muted track, whatever its volume and whatever
/// the track's gain.
pub proof fn lemma_muted_cells_are_silent(
    cells: Seq<ChannelData>,
    tracks: Seq<TrackConfig>,
    current_instrument: u8,
    n: nat,
)
    requires
        cells.len() <= usize::MAX,
    ensures
        forall|i: int|
            0 <= i < cells_commands(cells, tracks, current_instrument, n).len() ==> !plays_muted(
                tracks,
                #[trigger] cells_commands(cells, tracks, current_instrument, n)[i],
            ),
    decreases n,
{
    if n > 0 && n <= cells.len() {
        let before = cells_commands(cells, tracks, current_instrument, (n - 1) as nat);
        lemma_muted_cells_are_silent(cells, tracks, current_instrument, (n - 1) as nat);
        let cmd = cell_command(
            cells[n - 1],
            track_of(tracks, n - 1),
            current_instrument,
            (n - 1) as usize,
        );
        if cmd is Some {
            assert(!plays_muted(tracks, cmd->0));
            let all = cells_commands(cells, tracks, current_instrument, n);
            assert(all == before.push(cmd->0));
            assert forall|i: int| 0 <= i < all.len() implies !plays_muted(tracks, #[trigger] all[i]) by {
                if i < before.len() {
                    assert(all[i] == before[i]);
                }
            }
        }
    }
}

/// However many rows are played, and from wherever, nothing is sent for a
/// muted track.
pub proof fn lemma_muted_rows_are_silent(project: ProjectData, row: int, n: nat)
    ensures
        forall|i: int|
            0 <= i < rows_commands(project, row, n).len() ==> !plays_muted(
                project.tracks@,
                #[trigger] rows_commands(project, row, n)[i],
            ),
    decreases n,
{
    if n > 0 {
        let k = (n - 1) as nat;
        lemma_muted_rows_are_silent(project, row, k);
        let at = row_after(row, k);
        let before = rows_commands(project, row, k);
        let last = row_commands(project, at);
        match project.row_cells(at) {
            Some(cells) => {
                assert(cells.len() == NUM_CHANNELS);
                lemma_muted_cells_are_silent(
                    cells,
                    project.tracks@,
                    project.current_instrument,
                    cells.len(),
                );
            },
            None => {},
        }
        let all = rows_commands(project, row, n);
        assert(all == before + last);
        assert forall|i: int| 0 <= i < all.len() implies !plays_muted(
            project.tracks@,
            #[trigger] all[i],
        ) by {
            if i < before.len() {
                assert(all[i] == before[i]);
            } else {
                assert(all[i] == last[i - before.len()]);
            }
        }
    }
}

/// A tick sends no note for a muted track, at any tempo, speed and time
/// step.
pub proof fn lemma_tick_skips_muted_tracks(clock: SequencerClock, project: ProjectData, dt: u64)
    ensures
        ({
            let sent = tempo_commands(clock.last_bpm, project.bpm) + rows_commands(
                project,
                project.current_row as int,
                rows_due(project, clock.row_timer, dt),
            );
            forall|i: int| 0 <= i < sent.len() ==> !plays_muted(project.tracks@, #[trigger] sent[i])
        }),
{
    lemma_muted_rows_are_silent(
        project,
        project.current_row as int,
        rows_due(project, clock.row_timer, dt),
    );
}

/// A time step that completes the running row exactly plays one row and
/// carries nothing over.
pub proof fn lemma_exact_row_leaves_nothing(project: ProjectData, timer: u64, dt: u64)
    requires
        advancing(project),
        timer + dt == row_duration(project.speed, project.bpm),
        timer + dt >= 1,
    ensures
        rows_due(project, timer, dt) == 1,
        timer_after(project, timer, dt) == 0,
{
    let d = row_duration(project.speed, project.bpm);
    lemma_fundamental_div_mod_converse(timer + dt, d, 1, 0);
}

/// A time step that ends before the running row does plays nothing and
/// carries all the time over.
pub proof fn lemma_short_step_is_carried(project: ProjectData, timer: u64, dt: u64)
    requires
        advancing(project),
        timer + dt < row_duration(project.speed, project.bpm),
    ensures
        rows_due(project, timer, dt) == 0,
        timer_after(project, timer, dt) == timer + dt,
{
    let d = row_duration(project.speed, project.bpm);
    lemma_fundamental_div_mod_converse(timer + dt, d, 0, timer + dt);
}

/// Two time steps in a row play as many rows, and carry over as much, as one
/// step of their sum: the clock neither loses nor gains time by the way the
/// elapsed time is cut up.
pub proof fn lemma_steps_add_up(project: ProjectData, timer: u64, first: u64, second: u64)
    requires
        advancing(project),
        row_duration(project.speed, project.bpm) >= 1,
        timer + first + second <= u64::MAX,
    ensures
        rows_due(project, timer, first) + rows_due(
            project,
            timer_after(project, timer, first) as u64,
            second,
        ) == rows_due(project, timer, (first + second) as u64),
        timer_after(project, timer_after(project, timer, first) as u64, second) == timer_after(
            project,
            timer,
            (first + second) as u64,
        ),
{
    let d = row_duration(project.speed, project.bpm);
    let a = timer + first;
    let q1 = a / d;
    let r1 = a % d;
    let b = r1 + second;
    let q2 = b / d;
    let r2 = b % d;
    vstd::arithmetic::div_mod::lemma_fundamental_div_mod(a, d);
    vstd::arithmetic::div_mod::lemma_fundamental_div_mod(b, d);
    assert(0 <= r1 < d && 0 <= r2 < d) by (nonlinear_arith)
        requires
            d >= 1,
            r1 == a % d,
            r2 == b % d,
    ;
    assert(q1 >= 0 && q2 >= 0) by (nonlinear_arith)
        requires
            d >= 1,
            a >= 0,
            b >= 0,
            q1 == a / d,
            q2 == b / d,
    ;
    assert(a + second == (q1 + q2) * d + r2) by (nonlinear_arith)
        requires
            a == d * q1 + r1,
            b == d * q2 + r2,
            b == r1 + second,
    ;
    lemma_fundamental_div_mod_converse(a + second, d, q1 + q2, r2);
}

/// The sum of the time steps `steps`.
pub open spec fn total_time(steps: Seq<u64>) -> int
    decreases steps.len(),
{
    if steps.len() == 0 {
        0
    } else {
        total_time(steps.drop_last()) + steps.last()
    }
}

/// The time carried over after the time steps `steps`, taken one by one.
pub open spec fn timer_after_steps(project: ProjectData, timer: u64, steps: Seq<u64>) -> int
    decreases steps.len(),
{
    if steps.len() == 0 {
        timer as int
    } else {
        timer_after(
            project,
            timer_after_steps(project, timer, steps.drop_last()) as u64,
            steps.last(),
        )
    }
}

/// The number of rows played in all over the time steps `steps`, taken one
/// by one.
pub open spec fn rows_due_in_steps(project: ProjectData, timer: u64, steps: Seq<u64>) -> nat
    decreases steps.len(),
{
    if steps.len() == 0 {
        0
    } else {
        rows_due_in_steps(project, timer, steps.drop_last()) + rows_due(
            project,
            timer_after_steps(project, timer, steps.drop_last()) as u64,
            steps.last(),
        )
    }
}

/// However elapsed time is cut into steps, the clock plays as many rows and
/// carries over as much as for one step of the whole time.
pub proof fn lemma_steps_sum(project: ProjectData, timer: u64, steps: Seq<u64>)
    requires
        advancing(project),
        row_duration(project.speed, project.bpm) >= 1,
        steps.len() >= 1,
        timer + total_time(steps) <= u64::MAX,
    ensures
        0 <= total_time(steps) <= u64::MAX,
        rows_due_in_steps(project, timer, steps) == rows_due(
            project,
            timer,
            total_time(steps) as u64,
        ),
        timer_after_steps(project, timer, steps) == timer_after(
            project,
            timer,
            total_time(steps) as u64,
        ),
    decreases steps.len(),
{
    let head = steps.drop_last();
    lemma_total_time_is_not_negative(head);
    if steps.len() == 1 {
        assert(total_time(head) == 0);
        assert(timer_after_steps(project, timer, head) == timer);
        assert(rows_due_in_steps(project, timer, head) == 0);
    } else {
        lemma_steps_sum(project, timer, head);
        lemma_steps_add_up(project, timer, total_time(head) as u64, steps.last());
    }
}

/// A sum of time steps is never negative.
pub proof fn lemma_total_time_is_not_negative(steps: Seq<u64>)
    ensures
        total_time(steps) >= 0,
    decreases steps.len(),
{
    if steps.len() > 0 {
        lemma_total_time_is_not_negative(steps.drop_last());
    }
}

/// Time steps that add up to exactly one row, fed to a clock that carries
/// nothing, play exactly one row and leave nothing over.
pub proof fn lemma_steps_of_one_row(project: ProjectData, steps: Seq<u64>)
    requires
        advancing(project),
        row_duration(project.speed, project.bpm) >= 1,
        total_time(steps) == row_duration(project.speed, project.bpm),
        total_time(steps) <= u64::MAX,
    ensures
        rows_due_in_steps(project, 0, steps) == 1,
        timer_after_steps(project, 0, steps) == 0,
{
    lemma_steps_sum(project, 0, steps);
    lemma_exact_row_leaves_nothing(project, 0, total_time(steps) as u64);
}

} // verus!
