//! The project a tracker session works on: patterns of rows of cells, the
//! per-channel track settings, and the transport and cursor state.

use vstd::prelude::*;

verus! {

/// Number of channels in every row.
pub const NUM_CHANNELS: usize = 16;

/// Number of rows in a pattern.
pub const ROWS_PER_PATTERN: usize = 64;

/// Track volume that leaves a note's level unchanged, in thousandths.
pub const FULL_VOLUME: u16 = 1000;

/// The effect column of a cell.
#[derive(Clone, Copy, Debug, PartialEq, Eq, Structural)]
pub enum EffectType {
    Off,
    PitchSlide,
    Arpeggio,
    VolumeSlide,
}

/// One cell of the grid: what one channel does in one row.
///
/// `volume` is on the tracker scale 0..=64; a cell without one plays at 64.
#[derive(Clone, Copy, Debug, PartialEq, Eq, Structural)]
pub struct ChannelData {
    pub note: Option<u8>,
    pub instrument: Option<u8>,
    pub volume: Option<u8>,
    pub effect: Option<EffectType>,
    pub effect_value: Option<u8>,
}

/// The cell with nothing in it.
pub open spec fn empty_cell() -> ChannelData {
    ChannelData { note: None, instrument: None, volume: None, effect: None, effect_value: None }
}

impl Default for ChannelData {
    fn default() -> (cell: ChannelData)
        ensures
            cell == empty_cell(),
    {
        ChannelData { note: None, instrument: None, volume: None, effect: None, effect_value: None }
    }
}

/// One time slice of a pattern: a cell for every channel.
#[derive(Clone, Copy, Debug)]
pub struct Row {
    pub channels: [ChannelData; NUM_CHANNELS],
}

impl View for Row {
    type V = Seq<ChannelData>;

    open spec fn view(&self) -> Seq<ChannelData> {
        self.channels@
    }
}

/// Whether every cell of `cells` is empty.
pub open spec fn all_empty(cells: Seq<ChannelData>) -> bool {
    forall|c: int| 0 <= c < cells.len() ==> cells[c] == empty_cell()
}

impl Default for Row {
    fn default() -> (row: Row)
        ensures
            row@.len() == NUM_CHANNELS,
            all_empty(row@),
    {
        Row { channels: [ChannelData::default(); NUM_CHANNELS] }
    }
}

/// An ordered run of rows that the sequencer loops over.
#[derive(Clone, Debug)]
pub struct Pattern {
    pub rows: Vec<Row>,
}

impl View for Pattern {
    type V = Seq<Seq<ChannelData>>;

    open spec fn view(&self) -> Seq<Seq<ChannelData>> {
        Seq::new(self.rows@.len(), |r: int| self.rows@[r]@)
    }
}

impl Default for Pattern {
    fn default() -> (pattern: Pattern)
        ensures
            pattern@.len() == ROWS_PER_PATTERN,
            forall|r: int|
                0 <= r < ROWS_PER_PATTERN ==> (#[trigger] pattern@[r]).len() == NUM_CHANNELS
                    && all_empty(pattern@[r]),
    {
        let mut rows: Vec<Row> = Vec::new();
        let mut r: usize = 0;
        while r < ROWS_PER_PATTERN
            invariant
                r <= ROWS_PER_PATTERN,
                rows@.len() == r,
                forall|k: int|
                    0 <= k < r ==> (#[trigger] rows@[k])@.len() == NUM_CHANNELS && all_empty(
                        rows@[k]@,
                    ),
            decreases ROWS_PER_PATTERN - r,
        {
            rows.push(Row::default());
            r += 1;
        }
        Pattern { rows }
    }
}

/// The grid `grid` with the cell of pattern `p`, row `r`, channel `c`
/// replaced by `cell`.
pub open spec fn grid_with(
    grid: Seq<Seq<Seq<ChannelData>>>,
    p: int,
    r: int,
    c: int,
    cell: ChannelData,
) -> Seq<Seq<Seq<ChannelData>>> {
    grid.update(p, grid[p].update(r, grid[p][r].update(c, cell)))
}

/// Mix settings of one channel.
///
/// `index` is the instrument number the track plays with. `volume` is a
/// linear gain in thousandths: [`FULL_VOLUME`] leaves a note's level as it
/// is, 500 halves it.
#[derive(Clone, Debug)]
pub struct TrackConfig {
    pub name: String,
    pub index: usize,
    pub muted: bool,
    pub solo: bool,
    pub volume: u16,
}

impl Default for TrackConfig {
    fn default() -> (track: TrackConfig)
        ensures
            track.name@ == "Track"@,
            track.index == 0,
            !track.muted,
            !track.solo,
            track.volume == FULL_VOLUME,
    {
        TrackConfig {
            name: "Track".to_string(),
            index: 0,
            muted: false,
            solo: false,
            volume: FULL_VOLUME,
        }
    }
}

/// The name a new project gives to track `i`.
pub open spec fn default_track_name(i: int) -> Seq<char> {
    if i == 0 {
        "KICK"@
    } else if i == 1 {
        "SNARE"@
    } else if i == 2 {
        "BASSLINE"@
    } else if i == 3 {
        "LEAD SYNTH"@
    } else if i == 4 {
        "PAD"@
    } else if i == 5 {
        "ARP"@
    } else if i == 6 {
        "PLUCK"@
    } else if i == 7 {
        "FX"@
    } else if i == 8 {
        "TRACK 9"@
    } else if i == 9 {
        "TRACK 10"@
    } else if i == 10 {
        "TRACK 11"@
    } else if i == 11 {
        "TRACK 12"@
    } else if i == 12 {
        "TRACK 13"@
    } else if i == 13 {
        "TRACK 14"@
    } else if i == 14 {
        "TRACK 15"@
    } else {
        "TRACK 16"@
    }
}

fn new_track_name(i: usize) -> (name: String)
    requires
        i < NUM_CHANNELS,
    ensures
        name@ == default_track_name(i as int),
{
    let text: &str = if i == 0 {
        "KICK"
    } else if i == 1 {
        "SNARE"
    } else if i == 2 {
        "BASSLINE"
    } else if i == 3 {
        "LEAD SYNTH"
    } else if i == 4 {
        "PAD"
    } else if i == 5 {
        "ARP"
    } else if i == 6 {
        "PLUCK"
    } else if i == 7 {
        "FX"
    } else if i == 8 {
        "TRACK 9"
    } else if i == 9 {
        "TRACK 10"
    } else if i == 10 {
        "TRACK 11"
    } else if i == 11 {
        "TRACK 12"
    } else if i == 12 {
        "TRACK 13"
    } else if i == 13 {
        "TRACK 14"
    } else if i == 14 {
        "TRACK 15"
    } else {
        "TRACK 16"
    };
    text.to_string()
}

/// Everything a session edits and plays.
#[derive(Clone, Debug)]
pub struct ProjectData {
    /// Tempo in beats per minute.
    pub bpm: u32,
    pub patterns: Vec<Pattern>,
    pub current_pattern: usize,
    /// Whether the sequencer is running.
    pub playing: bool,
    pub current_row: usize,
    pub current_channel: usize,
    /// Ticks per row.
    pub speed: u32,
    pub current_octave: u8,
    pub current_instrument: u8,
    /// Rows the cursor moves down after a note was entered.
    pub auto_advance: usize,
    pub tracks: Vec<TrackConfig>,
}

impl ProjectData {
    /// The cells of row `row` of the current pattern, or nothing where the
    /// project has no such pattern or row.
    pub open spec fn row_cells(&self, row: int) -> Option<Seq<ChannelData>> {
        if self.current_pattern < self.patterns@.len() && 0 <= row
            < self.patterns@[self.current_pattern as int]@.len() {
            Some(self.patterns@[self.current_pattern as int]@[row])
        } else {
            None
        }
    }

    /// All cells of the project, by pattern, row and channel.
    pub open spec fn grid(&self) -> Seq<Seq<Seq<ChannelData>>> {
        Seq::new(self.patterns@.len(), |p: int| self.patterns@[p]@)
    }

    /// Whether the cursor points at a cell that exists: where the project
    /// has its current pattern, the cursor row is one of its rows and the
    /// cursor channel one of the channels.
    pub open spec fn cursor_in_grid(&self) -> bool {
        self.current_pattern < self.patterns@.len() ==> {
            &&& self.current_row < self.patterns@[self.current_pattern as int]@.len()
            &&& self.current_channel < NUM_CHANNELS
        }
    }

    /// Whether every pattern has the full number of rows, and the cursor and
    /// the play position lie inside the grid.
    pub open spec fn well_formed(&self) -> bool {
        &&& self.current_row < ROWS_PER_PATTERN
        &&& self.current_channel < NUM_CHANNELS
        &&& forall|p: int|
            0 <= p < self.patterns@.len() ==> (#[trigger] self.patterns@[p])@.len()
                == ROWS_PER_PATTERN
    }
}

impl ProjectData {
    /// Decides [`ProjectData::well_formed`].
    pub fn is_well_formed(&self) -> (ok: bool)
        ensures
            ok == self.well_formed(),
    {
        if self.current_row >= ROWS_PER_PATTERN || self.current_channel >= NUM_CHANNELS {
            return false;
        }
        let mut p: usize = 0;
        while p < self.patterns.len()
            invariant
                p <= self.patterns@.len(),
                forall|k: int|
                    0 <= k < p ==> (#[trigger] self.patterns@[k])@.len() == ROWS_PER_PATTERN,
            decreases self.patterns.len() - p,
        {
            if self.patterns[p].rows.len() != ROWS_PER_PATTERN {
                assert(self.patterns@[p as int]@.len() != ROWS_PER_PATTERN);
                return false;
            }
            p += 1;
        }
        true
    }

    /// Decides [`ProjectData::cursor_in_grid`].
    pub fn is_cursor_in_grid(&self) -> (ok: bool)
        ensures
            ok == self.cursor_in_grid(),
    {
        if self.current_pattern < self.patterns.len() {
            self.current_row < self.patterns[self.current_pattern].rows.len()
                && self.current_channel < NUM_CHANNELS
        } else {
            true
        }
    }
}

impl Default for ProjectData {
    fn default() -> (project: ProjectData)
        ensures
            project.bpm == 140,
            project.speed == 6,
            !project.playing,
            project.current_pattern == 0,
            project.current_row == 0,
            project.current_channel == 0,
            project.current_octave == 4,
            project.current_instrument == 1,
            project.auto_advance == 1,
            project.patterns@.len() == 1,
            project.patterns@[0]@.len() == ROWS_PER_PATTERN,
            forall|r: int|
                0 <= r < ROWS_PER_PATTERN ==> (#[trigger] project.patterns@[0]@[r]).len()
                    == NUM_CHANNELS && all_empty(project.patterns@[0]@[r]),
            project.tracks@.len() == NUM_CHANNELS,
            forall|i: int|
                0 <= i < NUM_CHANNELS ==> {
                    let track = #[trigger] project.tracks@[i];
                    &&& track.name@ == default_track_name(i)
                    &&& track.index == i
                    &&& !track.muted
                    &&& !track.solo
                    &&& track.volume == FULL_VOLUME
                },
            project.well_formed(),
    {
        let mut tracks: Vec<TrackConfig> = Vec::new();
        let mut i: usize = 0;
        while i < NUM_CHANNELS
            invariant
                i <= NUM_CHANNELS,
                tracks@.len() == i,
                forall|k: int|
                    0 <= k < i ==> {
                        let track = #[trigger] tracks@[k];
                        &&& track.name@ == default_track_name(k)
                        &&& track.index == k
                        &&& !track.muted
                        &&& !track.solo
                        &&& track.volume == FULL_VOLUME
                    },
            decreases NUM_CHANNELS - i,
        {
            tracks.push(
                TrackConfig {
                    name: new_track_name(i),
                    index: i,
                    muted: false,
                    solo: false,
                    volume: FULL_VOLUME,
                },
            );
            i += 1;
        }
        let mut patterns: Vec<Pattern> = Vec::new();
        patterns.push(Pattern::default());
        ProjectData {
            bpm: 140,
            patterns,
            current_pattern: 0,
            playing: false,
            current_row: 0,
            current_channel: 0,
            speed: 6,
            current_octave: 4,
            current_instrument: 1,
            auto_advance: 1,
            tracks,
        }
    }
}

} // verus!
