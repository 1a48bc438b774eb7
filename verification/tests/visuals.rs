use terminal_velocity::command::AudioCommand;
use terminal_velocity::data::{Pattern, ProjectData};
use terminal_velocity::editor::EditMode;
use terminal_velocity::matrix_visuals::visual_note;
use terminal_velocity::voice::{Voice, VoiceBank};

#[test]
fn every_note_is_shown_under_its_name() {
    let cmd = AudioCommand::PlayNote { note: 69, instrument: 0, velocity: 1, channel: 7 };
    let event = visual_note(&cmd).unwrap();
    assert_eq!(event.note_name, "A-");
    assert_eq!(event.channel, 7);
    let cmd = AudioCommand::PlayNote { note: 61, instrument: 0, velocity: 1, channel: 99 };
    let event = visual_note(&cmd).unwrap();
    assert_eq!(event.note_name, "C#");
    assert_eq!(event.channel, 99);
}

#[test]
fn other_commands_are_not_shown() {
    assert!(visual_note(&AudioCommand::StopNote { channel: 1 }).is_none());
    assert!(visual_note(&AudioCommand::SetBpm(120)).is_none());
}

#[test]
fn default_voice_and_mode() {
    assert_eq!(Voice::default(), Voice { active: false, note: 0, instrument: 0, velocity: 0 });
    assert_eq!(Voice::default(), Voice::new());
    assert_eq!(EditMode::default(), EditMode::View);
}

#[test]
fn commands_on_different_voices_commute() {
    let a = AudioCommand::PlayNote { note: 60, instrument: 1, velocity: 90, channel: 1 };
    let b = AudioCommand::StopNote { channel: 2 };
    let c = AudioCommand::SetBpm(33);
    let mut start = VoiceBank::new();
    start.apply(AudioCommand::PlayNote { note: 50, instrument: 2, velocity: 80, channel: 2 });
    for (x, y) in [(a, b), (a, c), (b, c)] {
        let mut xy = start;
        xy.apply(x);
        xy.apply(y);
        let mut yx = start;
        yx.apply(y);
        yx.apply(x);
        assert_eq!(xy.voices, yx.voices);
        assert_eq!(xy.bpm, yx.bpm);
    }
}

#[test]
fn well_formedness_is_decided() {
    let mut p = ProjectData::default();
    assert!(p.is_well_formed());
    assert!(p.is_cursor_in_grid());
    p.current_row = 64;
    assert!(!p.is_well_formed());
    assert!(!p.is_cursor_in_grid());
    p.current_row = 63;
    p.current_channel = 16;
    assert!(!p.is_well_formed());
    assert!(!p.is_cursor_in_grid());
    p.current_channel = 15;
    assert!(p.is_well_formed());
    p.patterns.push(Pattern { rows: Vec::new() });
    assert!(!p.is_well_formed());
    assert!(p.is_cursor_in_grid());
    p.current_pattern = 1;
    assert!(!p.is_cursor_in_grid());
    p.current_pattern = 2;
    assert!(p.is_cursor_in_grid());
    p.patterns.truncate(1);
    p.patterns.push(Pattern::default());
    p.current_pattern = 1;
    assert!(p.is_well_formed());
    assert!(p.is_cursor_in_grid());
}
