use terminal_velocity::command::{AudioCommand, MidiInputEvent};
use terminal_velocity::data::{ChannelData, EffectType, ProjectData};
use terminal_velocity::editor::{
    delete_note, enter_note, handle_keyboard, handle_midi_input, is_pressed, key_to_note,
    navigate, note_name, switch_mode, typed_key_note, EditMode, Key, MAX_OCTAVE,
};

fn cell(p: &ProjectData, row: usize, channel: usize) -> ChannelData {
    p.patterns[0].rows[row].channels[channel]
}

fn empty() -> ChannelData {
    ChannelData { note: None, instrument: None, volume: None, effect: None, effect_value: None }
}

fn on(note: u8, velocity: u8) -> MidiInputEvent {
    MidiInputEvent { note, velocity, status: 0x90 }
}

#[test]
fn piano_row_keys_map_to_semitones() {
    let keys = [
        Key::KeyZ, Key::KeyS, Key::KeyX, Key::KeyD, Key::KeyC, Key::KeyV, Key::KeyG,
        Key::KeyB, Key::KeyH, Key::KeyN, Key::KeyJ, Key::KeyM, Key::Comma,
    ];
    for (i, k) in keys.iter().enumerate() {
        assert_eq!(key_to_note(Some(*k)), Some(i as u8));
    }
}

#[test]
fn other_keys_map_to_nothing() {
    for k in [
        Key::ArrowUp, Key::ArrowDown, Key::ArrowLeft, Key::ArrowRight, Key::Space,
        Key::Enter, Key::Backspace, Key::Delete, Key::Other,
    ] {
        assert_eq!(key_to_note(Some(k)), None);
    }
    assert_eq!(key_to_note(None), None);
}

#[test]
fn typed_note_is_octave_times_twelve_plus_semitone() {
    assert_eq!(typed_key_note(4, Some(Key::KeyZ)), Some(48));
    assert_eq!(typed_key_note(4, Some(Key::KeyN)), Some(57));
    assert_eq!(typed_key_note(5, Some(Key::KeyN)), Some(69));
    assert_eq!(typed_key_note(0, Some(Key::Comma)), Some(12));
    assert_eq!(typed_key_note(MAX_OCTAVE, Some(Key::Comma)), Some(252));
    assert_eq!(typed_key_note(4, Some(Key::Space)), None);
    assert_eq!(typed_key_note(4, None), None);
}

#[test]
fn note_names_cycle_every_octave() {
    let names = ["C-", "C#", "D-", "D#", "E-", "F-", "F#", "G-", "G#", "A-", "A#", "B-"];
    for n in 0u8..=255 {
        assert_eq!(note_name(n), names[(n % 12) as usize]);
    }
    assert_eq!(note_name(69), "A-");
    assert_eq!(note_name(60), "C-");
}

#[test]
fn is_pressed_finds_keys() {
    let pressed = vec![Key::KeyZ, Key::Enter];
    assert!(is_pressed(&pressed, Key::KeyZ));
    assert!(is_pressed(&pressed, Key::Enter));
    assert!(!is_pressed(&pressed, Key::Space));
    assert!(!is_pressed(&Vec::new(), Key::Space));
}

#[test]
fn arrows_move_the_cursor_with_wrap_and_stop() {
    let mut p = ProjectData::default();
    navigate(&mut p, &vec![Key::ArrowUp]);
    assert_eq!(p.current_row, 63);
    navigate(&mut p, &vec![Key::ArrowDown]);
    assert_eq!(p.current_row, 0);
    navigate(&mut p, &vec![Key::ArrowDown]);
    assert_eq!(p.current_row, 1);
    navigate(&mut p, &vec![Key::ArrowUp]);
    assert_eq!(p.current_row, 0);
    navigate(&mut p, &vec![Key::ArrowLeft]);
    assert_eq!(p.current_channel, 0);
    for _ in 0..20 {
        navigate(&mut p, &vec![Key::ArrowRight]);
    }
    assert_eq!(p.current_channel, 15);
    navigate(&mut p, &vec![Key::ArrowLeft]);
    assert_eq!(p.current_channel, 14);
}

#[test]
fn opposite_arrows_cancel() {
    let mut p = ProjectData::default();
    p.current_row = 10;
    p.current_channel = 5;
    navigate(&mut p, &vec![Key::ArrowDown, Key::ArrowUp, Key::ArrowRight, Key::ArrowLeft]);
    assert_eq!(p.current_row, 10);
    assert_eq!(p.current_channel, 5);
    p.current_row = 0;
    p.current_channel = 0;
    navigate(&mut p, &vec![Key::ArrowDown, Key::ArrowUp, Key::ArrowRight, Key::ArrowLeft]);
    assert_eq!(p.current_row, 0);
    assert_eq!(p.current_channel, 1);
}

#[test]
fn space_flips_the_transport() {
    let mut p = ProjectData::default();
    assert!(!p.playing);
    navigate(&mut p, &vec![Key::Space]);
    assert!(p.playing);
    navigate(&mut p, &vec![Key::Space]);
    assert!(!p.playing);
    navigate(&mut p, &vec![Key::KeyZ]);
    assert!(!p.playing);
}

#[test]
fn enter_switches_the_mode() {
    assert_eq!(switch_mode(EditMode::View, &vec![Key::Enter]), EditMode::Edit);
    assert_eq!(switch_mode(EditMode::Edit, &vec![Key::Enter]), EditMode::View);
    assert_eq!(switch_mode(EditMode::View, &vec![Key::Space]), EditMode::View);
    assert_eq!(switch_mode(EditMode::Edit, &vec![]), EditMode::Edit);
}

#[test]
fn enter_note_writes_cell_advances_and_previews() {
    let mut p = ProjectData::default();
    p.current_row = 10;
    p.current_channel = 3;
    p.patterns[0].rows[10].channels[3].effect = Some(EffectType::Arpeggio);
    p.patterns[0].rows[10].channels[3].effect_value = Some(0x37);
    let cmd = enter_note(&mut p, 57, 64, 127);
    assert_eq!(
        cmd,
        Some(AudioCommand::PlayNote { note: 57, instrument: 3, velocity: 127, channel: 3 })
    );
    assert_eq!(
        cell(&p, 10, 3),
        ChannelData {
            note: Some(57),
            instrument: Some(3),
            volume: Some(64),
            effect: Some(EffectType::Arpeggio),
            effect_value: Some(0x37),
        }
    );
    assert_eq!(p.current_row, 11);
    for r in 0..64 {
        for c in 0..16 {
            if (r, c) != (10, 3) {
                assert_eq!(cell(&p, r, c), empty());
            }
        }
    }
}

#[test]
fn enter_note_wraps_the_cursor() {
    let mut p = ProjectData::default();
    p.current_row = 62;
    p.auto_advance = 5;
    enter_note(&mut p, 1, 2, 3);
    assert_eq!(p.current_row, 3);
    p.auto_advance = 0;
    enter_note(&mut p, 1, 2, 3);
    assert_eq!(p.current_row, 3);
    p.auto_advance = 64;
    enter_note(&mut p, 1, 2, 3);
    assert_eq!(p.current_row, 3);
}

#[test]
fn enter_note_without_track_uses_current_instrument() {
    let mut p = ProjectData::default();
    p.tracks.truncate(2);
    p.current_channel = 5;
    p.current_instrument = 9;
    let cmd = enter_note(&mut p, 40, 64, 127);
    assert_eq!(
        cmd,
        Some(AudioCommand::PlayNote { note: 40, instrument: 9, velocity: 127, channel: 5 })
    );
    assert_eq!(cell(&p, 0, 5).instrument, Some(9));
}

#[test]
fn enter_note_without_pattern_does_nothing() {
    let mut p = ProjectData::default();
    p.current_pattern = 1;
    p.current_row = 7;
    assert_eq!(enter_note(&mut p, 40, 64, 127), None);
    assert_eq!(p.current_row, 7);
    for r in 0..64 {
        for c in 0..16 {
            assert_eq!(cell(&p, r, c), empty());
        }
    }
}

#[test]
fn delete_note_clears_note_instrument_volume() {
    let mut p = ProjectData::default();
    p.patterns[0].rows[0].channels[0] = ChannelData {
        note: Some(1),
        instrument: Some(2),
        volume: Some(3),
        effect: Some(EffectType::PitchSlide),
        effect_value: Some(4),
    };
    p.patterns[0].rows[1].channels[0].note = Some(9);
    delete_note(&mut p);
    assert_eq!(
        cell(&p, 0, 0),
        ChannelData {
            note: None,
            instrument: None,
            volume: None,
            effect: Some(EffectType::PitchSlide),
            effect_value: Some(4),
        }
    );
    assert_eq!(cell(&p, 1, 0).note, Some(9));
    assert_eq!(p.current_row, 0);
    p.current_pattern = 4;
    p.current_row = 1;
    delete_note(&mut p);
    assert_eq!(cell(&p, 1, 0).note, Some(9));
}

#[test]
fn keyboard_in_view_mode_enters_nothing() {
    let mut p = ProjectData::default();
    let mut mode = EditMode::View;
    let cmd = handle_keyboard(&mut p, &mut mode, &vec![Key::KeyZ, Key::Backspace]);
    assert_eq!(cmd, None);
    assert_eq!(mode, EditMode::View);
    assert_eq!(cell(&p, 0, 0), empty());
    assert_eq!(p.current_row, 0);
}

#[test]
fn keyboard_in_edit_mode_enters_the_first_key() {
    let mut p = ProjectData::default();
    let mut mode = EditMode::Edit;
    let cmd = handle_keyboard(&mut p, &mut mode, &vec![Key::KeyN, Key::KeyZ]);
    assert_eq!(
        cmd,
        Some(AudioCommand::PlayNote { note: 57, instrument: 0, velocity: 127, channel: 0 })
    );
    assert_eq!(cell(&p, 0, 0).note, Some(57));
    assert_eq!(cell(&p, 0, 0).instrument, Some(0));
    assert_eq!(cell(&p, 0, 0).volume, Some(64));
    assert_eq!(p.current_row, 1);
    let cmd = handle_keyboard(&mut p, &mut mode, &vec![Key::Space, Key::KeyZ]);
    assert_eq!(cmd, None);
    assert!(p.playing);
    assert_eq!(cell(&p, 1, 0), empty());
}

#[test]
fn keyboard_enter_then_note_in_one_update() {
    let mut p = ProjectData::default();
    let mut mode = EditMode::View;
    let cmd = handle_keyboard(&mut p, &mut mode, &vec![Key::KeyC, Key::Enter]);
    assert_eq!(mode, EditMode::Edit);
    assert_eq!(
        cmd,
        Some(AudioCommand::PlayNote { note: 52, instrument: 0, velocity: 127, channel: 0 })
    );
    let cmd = handle_keyboard(&mut p, &mut mode, &vec![Key::KeyC, Key::Enter]);
    assert_eq!(mode, EditMode::View);
    assert_eq!(cmd, None);
}

#[test]
fn keyboard_moves_before_it_enters() {
    let mut p = ProjectData::default();
    let mut mode = EditMode::Edit;
    handle_keyboard(&mut p, &mut mode, &vec![Key::KeyZ, Key::ArrowDown, Key::ArrowRight]);
    assert_eq!(cell(&p, 1, 1).note, Some(48));
    assert_eq!(cell(&p, 1, 1).instrument, Some(1));
    assert_eq!(p.current_row, 2);
    assert_eq!(p.current_channel, 1);
}

#[test]
fn keyboard_delete_clears_the_cell_under_the_cursor() {
    let mut p = ProjectData::default();
    let mut mode = EditMode::Edit;
    p.patterns[0].rows[5].channels[0].note = Some(33);
    p.current_row = 5;
    assert_eq!(handle_keyboard(&mut p, &mut mode, &vec![Key::Delete]), None);
    assert_eq!(cell(&p, 5, 0).note, None);
    p.patterns[0].rows[5].channels[0].note = Some(33);
    assert_eq!(handle_keyboard(&mut p, &mut mode, &vec![Key::Backspace]), None);
    assert_eq!(cell(&p, 5, 0).note, None);
    assert_eq!(p.current_row, 5);
}

#[test]
fn keyboard_note_and_delete_together() {
    let mut p = ProjectData::default();
    let mut mode = EditMode::Edit;
    p.patterns[0].rows[1].channels[0].note = Some(33);
    let cmd = handle_keyboard(&mut p, &mut mode, &vec![Key::KeyZ, Key::Delete]);
    assert!(cmd.is_some());
    assert_eq!(cell(&p, 0, 0).note, Some(48));
    assert_eq!(cell(&p, 1, 0).note, None);
    assert_eq!(p.current_row, 1);
}

#[test]
fn midi_ignored_outside_edit_mode() {
    let mut p = ProjectData::default();
    let sent = handle_midi_input(&vec![on(60, 100)], &mut p, EditMode::View);
    assert!(sent.is_empty());
    assert_eq!(cell(&p, 0, 0), empty());
    assert_eq!(p.current_row, 0);
}

#[test]
fn midi_note_on_is_entered_with_half_velocity_as_volume() {
    let mut p = ProjectData::default();
    p.current_channel = 2;
    let sent = handle_midi_input(&vec![on(60, 101)], &mut p, EditMode::Edit);
    assert_eq!(
        sent,
        vec![AudioCommand::PlayNote { note: 60, instrument: 2, velocity: 101, channel: 2 }]
    );
    assert_eq!(cell(&p, 0, 2).note, Some(60));
    assert_eq!(cell(&p, 0, 2).instrument, Some(2));
    assert_eq!(cell(&p, 0, 2).volume, Some(50));
    assert_eq!(p.current_row, 1);
}

#[test]
fn midi_note_off_and_zero_velocity_are_passed_over() {
    let mut p = ProjectData::default();
    let events = vec![
        MidiInputEvent { note: 60, velocity: 100, status: 0x80 },
        on(61, 0),
        MidiInputEvent { note: 62, velocity: 100, status: 0xB0 },
        on(63, 1),
    ];
    let sent = handle_midi_input(&events, &mut p, EditMode::Edit);
    assert_eq!(
        sent,
        vec![AudioCommand::PlayNote { note: 63, instrument: 0, velocity: 1, channel: 0 }]
    );
    assert_eq!(cell(&p, 0, 0).note, Some(63));
    assert_eq!(cell(&p, 0, 0).volume, Some(0));
    assert_eq!(p.current_row, 1);
    assert_eq!(cell(&p, 1, 0), empty());
}

#[test]
fn midi_note_sounds_through_the_track() {
    let mut p = ProjectData::default();
    p.current_channel = 4;
    p.tracks[4].volume = 500;
    p.tracks[4].index = 2;
    let sent = handle_midi_input(&vec![on(60, 100), on(61, 127), on(62, 1)], &mut p, EditMode::Edit);
    assert_eq!(
        sent,
        vec![
            AudioCommand::PlayNote { note: 60, instrument: 2, velocity: 50, channel: 4 },
            AudioCommand::PlayNote { note: 61, instrument: 2, velocity: 63, channel: 4 },
            AudioCommand::PlayNote { note: 62, instrument: 2, velocity: 0, channel: 4 },
        ]
    );
    assert_eq!(cell(&p, 0, 4).volume, Some(50));
    assert_eq!(cell(&p, 1, 4).volume, Some(63));
    assert_eq!(cell(&p, 2, 4).volume, Some(0));
    assert_eq!(cell(&p, 0, 4).instrument, Some(2));
}

#[test]
fn midi_note_on_a_muted_track_is_written_but_not_heard() {
    let mut p = ProjectData::default();
    p.current_channel = 4;
    p.tracks[4].muted = true;
    let sent = handle_midi_input(&vec![on(60, 100), on(61, 100)], &mut p, EditMode::Edit);
    assert!(sent.is_empty());
    assert_eq!(cell(&p, 0, 4).note, Some(60));
    assert_eq!(cell(&p, 1, 4).note, Some(61));
    assert_eq!(p.current_row, 2);
}

#[test]
fn midi_note_velocity_is_capped() {
    let mut p = ProjectData::default();
    p.tracks[0].volume = 3000;
    let sent = handle_midi_input(&vec![on(60, 100), on(61, 200)], &mut p, EditMode::Edit);
    assert_eq!(
        sent,
        vec![
            AudioCommand::PlayNote { note: 60, instrument: 0, velocity: 127, channel: 0 },
            AudioCommand::PlayNote { note: 61, instrument: 0, velocity: 127, channel: 0 },
        ]
    );
    assert_eq!(cell(&p, 1, 0).volume, Some(100));
}

#[test]
fn midi_batch_fills_rows_in_order() {
    let mut p = ProjectData::default();
    p.current_row = 62;
    p.auto_advance = 1;
    let events = vec![on(10, 20), on(11, 22), on(12, 24)];
    let sent = handle_midi_input(&events, &mut p, EditMode::Edit);
    assert_eq!(sent.len(), 3);
    assert_eq!(cell(&p, 62, 0).note, Some(10));
    assert_eq!(cell(&p, 63, 0).note, Some(11));
    assert_eq!(cell(&p, 0, 0).note, Some(12));
    assert_eq!(p.current_row, 1);
}

#[test]
fn midi_without_pattern_sends_nothing() {
    let mut p = ProjectData::default();
    p.current_pattern = 1;
    let sent = handle_midi_input(&vec![on(10, 20)], &mut p, EditMode::Edit);
    assert!(sent.is_empty());
    assert_eq!(p.current_row, 0);
}
