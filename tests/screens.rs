use ready_metronome::menu::{CurrentScreen, CurrentlyEditing};
use ready_metronome::screens::{read_bpm_entry, EntryOutcome, Failure, Key, Request, Screens};
use ready_metronome::tempo::Tempo;

fn sounds() -> Vec<String> {
    vec!["click.wav".to_string(), "beep.wav".to_string(), "wood.wav".to_string()]
}

fn started() -> Screens {
    let mut s = Screens::new(sounds());
    s.main_menu.select(0);
    s
}

fn press(s: &mut Screens, key: Key) -> Result<Request, Failure> {
    s.update(key, false, 0)
}

fn edit_entries() -> Vec<String> {
    [
        "playing: no",
        "bpm: 120",
        "volume: 100",
        "select sound: click.wav",
        "Time signature: 4/4",
        "Bar count: 1",
        "Back to main menu",
    ]
    .iter()
    .map(|e| e.to_string())
    .collect()
}

fn to_edit_screen() -> Screens {
    let mut s = started();
    s.edit_menu.set_items(edit_entries());
    press(&mut s, Key::Down).unwrap();
    assert_eq!(press(&mut s, Key::Enter), Ok(Request::Nothing));
    assert_eq!(s.current_screen, CurrentScreen::Editing);
    s
}

#[test]
fn new_screens_start_on_main() {
    let s = Screens::new(sounds());
    assert_eq!(s.current_screen, CurrentScreen::Main);
    assert_eq!(s.currently_editing, None);
    assert_eq!(s.main_menu.items.len(), 3);
    assert_eq!(s.main_menu.items[0], "Start / Stop Metronome");
    assert!(s.first_edit);
    assert!(!s.should_quit);
    assert!(s.edit_string.is_empty());
    assert!(s.alert_string.is_empty());
}

#[test]
fn enter_on_first_entry_toggles() {
    let mut s = started();
    assert_eq!(press(&mut s, Key::Enter), Ok(Request::ToggleRunning));
    assert_eq!(s.current_screen, CurrentScreen::Main);
}

#[test]
fn global_tempo_and_toggle_keys() {
    let mut s = started();
    assert_eq!(press(&mut s, Key::Char('+')), Ok(Request::BpmUp));
    assert_eq!(press(&mut s, Key::Char('-')), Ok(Request::BpmDown));
    assert_eq!(press(&mut s, Key::Char('t')), Ok(Request::ToggleRunning));
    assert_eq!(press(&mut s, Key::Char('x')), Ok(Request::Nothing));
}

#[test]
fn main_menu_wraps() {
    let mut s = started();
    press(&mut s, Key::Up).unwrap();
    assert_eq!(s.main_menu.selected, Some(2));
    press(&mut s, Key::Tab).unwrap();
    assert_eq!(s.main_menu.selected, Some(0));
}

#[test]
fn editing_a_tempo() {
    let mut s = to_edit_screen();
    assert_eq!(s.edit_menu.selected, Some(0));
    press(&mut s, Key::Down).unwrap();
    assert_eq!(press(&mut s, Key::Enter), Ok(Request::ShowValue(CurrentlyEditing::Bpm)));
    assert_eq!(s.currently_editing, Some(CurrentlyEditing::Bpm));
    assert_eq!(s.edit_menu.selected, None);
    s.edit_string = "120".to_string();
    // the first typed key replaces the shown value
    press(&mut s, Key::Char('2')).unwrap();
    press(&mut s, Key::Char('0')).unwrap();
    press(&mut s, Key::Char('9')).unwrap();
    assert_eq!(s.edit_string, "209");
    press(&mut s, Key::Backspace).unwrap();
    press(&mut s, Key::Char('0')).unwrap();
    assert_eq!(s.edit_string, "200");
    // 't' is typed, not a toggle, while editing
    assert_eq!(press(&mut s, Key::Char('t')), Ok(Request::Nothing));
    press(&mut s, Key::Backspace).unwrap();
    assert_eq!(
        press(&mut s, Key::Enter),
        Ok(Request::SetTempo(Tempo { bpm: 200, ms_delay: 300 }))
    );
    assert_eq!(s.currently_editing, None);
    assert_eq!(s.edit_menu.selected, Some(1));
    assert!(s.first_edit);
    assert!(s.edit_string.is_empty());
}

#[test]
fn refused_tempo_entries_leave_a_notice() {
    let mut s = to_edit_screen();
    press(&mut s, Key::Down).unwrap();
    press(&mut s, Key::Enter).unwrap();
    s.edit_string = "hey".to_string();
    s.first_edit = false;
    assert_eq!(press(&mut s, Key::Enter), Ok(Request::Nothing));
    assert_eq!(s.alert_string, "Please input a value between 20 and 500");
    assert_eq!(s.edit_string, "hey");
    assert_eq!(s.currently_editing, Some(CurrentlyEditing::Bpm));

    s.edit_string = "501".to_string();
    assert_eq!(press(&mut s, Key::Enter), Ok(Request::Nothing));
    assert!(s.edit_string.is_empty());
    assert_eq!(s.alert_string, "Please input a value between 20 and 500");
}

#[test]
fn volume_commit_goes_to_the_front_end() {
    let mut s = to_edit_screen();
    press(&mut s, Key::Down).unwrap();
    press(&mut s, Key::Down).unwrap();
    assert_eq!(press(&mut s, Key::Enter), Ok(Request::ShowValue(CurrentlyEditing::Volume)));
    assert_eq!(press(&mut s, Key::Enter), Ok(Request::CommitVolume));
    s.finish_edit(CurrentlyEditing::Volume, EntryOutcome::OutOfRange);
    assert_eq!(s.alert_string, "Please input a value between 1.0 and 200.0");
    s.finish_edit(CurrentlyEditing::Volume, EntryOutcome::Accepted);
    assert_eq!(s.currently_editing, None);
    assert_eq!(s.edit_menu.selected, Some(2));
    assert!(s.alert_string.is_empty());
}

#[test]
fn escape_leaves_typing_then_edit_screen() {
    let mut s = to_edit_screen();
    press(&mut s, Key::Down).unwrap();
    press(&mut s, Key::Enter).unwrap();
    assert_eq!(press(&mut s, Key::Esc), Ok(Request::Nothing));
    assert_eq!(s.currently_editing, None);
    assert_eq!(s.edit_menu.selected, Some(0));
    press(&mut s, Key::Esc).unwrap();
    assert_eq!(s.current_screen, CurrentScreen::Main);
    assert_eq!(s.main_menu.selected, Some(1));
    assert_eq!(s.edit_menu.selected, None);
}

#[test]
fn sound_selection_past_the_catalog_is_ignored() {
    let mut s = to_edit_screen();
    s.switch_screen(CurrentScreen::SoundSelection, 0);
    s.sound_selection_menu.select(3);
    assert_eq!(press(&mut s, Key::Enter), Ok(Request::Nothing));
    assert_eq!(s.current_screen, CurrentScreen::Editing);
    s.switch_screen(CurrentScreen::SoundSelection, 0);
    s.sound_selection_menu.select(2);
    assert_eq!(press(&mut s, Key::Enter), Ok(Request::SelectSound(2)));
}

#[test]
fn sound_selection_round_trip() {
    let mut s = to_edit_screen();
    for _ in 0..3 {
        press(&mut s, Key::Down).unwrap();
    }
    assert_eq!(s.update(Key::Enter, false, 1), Ok(Request::Nothing));
    assert_eq!(s.current_screen, CurrentScreen::SoundSelection);
    assert_eq!(s.sound_selection_menu.items, sounds());
    assert_eq!(s.sound_selection_menu.selected, Some(1));
    press(&mut s, Key::Down).unwrap();
    assert_eq!(s.update(Key::Enter, false, 1), Ok(Request::SelectSound(2)));
    assert_eq!(s.current_screen, CurrentScreen::Editing);
    assert_eq!(s.sound_selection_menu.selected, None);
    assert_eq!(s.edit_menu.selected, Some(0));
}

#[test]
fn back_to_main_from_edit_menu() {
    let mut s = to_edit_screen();
    for _ in 0..6 {
        press(&mut s, Key::Down).unwrap();
    }
    assert_eq!(s.edit_menu.selected, Some(6));
    press(&mut s, Key::Enter).unwrap();
    assert_eq!(s.current_screen, CurrentScreen::Main);
    assert_eq!(s.main_menu.selected, Some(1));
}

#[test]
fn quitting_asks_first() {
    let mut s = started();
    assert_eq!(press(&mut s, Key::Char('q')), Ok(Request::Nothing));
    assert_eq!(s.current_screen, CurrentScreen::Exiting);
    assert!(!s.should_quit);
    press(&mut s, Key::Char('n')).unwrap();
    assert_eq!(s.current_screen, CurrentScreen::Main);
    assert_eq!(s.main_menu.selected, Some(0));
    press(&mut s, Key::Char('q')).unwrap();
    press(&mut s, Key::Char('y')).unwrap();
    assert!(s.should_quit);
}

#[test]
fn main_menu_quit_entry() {
    let mut s = started();
    s.main_menu.select(2);
    press(&mut s, Key::Enter).unwrap();
    assert_eq!(s.current_screen, CurrentScreen::Exiting);
    press(&mut s, Key::Enter).unwrap();
    assert!(s.should_quit);
}

#[test]
fn error_flag_fails_every_key() {
    let mut s = started();
    assert_eq!(s.update(Key::Enter, true, 0), Err(Failure::Halted));
    assert_eq!(s.current_screen, CurrentScreen::Main);
    s.check_error_status(false);
    assert_eq!(s.current_screen, CurrentScreen::Main);
    s.check_error_status(true);
    assert_eq!(s.current_screen, CurrentScreen::Error);
    assert_eq!(press(&mut s, Key::Char('x')), Err(Failure::Terminal));
    assert_eq!(press(&mut s, Key::Down), Ok(Request::Nothing));
}

#[test]
fn app_clear_strings() {
    let mut s = started();
    s.edit_string = "Don't forget a towel!".to_string();
    s.alert_string = "I mean it, don't forget a towel!".to_string();

    assert!(!s.edit_string.is_empty());
    assert!(!s.alert_string.is_empty());

    s.clear_strings();
    assert!(s.edit_string.is_empty());
    assert!(s.alert_string.is_empty());
}

#[test]
fn switch_screen_sets_selections() {
    let mut s = started();
    s.switch_screen(CurrentScreen::Editing, 0);
    assert_eq!(s.main_menu.selected, None);
    assert_eq!(s.edit_menu.selected, Some(0));
    s.switch_screen(CurrentScreen::Main, 0);
    assert_eq!(s.main_menu.selected, Some(1));
    s.switch_screen(CurrentScreen::Exiting, 0);
    assert_eq!(s.main_menu.selected, None);
    assert_eq!(s.current_screen, CurrentScreen::Exiting);
    s.switch_screen(CurrentScreen::Main, 0);
    assert_eq!(s.main_menu.selected, Some(0));
}

#[test]
fn bpm_entry_outcomes() {
    assert_eq!(read_bpm_entry("120"), (EntryOutcome::Accepted, Some(Tempo { bpm: 120, ms_delay: 500 })));
    assert_eq!(read_bpm_entry("19"), (EntryOutcome::OutOfRange, None));
    assert_eq!(read_bpm_entry("500000"), (EntryOutcome::OutOfRange, None));
    assert_eq!(read_bpm_entry("-120"), (EntryOutcome::Unreadable, None));
    assert_eq!(read_bpm_entry("120.5"), (EntryOutcome::Unreadable, None));
    assert_eq!(read_bpm_entry(""), (EntryOutcome::Unreadable, None));
}

#[test]
fn tempo_steps() {
    assert_eq!(Tempo::step(120, true), Some(Tempo { bpm: 130, ms_delay: 462 }));
    assert_eq!(Tempo::step(120, false), Some(Tempo { bpm: 110, ms_delay: 545 }));
    assert_eq!(Tempo::step(495, true), None);
    assert_eq!(Tempo::step(490, true), Some(Tempo { bpm: 500, ms_delay: 120 }));
    assert_eq!(Tempo::step(25, false), None);
    assert_eq!(Tempo::step(30, false), Some(Tempo { bpm: 20, ms_delay: 3000 }));
    assert_eq!(Tempo::step(5, false), None);
    assert_eq!(Tempo::step(u64::MAX, true), None);
}
