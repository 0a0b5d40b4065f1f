use crate::input::{decimal_u64, parse_u64, tempo_entry};
use crate::menu::{CurrentScreen, CurrentlyEditing, Menu, MenuView};
use crate::tempo::{tempo_of, Tempo};
use vstd::prelude::*;

verus! {

/// A key press, as the front end hands it on.
#[derive(Clone, Copy, Debug, PartialEq, Eq, Structural)]
pub enum Key {
    Up,
    Down,
    Left,
    Right,
    Tab,
    BackTab,
    Esc,
    Enter,
    Backspace,
    Char(char),
    Other,
}

/// How a typed-in value fared.
#[derive(Clone, Copy, Debug, PartialEq, Eq, Structural)]
pub enum EntryOutcome {
    /// The value was read and stored.
    Accepted,
    /// The text is a number outside the accepted range.
    OutOfRange,
    /// The text is not a number (or is empty).
    Unreadable,
}

/// What the front end must do to the shared settings after a key press.
#[derive(Clone, Copy, Debug, PartialEq, Eq)]
pub enum Request {
    /// Nothing.
    Nothing,
    /// Start the metronome when stopped, stop it when running.
    ToggleRunning,
    /// Raise the tempo by ten beats per minute, if the result is accepted.
    BpmUp,
    /// Lower the tempo by ten beats per minute, if the result is accepted.
    BpmDown,
    /// Store this tempo and its beat interval.
    SetTempo(Tempo),
    /// Read the edit text as a volume, store it when accepted, and report
    /// the outcome through `finish_edit`.
    CommitVolume,
    /// Put the current value of this setting into the edit text.
    ShowValue(CurrentlyEditing),
    /// Select the sound at this index of the catalog.
    SelectSound(usize),
}

/// Why a key press ends the front end.
#[derive(Clone, Copy, Debug, PartialEq, Eq, Structural)]
pub enum Failure {
    /// The metronome has reported an error.
    Halted,
    /// The user dismissed the error screen.
    Terminal,
}

/// Relies on `String::push`: appends `c` at the end.
#[verifier::external_body]
fn push_char(s: &mut String, c: char)
    ensures
        final(s)@ == old(s)@.push(c),
{
    s.push(c)
}

/// Relies on `String::pop`: removes and returns the last character, if any.
#[verifier::external_body]
fn pop_char(s: &mut String) -> (r: Option<char>)
    ensures
        old(s)@.len() == 0 ==> r is None && final(s)@ == old(s)@,
        old(s)@.len() > 0 ==> r == Some(old(s)@.last()) && final(s)@ == old(s)@.drop_last(),
{
    s.pop()
}

/// How the tempo typed as `s` fares: unreadable unless it is a whole
/// unsigned decimal number, out of range unless that number is accepted.
pub open spec fn bpm_outcome(s: Seq<char>) -> EntryOutcome {
    match decimal_u64(s) {
        None => EntryOutcome::Unreadable,
        Some(v) => if tempo_of(v as int) is Some {
            EntryOutcome::Accepted
        } else {
            EntryOutcome::OutOfRange
        },
    }
}

/// The abstract state of the front end.
pub struct ScreensView {
    pub current_screen: CurrentScreen,
    pub currently_editing: Option<CurrentlyEditing>,
    pub edit_string: Seq<char>,
    pub alert_string: Seq<char>,
    pub main_menu: MenuView,
    pub edit_menu: MenuView,
    pub sound_selection_menu: MenuView,
    pub should_quit: bool,
    pub first_edit: bool,
    pub sound_list: Seq<Seq<char>>,
}

/// The notice shown when a typed value of `kind` is refused.
pub open spec fn alert_for(kind: CurrentlyEditing) -> Seq<char> {
    match kind {
        CurrentlyEditing::Bpm => "Please input a value between 20 and 500"@,
        CurrentlyEditing::Volume => "Please input a value between 1.0 and 200.0"@,
    }
}

/// The edit-menu entry that shows a setting of `kind`.
pub open spec fn entry_of(kind: CurrentlyEditing) -> usize {
    match kind {
        CurrentlyEditing::Bpm => 1,
        CurrentlyEditing::Volume => 2,
    }
}

impl ScreensView {
    /// The edit text and the notice emptied.
    pub open spec fn cleared(self) -> ScreensView {
        ScreensView { edit_string: Seq::empty(), alert_string: Seq::empty(), ..self }
    }

    /// The front end after changing to the screen `new`; `selected_sound`
    /// is the sound the settings hold, which the sound menu then selects.
    pub open spec fn switched(self, new: CurrentScreen, selected_sound: usize) -> ScreensView {
        let s = match new {
            CurrentScreen::Main => ScreensView {
                edit_menu: self.edit_menu.with_selected(None),
                sound_selection_menu: self.sound_selection_menu.with_selected(None),
                first_edit: true,
                main_menu: self.main_menu.with_selected(
                    Some(
                        if self.current_screen == CurrentScreen::Editing {
                            1usize
                        } else {
                            0usize
                        },
                    ),
                ),
                ..self
            },
            CurrentScreen::Editing => ScreensView {
                main_menu: self.main_menu.with_selected(None),
                sound_selection_menu: self.sound_selection_menu.with_selected(None),
                edit_menu: self.edit_menu.with_selected(Some(0usize)),
                ..self
            },
            CurrentScreen::SoundSelection => ScreensView {
                main_menu: self.main_menu.with_selected(None),
                edit_menu: self.edit_menu.with_selected(None),
                sound_selection_menu: MenuView {
                    items: self.sound_list,
                    selected: Some(selected_sound),
                },
                ..self
            },
            CurrentScreen::Exiting => ScreensView {
                main_menu: self.main_menu.with_selected(None),
                edit_menu: self.edit_menu.with_selected(None),
                sound_selection_menu: self.sound_selection_menu.with_selected(None),
                currently_editing: None,
                ..self.cleared()
            },
            CurrentScreen::Error => ScreensView {
                main_menu: self.main_menu.with_selected(None),
                edit_menu: self.edit_menu.with_selected(None),
                sound_selection_menu: self.sound_selection_menu.with_selected(None),
                ..self
            },
        };
        ScreensView { current_screen: new, ..s }
    }

    /// The front end after a navigation key: arrows and tabs move the
    /// selection of the menu in view (not while a value is typed in); escape
    /// leaves the typing, or goes back one screen.
    pub open spec fn navigated(self, key: Key, selected_sound: usize) -> ScreensView {
        let editing = self.currently_editing is Some;
        match key {
            Key::Up | Key::Left | Key::BackTab => match self.current_screen {
                CurrentScreen::Main => ScreensView { main_menu: self.main_menu.moved_up(), ..self },
                CurrentScreen::Editing => if editing {
                    self
                } else {
                    ScreensView { edit_menu: self.edit_menu.moved_up(), ..self }
                },
                CurrentScreen::SoundSelection => ScreensView {
                    sound_selection_menu: self.sound_selection_menu.moved_up(),
                    ..self
                },
                _ => self,
            },
            Key::Down | Key::Right | Key::Tab => match self.current_screen {
                CurrentScreen::Main => ScreensView { main_menu: self.main_menu.moved_down(), ..self },
                CurrentScreen::Editing => if editing {
                    self
                } else {
                    ScreensView { edit_menu: self.edit_menu.moved_down(), ..self }
                },
                CurrentScreen::SoundSelection => ScreensView {
                    sound_selection_menu: self.sound_selection_menu.moved_down(),
                    ..self
                },
                _ => self,
            },
            Key::Esc => match self.current_screen {
                CurrentScreen::Editing => if editing {
                    ScreensView {
                        edit_menu: self.edit_menu.with_selected(Some(0usize)),
                        currently_editing: None,
                        ..self.cleared()
                    }
                } else {
                    ScreensView {
                        current_screen: CurrentScreen::Main,
                        edit_menu: self.edit_menu.with_selected(None),
                        main_menu: self.main_menu.with_selected(Some(1usize)),
                        ..self
                    }
                },
                CurrentScreen::SoundSelection => self.switched(CurrentScreen::Editing, selected_sound),
                _ => self,
            },
            _ => self,
        }
    }

    /// The front end after a typed value of `kind` fared as `outcome`:
    /// accepted, the typing ends and the menu shows its entry again;
    /// refused, a notice says which values are accepted (and a number out of
    /// range is wiped).
    pub open spec fn finished_edit(self, kind: CurrentlyEditing, outcome: EntryOutcome) -> ScreensView {
        match outcome {
            EntryOutcome::Accepted => ScreensView {
                currently_editing: None,
                edit_menu: self.edit_menu.with_selected(Some(entry_of(kind))),
                first_edit: true,
                ..self.cleared()
            },
            EntryOutcome::OutOfRange => ScreensView {
                edit_string: Seq::empty(),
                alert_string: alert_for(kind),
                ..self
            },
            EntryOutcome::Unreadable => ScreensView { alert_string: alert_for(kind), ..self },
        }
    }

    /// The keys that act on every screen: navigation, `+` and `-` for the
    /// tempo, `t` to start or stop (not while typing), `q` to ask whether to
    /// quit. The flag says that this key opened the quit question.
    pub open spec fn after_global_key(self, key: Key, selected_sound: usize) -> (
        ScreensView,
        Request,
        bool,
    ) {
        match key {
            Key::Up | Key::Down | Key::Left | Key::Right | Key::Tab | Key::BackTab | Key::Esc => (
                self.navigated(key, selected_sound),
                Request::Nothing,
                false,
            ),
            Key::Char(c) => if c == '+' {
                (self, Request::BpmUp, false)
            } else if c == '-' {
                (self, Request::BpmDown, false)
            } else if c == 't' && self.currently_editing is None {
                (self, Request::ToggleRunning, false)
            } else if c == 'q' && self.current_screen != CurrentScreen::Exiting {
                (
                    ScreensView {
                        current_screen: CurrentScreen::Exiting,
                        edit_menu: self.edit_menu.with_selected(None),
                        currently_editing: None,
                        ..self.cleared()
                    },
                    Request::Nothing,
                    true,
                )
            } else {
                (self, Request::Nothing, false)
            },
            _ => (self, Request::Nothing, false),
        }
    }

    /// Enter on the edit screen.
    pub open spec fn after_edit_enter(self, request: Request, selected_sound: usize) -> (
        ScreensView,
        Request,
    ) {
        match self.currently_editing {
            Some(CurrentlyEditing::Bpm) => (
                self.finished_edit(CurrentlyEditing::Bpm, bpm_outcome(self.edit_string)),
                match tempo_entry(self.edit_string) {
                    Some(t) => Request::SetTempo(t),
                    None => request,
                },
            ),
            Some(CurrentlyEditing::Volume) => (self, Request::CommitVolume),
            None => match self.edit_menu.selected {
                Some(i) => if i == 0 {
                    (self, Request::ToggleRunning)
                } else if i == 1 || i == 2 {
                    let kind = if i == 1 {
                        CurrentlyEditing::Bpm
                    } else {
                        CurrentlyEditing::Volume
                    };
                    (
                        ScreensView {
                            currently_editing: Some(kind),
                            edit_menu: self.edit_menu.with_selected(None),
                            ..self
                        },
                        Request::ShowValue(kind),
                    )
                } else if i == 3 {
                    (self.switched(CurrentScreen::SoundSelection, selected_sound), request)
                } else if i == 6 {
                    (self.switched(CurrentScreen::Main, selected_sound), request)
                } else {
                    (self, request)
                },
                None => (self, request),
            },
        }
    }

    /// The keys that act on the screen in view, after the global ones.
    pub open spec fn after_screen_key(
        self,
        key: Key,
        request: Request,
        asked_to_quit: bool,
        selected_sound: usize,
    ) -> (ScreensView, Result<Request, Failure>) {
        match self.current_screen {
            CurrentScreen::Main => if key == Key::Enter {
                match self.main_menu.selected {
                    Some(i) => if i == 0 {
                        (self, Ok(Request::ToggleRunning))
                    } else if i == 1 {
                        (self.switched(CurrentScreen::Editing, selected_sound), Ok(request))
                    } else if i == 2 {
                        (ScreensView { current_screen: CurrentScreen::Exiting, ..self }, Ok(request))
                    } else {
                        (self, Ok(request))
                    },
                    None => (self, Ok(request)),
                }
            } else {
                (self, Ok(request))
            },
            CurrentScreen::Editing => match key {
                Key::Char(c) => if self.currently_editing is Some {
                    let base = if self.first_edit {
                        Seq::empty()
                    } else {
                        self.edit_string
                    };
                    (ScreensView { edit_string: base.push(c), first_edit: false, ..self }, Ok(request))
                } else {
                    (self, Ok(request))
                },
                Key::Backspace => if self.currently_editing is Some && self.edit_string.len() > 0 {
                    (ScreensView { edit_string: self.edit_string.drop_last(), ..self }, Ok(request))
                } else {
                    (self, Ok(request))
                },
                Key::Enter => {
                    let (s, r) = self.after_edit_enter(request, selected_sound);
                    (s, Ok(r))
                },
                _ => (self, Ok(request)),
            },
            CurrentScreen::SoundSelection => if key == Key::Enter {
                (
                    self.switched(CurrentScreen::Editing, selected_sound),
                    Ok(
                        match self.sound_selection_menu.selected {
                            Some(i) => if i < self.sound_list.len() {
                                Request::SelectSound(i)
                            } else {
                                request
                            },
                            None => request,
                        },
                    ),
                )
            } else {
                (self, Ok(request))
            },
            CurrentScreen::Exiting => match key {
                Key::Char(c) => if c == 'y' || c == 'q' {
                    (ScreensView { should_quit: self.should_quit || !asked_to_quit, ..self }, Ok(request))
                } else if c == 'n' {
                    (self.back_to_main(), Ok(request))
                } else {
                    (self, Ok(request))
                },
                Key::Enter => (ScreensView { should_quit: self.should_quit || !asked_to_quit, ..self }, Ok(request)),
                Key::Backspace | Key::Esc | Key::Tab => (self.back_to_main(), Ok(request)),
                _ => (self, Ok(request)),
            },
            CurrentScreen::Error => match key {
                Key::Char(_) => (self, Err(Failure::Terminal)),
                _ => (self, Ok(request)),
            },
        }
    }

    /// Declining to quit: the main screen with its first entry selected.
    pub open spec fn back_to_main(self) -> ScreensView {
        ScreensView {
            current_screen: CurrentScreen::Main,
            currently_editing: None,
            first_edit: true,
            main_menu: self.main_menu.with_selected(Some(0usize)),
            ..self.cleared()
        }
    }

    /// The front end after the key press `key`: when the metronome has
    /// reported an error, nothing changes and the press fails; otherwise the
    /// global keys act, then those of the screen in view.
    pub open spec fn updated(self, key: Key, error: bool, selected_sound: usize) -> (
        ScreensView,
        Result<Request, Failure>,
    ) {
        if error {
            (self, Err(Failure::Halted))
        } else {
            let (s, request, asked) = self.after_global_key(key, selected_sound);
            s.after_screen_key(key, request, asked, selected_sound)
        }
    }
}

/// Reads the tempo typed as `s`: how it fares, and the tempo setting when
/// it is accepted.
pub fn read_bpm_entry(s: &str) -> (r: (EntryOutcome, Option<Tempo>))
    ensures
        r.0 == bpm_outcome(s@),
        r.1 == tempo_entry(s@),
        r.0 == EntryOutcome::Accepted <==> r.1 is Some,
{
    match parse_u64(s) {
        None => (EntryOutcome::Unreadable, None),
        Some(v) => match Tempo::from_bpm(v) {
            Some(t) => (EntryOutcome::Accepted, Some(t)),
            None => (EntryOutcome::OutOfRange, None),
        },
    }
}

/// The state of the terminal front end: which screen shows, the three
/// menus, the value being typed in and the notice shown beside it.
pub struct Screens {
    pub current_screen: CurrentScreen,
    pub currently_editing: Option<CurrentlyEditing>,
    pub edit_string: String,
    pub alert_string: String,
    pub main_menu: Menu,
    pub edit_menu: Menu,
    pub sound_selection_menu: Menu,
    pub should_quit: bool,
    /// The first key typed in an edit replaces the shown value.
    pub first_edit: bool,
    pub sound_list: Vec<String>,
}

impl View for Screens {
    type V = ScreensView;

    open spec fn view(&self) -> ScreensView {
        ScreensView {
            current_screen: self.current_screen,
            currently_editing: self.currently_editing,
            edit_string: self.edit_string@,
            alert_string: self.alert_string@,
            main_menu: self.main_menu@,
            edit_menu: self.edit_menu@,
            sound_selection_menu: self.sound_selection_menu@,
            should_quit: self.should_quit,
            first_edit: self.first_edit,
            sound_list: self.sound_list@.map_values(|s: String| s@),
        }
    }
}

impl Screens {
    /// The main screen, with the main menu filled and nothing selected.
    pub fn new(sound_list: Vec<String>) -> (s: Screens)
        ensures
            s.current_screen == CurrentScreen::Main,
            s.currently_editing is None,
            s.edit_string@.len() == 0,
            s.alert_string@.len() == 0,
            s.main_menu@.items == seq![
                "Start / Stop Metronome"@,
                "Edit Metronome Settings"@,
                "Quit"@,
            ],
            s.main_menu.selected is None,
            s.edit_menu.items@.len() == 0,
            s.edit_menu.selected is None,
            s.sound_selection_menu.items@.len() == 0,
            s.sound_selection_menu.selected is None,
            !s.should_quit,
            s.first_edit,
            s.sound_list@ == sound_list@,
    {
        Screens {
            current_screen: CurrentScreen::Main,
            currently_editing: None,
            edit_string: String::new(),
            alert_string: String::new(),
            main_menu: Menu::new(
                vec![
                    "Start / Stop Metronome".to_owned(),
                    "Edit Metronome Settings".to_owned(),
                    "Quit".to_owned(),
                ],
            ),
            edit_menu: Menu::new(Vec::new()),
            sound_selection_menu: Menu::new(Vec::new()),
            should_quit: false,
            first_edit: true,
            sound_list,
        }
    }

    /// Empties the edit text and the notice.
    pub fn clear_strings(&mut self)
        ensures
            final(self)@ == old(self)@.cleared(),
    {
        self.alert_string = String::new();
        self.edit_string = String::new();
    }

    /// Shows the error screen once the metronome has reported an error.
    pub fn check_error_status(&mut self, error: bool)
        ensures
            final(self)@ == (if error {
                ScreensView { current_screen: CurrentScreen::Error, ..old(self)@ }
            } else {
                old(self)@
            }),
    {
        if error {
            self.current_screen = CurrentScreen::Error;
        }
    }

    /// Changes to the screen `new_screen`, setting the menus' selections for
    /// it; the sound menu is refilled from the catalog with `selected_sound`,
    /// the sound the settings hold, selected.
    pub fn switch_screen(&mut self, new_screen: CurrentScreen, selected_sound: usize)
        ensures
            final(self)@ == old(self)@.switched(new_screen, selected_sound),
    {
        match new_screen {
            CurrentScreen::Main => {
                self.edit_menu.unselect();
                self.sound_selection_menu.unselect();
                self.first_edit = true;
                if self.current_screen == CurrentScreen::Editing {
                    self.main_menu.select(1);
                } else {
                    self.main_menu.select(0);
                }
            },
            CurrentScreen::Editing => {
                self.main_menu.unselect();
                self.sound_selection_menu.unselect();
                self.edit_menu.select(0);
            },
            CurrentScreen::SoundSelection => {
                self.main_menu.unselect();
                self.edit_menu.unselect();
                let sounds = self.sound_list.clone();
                proof {
                    assert(sounds@.map_values(|s: String| s@) =~= self.sound_list@.map_values(
                        |s: String| s@,
                    ));
                }
                self.sound_selection_menu.set_items(sounds);
                self.sound_selection_menu.select(selected_sound);
            },
            CurrentScreen::Exiting => {
                self.main_menu.unselect();
                self.edit_menu.unselect();
                self.sound_selection_menu.unselect();
                self.currently_editing = None;
                self.clear_strings();
            },
            CurrentScreen::Error => {
                self.main_menu.unselect();
                self.edit_menu.unselect();
                self.sound_selection_menu.unselect();
            },
        }
        self.current_screen = new_screen;
    }

    /// Acts on a navigation key: arrows and tabs move the selection of the
    /// menu in view (not while a value is typed in); escape leaves the
    /// typing, or goes back one screen.
    pub fn menu_navigate(&mut self, key: Key, selected_sound: usize)
        ensures
            final(self)@ == old(self)@.navigated(key, selected_sound),
    {
        match key {
            Key::Up | Key::Left | Key::BackTab => match self.current_screen {
                CurrentScreen::Main => self.main_menu.previous(),
                CurrentScreen::Editing => {
                    if self.currently_editing.is_none() {
                        self.edit_menu.previous();
                    }
                },
                CurrentScreen::SoundSelection => self.sound_selection_menu.previous(),
                _ => {},
            },
            Key::Down | Key::Right | Key::Tab => match self.current_screen {
                CurrentScreen::Main => self.main_menu.next(),
                CurrentScreen::Editing => {
                    if self.currently_editing.is_none() {
                        self.edit_menu.next();
                    }
                },
                CurrentScreen::SoundSelection => self.sound_selection_menu.next(),
                _ => {},
            },
            Key::Esc => match self.current_screen {
                CurrentScreen::Editing => {
                    if self.currently_editing.is_some() {
                        self.edit_menu.select(0);
                        self.currently_editing = None;
                        self.clear_strings();
                    } else {
                        self.current_screen = CurrentScreen::Main;
                        self.edit_menu.unselect();
                        self.main_menu.select(1);
                    }
                },
                CurrentScreen::SoundSelection => {
                    self.switch_screen(CurrentScreen::Editing, selected_sound);
                },
                _ => {},
            },
            _ => {},
        }
    }

    /// Ends the typing of a value of `kind` that fared as `outcome`:
    /// accepted, the typing ends and the edit menu selects the entry of the
    /// setting; refused, a notice says which values are accepted, and a
    /// number out of range is wiped from the edit text.
    pub fn finish_edit(&mut self, kind: CurrentlyEditing, outcome: EntryOutcome)
        ensures
            final(self)@ == old(self)@.finished_edit(kind, outcome),
    {
        match outcome {
            EntryOutcome::Accepted => {
                self.clear_strings();
                self.currently_editing = None;
                match kind {
                    CurrentlyEditing::Bpm => self.edit_menu.select(1),
                    CurrentlyEditing::Volume => self.edit_menu.select(2),
                }
                self.first_edit = true;
            },
            EntryOutcome::OutOfRange => {
                self.edit_string = String::new();
                self.set_alert(kind);
            },
            EntryOutcome::Unreadable => {
                self.set_alert(kind);
            },
        }
    }

    fn global_key(&mut self, key: Key, selected_sound: usize) -> (r: (Request, bool))
        ensures
            (final(self)@, r.0, r.1) == old(self)@.after_global_key(key, selected_sound),
    {
        match key {
            Key::Up | Key::Down | Key::Left | Key::Right | Key::Tab | Key::BackTab | Key::Esc => {
                self.menu_navigate(key, selected_sound);
                (Request::Nothing, false)
            },
            Key::Char(c) => {
                if c == '+' {
                    (Request::BpmUp, false)
                } else if c == '-' {
                    (Request::BpmDown, false)
                } else if c == 't' && self.currently_editing.is_none() {
                    (Request::ToggleRunning, false)
                } else if c == 'q' && self.current_screen != CurrentScreen::Exiting {
                    self.current_screen = CurrentScreen::Exiting;
                    self.edit_menu.unselect();
                    self.currently_editing = None;
                    self.clear_strings();
                    (Request::Nothing, true)
                } else {
                    (Request::Nothing, false)
                }
            },
            _ => (Request::Nothing, false),
        }
    }

    fn edit_enter(&mut self, request: Request, selected_sound: usize) -> (r: Request)
        ensures
            (final(self)@, r) == old(self)@.after_edit_enter(request, selected_sound),
    {
        match self.currently_editing {
            Some(CurrentlyEditing::Bpm) => {
                let (outcome, tempo) = read_bpm_entry(self.edit_string.as_str());
                self.finish_edit(CurrentlyEditing::Bpm, outcome);
                match tempo {
                    Some(t) => Request::SetTempo(t),
                    None => request,
                }
            },
            Some(CurrentlyEditing::Volume) => Request::CommitVolume,
            None => match self.edit_menu.selected {
                Some(i) => {
                    if i == 0 {
                        Request::ToggleRunning
                    } else if i == 1 || i == 2 {
                        let kind = if i == 1 {
                            CurrentlyEditing::Bpm
                        } else {
                            CurrentlyEditing::Volume
                        };
                        self.currently_editing = Some(kind);
                        self.edit_menu.unselect();
                        Request::ShowValue(kind)
                    } else if i == 3 {
                        self.switch_screen(CurrentScreen::SoundSelection, selected_sound);
                        request
                    } else if i == 6 {
                        self.switch_screen(CurrentScreen::Main, selected_sound);
                        request
                    } else {
                        request
                    }
                },
                None => request,
            },
        }
    }

    fn screen_key(&mut self, key: Key, request: Request, asked_to_quit: bool, selected_sound: usize) -> (r: Result<Request, Failure>)
        ensures
            (final(self)@, r) == old(self)@.after_screen_key(key, request, asked_to_quit, selected_sound),
    {
        match self.current_screen {
            CurrentScreen::Main => {
                if key == Key::Enter {
                    match self.main_menu.selected {
                        Some(i) => {
                            if i == 0 {
                                Ok(Request::ToggleRunning)
                            } else if i == 1 {
                                self.switch_screen(CurrentScreen::Editing, selected_sound);
                                Ok(request)
                            } else if i == 2 {
                                self.current_screen = CurrentScreen::Exiting;
                                Ok(request)
                            } else {
                                Ok(request)
                            }
                        },
                        None => Ok(request),
                    }
                } else {
                    Ok(request)
                }
            },
            CurrentScreen::Editing => match key {
                Key::Char(c) => {
                    if self.currently_editing.is_some() {
                        if self.first_edit {
                            self.edit_string = String::new();
                            self.first_edit = false;
                        }
                        push_char(&mut self.edit_string, c);
                    }
                    Ok(request)
                },
                Key::Backspace => {
                    if self.currently_editing.is_some() {
                        pop_char(&mut self.edit_string);
                    }
                    Ok(request)
                },
                Key::Enter => Ok(self.edit_enter(request, selected_sound)),
                _ => Ok(request),
            },
            CurrentScreen::SoundSelection => {
                if key == Key::Enter {
                    let r = match self.sound_selection_menu.selected {
                        Some(i) => {
                            if i < self.sound_list.len() {
                                Request::SelectSound(i)
                            } else {
                                request
                            }
                        },
                        None => request,
                    };
                    self.switch_screen(CurrentScreen::Editing, selected_sound);
                    Ok(r)
                } else {
                    Ok(request)
                }
            },
            CurrentScreen::Exiting => {
                let confirm = match key {
                    Key::Char(c) => c == 'y' || c == 'q',
                    Key::Enter => true,
                    _ => false,
                };
                let decline = match key {
                    Key::Char(c) => c == 'n',
                    Key::Backspace | Key::Esc | Key::Tab => true,
                    _ => false,
                };
                if confirm {
                    if !asked_to_quit {
                        self.should_quit = true;
                    }
                } else if decline {
                    self.current_screen = CurrentScreen::Main;
                    self.currently_editing = None;
                    self.clear_strings();
                    self.first_edit = true;
                    self.main_menu.select(0);
                }
                Ok(request)
            },
            CurrentScreen::Error => match key {
                Key::Char(_) => Err(Failure::Terminal),
                _ => Ok(request),
            },
        }
    }

    /// Acts on the key press `key`. `error` is the error flag of the
    /// settings and `selected_sound` the sound they hold. When the flag is
    /// set the press fails and nothing changes; otherwise the global keys act
    /// (navigation, `+`/`-` for the tempo, `t` to start or stop, `q` to ask
    /// whether to quit), then those of the screen in view. The result says
    /// what to do to the settings, or why the front end has to end.
    pub fn update(&mut self, key: Key, error: bool, selected_sound: usize) -> (r: Result<Request, Failure>)
        ensures
            (final(self)@, r) == old(self)@.updated(key, error, selected_sound),
    {
        if error {
            return Err(Failure::Halted);
        }
        let (request, asked_to_quit) = self.global_key(key, selected_sound);
        self.screen_key(key, request, asked_to_quit, selected_sound)
    }

    fn set_alert(&mut self, kind: CurrentlyEditing)
        ensures
            final(self)@ == (ScreensView { alert_string: alert_for(kind), ..old(self)@ }),
    {
        self.alert_string = match kind {
            CurrentlyEditing::Bpm => "Please input a value between 20 and 500".to_owned(),
            CurrentlyEditing::Volume => "Please input a value between 1.0 and 200.0".to_owned(),
        };
    }
}

} // verus!
