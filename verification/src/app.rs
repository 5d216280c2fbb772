//! The interactive application state machine: screens, input modes, and
//! the per-screen keystroke rules that decide what happens next. The
//! handlers mutate the state and return an [`Effect`]: the one
//! collaborator call, if any, that the caller must perform before the
//! next keystroke. The outcome of such a call is fed back through the
//! `finish_*` methods, so every decision stays inside this module while
//! rendering and persistence stay outside.

use vstd::prelude::*;
use crate::config::{format_of_token, parse_format_token, Config};
use crate::decimal::{append_u64, dec_str};
use crate::editor::EditBuffer;
use crate::strutil::{pop_char, push_char};

verus! {

/// One full-terminal view of the application. `Quit` is terminal; every
/// other screen has a keystroke leading back to `Main` (or, from `Main`
/// itself, to `Quit`).
#[derive(Clone, Copy, Debug, PartialEq, Eq, Structural)]
pub enum AppScreen {
    Main,
    AddJournal,
    ViewJournals,
    Settings,
    Help,
    Quit,
}

/// Sub-state of the Add-Journal screen: whether keystrokes are commands
/// or literal text.
#[derive(Clone, Copy, Debug, PartialEq, Eq, Structural)]
pub enum InputMode {
    Normal,
    Editing,
}

/// Severity of the transient status message.
#[derive(Clone, Copy, Debug, PartialEq, Eq, Structural)]
pub enum MessageType {
    Success,
    Error,
    Info,
    Warning,
}

/// One saved journal entry, as the persistence collaborator hands it
/// over: an immutable view for browsing.
#[derive(Clone, Debug)]
pub struct JournalEntry {
    pub date: String,
    pub content: String,
    pub filename: String,
}

/// A keystroke, reduced to what the dispatch tables distinguish. The
/// caller maps its input backend's events onto this; everything the
/// tables ignore maps to `Other`.
#[derive(Clone, Copy, Debug, PartialEq, Eq, Structural)]
pub enum Key {
    Char(char),
    Esc,
    Enter,
    Backspace,
    Up,
    Down,
    Left,
    Right,
    Home,
    End,
    Other,
}

/// The collaborator call a keystroke asks for. The caller performs it
/// and reports the outcome through the matching `finish_*` method.
#[derive(Clone, Copy, Debug, PartialEq, Eq, Structural)]
pub enum Effect {
    Nothing,
    SaveEntry,
    LoadEntries,
    PersistSettings,
}

/// The whole application state; one value of this is threaded through
/// the event loop and mutated only by the handlers here.
pub struct App {
    pub current_screen: AppScreen,
    pub input_mode: InputMode,
    pub current_input: EditBuffer,
    pub selected_menu_item: usize,
    pub message: Option<String>,
    pub message_type: MessageType,
    pub processing: bool,
    pub journal_entries: Vec<JournalEntry>,
    pub selected_journal: usize,
    pub config: Config,
    pub settings_selection: usize,
    pub settings_input: String,
    pub settings_editing: bool,
}

/// The largest main-menu index: five entries, indexed 0 through 4.
pub const MAIN_MENU_MAX: usize = 4;

/// The largest settings-field index: three fields, indexed 0 through 2.
pub const SETTINGS_MAX: usize = 2;

/// `post` carries the given status message, replacing whatever was
/// there.
pub open spec fn posts_message(post: App, text: Seq<char>, kind: MessageType) -> bool {
    &&& post.message matches Some(m) && m@ == text
    &&& post.message_type == kind
}

impl App {
    /// The application invariant: the cursor stays inside the draft
    /// buffer, every selection index stays inside its menu, and the
    /// journal selection points at a loaded entry (or zero when none
    /// are loaded).
    pub open spec fn wf(self) -> bool {
        &&& self.current_input.wf()
        &&& self.selected_menu_item <= MAIN_MENU_MAX
        &&& self.settings_selection <= SETTINGS_MAX
        &&& self.journal_entries@.len() == 0 ==> self.selected_journal == 0
        &&& self.journal_entries@.len() > 0 ==> self.selected_journal < self.journal_entries@.len()
    }

    /// A fresh application: on the main screen, nothing typed, nothing
    /// loaded, no message, not processing.
    pub fn new(config: Config) -> (r: App)
        ensures
            r.wf(),
            r.current_screen == AppScreen::Main,
            r.input_mode == InputMode::Normal,
            EditBuffer::is_cleared(r.current_input),
            r.selected_menu_item == 0,
            r.message is None,
            r.message_type == MessageType::Info,
            !r.processing,
            r.journal_entries@ == Seq::<JournalEntry>::empty(),
            r.selected_journal == 0,
            r.config == config,
            r.settings_selection == 0,
            r.settings_input@ == Seq::<char>::empty(),
            !r.settings_editing,
    {
        App {
            current_screen: AppScreen::Main,
            input_mode: InputMode::Normal,
            current_input: EditBuffer::new(),
            selected_menu_item: 0,
            message: None,
            message_type: MessageType::Info,
            processing: false,
            journal_entries: Vec::new(),
            selected_journal: 0,
            config,
            settings_selection: 0,
            settings_input: String::new(),
            settings_editing: false,
        }
    }

    /// Periodic tick; nothing happens on it.
    pub fn on_tick(&mut self)
        ensures
            *final(self) == *old(self),
    {
    }
}

/// What a keystroke on the main screen does: Up and Down move the menu
/// selection, clamped to `[0, MAIN_MENU_MAX]`; Enter dispatches on it;
/// `q` and Esc quit; everything else is ignored.
pub open spec fn main_input_ok(pre: App, key: Key, post: App, eff: Effect) -> bool {
    match key {
        Key::Char(c) => if c == 'q' {
            post == App { current_screen: AppScreen::Quit, ..pre } && eff == Effect::Nothing
        } else {
            post == pre && eff == Effect::Nothing
        },
        Key::Esc => post == App { current_screen: AppScreen::Quit, ..pre } && eff
            == Effect::Nothing,
        Key::Up => {
            &&& post == App { selected_menu_item: post.selected_menu_item, ..pre }
            &&& post.selected_menu_item == if pre.selected_menu_item > 0 {
                pre.selected_menu_item - 1
            } else {
                0int
            }
            &&& eff == Effect::Nothing
        },
        Key::Down => {
            &&& post == App { selected_menu_item: post.selected_menu_item, ..pre }
            &&& post.selected_menu_item == if pre.selected_menu_item < MAIN_MENU_MAX {
                pre.selected_menu_item + 1
            } else {
                pre.selected_menu_item as int
            }
            &&& eff == Effect::Nothing
        },
        Key::Enter => {
            if pre.selected_menu_item == 0 {
                post == App { current_screen: AppScreen::AddJournal, ..pre } && eff
                    == Effect::Nothing
            } else if pre.selected_menu_item == 1 {
                post == App { current_screen: AppScreen::ViewJournals, ..pre } && eff
                    == Effect::LoadEntries
            } else if pre.selected_menu_item == 2 {
                post == App { current_screen: AppScreen::Settings, ..pre } && eff
                    == Effect::Nothing
            } else if pre.selected_menu_item == 3 {
                post == App { current_screen: AppScreen::Help, ..pre } && eff == Effect::Nothing
            } else if pre.selected_menu_item == 4 {
                post == App { current_screen: AppScreen::Quit, ..pre } && eff == Effect::Nothing
            } else {
                post == pre && eff == Effect::Nothing
            }
        },
        _ => post == pre && eff == Effect::Nothing,
    }
}

/// `post` is `pre` with the draft input discarded: buffer cleared,
/// cursor reset, mode back to Normal, the processing latch released.
pub open spec fn input_state_reset(pre: App, post: App) -> bool {
    &&& post == App {
        current_input: post.current_input,
        input_mode: InputMode::Normal,
        processing: false,
        ..pre
    }
    &&& EditBuffer::is_cleared(post.current_input)
}

/// `post` is `pre` back on the main screen with the draft input
/// discarded.
pub open spec fn reset_to_main(pre: App, post: App) -> bool {
    &&& post == App {
        current_screen: AppScreen::Main,
        current_input: post.current_input,
        input_mode: InputMode::Normal,
        processing: false,
        ..pre
    }
    &&& EditBuffer::is_cleared(post.current_input)
}

/// What a keystroke on the Add-Journal screen does. In Normal mode,
/// `e` switches to Editing, `s` requests a save only when the draft is
/// non-empty and no save is in flight, and `q`/Esc discard the draft
/// and return to the main screen. In Editing mode every printable
/// character is literal text, Esc returns to Normal mode with the draft
/// retained, and no save or quit key is live.
pub open spec fn add_journal_input_ok(pre: App, key: Key, post: App, eff: Effect) -> bool {
    match pre.input_mode {
        InputMode::Normal => match key {
            Key::Char(c) => if c == 'e' {
                &&& post == App {
                    input_mode: InputMode::Editing,
                    message: post.message,
                    message_type: post.message_type,
                    ..pre
                }
                &&& posts_message(post, "Start typing your journal entry..."@, MessageType::Info)
                &&& eff == Effect::Nothing
            } else if c == 's' {
                if pre.current_input.chars@.len() > 0 && !pre.processing {
                    &&& post == App {
                        processing: true,
                        message: post.message,
                        message_type: post.message_type,
                        ..pre
                    }
                    &&& posts_message(post, "Processing with LLM..."@, MessageType::Info)
                    &&& eff == Effect::SaveEntry
                } else {
                    post == pre && eff == Effect::Nothing
                }
            } else if c == 'q' {
                reset_to_main(pre, post) && eff == Effect::Nothing
            } else {
                post == pre && eff == Effect::Nothing
            },
            Key::Esc => reset_to_main(pre, post) && eff == Effect::Nothing,
            _ => post == pre && eff == Effect::Nothing,
        },
        InputMode::Editing => match key {
            Key::Esc => {
                &&& post == App {
                    input_mode: InputMode::Normal,
                    message: post.message,
                    message_type: post.message_type,
                    ..pre
                }
                &&& posts_message(post, "Press 's' to save or 'q' to quit"@, MessageType::Info)
                &&& eff == Effect::Nothing
            },
            Key::Char(c) => {
                &&& if pre.current_input.chars@.len() < usize::MAX {
                    post == App { current_input: post.current_input, ..pre }
                        && EditBuffer::inserted(pre.current_input, post.current_input, c)
                } else {
                    post == pre
                }
                &&& eff == Effect::Nothing
            },
            Key::Backspace => {
                &&& post == App { current_input: post.current_input, ..pre }
                &&& EditBuffer::deleted_before(pre.current_input, post.current_input)
                &&& eff == Effect::Nothing
            },
            Key::Left => {
                &&& post == App { current_input: post.current_input, ..pre }
                &&& EditBuffer::moved_left(pre.current_input, post.current_input)
                &&& eff == Effect::Nothing
            },
            Key::Right => {
                &&& post == App { current_input: post.current_input, ..pre }
                &&& EditBuffer::moved_right(pre.current_input, post.current_input)
                &&& eff == Effect::Nothing
            },
            Key::Home => {
                &&& post == App { current_input: post.current_input, ..pre }
                &&& post.current_input.chars == pre.current_input.chars
                &&& post.current_input.cursor == 0
                &&& eff == Effect::Nothing
            },
            Key::End => {
                &&& post == App { current_input: post.current_input, ..pre }
                &&& post.current_input.chars == pre.current_input.chars
                &&& post.current_input.cursor == pre.current_input.chars@.len()
                &&& eff == Effect::Nothing
            },
            _ => post == pre && eff == Effect::Nothing,
        },
    }
}

/// What a keystroke on the View-Journals screen does: Up and Down move
/// the selection within the loaded list (no-ops when the list is
/// empty), `r` requests a reload, `q`/Esc return to the main screen.
pub open spec fn view_journals_input_ok(pre: App, key: Key, post: App, eff: Effect) -> bool {
    match key {
        Key::Esc => post == App { current_screen: AppScreen::Main, ..pre } && eff
            == Effect::Nothing,
        Key::Char(c) => if c == 'q' {
            post == App { current_screen: AppScreen::Main, ..pre } && eff == Effect::Nothing
        } else if c == 'r' {
            post == pre && eff == Effect::LoadEntries
        } else {
            post == pre && eff == Effect::Nothing
        },
        Key::Up => {
            &&& post == App { selected_journal: post.selected_journal, ..pre }
            &&& post.selected_journal == if pre.selected_journal > 0 {
                pre.selected_journal - 1
            } else {
                0int
            }
            &&& eff == Effect::Nothing
        },
        Key::Down => {
            &&& post == App { selected_journal: post.selected_journal, ..pre }
            &&& post.selected_journal == if pre.journal_entries@.len() > 0 && pre.selected_journal
                < pre.journal_entries@.len() - 1 {
                pre.selected_journal + 1
            } else {
                pre.selected_journal as int
            }
            &&& eff == Effect::Nothing
        },
        _ => post == pre && eff == Effect::Nothing,
    }
}

/// `post` is `pre` with a settings draft opened for the selected field,
/// seeded with that field's current stringified value: the directory
/// path for field 0, the short format token for field 1, and empty for
/// the display-only date-format field.
pub open spec fn editing_begun(pre: App, post: App) -> bool {
    &&& post == App { settings_editing: true, settings_input: post.settings_input, ..pre }
    &&& post.settings_input@ == if pre.settings_selection == 0 {
        pre.config.journal_directory@
    } else if pre.settings_selection == 1 {
        pre.config.file_format.extension_view()
    } else {
        Seq::<char>::empty()
    }
}

/// `post` is `pre` with the settings draft committed into the
/// configuration and closed: field 0 replaces the journal directory
/// verbatim, field 1 maps the typed token to a format (unrecognized
/// tokens fall back to Markdown), the display-only field changes
/// nothing.
pub open spec fn settings_committed(pre: App, post: App) -> bool {
    &&& post == App {
        config: post.config,
        settings_editing: false,
        settings_input: post.settings_input,
        ..pre
    }
    &&& post.settings_input@ == Seq::<char>::empty()
    &&& if pre.settings_selection == 0 {
        post.config == Config { journal_directory: pre.settings_input, ..pre.config }
    } else if pre.settings_selection == 1 {
        post.config == Config {
            file_format: format_of_token(pre.settings_input@),
            ..pre.config
        }
    } else {
        post.config == pre.config
    }
}

/// `post` is `pre` with only the configuration changed, as committing
/// the settings draft for the selected field changes it: the directory
/// path verbatim for field 0, the typed token's format for field 1,
/// nothing for the display-only field.
pub open spec fn config_committed(pre: App, post: App) -> bool {
    &&& post == App { config: post.config, ..pre }
    &&& if pre.settings_selection == 0 {
        post.config == Config { journal_directory: pre.settings_input, ..pre.config }
    } else if pre.settings_selection == 1 {
        post.config == Config {
            file_format: format_of_token(pre.settings_input@),
            ..pre.config
        }
    } else {
        post.config == pre.config
    }
}

/// What a keystroke on the Settings screen does. While a field is being
/// edited, characters grow the draft, Backspace shrinks it, Enter
/// commits it (requesting persistence), Esc discards it. Otherwise Up
/// and Down move the field selection, clamped to `[0, SETTINGS_MAX]`,
/// Enter begins editing, and `q`/Esc return to the main screen.
pub open spec fn settings_input_ok(pre: App, key: Key, post: App, eff: Effect) -> bool {
    if pre.settings_editing {
        match key {
            Key::Esc => {
                &&& post == App {
                    settings_editing: false,
                    settings_input: post.settings_input,
                    ..pre
                }
                &&& post.settings_input@ == Seq::<char>::empty()
                &&& eff == Effect::Nothing
            },
            Key::Enter => settings_committed(pre, post) && eff == Effect::PersistSettings,
            Key::Char(c) => {
                &&& post == App { settings_input: post.settings_input, ..pre }
                &&& post.settings_input@ == pre.settings_input@.push(c)
                &&& eff == Effect::Nothing
            },
            Key::Backspace => {
                &&& post == App { settings_input: post.settings_input, ..pre }
                &&& post.settings_input@ == if pre.settings_input@.len() > 0 {
                    pre.settings_input@.drop_last()
                } else {
                    pre.settings_input@
                }
                &&& eff == Effect::Nothing
            },
            _ => post == pre && eff == Effect::Nothing,
        }
    } else {
        match key {
            Key::Esc => post == App { current_screen: AppScreen::Main, ..pre } && eff
                == Effect::Nothing,
            Key::Char(c) => if c == 'q' {
                post == App { current_screen: AppScreen::Main, ..pre } && eff == Effect::Nothing
            } else {
                post == pre && eff == Effect::Nothing
            },
            Key::Up => {
                &&& post == App { settings_selection: post.settings_selection, ..pre }
                &&& post.settings_selection == if pre.settings_selection > 0 {
                    pre.settings_selection - 1
                } else {
                    0int
                }
                &&& eff == Effect::Nothing
            },
            Key::Down => {
                &&& post == App { settings_selection: post.settings_selection, ..pre }
                &&& post.settings_selection == if pre.settings_selection < SETTINGS_MAX {
                    pre.settings_selection + 1
                } else {
                    pre.settings_selection as int
                }
                &&& eff == Effect::Nothing
            },
            Key::Enter => editing_begun(pre, post) && eff == Effect::Nothing,
            _ => post == pre && eff == Effect::Nothing,
        }
    }
}

/// What a keystroke on the Help screen does: `q` and Esc return to the
/// main screen; every other key is ignored.
pub open spec fn help_input_ok(pre: App, key: Key, post: App, eff: Effect) -> bool {
    match key {
        Key::Esc => post == App { current_screen: AppScreen::Main, ..pre } && eff
            == Effect::Nothing,
        Key::Char(c) => if c == 'q' {
            post == App { current_screen: AppScreen::Main, ..pre } && eff == Effect::Nothing
        } else {
            post == pre && eff == Effect::Nothing
        },
        _ => post == pre && eff == Effect::Nothing,
    }
}

/// The whole per-keystroke transition relation, dispatched on the
/// current screen. On the terminal screen nothing happens.
pub open spec fn step_ok(pre: App, key: Key, post: App, eff: Effect) -> bool {
    match pre.current_screen {
        AppScreen::Main => main_input_ok(pre, key, post, eff),
        AppScreen::AddJournal => add_journal_input_ok(pre, key, post, eff),
        AppScreen::ViewJournals => view_journals_input_ok(pre, key, post, eff),
        AppScreen::Settings => settings_input_ok(pre, key, post, eff),
        AppScreen::Help => help_input_ok(pre, key, post, eff),
        AppScreen::Quit => post == pre && eff == Effect::Nothing,
    }
}

/// What feeding a save outcome back does: on success the draft is
/// cleared and a Success message posted; on failure the draft is kept
/// so the user can retry, and the collaborator's failure detail is
/// posted as an Error message. The processing latch is released either
/// way.
pub open spec fn save_finished(pre: App, outcome: Result<(), String>, post: App) -> bool {
    match outcome {
        Ok(_) => {
            &&& post == App {
                current_input: post.current_input,
                input_mode: InputMode::Normal,
                processing: false,
                message: post.message,
                message_type: post.message_type,
                ..pre
            }
            &&& EditBuffer::is_cleared(post.current_input)
            &&& posts_message(post, "Journal entry saved successfully!"@, MessageType::Success)
        },
        Err(e) => {
            &&& post == App {
                processing: false,
                message: post.message,
                message_type: post.message_type,
                ..pre
            }
            &&& posts_message(post, "Failed to save journal: "@ + e@, MessageType::Error)
        },
    }
}

/// What feeding a load outcome back does: on success the entry list is
/// replaced, the selection reset to the top and a Success message with
/// the count posted; on failure the list is kept and the failure detail
/// posted as an Error message.
pub open spec fn load_finished(pre: App, outcome: Result<Vec<JournalEntry>, String>, post: App) -> bool {
    match outcome {
        Ok(entries) => {
            &&& post == App {
                journal_entries: post.journal_entries,
                selected_journal: 0,
                message: post.message,
                message_type: post.message_type,
                ..pre
            }
            &&& post.journal_entries == entries
            &&& posts_message(
                post,
                "Loaded "@ + dec_str(entries@.len() as int) + " journal entries"@,
                MessageType::Success,
            )
        },
        Err(e) => {
            &&& post == App { message: post.message, message_type: post.message_type, ..pre }
            &&& posts_message(post, "Failed to load journals: "@ + e@, MessageType::Error)
        },
    }
}

/// What feeding a settings-persistence outcome back does: a Success or
/// Error message, nothing else.
pub open spec fn settings_save_finished(pre: App, outcome: Result<(), String>, post: App) -> bool {
    match outcome {
        Ok(_) => {
            &&& post == App { message: post.message, message_type: post.message_type, ..pre }
            &&& posts_message(post, "Settings saved successfully!"@, MessageType::Success)
        },
        Err(e) => {
            &&& post == App { message: post.message, message_type: post.message_type, ..pre }
            &&& posts_message(post, "Failed to save settings: "@ + e@, MessageType::Error)
        },
    }
}

impl App {
    /// Keystroke dispatch for the main screen.
    pub fn handle_main_input(&mut self, key: Key) -> (eff: Effect)
        requires
            old(self).wf(),
        ensures
            final(self).wf(),
            main_input_ok(*old(self), key, *final(self), eff),
    {
        match key {
            Key::Char(c) => {
                if c == 'q' {
                    self.current_screen = AppScreen::Quit;
                }
                Effect::Nothing
            },
            Key::Esc => {
                self.current_screen = AppScreen::Quit;
                Effect::Nothing
            },
            Key::Up => {
                if self.selected_menu_item > 0 {
                    self.selected_menu_item = self.selected_menu_item - 1;
                }
                Effect::Nothing
            },
            Key::Down => {
                if self.selected_menu_item < MAIN_MENU_MAX {
                    self.selected_menu_item = self.selected_menu_item + 1;
                }
                Effect::Nothing
            },
            Key::Enter => {
                if self.selected_menu_item == 0 {
                    self.current_screen = AppScreen::AddJournal;
                    Effect::Nothing
                } else if self.selected_menu_item == 1 {
                    self.current_screen = AppScreen::ViewJournals;
                    Effect::LoadEntries
                } else if self.selected_menu_item == 2 {
                    self.current_screen = AppScreen::Settings;
                    Effect::Nothing
                } else if self.selected_menu_item == 3 {
                    self.current_screen = AppScreen::Help;
                    Effect::Nothing
                } else {
                    self.current_screen = AppScreen::Quit;
                    Effect::Nothing
                }
            },
            _ => Effect::Nothing,
        }
    }

    /// Keystroke dispatch for the Add-Journal screen.
    pub fn handle_add_journal_input(&mut self, key: Key) -> (eff: Effect)
        requires
            old(self).wf(),
        ensures
            final(self).wf(),
            add_journal_input_ok(*old(self), key, *final(self), eff),
    {
        match self.input_mode {
            InputMode::Normal => match key {
                Key::Char(c) => {
                    if c == 'e' {
                        self.input_mode = InputMode::Editing;
                        self.message = Some(
                            String::from_str("Start typing your journal entry..."),
                        );
                        self.message_type = MessageType::Info;
                        Effect::Nothing
                    } else if c == 's' {
                        if !self.current_input.is_empty() && !self.processing {
                            self.processing = true;
                            self.message = Some(String::from_str("Processing with LLM..."));
                            self.message_type = MessageType::Info;
                            Effect::SaveEntry
                        } else {
                            Effect::Nothing
                        }
                    } else if c == 'q' {
                        self.reset_input_state();
                        self.current_screen = AppScreen::Main;
                        Effect::Nothing
                    } else {
                        Effect::Nothing
                    }
                },
                Key::Esc => {
                    self.reset_input_state();
                    self.current_screen = AppScreen::Main;
                    Effect::Nothing
                },
                _ => Effect::Nothing,
            },
            InputMode::Editing => match key {
                Key::Esc => {
                    self.input_mode = InputMode::Normal;
                    self.message = Some(String::from_str("Press 's' to save or 'q' to quit"));
                    self.message_type = MessageType::Info;
                    Effect::Nothing
                },
                Key::Char(c) => {
                    if self.current_input.len() < usize::MAX {
                        self.current_input.insert(c);
                    }
                    Effect::Nothing
                },
                Key::Backspace => {
                    self.current_input.delete_before_cursor();
                    Effect::Nothing
                },
                Key::Left => {
                    self.current_input.move_left();
                    Effect::Nothing
                },
                Key::Right => {
                    self.current_input.move_right();
                    Effect::Nothing
                },
                Key::Home => {
                    self.current_input.move_home();
                    Effect::Nothing
                },
                Key::End => {
                    self.current_input.move_end();
                    Effect::Nothing
                },
                _ => Effect::Nothing,
            },
        }
    }

    /// Keystroke dispatch for the View-Journals screen.
    pub fn handle_view_journals_input(&mut self, key: Key) -> (eff: Effect)
        requires
            old(self).wf(),
        ensures
            final(self).wf(),
            view_journals_input_ok(*old(self), key, *final(self), eff),
    {
        match key {
            Key::Esc => {
                self.current_screen = AppScreen::Main;
                Effect::Nothing
            },
            Key::Char(c) => {
                if c == 'q' {
                    self.current_screen = AppScreen::Main;
                    Effect::Nothing
                } else if c == 'r' {
                    Effect::LoadEntries
                } else {
                    Effect::Nothing
                }
            },
            Key::Up => {
                if self.selected_journal > 0 {
                    self.selected_journal = self.selected_journal - 1;
                }
                Effect::Nothing
            },
            Key::Down => {
                if self.journal_entries.len() > 0 && self.selected_journal
                    < self.journal_entries.len() - 1 {
                    self.selected_journal = self.selected_journal + 1;
                }
                Effect::Nothing
            },
            _ => Effect::Nothing,
        }
    }

    /// Keystroke dispatch for the Settings screen.
    pub fn handle_settings_input(&mut self, key: Key) -> (eff: Effect)
        requires
            old(self).wf(),
        ensures
            final(self).wf(),
            settings_input_ok(*old(self), key, *final(self), eff),
    {
        if self.settings_editing {
            match key {
                Key::Esc => {
                    self.settings_editing = false;
                    self.settings_input = String::new();
                    Effect::Nothing
                },
                Key::Enter => {
                    self.apply_settings_change();
                    self.settings_editing = false;
                    self.settings_input = String::new();
                    Effect::PersistSettings
                },
                Key::Char(c) => {
                    push_char(&mut self.settings_input, c);
                    Effect::Nothing
                },
                Key::Backspace => {
                    pop_char(&mut self.settings_input);
                    Effect::Nothing
                },
                _ => Effect::Nothing,
            }
        } else {
            match key {
                Key::Esc => {
                    self.current_screen = AppScreen::Main;
                    Effect::Nothing
                },
                Key::Char(c) => {
                    if c == 'q' {
                        self.current_screen = AppScreen::Main;
                    }
                    Effect::Nothing
                },
                Key::Up => {
                    if self.settings_selection > 0 {
                        self.settings_selection = self.settings_selection - 1;
                    }
                    Effect::Nothing
                },
                Key::Down => {
                    if self.settings_selection < SETTINGS_MAX {
                        self.settings_selection = self.settings_selection + 1;
                    }
                    Effect::Nothing
                },
                Key::Enter => {
                    self.start_editing_setting();
                    Effect::Nothing
                },
                _ => Effect::Nothing,
            }
        }
    }

    /// Keystroke dispatch for the Help screen.
    pub fn handle_help_input(&mut self, key: Key) -> (eff: Effect)
        requires
            old(self).wf(),
        ensures
            final(self).wf(),
            help_input_ok(*old(self), key, *final(self), eff),
    {
        match key {
            Key::Esc => {
                self.current_screen = AppScreen::Main;
                Effect::Nothing
            },
            Key::Char(c) => {
                if c == 'q' {
                    self.current_screen = AppScreen::Main;
                }
                Effect::Nothing
            },
            _ => Effect::Nothing,
        }
    }

    /// Dispatches one keystroke according to the current screen's table.
    pub fn handle_key_event(&mut self, key: Key) -> (eff: Effect)
        requires
            old(self).wf(),
        ensures
            final(self).wf(),
            step_ok(*old(self), key, *final(self), eff),
    {
        match self.current_screen {
            AppScreen::Main => self.handle_main_input(key),
            AppScreen::AddJournal => self.handle_add_journal_input(key),
            AppScreen::ViewJournals => self.handle_view_journals_input(key),
            AppScreen::Settings => self.handle_settings_input(key),
            AppScreen::Help => self.handle_help_input(key),
            AppScreen::Quit => Effect::Nothing,
        }
    }

    /// Opens the settings draft for the selected field, seeded with the
    /// field's current stringified value.
    pub fn start_editing_setting(&mut self)
        requires
            old(self).wf(),
        ensures
            final(self).wf(),
            editing_begun(*old(self), *final(self)),
    {
        self.settings_editing = true;
        self.settings_input = if self.settings_selection == 0 {
            self.config.get_journal_directory_display()
        } else if self.settings_selection == 1 {
            String::from_str(self.config.file_format.extension())
        } else {
            String::new()
        };
    }

    /// Commits the settings draft into the configuration: the directory
    /// path verbatim for field 0, the format token's format for field 1
    /// (unrecognized tokens fall back to Markdown), nothing for the
    /// display-only field.
    pub fn apply_settings_change(&mut self)
        requires
            old(self).wf(),
        ensures
            final(self).wf(),
            config_committed(*old(self), *final(self)),
    {
        if self.settings_selection == 0 {
            self.config.journal_directory = self.settings_input.clone();
        } else if self.settings_selection == 1 {
            self.config.file_format = parse_format_token(&self.settings_input);
        }
    }

    /// Discards the draft input: buffer cleared, mode back to Normal,
    /// processing latch released.
    pub fn reset_input_state(&mut self)
        requires
            old(self).wf(),
        ensures
            final(self).wf(),
            input_state_reset(*old(self), *final(self)),
    {
        self.current_input.clear();
        self.input_mode = InputMode::Normal;
        self.processing = false;
    }

    /// Applies the outcome of the save the last `Effect::SaveEntry`
    /// asked for.
    pub fn finish_save(&mut self, outcome: Result<(), String>)
        requires
            old(self).wf(),
        ensures
            final(self).wf(),
            save_finished(*old(self), outcome, *final(self)),
    {
        match outcome {
            Ok(_) => {
                self.message = Some(String::from_str("Journal entry saved successfully!"));
                self.message_type = MessageType::Success;
                self.reset_input_state();
            },
            Err(e) => {
                let mut m = String::from_str("Failed to save journal: ");
                m.append(e.as_str());
                self.message = Some(m);
                self.message_type = MessageType::Error;
                self.processing = false;
            },
        }
    }

    /// Applies the outcome of the reload the last `Effect::LoadEntries`
    /// asked for.
    pub fn finish_load(&mut self, outcome: Result<Vec<JournalEntry>, String>)
        requires
            old(self).wf(),
        ensures
            final(self).wf(),
            load_finished(*old(self), outcome, *final(self)),
    {
        match outcome {
            Ok(entries) => {
                let n = entries.len();
                self.journal_entries = entries;
                self.selected_journal = 0;
                let mut m = String::from_str("Loaded ");
                append_u64(&mut m, n as u64);
                m.append(" journal entries");
                self.message = Some(m);
                self.message_type = MessageType::Success;
            },
            Err(e) => {
                let mut m = String::from_str("Failed to load journals: ");
                m.append(e.as_str());
                self.message = Some(m);
                self.message_type = MessageType::Error;
            },
        }
    }

    /// Applies the outcome of the settings persistence the last
    /// `Effect::PersistSettings` asked for. A failure is reported as an
    /// Error message and the application stays interactive.
    pub fn finish_settings_save(&mut self, outcome: Result<(), String>)
        requires
            old(self).wf(),
        ensures
            final(self).wf(),
            settings_save_finished(*old(self), outcome, *final(self)),
    {
        match outcome {
            Ok(_) => {
                self.message = Some(String::from_str("Settings saved successfully!"));
                self.message_type = MessageType::Success;
            },
            Err(e) => {
                let mut m = String::from_str("Failed to save settings: ");
                m.append(e.as_str());
                self.message = Some(m);
                self.message_type = MessageType::Error;
            },
        }
    }
}

/// Law: a dispatched keystroke preserves the application invariant —
/// the cursor stays inside the draft text and every selection index
/// stays inside its bounds, however many keystrokes are applied in
/// sequence.
pub proof fn lemma_step_preserves_wf(pre: App, key: Key, post: App, eff: Effect)
    requires
        pre.wf(),
        step_ok(pre, key, post, eff),
    ensures
        post.wf(),
{
}

/// Law: no screen but `Quit` is terminal. With no draft being edited,
/// Esc returns every other screen to the main screen, and exits the
/// main screen itself to `Quit`.
pub proof fn lemma_every_screen_has_an_exit(pre: App, post: App, eff: Effect)
    requires
        pre.wf(),
        pre.input_mode == InputMode::Normal,
        !pre.settings_editing,
        step_ok(pre, Key::Esc, post, eff),
    ensures
        pre.current_screen == AppScreen::Main ==> post.current_screen == AppScreen::Quit,
        pre.current_screen != AppScreen::Main && pre.current_screen != AppScreen::Quit
            ==> post.current_screen == AppScreen::Main,
{
}

/// Law: saving is rejected outright — no collaborator call, no state
/// change — while the draft is empty or a save is already in flight.
pub proof fn lemma_save_rejected(pre: App, post: App, eff: Effect)
    requires
        pre.wf(),
        pre.current_screen == AppScreen::AddJournal,
        pre.input_mode == InputMode::Normal,
        pre.current_input.chars@.len() == 0 || pre.processing,
        step_ok(pre, Key::Char('s'), post, eff),
    ensures
        post == pre,
        eff == Effect::Nothing,
{
}

} // verus!
