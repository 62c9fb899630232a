//! What a key does to the wizard.

use crate::text::{pop_char, push_char};
use crate::tui::app::{image_missing, App, Screen};
use crate::tui::screens::{
    ArchScreen, CompressScreen, ImageScreen, InitScreen, InjectScreen, LanguageScreen,
};
use vstd::prelude::*;

verus! {

/// The keys that the wizard tells apart.
#[derive(Debug, Clone, Copy, PartialEq, Eq, Structural)]
pub enum Key {
    Char(char),
    Enter,
    Esc,
    Up,
    Down,
    Left,
    Right,
    Tab,
    Backspace,
    /// Any other key.
    Other,
}

/// What the caller is to do after a key.
#[derive(Debug, Clone, Copy, PartialEq, Eq, Structural)]
pub enum Action {
    /// Nothing but to draw the wizard again.
    Idle,
    /// To leave the wizard.
    Quit,
    /// To run the build.
    Build,
}

/// Whether the text of an optional string is `text`.
pub open spec fn shows(shown: Option<String>, text: Seq<char>) -> bool {
    shown matches Some(s) && s@ == text
}

/// What a key does on the language screen.
pub open spec fn language_key(before: App, key: Key, after: App) -> bool {
    match key {
        Key::Up => after == (App { language_screen: after.language_screen, ..before })
            && LanguageScreen::was_prev(before.language_screen, after.language_screen),
        Key::Down => after == (App { language_screen: after.language_screen, ..before })
            && LanguageScreen::was_next(before.language_screen, after.language_screen),
        Key::Left => after == (App { language_screen: after.language_screen, ..before })
            && LanguageScreen::was_prev_version(before.language_screen, after.language_screen),
        Key::Right => after == (App { language_screen: after.language_screen, ..before })
            && LanguageScreen::was_next_version(before.language_screen, after.language_screen),
        Key::Enter => App::was_next_screen(before, after),
        Key::Esc => after == (App { should_quit: true, ..before }),
        _ => after == before,
    }
}

/// What a key does on the image screen. Enter goes on if an image is typed,
/// and complains if not.
pub open spec fn image_key(before: App, key: Key, after: App) -> bool {
    match key {
        Key::Enter => if image_missing(before.image_screen.input@) {
            &&& after == (App {
                validation_error: after.validation_error,
                image_screen: after.image_screen,
                ..before
            })
            &&& shows(after.validation_error, "Image cannot be empty"@)
            &&& ImageScreen::was_set_error(
                before.image_screen,
                after.image_screen,
                "Image cannot be empty"@,
            )
        } else {
            exists|checked: App|
                App::was_validate_current_screen(before, checked, true) && App::was_next_screen(
                    checked,
                    after,
                )
        },
        Key::Esc => App::was_sync_screen_on_enter(App::turned_back(before), after),
        Key::Backspace => {
            &&& after == (App { image_screen: after.image_screen, ..before })
            &&& after.image_screen.error is None
            &&& after.image_screen.input@ == (if before.image_screen.input@.len() > 0 {
                before.image_screen.input@.drop_last()
            } else {
                before.image_screen.input@
            })
        },
        Key::Char(c) => {
            &&& after == (App { image_screen: after.image_screen, ..before })
            &&& after.image_screen.error is None
            &&& after.image_screen.input@ == before.image_screen.input@.push(c)
        },
        _ => after == before,
    }
}

/// What a key does on the architecture screen.
pub open spec fn arch_key(before: App, key: Key, after: App) -> bool {
    match key {
        Key::Up | Key::Down => after == (App { arch_screen: after.arch_screen, ..before })
            && ArchScreen::was_toggle(before.arch_screen, after.arch_screen),
        Key::Enter => App::was_next_screen(before, after),
        Key::Esc => App::was_sync_screen_on_enter(App::turned_back(before), after),
        _ => after == before,
    }
}

/// What a key does on the injection screen. While an injection is edited the
/// keys go to its inputs; otherwise they go to the list.
pub open spec fn inject_key(before: App, key: Key, after: App) -> bool {
    let only_screen = after == (App { inject_screen: after.inject_screen, ..before });
    let was = before.inject_screen;
    let is = after.inject_screen;
    if was.editing {
        match key {
            Key::Enter => only_screen && InjectScreen::was_confirm_edit(was, is),
            Key::Esc => only_screen && InjectScreen::was_cancel_edit(was, is),
            Key::Tab => only_screen && InjectScreen::was_toggle_field(was, is),
            Key::Backspace => only_screen && InjectScreen::was_backspace(was, is),
            Key::Char(c) => only_screen && InjectScreen::was_input_char(was, is, c),
            _ => after == before,
        }
    } else {
        match key {
            Key::Enter => App::was_next_screen(before, after),
            Key::Esc => App::was_sync_screen_on_enter(App::turned_back(before), after),
            Key::Char(c) => if c == 'a' {
                only_screen && InjectScreen::was_start_add(was, is)
            } else if c == 'd' {
                only_screen && InjectScreen::was_delete_selected(was, is)
            } else {
                after == before
            },
            Key::Up => only_screen && InjectScreen::was_prev(was, is),
            Key::Down => only_screen && InjectScreen::was_next(was, is),
            _ => after == before,
        }
    }
}

/// What a key does on the init screen. Typing goes to the path while the
/// file is the choice.
pub open spec fn init_key(before: App, key: Key, after: App) -> bool {
    let only_screen = after == (App { init_screen: after.init_screen, ..before });
    let was = before.init_screen;
    let is = after.init_screen;
    match key {
        Key::Up | Key::Down => only_screen && InitScreen::was_toggle(was, is),
        Key::Enter => App::was_next_screen(before, after),
        Key::Esc => App::was_sync_screen_on_enter(App::turned_back(before), after),
        Key::Backspace => if was.selected == 1 {
            only_screen && is.selected == was.selected && is.path_input@ == (if was.path_input@.len()
                > 0 {
                was.path_input@.drop_last()
            } else {
                was.path_input@
            })
        } else {
            after == before
        },
        Key::Char(c) => if was.selected == 1 {
            only_screen && is.selected == was.selected && is.path_input@ == was.path_input@.push(c)
        } else {
            after == before
        },
        _ => after == before,
    }
}

/// What a key does on the compression screen.
pub open spec fn compress_key(before: App, key: Key, after: App) -> bool {
    match key {
        Key::Up => after == (App { compress_screen: after.compress_screen, ..before })
            && CompressScreen::was_prev(before.compress_screen, after.compress_screen),
        Key::Down => after == (App { compress_screen: after.compress_screen, ..before })
            && CompressScreen::was_next(before.compress_screen, after.compress_screen),
        Key::Enter => App::was_next_screen(before, after),
        Key::Esc => App::was_sync_screen_on_enter(App::turned_back(before), after),
        _ => after == before,
    }
}

/// What a key does on the summary: Enter asks for the build if an image has
/// been chosen, `a` turns to the advanced mode.
pub open spec fn summary_key(before: App, key: Key, after: App, action: Action) -> bool {
    match key {
        Key::Enter => after == before && action == (if image_missing(before.config.image@) {
            Action::Idle
        } else {
            Action::Build
        }),
        Key::Esc => action == Action::Idle && App::was_sync_screen_on_enter(
            App::turned_back(before),
            after,
        ),
        Key::Char(c) => action == Action::Idle && (if c == 'a' || c == 'A' {
            App::was_sync_screen_on_enter(App::turned_advanced(before), after)
        } else {
            after == before
        }),
        _ => action == Action::Idle && after == before,
    }
}

/// Whether `q` leaves the wizard on this screen: on every screen where
/// nothing is typed.
pub open spec fn quits_on(screen: Screen) -> bool {
    screen != Screen::Image && screen != Screen::Inject && screen != Screen::Init
}

/// What a key does to the wizard, and what the caller is to do then. A key
/// that is not pressed does nothing. `q` leaves the wizard where nothing is
/// typed. Every other key goes to the screen that is shown, and nothing
/// happens while the build runs.
pub open spec fn key_effect(before: App, key: Key, pressed: bool, after: App, action: Action) -> bool {
    if !pressed {
        after == before && action == Action::Idle
    } else if key == Key::Char('q') && quits_on(before.screen) {
        after == before && action == Action::Quit
    } else {
        match before.screen {
            Screen::Language => action == Action::Idle && language_key(before, key, after),
            Screen::Image => action == Action::Idle && image_key(before, key, after),
            Screen::Architecture => action == Action::Idle && arch_key(before, key, after),
            Screen::Inject => action == Action::Idle && inject_key(before, key, after),
            Screen::Init => action == Action::Idle && init_key(before, key, after),
            Screen::Compression => action == Action::Idle && compress_key(before, key, after),
            Screen::Summary => summary_key(before, key, after, action),
            Screen::Building => action == Action::Idle && after == before,
        }
    }
}

/// Lets a key act on the language screen.
fn handle_language_keys(app: &mut App, key: Key)
    requires
        old(app).well_formed(),
    ensures
        language_key(*old(app), key, *final(app)),
        final(app).well_formed(),
{
    match key {
        Key::Up => app.language_screen.prev(),
        Key::Down => app.language_screen.next(),
        Key::Left => app.language_screen.prev_version(),
        Key::Right => app.language_screen.next_version(),
        Key::Enter => app.next_screen(),
        Key::Esc => {
            app.should_quit = true;
        },
        _ => {},
    }
}

/// Lets a key act on the image screen.
fn handle_image_keys(app: &mut App, key: Key)
    requires
        old(app).well_formed(),
        old(app).screen == Screen::Image,
    ensures
        image_key(*old(app), key, *final(app)),
        final(app).well_formed(),
{
    match key {
        Key::Enter => {
            if app.validate_current_screen() {
                let ghost checked = *app;
                app.next_screen();
                assert(App::was_validate_current_screen(*old(app), checked, true)
                    && App::was_next_screen(checked, *app));
            } else {
                app.image_screen.set_error("Image cannot be empty");
            }
        },
        Key::Esc => app.prev_screen(),
        Key::Backspace => {
            let _ = pop_char(&mut app.image_screen.input);
            app.image_screen.error = None;
        },
        Key::Char(c) => {
            push_char(&mut app.image_screen.input, c);
            app.image_screen.error = None;
        },
        _ => {},
    }
}

/// Lets a key act on the architecture screen.
fn handle_arch_keys(app: &mut App, key: Key)
    requires
        old(app).well_formed(),
    ensures
        arch_key(*old(app), key, *final(app)),
        final(app).well_formed(),
{
    match key {
        Key::Up | Key::Down => app.arch_screen.toggle(),
        Key::Enter => app.next_screen(),
        Key::Esc => app.prev_screen(),
        _ => {},
    }
}

/// Lets a key act on the injection screen.
fn handle_inject_keys(app: &mut App, key: Key)
    requires
        old(app).well_formed(),
    ensures
        inject_key(*old(app), key, *final(app)),
        final(app).well_formed(),
{
    if app.inject_screen.editing {
        match key {
            Key::Enter => app.inject_screen.confirm_edit(),
            Key::Esc => app.inject_screen.cancel_edit(),
            Key::Tab => app.inject_screen.toggle_field(),
            Key::Backspace => app.inject_screen.backspace(),
            Key::Char(c) => app.inject_screen.input_char(c),
            _ => {},
        }
    } else {
        match key {
            Key::Enter => app.next_screen(),
            Key::Esc => app.prev_screen(),
            Key::Char(c) => {
                if c == 'a' {
                    app.inject_screen.start_add();
                } else if c == 'd' {
                    app.inject_screen.delete_selected();
                }
            },
            Key::Up => app.inject_screen.prev(),
            Key::Down => app.inject_screen.next(),
            _ => {},
        }
    }
}

/// Lets a key act on the init screen.
fn handle_init_keys(app: &mut App, key: Key)
    requires
        old(app).well_formed(),
    ensures
        init_key(*old(app), key, *final(app)),
        final(app).well_formed(),
{
    match key {
        Key::Up | Key::Down => app.init_screen.toggle(),
        Key::Enter => app.next_screen(),
        Key::Esc => app.prev_screen(),
        Key::Backspace => {
            if app.init_screen.selected == 1 {
                let _ = pop_char(&mut app.init_screen.path_input);
            }
        },
        Key::Char(c) => {
            if app.init_screen.selected == 1 {
                push_char(&mut app.init_screen.path_input, c);
            }
        },
        _ => {},
    }
}

/// Lets a key act on the compression screen.
fn handle_compress_keys(app: &mut App, key: Key)
    requires
        old(app).well_formed(),
    ensures
        compress_key(*old(app), key, *final(app)),
        final(app).well_formed(),
{
    match key {
        Key::Up => app.compress_screen.prev(),
        Key::Down => app.compress_screen.next(),
        Key::Enter => app.next_screen(),
        Key::Esc => app.prev_screen(),
        _ => {},
    }
}

/// Lets a key act on the summary, and says whether the build is asked for.
fn handle_summary_keys(app: &mut App, key: Key) -> (action: Action)
    requires
        old(app).well_formed(),
    ensures
        summary_key(*old(app), key, *final(app), action),
        final(app).well_formed(),
{
    match key {
        Key::Enter => {
            if app.is_config_valid() {
                return Action::Build;
            }
        },
        Key::Esc => app.prev_screen(),
        Key::Char(c) => {
            if c == 'a' || c == 'A' {
                app.enter_advanced_mode();
            }
        },
        _ => {},
    }
    Action::Idle
}

/// Lets a key act on the wizard, and says what the caller is to do then.
/// `pressed` tells a press from a release or a repeat.
pub fn handle_key(app: &mut App, key: Key, pressed: bool) -> (action: Action)
    requires
        old(app).well_formed(),
    ensures
        key_effect(*old(app), key, pressed, *final(app), action),
        final(app).well_formed(),
{
    if !pressed {
        return Action::Idle;
    }
    let quits = match app.screen {
        Screen::Image | Screen::Inject | Screen::Init => false,
        _ => true,
    };
    let is_q = match key {
        Key::Char(c) => c == 'q',
        _ => false,
    };
    if is_q && quits {
        return Action::Quit;
    }
    match app.screen {
        Screen::Language => handle_language_keys(app, key),
        Screen::Image => handle_image_keys(app, key),
        Screen::Architecture => handle_arch_keys(app, key),
        Screen::Inject => handle_inject_keys(app, key),
        Screen::Init => handle_init_keys(app, key),
        Screen::Compression => handle_compress_keys(app, key),
        Screen::Summary => {
            return handle_summary_keys(app, key);
        },
        Screen::Building => {},
    }
    Action::Idle
}

} // verus!
