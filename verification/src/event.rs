use vstd::prelude::*;

use crate::app::{option_view, App};
use crate::model::{self, AppView};
use crate::tab::Tab;

verus! {

/// The key of a key event, as far as the interface tells keys apart.
#[derive(Debug, Clone, Copy, PartialEq, Eq, Structural)]
pub enum KeyCode {
    Char(char),
    Tab,
    BackTab,
    Up,
    Down,
    Enter,
    Esc,
    Backspace,
    /// Any other key.
    Other,
}

/// Whether a key went down, repeats, or went up.
#[derive(Debug, Clone, Copy, PartialEq, Eq, Structural)]
pub enum KeyEventKind {
    Press,
    Repeat,
    Release,
}

/// A key event from the terminal.
#[derive(Debug, Clone, Copy, PartialEq, Eq, Structural)]
pub struct KeyEvent {
    pub code: KeyCode,
    pub kind: KeyEventKind,
}

/// What the caller is to do after a key: go on, quit, or load the details of the named
/// package and hand them to `App::receive_details`.
#[derive(Debug)]
pub enum KeyOutcome {
    Continue,
    Quit,
    LoadDetails(String),
}

/// A key's outcome as plain values.
pub enum Effect {
    Continue,
    Quit,
    LoadDetails(Seq<char>),
}

impl View for KeyOutcome {
    type V = Effect;

    open spec fn view(&self) -> Effect {
        match self {
            KeyOutcome::Continue => Effect::Continue,
            KeyOutcome::Quit => Effect::Quit,
            KeyOutcome::LoadDetails(n) => Effect::LoadDetails(n@),
        }
    }
}

/// The effect of a details request: load when there is a package to load.
pub open spec fn load_effect(request: Option<Seq<char>>) -> Effect {
    match request {
        Some(n) => Effect::LoadDetails(n),
        None => Effect::Continue,
    }
}

/// A key while the search bar has the focus.
pub open spec fn search_key_step(a: AppView, code: KeyCode) -> AppView {
    match code {
        KeyCode::Esc => model::close_search(a),
        KeyCode::Enter => model::confirm_search(a),
        KeyCode::Backspace => model::search_backspace(a),
        KeyCode::Char(c) => model::search_input(a, c),
        _ => a,
    }
}

/// A key while the list has the focus.
pub open spec fn list_key_step(a: AppView, code: KeyCode) -> (AppView, Effect) {
    match code {
        KeyCode::Char('q') => (model::quit(a), Effect::Quit),
        KeyCode::Tab => (model::tab_forward(a), Effect::Continue),
        KeyCode::BackTab => (model::tab_backward(a), Effect::Continue),
        KeyCode::Down | KeyCode::Char('j') => (model::next_item(a), Effect::Continue),
        KeyCode::Up | KeyCode::Char('k') => (model::prev_item(a), Effect::Continue),
        KeyCode::Char('g') => (model::first_item(a), Effect::Continue),
        KeyCode::Char('G') => (model::last_item(a), Effect::Continue),
        KeyCode::Enter => (model::toggle_details(a), load_effect(model::toggle_request(a))),
        KeyCode::Char('/') => if a.current_tab == Tab::Packages {
            (model::open_search(a), Effect::Continue)
        } else {
            (a, Effect::Continue)
        },
        KeyCode::Esc => if a.search_query.len() > 0 {
            (model::close_search(a), Effect::Continue)
        } else {
            (model::close_details(a), Effect::Continue)
        },
        _ => (a, Effect::Continue),
    }
}

/// What a key event does to the state, and what the caller is to do after it. Only
/// presses count; while searching, the search bar takes the keys.
pub open spec fn key_step(a: AppView, key: KeyEvent) -> (AppView, Effect) {
    if key.kind != KeyEventKind::Press {
        (a, Effect::Continue)
    } else if a.searching {
        (search_key_step(a, key.code), Effect::Continue)
    } else {
        list_key_step(a, key.code)
    }
}

/// The states on which a key does not index out of the list or count past `usize::MAX`.
pub open spec fn key_safe(a: AppView, key: KeyEvent) -> bool {
    key.kind == KeyEventKind::Press && !a.searching ==> {
        &&& (key.code == KeyCode::Down || key.code == KeyCode::Char('j')) ==> (model::list_len(a)
            > 0 ==> a.selected_index < usize::MAX)
        &&& (key.code == KeyCode::Enter && !a.show_details) ==> model::details_request_safe(a)
    }
}

/// Whether `handle_key` may take this key in this state; see `key_safe`.
pub fn key_is_safe(app: &App, key: KeyEvent) -> (r: bool)
    ensures
        r == key_safe(app@, key),
{
    if key.kind != KeyEventKind::Press || app.searching {
        return true;
    }
    match key.code {
        KeyCode::Down | KeyCode::Char('j') => app.list_len() == 0 || app.selected_index < usize::MAX,
        KeyCode::Enter => {
            if app.show_details || app.current_tab != Tab::Packages {
                true
            } else {
                let visible = app.visible_packages();
                assert(visible@.map_values(|p: &crate::app::Package| p@).len() == visible@.len());
                visible.len() == 0 || app.selected_index < visible.len()
            }
        },
        _ => true,
    }
}

/// Handles a key event; see `key_step`.
pub fn handle_key(app: &mut App, key: KeyEvent) -> (r: KeyOutcome)
    requires
        key_safe(old(app)@, key),
    ensures
        (final(app)@, r@) == key_step(old(app)@, key),
        model::selection_ok(old(app)@) ==> model::selection_ok(final(app)@),
{
    if key.kind != KeyEventKind::Press {
        return KeyOutcome::Continue;
    }
    if app.searching {
        let quit = handle_search_key(app, key);
        return if quit {
            KeyOutcome::Quit
        } else {
            KeyOutcome::Continue
        };
    }
    match key.code {
        KeyCode::Char('q') => {
            app.should_quit = true;
            KeyOutcome::Quit
        },
        KeyCode::Tab => {
            app.current_tab = app.current_tab.next();
            app.selected_index = 0;
            KeyOutcome::Continue
        },
        KeyCode::BackTab => {
            app.current_tab = app.current_tab.prev();
            app.selected_index = 0;
            KeyOutcome::Continue
        },
        KeyCode::Down | KeyCode::Char('j') => {
            app.next_item();
            KeyOutcome::Continue
        },
        KeyCode::Up | KeyCode::Char('k') => {
            app.prev_item();
            KeyOutcome::Continue
        },
        KeyCode::Char('g') => {
            app.first_item();
            KeyOutcome::Continue
        },
        KeyCode::Char('G') => {
            app.last_item();
            KeyOutcome::Continue
        },
        KeyCode::Enter => {
            match app.toggle_details() {
                Some(name) => KeyOutcome::LoadDetails(name),
                None => KeyOutcome::Continue,
            }
        },
        KeyCode::Char('/') if app.current_tab == Tab::Packages => {
            app.open_search();
            KeyOutcome::Continue
        },
        KeyCode::Esc => {
            if !app.search_query.as_str().is_empty() {
                app.close_search();
            } else {
                app.close_details();
            }
            KeyOutcome::Continue
        },
        _ => KeyOutcome::Continue,
    }
}

/// Handles a key while the search bar has the focus; see `search_key_step`. No key quits
/// from the search bar, so the result is always `false`.
fn handle_search_key(app: &mut App, key: KeyEvent) -> (quit: bool)
    ensures
        !quit,
        final(app)@ == search_key_step(old(app)@, key.code),
        model::selection_ok(old(app)@) ==> model::selection_ok(final(app)@),
{
    match key.code {
        KeyCode::Esc => {
            app.close_search();
        },
        KeyCode::Enter => {
            app.confirm_search();
        },
        KeyCode::Backspace => {
            app.search_backspace();
        },
        KeyCode::Char(c) => {
            app.search_input(c);
        },
        _ => {},
    }
    false
}

} // verus!
