//! The modal key handler: one discrete input event goes in, the
//! application state steps once, and at most one external store command
//! comes back out for the event loop to perform.
//!
//! The whole transition table is the spec function [`step`];
//! [`handle_key_events`] is proved to implement it exactly.

use vstd::prelude::*;

use crate::app::Action;
use crate::app::ActionView;
use crate::app::App;
use crate::app::AppState;
use crate::app::AppView;
use crate::app::ExitActionView;
use crate::app::action_view;
use crate::app::dismissed;
use crate::app::empty_buf;
use crate::buffer::TextBufferView;
use crate::buffer::spec_backspace;
use crate::buffer::spec_insert;
use crate::buffer::spec_left;
use crate::buffer::spec_right;
use crate::filter::choose_pointer;
use crate::filter::lemma_match_set_props;
use crate::filter::match_set;
use crate::filter::step_match_pointer;
use crate::filter::stepped_pointer;
use crate::registry::RegistryView;
use crate::registry::clamp_index;
use crate::rows::rows_view;

verus! {

/// The discrete input events the state machine consumes; the boundary
/// layer translates raw terminal keys into these.
#[derive(Clone, Copy, Debug, PartialEq, Eq)]
pub enum KeyEvent {
    /// A plain printable character.
    Char(char),
    /// A character struck with the control modifier held.
    Ctrl(char),
    Enter,
    Esc,
    Backspace,
    Up,
    Down,
    Left,
    Right,
    Home,
    End,
    /// Any other key; ignored everywhere.
    Other,
}

/// The keys that quit from any mode that is not capturing text.
pub open spec fn is_quit_key(key: KeyEvent) -> bool {
    ||| key == KeyEvent::Char('q')
    ||| key == KeyEvent::Ctrl('c')
    ||| key == KeyEvent::Ctrl('C')
}

/// The modes in which keystrokes must be deliverable as literal text, so
/// the global quit shortcut does not fire.
pub open spec fn text_entry_active(state: AppState) -> bool {
    ||| state == AppState::Renaming
    ||| state == AppState::NewSession
    ||| state == AppState::SessionsSearch
}

/// One buffer edit: insertion, deletion or cursor movement; any other key
/// leaves the buffer as it is.
pub open spec fn spec_edit(b: TextBufferView, key: KeyEvent) -> TextBufferView {
    match key {
        KeyEvent::Char(c) => spec_insert(b, c),
        KeyEvent::Backspace => spec_backspace(b),
        KeyEvent::Left => spec_left(b),
        KeyEvent::Right => spec_right(b),
        _ => b,
    }
}

/// The selection moved by `delta`, clamped; a no-op on an empty registry.
pub open spec fn moved(pre: AppView, delta: int) -> AppView {
    if pre.registry.list.len() == 0 {
        pre
    } else {
        AppView {
            registry: RegistryView {
                selected: clamp_index(
                    pre.registry.selected + delta,
                    pre.registry.list.len() as int,
                ),
                ..pre.registry
            },
            ..pre
        }
    }
}

/// Law: navigation clamps. One step up from the top row stays at the top,
/// one step down from the bottom row stays at the bottom, and both are
/// no-ops on an empty registry.
pub proof fn lemma_navigation_clamps(pre: AppView)
    requires
        pre.wf(),
    ensures
        pre.registry.selected == 0 ==> moved(pre, -1).registry.selected == 0,
        pre.registry.list.len() > 0 && pre.registry.selected == pre.registry.list.len() - 1
            ==> moved(pre, 1).registry.selected == pre.registry.list.len() - 1,
        pre.registry.list.len() == 0 ==> moved(pre, -1) == pre && moved(pre, 1) == pre,
{
}

/// The selection jumped to the top of the list.
pub open spec fn jumped_first(pre: AppView) -> AppView {
    AppView { registry: RegistryView { selected: 0, ..pre.registry }, ..pre }
}

/// The selection jumped to the bottom of the list.
pub open spec fn jumped_last(pre: AppView) -> AppView {
    AppView {
        registry: RegistryView {
            selected: clamp_index(
                pre.registry.list.len() as int - 1,
                pre.registry.list.len() as int,
            ),
            ..pre.registry
        },
        ..pre
    }
}

/// The attach decision: stop the loop with the attach outcome for the
/// selected session (the switch outcome when nested); a no-op on an empty
/// registry.
pub open spec fn attached(pre: AppView) -> AppView {
    if pre.registry.list.len() == 0 {
        pre
    } else {
        AppView {
            running: false,
            on_exit: if pre.nested {
                ExitActionView::SwitchSession(pre.registry.selected_name())
            } else {
                ExitActionView::AttachSession(pre.registry.selected_name(), true)
            },
            ..pre
        }
    }
}

/// Browsing-mode transitions: navigation, and the openings of every other
/// mode. The delete and rename dialogs need a selection, so they do not
/// open on an empty registry; the create prompt opens only outside a
/// nested context, which gets the warning instead.
pub open spec fn step_sessions(pre: AppView, key: KeyEvent) -> AppView {
    match key {
        KeyEvent::Char(c) => if c == 'k' {
            moved(pre, -1)
        } else if c == 'j' {
            moved(pre, 1)
        } else if c == 'g' {
            jumped_first(pre)
        } else if c == 'G' {
            jumped_last(pre)
        } else if c == 'a' {
            attached(pre)
        } else if c == 'x' {
            if pre.registry.list.len() > 0 {
                AppView { state: AppState::Deleting, ..pre }
            } else {
                pre
            }
        } else if c == 'r' {
            if pre.registry.list.len() > 0 {
                AppView { state: AppState::Renaming, rename_ta: Some(empty_buf()), ..pre }
            } else {
                pre
            }
        } else if c == 'n' {
            if pre.nested {
                AppView { state: AppState::WarnNested, ..pre }
            } else {
                AppView { state: AppState::NewSession, new_ta: Some(empty_buf()), ..pre }
            }
        } else if c == '/' {
            AppView { state: AppState::SessionsSearch, search_ta: Some(empty_buf()), ..pre }
        } else {
            pre
        },
        KeyEvent::Ctrl(c) => if c == 'p' {
            moved(pre, -1)
        } else if c == 'n' {
            moved(pre, 1)
        } else {
            pre
        },
        KeyEvent::Up => moved(pre, -1),
        KeyEvent::Down => moved(pre, 1),
        KeyEvent::Home => jumped_first(pre),
        KeyEvent::End => jumped_last(pre),
        KeyEvent::Enter => attached(pre),
        _ => pre,
    }
}

/// Delete-confirmation transitions: confirm runs the kill and returns to
/// browsing; cancel just returns.
pub open spec fn step_deleting(pre: AppView, key: KeyEvent) -> (AppView, Option<ActionView>) {
    match key {
        KeyEvent::Char(c) => if c == 'y' {
            if pre.registry.list.len() > 0 {
                (dismissed(pre), Some(ActionView::KillSession(pre.registry.selected_name())))
            } else {
                (pre, None)
            }
        } else if c == 'n' {
            (dismissed(pre), None)
        } else {
            (pre, None)
        },
        KeyEvent::Esc => (dismissed(pre), None),
        _ => (pre, None),
    }
}

/// The given entry buffer re-seated in its mode.
pub open spec fn with_buf(pre: AppView, creating: bool, b: TextBufferView) -> AppView {
    if creating {
        AppView { new_ta: Some(b), ..pre }
    } else {
        AppView { rename_ta: Some(b), ..pre }
    }
}

/// Text-entry transitions, for the rename prompt (`creating == false`) and
/// the create prompt (`creating == true`). Committing a non-empty line
/// hands back the store command and returns to browsing; committing an
/// empty line is a no-op for rename and the create-and-enter exit for
/// create; escape cancels; everything else edits the buffer.
pub open spec fn step_entry(pre: AppView, key: KeyEvent, creating: bool) -> (
    AppView,
    Option<ActionView>,
) {
    let b = if creating {
        pre.new_ta->0
    } else {
        pre.rename_ta->0
    };
    match key {
        KeyEvent::Enter => if creating {
            if b.text.len() == 0 {
                (AppView { running: false, on_exit: ExitActionView::NewSession, ..pre }, None)
            } else {
                (dismissed(pre), Some(ActionView::CreateSession(b.text)))
            }
        } else {
            if b.text.len() == 0 || pre.registry.list.len() == 0 {
                (pre, None)
            } else {
                (
                    dismissed(pre),
                    Some(ActionView::RenameSession(pre.registry.selected_name(), b.text)),
                )
            }
        },
        KeyEvent::Esc => (dismissed(pre), None),
        _ => (with_buf(pre, creating, spec_edit(b, key)), None),
    }
}

/// The pointed-at match stepped to a neighbour in the match set.
pub open spec fn ptr_stepped(pre: AppView, forward: bool) -> AppView {
    match pre.pointer {
        Some(p) => AppView {
            pointer: Some(stepped_pointer(pre.matching, p, forward)),
            ..pre
        },
        None => pre,
    }
}

/// The pointed-at match jumped to the first element of the match set.
pub open spec fn ptr_first(pre: AppView) -> AppView {
    if pre.matching.len() > 0 {
        AppView { pointer: Some(pre.matching[0]), ..pre }
    } else {
        pre
    }
}

/// The pointed-at match jumped to the last element of the match set.
pub open spec fn ptr_last(pre: AppView) -> AppView {
    if pre.matching.len() > 0 {
        AppView { pointer: Some(pre.matching[pre.matching.len() - 1]), ..pre }
    } else {
        pre
    }
}

/// The filter state after one buffer edit: the match set recomputed over
/// the current rows under the new text, the pointer carried through the
/// continuity rule.
pub open spec fn searched(pre: AppView, b: TextBufferView) -> AppView {
    let ms = match_set(rows_view(pre.registry.list), b.text);
    AppView {
        search_ta: Some(b),
        matching: ms,
        pointer: choose_pointer(pre.pointer, ms),
        ..pre
    }
}

/// Filter-mode transitions: commit adopts the pointed-at match as the
/// selection and returns to browsing; escape discards it; the navigation
/// keys move the pointed-at match, not the selection; every text key edits
/// the buffer and recomputes the match set.
pub open spec fn step_search(pre: AppView, key: KeyEvent) -> AppView {
    let b = pre.search_ta->0;
    match key {
        KeyEvent::Enter => {
            let committed = match pre.pointer {
                Some(p) => AppView {
                    registry: RegistryView { selected: p, ..pre.registry },
                    ..pre
                },
                None => pre,
            };
            dismissed(committed)
        },
        KeyEvent::Esc => dismissed(pre),
        KeyEvent::Ctrl(c) => if c == 'p' {
            ptr_stepped(pre, false)
        } else if c == 'n' {
            ptr_stepped(pre, true)
        } else {
            pre
        },
        KeyEvent::Up => ptr_stepped(pre, false),
        KeyEvent::Down => ptr_stepped(pre, true),
        KeyEvent::Home => ptr_first(pre),
        KeyEvent::End => ptr_last(pre),
        KeyEvent::Char(c) => searched(pre, spec_insert(b, c)),
        KeyEvent::Backspace => searched(pre, spec_backspace(b)),
        KeyEvent::Left => searched(pre, spec_left(b)),
        KeyEvent::Right => searched(pre, spec_right(b)),
        KeyEvent::Other => pre,
    }
}

/// The whole transition table: the global quit shortcut wherever text
/// entry is not active, then the mode-specific handling; any key dismisses
/// the nested-context warning.
pub open spec fn step(pre: AppView, key: KeyEvent) -> (AppView, Option<ActionView>) {
    if !text_entry_active(pre.state) && is_quit_key(key) {
        (AppView { running: false, ..pre }, None)
    } else {
        match pre.state {
            AppState::Sessions => (step_sessions(pre, key), None),
            AppState::SessionsSearch => (step_search(pre, key), None),
            AppState::Deleting => step_deleting(pre, key),
            AppState::Renaming => step_entry(pre, key, false),
            AppState::NewSession => step_entry(pre, key, true),
            AppState::WarnNested => (dismissed(pre), None),
        }
    }
}

/// Handle one key event: step the application and hand back the store
/// command to perform, if the transition asks for one.
pub fn handle_key_events(key_event: KeyEvent, app: &mut App) -> (r: Option<Action>)
    requires
        old(app)@.wf(),
    ensures
        final(app)@ == step(old(app)@, key_event).0,
        action_view(r) == step(old(app)@, key_event).1,
        final(app)@.wf(),
{
    let entry = matches!(
        app.state,
        AppState::Renaming | AppState::NewSession | AppState::SessionsSearch
    );
    proof {
        assert(entry == text_entry_active(app@.state));
    }
    if !entry {
        let quit = match key_event {
            KeyEvent::Char(c) => c == 'q',
            KeyEvent::Ctrl(c) => c == 'c' || c == 'C',
            _ => false,
        };
        if quit {
            app.quit();
            return None;
        }
    }
    match app.state {
        AppState::Sessions => {
            handle_sessions(key_event, app);
            None
        },
        AppState::SessionsSearch => {
            handle_search(key_event, app);
            None
        },
        AppState::Deleting => handle_deleting(key_event, app),
        AppState::Renaming => handle_renaming(key_event, app),
        AppState::NewSession => handle_new_session(key_event, app),
        AppState::WarnNested => {
            app.dismiss_all();
            None
        },
    }
}

/// Stop the loop with the attach outcome for the selected session, a no-op
/// on an empty registry.
fn attach_selected(app: &mut App)
    requires
        old(app)@.wf(),
    ensures
        final(app)@ == attached(old(app)@),
        final(app)@.wf(),
{
    let name = match app.registry.current() {
        Some(s) => Some(s.name.clone()),
        None => None,
    };
    match name {
        Some(n) => {
            app.attach(n, true);
        },
        None => {},
    }
}

/// Browsing-mode handling.
fn handle_sessions(key: KeyEvent, app: &mut App)
    requires
        old(app)@.wf(),
        old(app)@.state == AppState::Sessions,
    ensures
        final(app)@ == step_sessions(old(app)@, key),
        final(app)@.wf(),
{
    match key {
        KeyEvent::Char(c) => {
            if c == 'k' {
                app.registry.move_selection(-1);
            } else if c == 'j' {
                app.registry.move_selection(1);
            } else if c == 'g' {
                app.registry.jump_first();
            } else if c == 'G' {
                app.registry.jump_last();
            } else if c == 'a' {
                attach_selected(app);
            } else if c == 'x' {
                if app.registry.len() > 0 {
                    app.confirm_delete();
                }
            } else if c == 'r' {
                if app.registry.len() > 0 {
                    app.confirm_rename();
                }
            } else if c == 'n' {
                app.confirm_new_session();
            } else if c == '/' {
                app.search();
            }
        },
        KeyEvent::Ctrl(c) => {
            if c == 'p' {
                app.registry.move_selection(-1);
            } else if c == 'n' {
                app.registry.move_selection(1);
            }
        },
        KeyEvent::Up => {
            app.registry.move_selection(-1);
        },
        KeyEvent::Down => {
            app.registry.move_selection(1);
        },
        KeyEvent::Home => {
            app.registry.jump_first();
        },
        KeyEvent::End => {
            app.registry.jump_last();
        },
        KeyEvent::Enter => {
            attach_selected(app);
        },
        _ => {},
    }
}

/// Delete-confirmation handling.
fn handle_deleting(key: KeyEvent, app: &mut App) -> (r: Option<Action>)
    requires
        old(app)@.wf(),
        old(app)@.state == AppState::Deleting,
    ensures
        final(app)@ == step_deleting(old(app)@, key).0,
        action_view(r) == step_deleting(old(app)@, key).1,
        final(app)@.wf(),
{
    match key {
        KeyEvent::Char(c) => {
            if c == 'y' {
                app.delete()
            } else if c == 'n' {
                app.dismiss_all();
                None
            } else {
                None
            }
        },
        KeyEvent::Esc => {
            app.dismiss_all();
            None
        },
        _ => None,
    }
}

/// Rename-prompt handling.
fn handle_renaming(key: KeyEvent, app: &mut App) -> (r: Option<Action>)
    requires
        old(app)@.wf(),
        old(app)@.state == AppState::Renaming,
    ensures
        final(app)@ == step_entry(old(app)@, key, false).0,
        action_view(r) == step_entry(old(app)@, key, false).1,
        final(app)@.wf(),
{
    match key {
        KeyEvent::Enter => {
            let text_opt = match &app.rename_session_ta {
                Some(ta) => if ta.is_empty() {
                    None
                } else {
                    Some(ta.text())
                },
                None => None,
            };
            match text_opt {
                Some(t) => app.rename(&t),
                None => None,
            }
        },
        KeyEvent::Esc => {
            app.dismiss_all();
            None
        },
        _ => {
            let taken = app.rename_session_ta.take();
            let mut ta = taken.unwrap();
            edit_buffer(&mut ta, key);
            app.rename_session_ta = Some(ta);
            None
        },
    }
}

/// Create-prompt handling.
fn handle_new_session(key: KeyEvent, app: &mut App) -> (r: Option<Action>)
    requires
        old(app)@.wf(),
        old(app)@.state == AppState::NewSession,
    ensures
        final(app)@ == step_entry(old(app)@, key, true).0,
        action_view(r) == step_entry(old(app)@, key, true).1,
        final(app)@.wf(),
{
    match key {
        KeyEvent::Enter => {
            let text_opt = match &app.new_session_ta {
                Some(ta) => if ta.is_empty() {
                    None
                } else {
                    Some(ta.text())
                },
                None => None,
            };
            match text_opt {
                Some(t) => app.new_session(Some(&t)),
                None => app.new_session(None),
            }
        },
        KeyEvent::Esc => {
            app.dismiss_all();
            None
        },
        _ => {
            let taken = app.new_session_ta.take();
            let mut ta = taken.unwrap();
            edit_buffer(&mut ta, key);
            app.new_session_ta = Some(ta);
            None
        },
    }
}

/// Apply one editing key to a buffer.
fn edit_buffer(ta: &mut crate::buffer::TextBuffer, key: KeyEvent)
    requires
        old(ta)@.wf(),
    ensures
        final(ta)@ == spec_edit(old(ta)@, key),
        final(ta)@.wf(),
{
    match key {
        KeyEvent::Char(c) => ta.insert_char(c),
        KeyEvent::Backspace => ta.backspace(),
        KeyEvent::Left => ta.move_left(),
        KeyEvent::Right => ta.move_right(),
        _ => {},
    }
}

/// Filter-mode handling.
fn handle_search(key: KeyEvent, app: &mut App)
    requires
        old(app)@.wf(),
        old(app)@.state == AppState::SessionsSearch,
    ensures
        final(app)@ == step_search(old(app)@, key),
        final(app)@.wf(),
{
    match key {
        KeyEvent::Enter => {
            match app.search_session_selected {
                Some(p) => {
                    proof {
                        let ms = app@.matching;
                        assert(ms.contains(p as int));
                        lemma_match_set_props(
                            rows_view(app@.registry.list),
                            app@.search_ta->0.text,
                        );
                        assert(p < app@.registry.list.len());
                    }
                    app.registry.selected = p;
                },
                None => {},
            }
            app.dismiss_all();
        },
        KeyEvent::Esc => {
            app.dismiss_all();
        },
        KeyEvent::Ctrl(c) => {
            if c == 'p' {
                step_pointer(app, false);
            } else if c == 'n' {
                step_pointer(app, true);
            }
        },
        KeyEvent::Up => {
            step_pointer(app, false);
        },
        KeyEvent::Down => {
            step_pointer(app, true);
        },
        KeyEvent::Home => {
            if app.matching_rows.len() > 0 {
                let first = app.matching_rows[0];
                proof {
                    assert(app@.matching.contains(app@.matching[0]));
                }
                app.search_session_selected = Some(first);
            }
        },
        KeyEvent::End => {
            if app.matching_rows.len() > 0 {
                let last = app.matching_rows[app.matching_rows.len() - 1];
                proof {
                    assert(app@.matching.contains(app@.matching[app@.matching.len() - 1]));
                }
                app.search_session_selected = Some(last);
            }
        },
        KeyEvent::Char(_) | KeyEvent::Backspace | KeyEvent::Left | KeyEvent::Right => {
            let taken = app.search_session_ta.take();
            let mut ta = taken.unwrap();
            edit_buffer(&mut ta, key);
            app.search_session_ta = Some(ta);
            app.update_search_matches();
        },
        KeyEvent::Other => {},
    }
}

/// Step the pointed-at match within the match set.
fn step_pointer(app: &mut App, forward: bool)
    requires
        old(app)@.wf(),
        old(app)@.state == AppState::SessionsSearch,
    ensures
        final(app)@ == ptr_stepped(old(app)@, forward),
        final(app)@.wf(),
{
    match app.search_session_selected {
        Some(p) => {
            proof {
                assert(app@.matching.contains(p as int));
            }
            let np = step_match_pointer(&app.matching_rows, p, forward);
            app.search_session_selected = Some(np);
        },
        None => {},
    }
}

} // verus!
