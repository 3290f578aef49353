//! The application core: the session registry, the active interaction
//! mode, the transient entry buffers, the filter state and the exit
//! outcome, with the operations the key handler drives.
//!
//! Every operation is a pure state transition; the external store is
//! reached only through the [`Action`] values handed back to the event
//! loop, which performs them and feeds the fresh snapshot back in through
//! [`App::refresh`] or [`App::refresh_with_discovery`].

use vstd::prelude::*;

use crate::buffer::TextBuffer;
use crate::buffer::TextBufferView;
use crate::filter::as_ints;
use crate::filter::choose_pointer;
use crate::filter::compute_matches;
use crate::filter::contains_index;
use crate::filter::lemma_empty_filter;
use crate::filter::match_set;
use crate::registry::Registry;
use crate::registry::RegistryView;
use crate::registry::names_of;
use crate::registry::reconcile;
use crate::registry::reconcile_discover;
use crate::rows::max_name_len;
use crate::rows::max_name_width;
use crate::rows::row_strings;
use crate::rows::rows_view;
use crate::session::SessionView;
use crate::session::parse_line;
use crate::session::parse_sessions;
use crate::session::views_of;

verus! {

/// The mutually exclusive interaction modes; exactly one is active at a
/// time, and mode transitions are the only way entry buffers are created
/// or destroyed.
#[derive(Clone, Copy, Debug, PartialEq, Eq, Structural)]
pub enum AppState {
    /// Normal browsing of the session list.
    Sessions,
    /// Incremental filtering of the list.
    SessionsSearch,
    /// Confirmation dialog for deleting the selected session.
    Deleting,
    /// Text entry for renaming the selected session.
    Renaming,
    /// Warning that a nested session cannot be created.
    WarnNested,
    /// Text entry for the name of a session to create.
    NewSession,
}

/// What the interface should do once the event loop ends.
#[derive(Debug, Clone, PartialEq)]
pub enum ExitAction {
    /// Attach the named session; the flag asks to detach other clients.
    AttachSession(String, bool),
    /// Switch the current client to the named session (used instead of
    /// attach when the interface itself runs inside a managed session).
    SwitchSession(String),
    /// Create an anonymous session and enter it directly.
    NewSession,
    /// Plain exit with no outcome.
    Nothing,
}

/// Mathematical image of an [`ExitAction`].
#[verifier::ext_equal]
pub ghost enum ExitActionView {
    AttachSession(Seq<char>, bool),
    SwitchSession(Seq<char>),
    NewSession,
    Nothing,
}

impl View for ExitAction {
    type V = ExitActionView;

    open spec fn view(&self) -> ExitActionView {
        match self {
            ExitAction::AttachSession(n, d) => ExitActionView::AttachSession(n@, *d),
            ExitAction::SwitchSession(n) => ExitActionView::SwitchSession(n@),
            ExitAction::NewSession => ExitActionView::NewSession,
            ExitAction::Nothing => ExitActionView::Nothing,
        }
    }
}

/// A mutating command against the external store. The event loop performs
/// it, treats failure as fatal, and reconciles on success.
#[derive(Debug, PartialEq)]
pub enum Action {
    /// Kill the named session.
    KillSession(String),
    /// Rename the first-named session to the second name.
    RenameSession(String, String),
    /// Create a session under the requested name (the store may normalize
    /// it to a different identifier).
    CreateSession(String),
}

/// Mathematical image of an [`Action`].
#[verifier::ext_equal]
pub ghost enum ActionView {
    KillSession(Seq<char>),
    RenameSession(Seq<char>, Seq<char>),
    CreateSession(Seq<char>),
}

impl View for Action {
    type V = ActionView;

    open spec fn view(&self) -> ActionView {
        match self {
            Action::KillSession(n) => ActionView::KillSession(n@),
            Action::RenameSession(o, n) => ActionView::RenameSession(o@, n@),
            Action::CreateSession(n) => ActionView::CreateSession(n@),
        }
    }
}

/// The view of an optional action.
pub open spec fn action_view(a: Option<Action>) -> Option<ActionView> {
    match a {
        Some(x) => Some(x@),
        None => None,
    }
}

/// The view of an optional entry buffer.
pub open spec fn buf_view(b: Option<TextBuffer>) -> Option<TextBufferView> {
    match b {
        Some(x) => Some(x@),
        None => None,
    }
}

/// An empty entry buffer.
pub open spec fn empty_buf() -> TextBufferView {
    TextBufferView { text: Seq::empty(), cursor: 0 }
}

/// The application.
pub struct App {
    /// Is the event loop still running?
    pub running: bool,
    /// A saturating counter for interface use.
    pub counter: u8,
    /// What to do once the loop ends.
    pub on_exit: ExitAction,
    /// The canonical in-memory view of the store's sessions.
    pub registry: Registry,
    /// The active interaction mode.
    pub state: AppState,
    /// Rename prompt (exists exactly while renaming).
    pub rename_session_ta: Option<TextBuffer>,
    /// New-session-name prompt (exists exactly while creating).
    pub new_session_ta: Option<TextBuffer>,
    /// Filter prompt (exists exactly while filtering).
    pub search_session_ta: Option<TextBuffer>,
    /// The row pointed at among the matches, always one of them.
    pub search_session_selected: Option<usize>,
    /// All row indices matching the current filter text, in order.
    pub matching_rows: Vec<usize>,
    /// Whether the interface itself runs inside a managed session.
    pub nested: bool,
}

/// Mathematical image of the whole [`App`].
#[verifier::ext_equal]
pub ghost struct AppView {
    pub running: bool,
    pub counter: u8,
    pub on_exit: ExitActionView,
    pub registry: RegistryView,
    pub state: AppState,
    pub rename_ta: Option<TextBufferView>,
    pub new_ta: Option<TextBufferView>,
    pub search_ta: Option<TextBufferView>,
    pub pointer: Option<int>,
    pub matching: Seq<int>,
    pub nested: bool,
}

impl View for App {
    type V = AppView;

    open spec fn view(&self) -> AppView {
        AppView {
            running: self.running,
            counter: self.counter,
            on_exit: self.on_exit@,
            registry: self.registry@,
            state: self.state,
            rename_ta: buf_view(self.rename_session_ta),
            new_ta: buf_view(self.new_session_ta),
            search_ta: buf_view(self.search_session_ta),
            pointer: match self.search_session_selected {
                Some(p) => Some(p as int),
                None => None,
            },
            matching: as_ints(self.matching_rows@),
            nested: self.nested,
        }
    }
}

impl AppView {
    /// The filter-mode invariant: while filtering, the match set is
    /// exactly the match set of the current rows under the current filter
    /// text, and the pointer obeys the continuity rule (a member of the
    /// set, present whenever the set is non-empty).
    pub open spec fn search_wf(self) -> bool {
        match self.search_ta {
            Some(b) => {
                &&& b.wf()
                &&& self.matching == match_set(rows_view(self.registry.list), b.text)
                &&& self.pointer == choose_pointer(self.pointer, self.matching)
            },
            None => true,
        }
    }

    /// The application invariant: a well-formed registry, an entry buffer
    /// exactly in the mode that owns it, well-formed buffers, and a filter
    /// state that is empty outside filter mode and exact inside it.
    pub open spec fn wf(self) -> bool {
        &&& self.registry.wf()
        &&& (self.rename_ta is Some <==> self.state == AppState::Renaming)
        &&& (self.new_ta is Some <==> self.state == AppState::NewSession)
        &&& (self.search_ta is Some <==> self.state == AppState::SessionsSearch)
        &&& match self.rename_ta {
            Some(b) => b.wf(),
            None => true,
        }
        &&& match self.new_ta {
            Some(b) => b.wf(),
            None => true,
        }
        &&& self.search_wf()
        &&& (self.state != AppState::SessionsSearch ==> self.matching.len() == 0
            && self.pointer is None)
    }
}

/// The state after any transition back to browsing: buffers released,
/// filter state cleared.
pub open spec fn dismissed(a: AppView) -> AppView {
    AppView {
        state: AppState::Sessions,
        rename_ta: None,
        new_ta: None,
        search_ta: None,
        pointer: None,
        matching: Seq::empty(),
        ..a
    }
}

/// A snapshot as parsed from the store's raw listing lines.
pub open spec fn parsed(lines: Seq<Seq<char>>) -> Seq<SessionView> {
    lines.map_values(|l: Seq<char>| parse_line(l))
}

/// The filter state recomputed over the current rows and filter text,
/// with the pointer carried through the continuity rule. Meaningful only
/// while a filter buffer exists.
pub open spec fn recomputed(a: AppView) -> AppView {
    let ms = match_set(rows_view(a.registry.list), a.search_ta->0.text);
    AppView { matching: ms, pointer: choose_pointer(a.pointer, ms), ..a }
}

/// What a refresh does: an empty snapshot is "no change"; otherwise the
/// registry is reconciled against the parsed snapshot, and while filtering
/// the match set is recomputed over the new rows.
pub open spec fn spec_refresh(a: AppView, lines: Seq<Seq<char>>) -> AppView {
    if lines.len() == 0 {
        a
    } else {
        let a2 = AppView { registry: reconcile(a.registry, parsed(lines)), ..a };
        if a.state == AppState::SessionsSearch {
            recomputed(a2)
        } else {
            a2
        }
    }
}

/// What a refresh after a create does: like [`spec_refresh`] outside
/// filter mode, but reconciling with new-entity discovery against the
/// identifiers known before the create.
pub open spec fn spec_refresh_discover(a: AppView, lines: Seq<Seq<char>>) -> AppView {
    if lines.len() == 0 {
        a
    } else {
        AppView {
            registry: reconcile_discover(a.registry, parsed(lines), names_of(a.registry.list)),
            ..a
        }
    }
}

impl App {
    /// A fresh application: browsing an empty registry, to be populated by
    /// the mandatory initial refresh. `nested` reports whether the
    /// interface itself runs inside a session it would manage.
    pub fn new(nested: bool) -> (r: App)
        ensures
            r@ == (AppView {
                running: true,
                counter: 0,
                on_exit: ExitActionView::Nothing,
                registry: RegistryView { list: Seq::empty(), selected: 0 },
                state: AppState::Sessions,
                rename_ta: None,
                new_ta: None,
                search_ta: None,
                pointer: None,
                matching: Seq::empty(),
                nested: nested,
            }),
            r@.wf(),
    {
        let r = App {
            running: true,
            counter: 0,
            on_exit: ExitAction::Nothing,
            registry: Registry::new(),
            state: AppState::Sessions,
            rename_session_ta: None,
            new_session_ta: None,
            search_session_ta: None,
            search_session_selected: None,
            matching_rows: Vec::new(),
            nested,
        };
        proof {
            assert(as_ints(r.matching_rows@) =~= Seq::<int>::empty());
        }
        r
    }

    /// Stop the event loop with no outcome.
    pub fn quit(&mut self)
        ensures
            final(self)@ == (AppView { running: false, ..old(self)@ }),
    {
        self.running = false;
    }

    /// Stop the event loop and emit the attach outcome for `name` (or the
    /// switch outcome when nested).
    pub fn attach(&mut self, name: String, detach_others: bool)
        ensures
            final(self)@ == (AppView {
                running: false,
                on_exit: if old(self)@.nested {
                    ExitActionView::SwitchSession(name@)
                } else {
                    ExitActionView::AttachSession(name@, detach_others)
                },
                ..old(self)@
            }),
    {
        self.running = false;
        if self.nested {
            self.on_exit = ExitAction::SwitchSession(name);
        } else {
            self.on_exit = ExitAction::AttachSession(name, detach_others);
        }
    }

    /// Bump the counter, saturating at its maximum.
    pub fn increment_counter(&mut self)
        ensures
            final(self)@ == (AppView {
                counter: if old(self)@.counter < 255 {
                    (old(self)@.counter + 1) as u8
                } else {
                    old(self)@.counter
                },
                ..old(self)@
            }),
    {
        if let Some(res) = self.counter.checked_add(1) {
            self.counter = res;
        }
    }

    /// Drop the counter, saturating at zero.
    pub fn decrement_counter(&mut self)
        ensures
            final(self)@ == (AppView {
                counter: if old(self)@.counter > 0 {
                    (old(self)@.counter - 1) as u8
                } else {
                    old(self)@.counter
                },
                ..old(self)@
            }),
    {
        if let Some(res) = self.counter.checked_sub(1) {
            self.counter = res;
        }
    }

    /// Whether the interface runs nested inside a managed session (told to
    /// it at construction).
    pub fn is_nested(&self) -> (r: bool)
        ensures
            r == self@.nested,
    {
        self.nested
    }

    /// The width of the widest session identifier.
    pub fn max_session_name_width(&self) -> (w: usize)
        ensures
            w as nat == max_name_len(self@.registry.list),
    {
        max_name_width(&self.registry.sessions)
    }

    /// Reconcile the registry against a fresh snapshot of raw listing
    /// lines. An empty snapshot is treated as "no change". While
    /// filtering, the match set is recomputed over the new rows.
    pub fn refresh(&mut self, lines: &Vec<String>)
        requires
            old(self)@.wf(),
        ensures
            final(self)@ == spec_refresh(old(self)@, lines.deep_view()),
            final(self)@.wf(),
    {
        if lines.len() == 0 {
            return ;
        }
        let snap = parse_sessions(lines);
        proof {
            assert(views_of(snap@) =~= parsed(lines.deep_view()));
        }
        self.registry.replace(snap);
        if matches!(self.state, AppState::SessionsSearch) {
            self.update_search_matches();
        }
    }

    /// Reconcile after a create: the identifiers known right now form the
    /// "before" set, and a single newly appeared identifier is selected.
    /// Used on the create path, where the mode is back to browsing.
    pub fn refresh_with_discovery(&mut self, lines: &Vec<String>)
        requires
            old(self)@.wf(),
            old(self)@.state == AppState::Sessions,
        ensures
            final(self)@ == spec_refresh_discover(old(self)@, lines.deep_view()),
            final(self)@.wf(),
    {
        if lines.len() == 0 {
            return ;
        }
        let ghost listv = self@.registry.list;
        let mut before: Vec<String> = Vec::new();
        let mut i: usize = 0;
        while i < self.registry.sessions.len()
            invariant
                0 <= i <= self.registry.sessions@.len(),
                listv == self@.registry.list,
                listv.len() == self.registry.sessions@.len(),
                before.deep_view() =~= names_of(listv).subrange(0, i as int),
            decreases self.registry.sessions@.len() - i,
        {
            let n = self.registry.sessions[i].name.clone();
            let ghost dv = before.deep_view();
            before.push(n);
            proof {
                assert(before.deep_view() =~= dv.push(n@));
                assert(before.deep_view() =~= names_of(listv).subrange(0, i + 1));
            }
            i = i + 1;
        }
        proof {
            assert(before.deep_view() =~= names_of(listv));
        }
        let snap = parse_sessions(lines);
        proof {
            assert(views_of(snap@) =~= parsed(lines.deep_view()));
        }
        self.registry.replace_with_discovery(snap, &before);
    }

    /// Open the delete confirmation for the selected session.
    pub fn confirm_delete(&mut self)
        requires
            old(self)@.wf(),
            old(self)@.state == AppState::Sessions,
        ensures
            final(self)@ == (AppView { state: AppState::Deleting, ..old(self)@ }),
            final(self)@.wf(),
    {
        self.state = AppState::Deleting;
    }

    /// Open the rename prompt with a fresh empty buffer.
    pub fn confirm_rename(&mut self)
        requires
            old(self)@.wf(),
            old(self)@.state == AppState::Sessions,
        ensures
            final(self)@ == (AppView {
                state: AppState::Renaming,
                rename_ta: Some(empty_buf()),
                ..old(self)@
            }),
            final(self)@.wf(),
    {
        self.rename_session_ta = Some(TextBuffer::new());
        self.state = AppState::Renaming;
    }

    /// Open the new-session prompt with a fresh empty buffer, or warn
    /// instead when the interface is nested and could not enter the new
    /// session.
    pub fn confirm_new_session(&mut self)
        requires
            old(self)@.wf(),
            old(self)@.state == AppState::Sessions,
        ensures
            final(self)@ == (if old(self)@.nested {
                AppView { state: AppState::WarnNested, ..old(self)@ }
            } else {
                AppView { state: AppState::NewSession, new_ta: Some(empty_buf()), ..old(self)@ }
            }),
            final(self)@.wf(),
    {
        if self.nested {
            self.state = AppState::WarnNested;
        } else {
            self.new_session_ta = Some(TextBuffer::new());
            self.state = AppState::NewSession;
        }
    }

    /// Start filtering with a fresh empty buffer and an empty match set.
    pub fn search(&mut self)
        requires
            old(self)@.wf(),
            old(self)@.state == AppState::Sessions,
        ensures
            final(self)@ == (AppView {
                state: AppState::SessionsSearch,
                search_ta: Some(empty_buf()),
                ..old(self)@
            }),
            final(self)@.wf(),
    {
        self.search_session_ta = Some(TextBuffer::new());
        self.state = AppState::SessionsSearch;
        proof {
            let b = self@.search_ta->0;
            lemma_empty_filter(rows_view(self@.registry.list), b.text);
            assert(self@.matching =~= Seq::<int>::empty());
        }
    }

    /// Return to browsing: release every entry buffer and clear the filter
    /// state, whether the transition commits or cancels.
    pub fn dismiss_all(&mut self)
        requires
            old(self)@.registry.wf(),
        ensures
            final(self)@ == dismissed(old(self)@),
            final(self)@.wf(),
    {
        self.rename_session_ta = None;
        self.new_session_ta = None;
        self.search_session_ta = None;
        self.search_session_selected = None;
        self.matching_rows = Vec::new();
        self.state = AppState::Sessions;
        proof {
            assert(as_ints(self.matching_rows@) =~= Seq::<int>::empty());
        }
    }

    /// Recompute the match set over the current rows and filter text, and
    /// carry the pointed-at match through the continuity rule.
    pub fn update_search_matches(&mut self)
        requires
            old(self)@.registry.wf(),
            old(self)@.search_ta is Some,
            old(self)@.search_ta->0.wf(),
        ensures
            final(self)@ == recomputed(old(self)@),
            final(self)@.search_wf(),
    {
        let pat = match &self.search_session_ta {
            Some(ta) => ta.text(),
            None => String::new(),
        };
        let rows = row_strings(&self.registry.sessions);
        let ms = compute_matches(&rows, &pat);
        let new_ptr: Option<usize> = match self.search_session_selected {
            Some(p) => {
                if contains_index(&ms, p) {
                    Some(p)
                } else if ms.len() > 0 {
                    Some(ms[0])
                } else {
                    None
                }
            },
            None => {
                if ms.len() > 0 {
                    Some(ms[0])
                } else {
                    None
                }
            },
        };
        proof {
            assert(rows.deep_view() == rows_view(self@.registry.list));
            assert(as_ints(ms@) == match_set(rows_view(self@.registry.list), pat@));
        }
        self.matching_rows = ms;
        self.search_session_selected = new_ptr;
    }

    /// Decide a delete of the selected session: hand back the kill command
    /// and return to browsing, or do nothing on an empty registry.
    pub fn delete(&mut self) -> (r: Option<Action>)
        requires
            old(self)@.wf(),
        ensures
            old(self)@.registry.list.len() == 0 ==> final(self)@ == old(self)@ && r is None,
            old(self)@.registry.list.len() > 0 ==> final(self)@ == dismissed(old(self)@)
                && action_view(r) == Some(
                ActionView::KillSession(old(self)@.registry.selected_name()),
            ),
            final(self)@.wf(),
    {
        let target = match self.registry.current() {
            Some(s) => Some(s.name.clone()),
            None => None,
        };
        match target {
            Some(name) => {
                self.dismiss_all();
                Some(Action::KillSession(name))
            },
            None => None,
        }
    }

    /// Decide a rename of the selected session to `new_name`: hand back
    /// the rename command and return to browsing, or do nothing on an
    /// empty registry.
    pub fn rename(&mut self, new_name: &String) -> (r: Option<Action>)
        requires
            old(self)@.wf(),
        ensures
            old(self)@.registry.list.len() == 0 ==> final(self)@ == old(self)@ && r is None,
            old(self)@.registry.list.len() > 0 ==> final(self)@ == dismissed(old(self)@)
                && action_view(r) == Some(
                ActionView::RenameSession(old(self)@.registry.selected_name(), new_name@),
            ),
            final(self)@.wf(),
    {
        let target = match self.registry.current() {
            Some(s) => Some(s.name.clone()),
            None => None,
        };
        match target {
            Some(name) => {
                self.dismiss_all();
                Some(Action::RenameSession(name, new_name.clone()))
            },
            None => None,
        }
    }

    /// Decide a create. With a name: hand back the create command and
    /// return to browsing. Without one: stop the loop and emit the
    /// create-and-enter outcome.
    pub fn new_session(&mut self, name: Option<&String>) -> (r: Option<Action>)
        requires
            old(self)@.wf(),
        ensures
            (match name {
                Some(n) => final(self)@ == dismissed(old(self)@) && action_view(r) == Some(
                    ActionView::CreateSession(n@),
                ),
                None => final(self)@ == (AppView {
                    running: false,
                    on_exit: ExitActionView::NewSession,
                    ..old(self)@
                }) && r is None,
            }),
            final(self)@.wf(),
    {
        match name {
            Some(n) => {
                self.dismiss_all();
                Some(Action::CreateSession(n.clone()))
            },
            None => {
                self.running = false;
                self.on_exit = ExitAction::NewSession;
                None
            },
        }
    }
}

} // verus!
