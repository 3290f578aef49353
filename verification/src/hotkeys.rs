//! The hotkey legend shown at the bottom of the interface: an exhaustive
//! mapping keyed by the interaction mode, checked for completeness by the
//! match itself. The create prompt shows the browsing legend, as the
//! interface always has.

use vstd::prelude::*;
use vstd::string::StringExecFns;

use crate::app::AppState;

verus! {

/// The key/description pairs of a legend row, as character sequences.
pub open spec fn pairs_view(s: Seq<(String, String)>) -> Seq<(Seq<char>, Seq<char>)> {
    s.map_values(|p: (String, String)| (p.0@, p.1@))
}

/// The legend of each mode.
pub open spec fn legend(state: AppState) -> Seq<(Seq<char>, Seq<char>)> {
    match state {
        AppState::Sessions | AppState::NewSession => seq![
            ("q"@, "Quit"@),
            ("a"@, "Attach Session"@),
            ("r"@, "Rename"@),
            ("n"@, "New"@),
            ("x"@, "Delete"@),
            ("/"@, "Search"@),
        ],
        AppState::Deleting => seq![
            ("q"@, "Quit"@),
            ("Esc"@, "Back"@),
            ("y"@, "Delete"@),
            ("n"@, "Cancel"@),
        ],
        AppState::Renaming => seq![("Esc"@, "Back"@), ("Enter"@, "Rename"@)],
        AppState::WarnNested => seq![("q"@, "Quit"@), ("Any"@, "Dismiss"@)],
        AppState::SessionsSearch => seq![
            ("Esc"@, "Cancel"@),
            ("Enter"@, "Confirm"@),
            ("C-n"@, "Select next match"@),
            ("C-p"@, "Select previous match"@),
        ],
    }
}

/// Append one legend pair.
fn push_pair(v: &mut Vec<(String, String)>, k: &str, d: &str)
    ensures
        pairs_view(final(v)@) == pairs_view(old(v)@).push((k@, d@)),
{
    v.push((String::from_str(k), String::from_str(d)));
    proof {
        assert(pairs_view(v@) =~= pairs_view(old(v)@).push((k@, d@)));
    }
}

/// The hotkey legend for a mode, in display order.
pub fn hotkeys(state: &AppState) -> (r: Vec<(String, String)>)
    ensures
        pairs_view(r@) == legend(*state),
{
    let mut v: Vec<(String, String)> = Vec::new();
    match *state {
        AppState::Sessions | AppState::NewSession => {
            push_pair(&mut v, "q", "Quit");
            push_pair(&mut v, "a", "Attach Session");
            push_pair(&mut v, "r", "Rename");
            push_pair(&mut v, "n", "New");
            push_pair(&mut v, "x", "Delete");
            push_pair(&mut v, "/", "Search");
        },
        AppState::Deleting => {
            push_pair(&mut v, "q", "Quit");
            push_pair(&mut v, "Esc", "Back");
            push_pair(&mut v, "y", "Delete");
            push_pair(&mut v, "n", "Cancel");
        },
        AppState::Renaming => {
            push_pair(&mut v, "Esc", "Back");
            push_pair(&mut v, "Enter", "Rename");
        },
        AppState::WarnNested => {
            push_pair(&mut v, "q", "Quit");
            push_pair(&mut v, "Any", "Dismiss");
        },
        AppState::SessionsSearch => {
            push_pair(&mut v, "Esc", "Cancel");
            push_pair(&mut v, "Enter", "Confirm");
            push_pair(&mut v, "C-n", "Select next match");
            push_pair(&mut v, "C-p", "Select previous match");
        },
    }
    proof {
        assert(pairs_view(v@) =~= legend(*state));
    }
    v
}

} // verus!
