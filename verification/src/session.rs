//! Sessions as reported by the external store, and the parsing of the
//! store's raw listing lines (`identifier ":" rest-of-line`) into them.

use vstd::prelude::*;
use vstd::string::StrSliceExecFns;
use vstd::string::StringExecFns;

verus! {

/// One session: a unique identifier assigned by the external store and a
/// free-form, purely informational description.
pub struct Session {
    pub name: String,
    pub desc: String,
}

/// Mathematical image of a [`Session`]: both fields as character sequences.
#[verifier::ext_equal]
pub ghost struct SessionView {
    pub name: Seq<char>,
    pub desc: Seq<char>,
}

impl View for Session {
    type V = SessionView;

    open spec fn view(&self) -> SessionView {
        SessionView { name: self.name@, desc: self.desc@ }
    }
}

/// Position of the first `':'` in `line` at or after `i`, if any.
pub open spec fn first_colon_from(line: Seq<char>, i: int) -> Option<int>
    decreases line.len() - i,
{
    if i < 0 || i >= line.len() {
        None
    } else if line[i] == ':' {
        Some(i)
    } else {
        first_colon_from(line, i + 1)
    }
}

/// How one raw listing line is read: the identifier is everything before
/// the first `':'`, the description everything after it (inner colons
/// included). A line without a colon is all identifier.
pub open spec fn parse_line(line: Seq<char>) -> SessionView {
    match first_colon_from(line, 0) {
        Some(p) => SessionView {
            name: line.subrange(0, p),
            desc: line.subrange(p + 1, line.len() as int),
        },
        None => SessionView { name: line, desc: Seq::empty() },
    }
}

/// The views of a whole snapshot, session by session.
pub open spec fn views_of(v: Seq<Session>) -> Seq<SessionView> {
    v.map_values(|s: Session| s@)
}

/// Parse one raw listing line into a session.
pub fn parse_session(line: &String) -> (s: Session)
    ensures
        s@ == parse_line(line@),
{
    let n = line.as_str().unicode_len();
    let mut i: usize = 0;
    while i < n && line.as_str().get_char(i) != ':'
        invariant
            0 <= i <= n,
            n == line@.len(),
            first_colon_from(line@, i as int) == first_colon_from(line@, 0),
        decreases n - i,
    {
        i = i + 1;
    }
    let name = String::from_str(line.as_str().substring_char(0, i));
    let desc = if i < n {
        String::from_str(line.as_str().substring_char(i + 1, n))
    } else {
        String::new()
    };
    proof {
        if i < n {
            assert(first_colon_from(line@, 0) == Some(i as int));
        } else {
            assert(first_colon_from(line@, i as int) is None);
        }
    }
    Session { name, desc }
}

/// Parse a full snapshot: one session per raw line, order kept.
pub fn parse_sessions(lines: &Vec<String>) -> (v: Vec<Session>)
    ensures
        v@.len() == lines@.len(),
        forall|i: int| 0 <= i < v@.len() ==> v@[i]@ == parse_line(lines@[i]@),
{
    let mut v: Vec<Session> = Vec::new();
    let mut i: usize = 0;
    while i < lines.len()
        invariant
            0 <= i <= lines@.len(),
            v@.len() == i,
            forall|j: int| 0 <= j < i ==> v@[j]@ == parse_line(lines@[j]@),
        decreases lines@.len() - i,
    {
        let s = parse_session(&lines[i]);
        v.push(s);
        i = i + 1;
    }
    v
}

} // verus!
