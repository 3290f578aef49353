//! The rendered textual form of the session rows: each identifier
//! right-aligned to the longest one, a `": "` separator, then the
//! description. The filter engine matches over exactly these texts.

use vstd::prelude::*;
use vstd::string::StrSliceExecFns;
use vstd::string::StringExecFns;

use crate::session::Session;
use crate::session::SessionView;
use crate::session::views_of;

verus! {

/// Relies on String::push, which appends the given character to the end
/// of the string.
#[verifier::external_body]
pub(crate) fn push_char(s: &mut String, c: char)
    ensures
        final(s)@ == old(s)@.push(c),
{
    s.push(c);
}

/// `n` spaces.
pub open spec fn spec_pad(n: nat) -> Seq<char> {
    Seq::new(n, |i: int| ' ')
}

/// The rendered text of one row: the identifier right-aligned (left-padded
/// with spaces) to `width`, then `": "`, then the description.
pub open spec fn spec_row(s: SessionView, width: nat) -> Seq<char> {
    let pad = if s.name.len() < width {
        (width - s.name.len()) as nat
    } else {
        0nat
    };
    spec_pad(pad) + s.name + ": "@ + s.desc
}

/// The length of the longest identifier in the list.
pub open spec fn max_name_len(list: Seq<SessionView>) -> nat
    decreases list.len(),
{
    if list.len() == 0 {
        0
    } else {
        let m = max_name_len(list.drop_last());
        if list.last().name.len() > m {
            list.last().name.len()
        } else {
            m
        }
    }
}

/// The rendered texts of all rows, aligned to the longest identifier.
pub open spec fn rows_view(list: Seq<SessionView>) -> Seq<Seq<char>> {
    list.map_values(|s: SessionView| spec_row(s, max_name_len(list)))
}

/// The width of the widest session identifier (0 on an empty list).
pub fn max_name_width(sessions: &Vec<Session>) -> (w: usize)
    ensures
        w as nat == max_name_len(views_of(sessions@)),
{
    let ghost listv = views_of(sessions@);
    let mut w: usize = 0;
    let mut i: usize = 0;
    while i < sessions.len()
        invariant
            0 <= i <= sessions@.len(),
            listv == views_of(sessions@),
            listv.len() == sessions@.len(),
            w as nat == max_name_len(listv.subrange(0, i as int)),
        decreases sessions@.len() - i,
    {
        let n = sessions[i].name.as_str().unicode_len();
        proof {
            let pre = listv.subrange(0, i as int);
            let ext = listv.subrange(0, i + 1);
            assert(ext.drop_last() =~= pre);
            assert(ext.last() == listv[i as int]);
            assert(listv[i as int] == sessions@[i as int]@);
        }
        if n > w {
            w = n;
        }
        i = i + 1;
    }
    proof {
        assert(listv.subrange(0, listv.len() as int) =~= listv);
    }
    w
}

/// Render one row.
pub fn row_string(s: &Session, width: usize) -> (r: String)
    ensures
        r@ == spec_row(s@, width as nat),
{
    let mut r = String::new();
    let n = s.name.as_str().unicode_len();
    if n < width {
        let pad = width - n;
        let mut i: usize = 0;
        while i < pad
            invariant
                0 <= i <= pad,
                r@ =~= spec_pad(i as nat),
            decreases pad - i,
        {
            push_char(&mut r, ' ');
            proof {
                assert(r@ =~= spec_pad((i + 1) as nat));
            }
            i = i + 1;
        }
    }
    r.append(s.name.as_str());
    r.append(": ");
    r.append(s.desc.as_str());
    proof {
        assert(r@ =~= spec_row(s@, width as nat));
    }
    r
}

/// Render every row, in registry order.
pub fn row_strings(sessions: &Vec<Session>) -> (r: Vec<String>)
    ensures
        r.deep_view() == rows_view(views_of(sessions@)),
{
    let ghost listv = views_of(sessions@);
    let w = max_name_width(sessions);
    let mut r: Vec<String> = Vec::new();
    let mut i: usize = 0;
    while i < sessions.len()
        invariant
            0 <= i <= sessions@.len(),
            listv == views_of(sessions@),
            listv.len() == sessions@.len(),
            w as nat == max_name_len(listv),
            r@.len() == i,
            forall|j: int|
                0 <= j < i ==> r.deep_view()[j] == spec_row(listv[j], max_name_len(listv)),
        decreases sessions@.len() - i,
    {
        let line = row_string(&sessions[i], w);
        let ghost dv = r.deep_view();
        r.push(line);
        proof {
            assert(r.deep_view() =~= dv.push(line@));
        }
        i = i + 1;
    }
    proof {
        assert(r.deep_view() =~= rows_view(listv));
    }
    r
}

} // verus!
