//! The session registry: the ordered list of known sessions plus the
//! selected index, and the reconciliation that re-derives it from a fresh
//! snapshot of the external store.
//!
//! Reconciliation adopts the snapshot verbatim and preserves the user's
//! selection by identifier where it can: if the previously selected
//! identifier still occurs in the snapshot it is selected at its new
//! position; otherwise the numeric index is kept and clamped into range.
//! A second entry point additionally infers a freshly created session by
//! set difference against a "before" set of identifiers and selects it
//! when it is unambiguous.

use vstd::prelude::*;

use crate::session::Session;
use crate::session::SessionView;
use crate::session::views_of;

verus! {

/// The ordered session list and the selected index. If the list is empty
/// the index is the 0 sentinel and list-dependent operations are no-ops.
pub struct Registry {
    pub sessions: Vec<Session>,
    pub selected: usize,
}

/// Mathematical image of a [`Registry`].
#[verifier::ext_equal]
pub ghost struct RegistryView {
    pub list: Seq<SessionView>,
    pub selected: int,
}

impl View for Registry {
    type V = RegistryView;

    open spec fn view(&self) -> RegistryView {
        RegistryView { list: views_of(self.sessions@), selected: self.selected as int }
    }
}

impl RegistryView {
    /// The registry invariant: a valid selection on a non-empty list, the
    /// 0 sentinel on an empty one.
    pub open spec fn wf(self) -> bool {
        if self.list.len() == 0 {
            self.selected == 0
        } else {
            0 <= self.selected < self.list.len()
        }
    }

    /// The identifier of the selected session (meaningful only when the
    /// list is non-empty).
    pub open spec fn selected_name(self) -> Seq<char> {
        self.list[self.selected].name
    }
}

/// The identifiers of a session list, in order.
pub open spec fn names_of(list: Seq<SessionView>) -> Seq<Seq<char>> {
    list.map_values(|s: SessionView| s.name)
}

/// Whether some session in `list` bears `name`.
pub open spec fn has_name(list: Seq<SessionView>, name: Seq<char>) -> bool {
    exists|i: int| 0 <= i < list.len() && list[i].name == name
}

/// Least index at or after `i` whose session bears `name`, if any.
pub open spec fn find_name_from(list: Seq<SessionView>, name: Seq<char>, i: int) -> Option<int>
    decreases list.len() - i,
{
    if i < 0 || i >= list.len() {
        None
    } else if list[i].name == name {
        Some(i)
    } else {
        find_name_from(list, name, i + 1)
    }
}

/// What [`find_name_from`] returns: the first match at or after `i`, or
/// nothing when no session from `i` on bears the name.
pub proof fn lemma_find_name_from(list: Seq<SessionView>, name: Seq<char>, i: int)
    requires
        0 <= i,
    ensures
        match find_name_from(list, name, i) {
            Some(p) => i <= p < list.len() && list[p].name == name && (forall|j: int|
                i <= j < p ==> list[j].name != name),
            None => forall|j: int| i <= j < list.len() ==> list[j].name != name,
        },
    decreases list.len() - i,
{
    if i < list.len() && list[i].name != name {
        lemma_find_name_from(list, name, i + 1);
    }
}

/// An index clamped into `[0, len - 1]`, with 0 for an empty list.
pub open spec fn clamp_index(sel: int, len: int) -> int {
    if len <= 0 {
        0
    } else if sel < 0 {
        0
    } else if sel >= len {
        len - 1
    } else {
        sel
    }
}

/// The reconciliation rule: adopt the snapshot verbatim; keep the selected
/// identifier where it still occurs (at its first position), otherwise
/// keep the numeric index; clamp the result into range.
pub open spec fn reconcile(pre: RegistryView, snap: Seq<SessionView>) -> RegistryView {
    let found = if pre.list.len() > 0 {
        find_name_from(snap, pre.selected_name(), 0)
    } else {
        None
    };
    let sel = match found {
        Some(p) => p,
        None => pre.selected,
    };
    RegistryView { list: snap, selected: clamp_index(sel, snap.len() as int) }
}

/// Whether index `i` of the snapshot is a discovery candidate: the first
/// occurrence of an identifier that is absent from the `before` set.
pub open spec fn new_candidate_at(
    snap: Seq<SessionView>,
    before: Seq<Seq<char>>,
    i: int,
) -> bool {
    &&& 0 <= i < snap.len()
    &&& !before.contains(snap[i].name)
    &&& forall|j: int| 0 <= j < i ==> snap[j].name != snap[i].name
}

/// The discovery candidates, in increasing index order.
pub open spec fn candidates(snap: Seq<SessionView>, before: Seq<Seq<char>>) -> Seq<int>
    decreases snap.len(),
{
    if snap.len() == 0 {
        Seq::empty()
    } else {
        let prefix = candidates(snap.drop_last(), before);
        if new_candidate_at(snap, before, snap.len() - 1) {
            prefix.push(snap.len() - 1)
        } else {
            prefix
        }
    }
}

/// Every candidate index is in range, is a candidate, and the list of
/// candidates is strictly increasing and complete.
pub proof fn lemma_candidates_props(snap: Seq<SessionView>, before: Seq<Seq<char>>)
    ensures
        forall|k: int|
            0 <= k < candidates(snap, before).len() ==> new_candidate_at(
                snap,
                before,
                #[trigger] candidates(snap, before)[k],
            ),
        forall|k1: int, k2: int|
            0 <= k1 < k2 < candidates(snap, before).len() ==> #[trigger] candidates(
                snap,
                before,
            )[k1] < #[trigger] candidates(snap, before)[k2],
        forall|i: int|
            new_candidate_at(snap, before, i) ==> candidates(snap, before).contains(i),
    decreases snap.len(),
{
    if snap.len() > 0 {
        let sub = snap.drop_last();
        lemma_candidates_props(sub, before);
        assert forall|i: int| 0 <= i < sub.len() implies new_candidate_at(sub, before, i)
            == new_candidate_at(snap, before, i) by {
            assert(sub[i] == snap[i]);
            assert(forall|j: int| 0 <= j < i ==> sub[j] == snap[j]);
        }
        assert forall|i: int| new_candidate_at(snap, before, i) implies candidates(
            snap,
            before,
        ).contains(i) by {
            if i < snap.len() - 1 {
                assert(candidates(sub, before).contains(i));
                let k = choose|k: int|
                    0 <= k < candidates(sub, before).len() && candidates(sub, before)[k] == i;
                assert(candidates(snap, before)[k] == i);
            } else {
                let cs = candidates(snap, before);
                assert(cs[cs.len() - 1] == i);
            }
        }
    }
}

/// Reconciliation with new-entity discovery: on exactly one candidate,
/// select it; on zero or several, make no guess and fall back to the
/// plain rule.
pub open spec fn reconcile_discover(
    pre: RegistryView,
    snap: Seq<SessionView>,
    before: Seq<Seq<char>>,
) -> RegistryView {
    let base = reconcile(pre, snap);
    let cs = candidates(snap, before);
    if cs.len() == 1 {
        RegistryView { selected: cs[0], ..base }
    } else {
        base
    }
}

/// Law: reconciliation always re-establishes the registry invariant; in
/// particular the selected index is in range for every non-empty snapshot.
pub proof fn lemma_reconcile_in_range(pre: RegistryView, snap: Seq<SessionView>)
    ensures
        reconcile(pre, snap).wf(),
{
}

/// Law: discovery, too, re-establishes the invariant.
pub proof fn lemma_reconcile_discover_in_range(
    pre: RegistryView,
    snap: Seq<SessionView>,
    before: Seq<Seq<char>>,
)
    ensures
        reconcile_discover(pre, snap, before).wf(),
{
    let cs = candidates(snap, before);
    if cs.len() == 1 {
        lemma_candidates_props(snap, before);
        assert(new_candidate_at(snap, before, cs[0]));
    }
}

/// Law: if the selected identifier still occurs in the snapshot, it stays
/// selected, at its new position.
pub proof fn lemma_selection_preserved(pre: RegistryView, snap: Seq<SessionView>)
    requires
        pre.wf(),
        pre.list.len() > 0,
        has_name(snap, pre.selected_name()),
    ensures
        reconcile(pre, snap).list.len() > 0,
        reconcile(pre, snap).list[reconcile(pre, snap).selected].name == pre.selected_name(),
{
    lemma_find_name_from(snap, pre.selected_name(), 0);
}

/// Law: if the selected identifier is gone but the snapshot still has more
/// rows than the old index, the old numeric index is kept, so the
/// selection lands on whatever now occupies that row.
pub proof fn lemma_selection_after_removal(pre: RegistryView, snap: Seq<SessionView>)
    requires
        pre.wf(),
        pre.list.len() > 0,
        !has_name(snap, pre.selected_name()),
        pre.selected < snap.len(),
    ensures
        reconcile(pre, snap).selected == pre.selected,
{
    lemma_find_name_from(snap, pre.selected_name(), 0);
}

/// Law: with exactly one newly appeared identifier, discovery selects it
/// (an identifier absent from the before set); with zero or several, the
/// selection is exactly what the plain rule gives.
pub proof fn lemma_new_entity_discovery(
    pre: RegistryView,
    snap: Seq<SessionView>,
    before: Seq<Seq<char>>,
)
    ensures
        candidates(snap, before).len() == 1 ==> {
            let r = reconcile_discover(pre, snap, before);
            &&& r.selected == candidates(snap, before)[0]
            &&& 0 <= r.selected < snap.len()
            &&& !before.contains(snap[r.selected].name)
        },
        candidates(snap, before).len() != 1 ==> reconcile_discover(pre, snap, before)
            == reconcile(pre, snap),
{
    let cs = candidates(snap, before);
    if cs.len() == 1 {
        lemma_candidates_props(snap, before);
        assert(new_candidate_at(snap, before, cs[0]));
    }
}

impl Registry {
    /// An empty registry: populated by the mandatory initial
    /// reconciliation right after construction.
    pub fn new() -> (r: Registry)
        ensures
            r@.list.len() == 0,
            r@.selected == 0,
            r@.wf(),
    {
        Registry { sessions: Vec::new(), selected: 0 }
    }

    /// Number of known sessions.
    pub fn len(&self) -> (n: usize)
        ensures
            n == self@.list.len(),
    {
        self.sessions.len()
    }

    /// The selected session, or nothing on an empty registry.
    pub fn current(&self) -> (r: Option<&Session>)
        requires
            self@.wf(),
        ensures
            match r {
                Some(s) => self@.list.len() > 0 && s@ == self@.list[self@.selected],
                None => self@.list.len() == 0,
            },
    {
        if self.sessions.len() == 0 {
            None
        } else {
            Some(&self.sessions[self.selected])
        }
    }

    /// Wholesale substitution by a fresh snapshot, with selection
    /// preservation and clamping as [`reconcile`] states.
    pub fn replace(&mut self, snapshot: Vec<Session>)
        requires
            old(self)@.wf(),
        ensures
            final(self)@ == reconcile(old(self)@, views_of(snapshot@)),
            final(self)@.wf(),
    {
        let ghost snapv = views_of(snapshot@);
        let mut sel: usize = self.selected;
        if self.sessions.len() > 0 {
            let name = &self.sessions[self.selected].name;
            let ghost target = name@;
            let mut i: usize = 0;
            let mut found = false;
            while i < snapshot.len() && !found
                invariant
                    0 <= i <= snapshot@.len(),
                    snapv == views_of(snapshot@),
                    target == old(self)@.selected_name(),
                    target == name@,
                    !found ==> find_name_from(snapv, target, 0) == find_name_from(
                        snapv,
                        target,
                        i as int,
                    ),
                    !found ==> sel == old(self).selected,
                    found ==> find_name_from(snapv, target, 0) == Some(sel as int),
                decreases snapshot@.len() - i + if found { 0int } else { 1int },
            {
                let same = snapshot[i].name.eq(name);
                proof {
                    assert(snapv[i as int] == snapshot@[i as int]@);
                    assert(same == (snapv[i as int].name == target));
                }
                if same {
                    found = true;
                    sel = i;
                    proof {
                        assert(find_name_from(snapv, target, i as int) == Some(i as int));
                    }
                } else {
                    proof {
                        assert(find_name_from(snapv, target, i as int) == find_name_from(
                            snapv,
                            target,
                            i + 1,
                        ));
                    }
                    i = i + 1;
                }
            }
            proof {
                if !found {
                    assert(find_name_from(snapv, target, i as int) is None);
                }
            }
        }
        self.sessions = snapshot;
        if self.sessions.len() == 0 {
            self.selected = 0;
        } else if sel >= self.sessions.len() {
            self.selected = self.sessions.len() - 1;
        } else {
            self.selected = sel;
        }
    }

    /// Substitution with new-entity discovery: like [`Self::replace`], but
    /// when exactly one identifier of the snapshot is missing from
    /// `before` (the identifiers captured just before the mutating call),
    /// that entry is selected.
    pub fn replace_with_discovery(&mut self, snapshot: Vec<Session>, before: &Vec<String>)
        requires
            old(self)@.wf(),
        ensures
            final(self)@ == reconcile_discover(
                old(self)@,
                views_of(snapshot@),
                before.deep_view(),
            ),
            final(self)@.wf(),
    {
        let ghost snapv = views_of(snapshot@);
        let ghost beforev = before.deep_view();
        let mut cands: Vec<usize> = Vec::new();
        let mut i: usize = 0;
        while i < snapshot.len()
            invariant
                0 <= i <= snapshot@.len(),
                snapv == views_of(snapshot@),
                beforev == before.deep_view(),
                cands@.map_values(|u: usize| u as int) == candidates(
                    snapv.subrange(0, i as int),
                    beforev,
                ),
                forall|k: int| 0 <= k < cands@.len() ==> cands@[k] < i,
            decreases snapshot@.len() - i,
        {
            let is_old = vec_has_string(before, &snapshot[i].name);
            let repeated = prefix_has_name(&snapshot, i);
            proof {
                let pre = snapv.subrange(0, i as int);
                let ext = snapv.subrange(0, i + 1);
                assert(ext.drop_last() =~= pre);
                assert(forall|j: int| 0 <= j <= i ==> ext[j] == snapv[j]);
                assert(new_candidate_at(ext, beforev, i as int) == (!is_old && !repeated));
            }
            if !is_old && !repeated {
                cands.push(i);
                proof {
                    assert(cands@.map_values(|u: usize| u as int) =~= candidates(
                        snapv.subrange(0, i + 1),
                        beforev,
                    ));
                }
            } else {
                proof {
                    assert(cands@.map_values(|u: usize| u as int) =~= candidates(
                        snapv.subrange(0, i + 1),
                        beforev,
                    ));
                }
            }
            i = i + 1;
        }
        proof {
            assert(snapv.subrange(0, snapv.len() as int) =~= snapv);
        }
        self.replace(snapshot);
        if cands.len() == 1 {
            let c = cands[0];
            proof {
                assert(candidates(snapv, beforev)[0] == c as int);
            }
            self.selected = c;
        }
    }

    /// Move the selection by `delta` rows, clamped to the ends, a no-op on
    /// an empty registry.
    pub fn move_selection(&mut self, delta: i32)
        requires
            old(self)@.wf(),
        ensures
            final(self)@.list == old(self)@.list,
            old(self)@.list.len() == 0 ==> final(self)@.selected == old(self)@.selected,
            old(self)@.list.len() > 0 ==> final(self)@.selected == clamp_index(
                old(self)@.selected + delta,
                old(self)@.list.len() as int,
            ),
            final(self)@.wf(),
    {
        if self.sessions.len() == 0 {
            return ;
        }
        let len = self.sessions.len();
        if delta >= 0 {
            let room = len - 1 - self.selected;
            let d = delta as usize;
            if d > room {
                self.selected = len - 1;
            } else {
                self.selected = self.selected + d;
            }
        } else {
            let mag64: i64 = -(delta as i64);
            let mag = mag64 as usize;
            if mag > self.selected {
                self.selected = 0;
            } else {
                self.selected = self.selected - mag;
            }
        }
    }

    /// Jump to the top of the list (a no-op on an empty registry, where
    /// the selection already sits at the sentinel).
    pub fn jump_first(&mut self)
        ensures
            final(self)@.list == old(self)@.list,
            final(self)@.selected == 0,
            final(self)@.wf(),
    {
        self.selected = 0;
    }

    /// Jump to the bottom of the list.
    pub fn jump_last(&mut self)
        ensures
            final(self)@.list == old(self)@.list,
            final(self)@.selected == clamp_index(
                old(self)@.list.len() as int - 1,
                old(self)@.list.len() as int,
            ),
            final(self)@.wf(),
    {
        if self.sessions.len() == 0 {
            self.selected = 0;
        } else {
            self.selected = self.sessions.len() - 1;
        }
    }
}

/// Whether `v` holds a string equal to `name`.
fn vec_has_string(v: &Vec<String>, name: &String) -> (b: bool)
    ensures
        b == v.deep_view().contains(name@),
{
    let mut i: usize = 0;
    while i < v.len()
        invariant
            0 <= i <= v@.len(),
            forall|j: int| 0 <= j < i ==> v.deep_view()[j] != name@,
        decreases v@.len() - i,
    {
        if v[i].eq(name) {
            proof {
                assert(v.deep_view()[i as int] == name@);
            }
            return true;
        }
        i = i + 1;
    }
    false
}

/// Whether the identifier at index `i` already occurs earlier in the
/// snapshot.
fn prefix_has_name(snapshot: &Vec<Session>, i: usize) -> (b: bool)
    requires
        i < snapshot@.len(),
    ensures
        b == exists|j: int| 0 <= j < i && views_of(snapshot@)[j].name == views_of(
            snapshot@,
        )[i as int].name,
{
    let mut j: usize = 0;
    while j < i
        invariant
            0 <= j <= i < snapshot@.len(),
            forall|k: int| 0 <= k < j ==> views_of(snapshot@)[k].name != views_of(
                snapshot@,
            )[i as int].name,
        decreases i - j,
    {
        if snapshot[j].name.eq(&snapshot[i].name) {
            proof {
                assert(views_of(snapshot@)[j as int].name == views_of(snapshot@)[i as int].name);
            }
            return true;
        }
        j = j + 1;
    }
    false
}

} // verus!
