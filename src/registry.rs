use vstd::prelude::*;

use crate::window::{window_wf, IcedWindow, WindowModel};

verus! {

/// The slot that holds a window created outside the event loop until the
/// loop first sees an event for its label.
pub struct StagingWindowWrapper<P, K, S, R> {
    pub window: Option<IcedWindow<P, K, S, R>>,
}

impl<P, K, S, R> View for StagingWindowWrapper<P, K, S, R> {
    type V = Option<WindowModel<P, K, S, R>>;

    open spec fn view(&self) -> Option<WindowModel<P, K, S, R>> {
        match self.window {
            Some(w) => Some(w@),
            None => None,
        }
    }
}

/// The live managed windows, at most one per label.
pub struct Registry<P, K, S, R> {
    pub windows: Vec<IcedWindow<P, K, S, R>>,
}

impl<P, K, S, R> View for Registry<P, K, S, R> {
    type V = Seq<WindowModel<P, K, S, R>>;

    open spec fn view(&self) -> Seq<WindowModel<P, K, S, R>> {
        self.windows@.map_values(|w: IcedWindow<P, K, S, R>| w@)
    }
}

/// Whether a window with label `l` is registered.
pub open spec fn has_label<P, K, S, R>(ws: Seq<WindowModel<P, K, S, R>>, l: Seq<char>) -> bool {
    exists|i: int| 0 <= i < ws.len() && (#[trigger] ws[i]).label == l
}

/// No two registered windows share a label, and each is well formed.
pub open spec fn registry_wf<P, K, S, R>(ws: Seq<WindowModel<P, K, S, R>>) -> bool {
    &&& forall|i: int, j: int|
        0 <= i < ws.len() && 0 <= j < ws.len() && i != j ==> (#[trigger] ws[i]).label != (#[trigger] ws[j]).label
    &&& forall|i: int| 0 <= i < ws.len() ==> window_wf(#[trigger] ws[i])
}

/// Whether the staged window, if any, is well formed.
pub open spec fn staging_wf<P, K, S, R>(s: Option<WindowModel<P, K, S, R>>) -> bool {
    s matches Some(w) ==> window_wf(w)
}

/// The registry and staging slot after an event for label `l` was seen: the
/// staged window moves into the registry when its label is `l` and no live
/// window holds `l`; otherwise nothing changes.
pub open spec fn after_transfer<P, K, S, R>(
    ws: Seq<WindowModel<P, K, S, R>>,
    s: Option<WindowModel<P, K, S, R>>,
    l: Seq<char>,
) -> (Seq<WindowModel<P, K, S, R>>, Option<WindowModel<P, K, S, R>>) {
    match s {
        Some(w) => if !has_label(ws, l) && w.label == l {
            (ws.push(w), None)
        } else {
            (ws, s)
        },
        None => (ws, s),
    }
}

/// The position of the window labelled `l`; meaningful when one is registered.
pub open spec fn index_of<P, K, S, R>(ws: Seq<WindowModel<P, K, S, R>>, l: Seq<char>) -> int {
    choose|i: int| 0 <= i < ws.len() && (#[trigger] ws[i]).label == l
}

/// The registry after the window labelled `l`, if any, is removed; the others
/// keep their order.
pub open spec fn after_remove<P, K, S, R>(ws: Seq<WindowModel<P, K, S, R>>, l: Seq<char>) -> Seq<WindowModel<P, K, S, R>> {
    if has_label(ws, l) {
        ws.remove(index_of(ws, l))
    } else {
        ws
    }
}

/// With unique labels, the window found at `i` is the one `index_of` names.
pub proof fn lemma_index_of_unique<P, K, S, R>(ws: Seq<WindowModel<P, K, S, R>>, i: int)
    requires
        registry_wf(ws),
        0 <= i < ws.len(),
    ensures
        has_label(ws, ws[i].label),
        index_of(ws, ws[i].label) == i,
{
    let l = ws[i].label;
    assert(ws[i].label == l);
    let c = index_of(ws, l);
    assert(ws[c].label == l);
}

/// Replacing a window by a well-formed one with the same label keeps the
/// registry well formed.
pub proof fn lemma_update_keeps_wf<P, K, S, R>(ws: Seq<WindowModel<P, K, S, R>>, i: int, w: WindowModel<P, K, S, R>)
    requires
        registry_wf(ws),
        0 <= i < ws.len(),
        w.label == ws[i].label,
        window_wf(w),
    ensures
        registry_wf(ws.update(i, w)),
{
    let u = ws.update(i, w);
    assert forall|a: int, b: int|
        0 <= a < u.len() && 0 <= b < u.len() && a != b implies (#[trigger] u[a]).label != (#[trigger] u[b]).label by {
        assert(u[a].label == ws[a].label);
        assert(u[b].label == ws[b].label);
    }
}

/// A staged window never replaces a live window with the same label: while
/// one is registered, seeing its label leaves registry and slot unchanged.
pub proof fn lemma_live_window_not_overwritten<P, K, S, R>(
    ws: Seq<WindowModel<P, K, S, R>>,
    st: Option<WindowModel<P, K, S, R>>,
    l: Seq<char>,
)
    requires
        has_label(ws, l),
    ensures
        after_transfer(ws, st, l) == (ws, st),
{
}

/// Once the live window is removed, a window staged under its label is
/// promoted the next time the label is seen.
pub proof fn lemma_staged_promoted_after_removal<P, K, S, R>(
    ws: Seq<WindowModel<P, K, S, R>>,
    w: WindowModel<P, K, S, R>,
)
    requires
        registry_wf(ws),
    ensures
        !has_label(after_remove(ws, w.label), w.label),
        after_transfer(after_remove(ws, w.label), Some(w), w.label)
            == (after_remove(ws, w.label).push(w), None::<WindowModel<P, K, S, R>>),
{
    let l = w.label;
    let rs = after_remove(ws, l);
    if has_label(ws, l) {
        let c = index_of(ws, l);
        assert(ws[c].label == l);
        assert forall|j: int| 0 <= j < rs.len() implies (#[trigger] rs[j]).label != l by {
            if j < c {
                assert(rs[j] == ws[j]);
            } else {
                assert(rs[j] == ws[j + 1]);
            }
        }
    }
}

impl<P, K, S, R> StagingWindowWrapper<P, K, S, R> {
    /// An empty slot.
    pub fn new() -> (r: Self)
        ensures
            r@ is None,
    {
        StagingWindowWrapper { window: None }
    }

    /// Puts a newly created window in the slot, dropping any window still
    /// waiting there: the latest creation before promotion wins.
    pub fn stage(&mut self, window: IcedWindow<P, K, S, R>)
        ensures
            final(self)@ == Some(window@),
    {
        self.window = Some(window);
    }
}

impl<P, K, S, R> Registry<P, K, S, R> {
    /// A registry with no window.
    pub fn new() -> (r: Self)
        ensures
            r@ == Seq::<WindowModel<P, K, S, R>>::empty(),
    {
        Registry { windows: Vec::new() }
    }

    /// The number of live windows.
    pub fn len(&self) -> (r: usize)
        ensures
            r == self@.len(),
    {
        self.windows.len()
    }

    /// The position of the window labelled `label`, if one is registered.
    pub fn find(&self, label: &String) -> (r: Option<usize>)
        requires
            registry_wf(self@),
        ensures
            r is None <==> !has_label(self@, label@),
            r matches Some(i) ==> i < self@.len() && self@[i as int].label == label@,
    {
        let mut i: usize = 0;
        while i < self.windows.len()
            invariant
                i <= self@.len(),
                self@.len() == self.windows@.len(),
                forall|j: int| 0 <= j < i ==> (#[trigger] self@[j]).label != label@,
            decreases self@.len() - i,
        {
            if self.windows[i].label == *label {
                return Some(i);
            }
            i = i + 1;
        }
        None
    }

    /// Whether a window labelled `label` is registered.
    pub fn contains_key(&self, label: &String) -> (r: bool)
        requires
            registry_wf(self@),
        ensures
            r == has_label(self@, label@),
    {
        self.find(label).is_some()
    }

    /// Moves the staged window into the registry if its label is `label` and
    /// no live window holds that label yet. A live window is never
    /// overwritten.
    pub fn transfer_staging_window(&mut self, staging: &mut StagingWindowWrapper<P, K, S, R>, label: &String)
        requires
            registry_wf(old(self)@),
            staging_wf(old(staging)@),
        ensures
            (final(self)@, final(staging)@) == after_transfer(old(self)@, old(staging)@, label@),
            registry_wf(final(self)@),
            staging_wf(final(staging)@),
    {
        if self.contains_key(label) {
            return;
        }
        let matches = match &staging.window {
            Some(w) => w.label == *label,
            None => false,
        };
        if matches {
            match staging.window.take() {
                Some(w) => {
                    self.windows.push(w);
                    assert(self@ =~= old(self)@.push(w@));
                },
                None => {},
            }
        }
    }

    /// Removes and drops the window labelled `label`, releasing its
    /// resources. Returns whether one was registered.
    pub fn remove(&mut self, label: &String) -> (r: bool)
        requires
            registry_wf(old(self)@),
        ensures
            r == has_label(old(self)@, label@),
            final(self)@ == after_remove(old(self)@, label@),
            !has_label(final(self)@, label@),
            registry_wf(final(self)@),
    {
        match self.find(label) {
            Some(i) => {
                let ghost ws = old(self)@;
                let _ = self.windows.remove(i);
                proof {
                    let c = index_of(ws, label@);
                    assert(ws[c].label == label@);
                    assert(c == i);
                    assert(self@ =~= ws.remove(i as int));
                    assert forall|j: int| 0 <= j < self@.len() implies (#[trigger] self@[j]).label != label@ by {
                        if j < i {
                            assert(self@[j] == ws[j]);
                        } else {
                            assert(self@[j] == ws[j + 1]);
                        }
                    }
                    assert forall|a: int, b: int|
                        0 <= a < self@.len() && 0 <= b < self@.len() && a != b implies (#[trigger] self@[a]).label != (#[trigger] self@[b]).label by {
                        let a1 = if a < i { a } else { a + 1 };
                        let b1 = if b < i { b } else { b + 1 };
                        assert(self@[a] == ws[a1]);
                        assert(self@[b] == ws[b1]);
                    }
                    assert forall|a: int| 0 <= a < self@.len() implies window_wf(#[trigger] self@[a]) by {
                        let a1 = if a < i { a } else { a + 1 };
                        assert(self@[a] == ws[a1]);
                    }
                }
                true
            },
            None => false,
        }
    }
}

} // verus!
