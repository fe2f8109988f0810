//! The set of managed layer-shell windows, keyed by identifier, each with its
//! configuration and the handle of its native window.

use vstd::prelude::*;

use crate::idmap::{lemma_map_of_map_values, map_of, strictly_sorted, IdMap};
use crate::protocol::{AppState, LayerShellWindowSpec, LayerShellWindowState};

verus! {

/// One managed window: its configuration and the handle of its native window.
pub struct WindowSlot<W> {
    pub spec: LayerShellWindowSpec,
    pub handle: W,
}

/// The configuration of a slot.
pub open spec fn slot_spec<W>(slot: WindowSlot<W>) -> LayerShellWindowSpec {
    slot.spec
}

/// The native handle of a slot.
pub open spec fn slot_handle<W>(slot: WindowSlot<W>) -> W {
    slot.handle
}

/// A listing of windows as (identifier, configuration) pairs, in listing order.
pub open spec fn listing_pairs(states: Seq<LayerShellWindowState>) -> Seq<
    (Seq<char>, LayerShellWindowSpec),
> {
    Seq::new(states.len(), |i: int| (states[i].id@, states[i].spec))
}

/// The managed layer-shell windows, ordered by identifier.
pub struct LayerShellWindows<W> {
    slots: IdMap<WindowSlot<W>>,
}

impl<W> View for LayerShellWindows<W> {
    type V = Map<Seq<char>, LayerShellWindowSpec>;

    /// The configuration of each managed window, by identifier.
    closed spec fn view(&self) -> Map<Seq<char>, LayerShellWindowSpec> {
        self.slots@.map_values(|slot: WindowSlot<W>| slot_spec(slot))
    }
}

impl<W> LayerShellWindows<W> {
    /// The native handle of each managed window, by identifier.
    pub closed spec fn handles(&self) -> Map<Seq<char>, W> {
        self.slots@.map_values(|slot: WindowSlot<W>| slot_handle(slot))
    }

    /// No window is managed.
    pub fn new() -> (windows: Self)
        ensures
            windows@ == Map::<Seq<char>, LayerShellWindowSpec>::empty(),
            windows.handles() == Map::<Seq<char>, W>::empty(),
    {
        let windows = LayerShellWindows { slots: IdMap::new() };
        assert(windows@ =~= Map::<Seq<char>, LayerShellWindowSpec>::empty());
        assert(windows.handles() =~= Map::<Seq<char>, W>::empty());
        windows
    }

    /// The window managed under `id`, if any.
    pub fn get(&self, id: &str) -> (slot: Option<&WindowSlot<W>>)
        ensures
            slot is Some <==> self@.contains_key(id@),
            slot matches Some(s) ==> s.spec == self@[id@] && s.handle == self.handles()[id@],
    {
        self.slots.get(id)
    }

    /// Replaces the configuration of the window managed under `id` and keeps its
    /// native window. Returns whether the URL changed, or hands `spec` back when no
    /// window is managed under `id`.
    pub fn update_existing(&mut self, id: &str, spec: LayerShellWindowSpec) -> (outcome: Result<
        bool,
        LayerShellWindowSpec,
    >)
        ensures
            outcome is Ok <==> old(self)@.contains_key(id@),
            outcome matches Ok(url_changed) ==> {
                &&& final(self)@ == old(self)@.insert(id@, spec)
                &&& final(self).handles() == old(self).handles()
                &&& url_changed == (old(self)@[id@].url@ != spec.url@)
            },
            outcome matches Err(returned) ==> {
                &&& returned == spec
                &&& final(self)@ == old(self)@
                &&& final(self).handles() == old(self).handles()
            },
    {
        match self.slots.remove(id) {
            Some(slot) => {
                let url_changed = slot.spec.url != spec.url;
                self.slots.insert(id.to_owned(), WindowSlot { spec, handle: slot.handle });
                proof {
                    assert(self@ =~= old(self)@.insert(id@, spec));
                    assert(self.handles() =~= old(self).handles());
                }
                Ok(url_changed)
            },
            None => {
                assert(self.slots@ =~= old(self).slots@);
                Err(spec)
            },
        }
    }

    /// Starts managing a new window under `id`, which no window is managed under.
    pub fn insert_new(&mut self, id: String, spec: LayerShellWindowSpec, handle: W)
        requires
            !old(self)@.contains_key(id@),
        ensures
            final(self)@ == old(self)@.insert(id@, spec),
            final(self).handles() == old(self).handles().insert(id@, handle),
    {
        let ghost key = id@;
        self.slots.insert(id, WindowSlot { spec, handle });
        proof {
            assert(self@ =~= old(self)@.insert(key, spec));
            assert(self.handles() =~= old(self).handles().insert(key, handle));
        }
    }

    /// Stops managing the window under `id` and hands back its native window, if any.
    /// An unknown `id` leaves the managed windows unchanged.
    pub fn close(&mut self, id: &str) -> (handle: Option<W>)
        ensures
            final(self)@ == old(self)@.remove(id@),
            final(self).handles() == old(self).handles().remove(id@),
            handle is Some <==> old(self)@.contains_key(id@),
            handle matches Some(h) ==> h == old(self).handles()[id@],
    {
        let removed = self.slots.remove(id);
        proof {
            assert(self@ =~= old(self)@.remove(id@));
            assert(self.handles() =~= old(self).handles().remove(id@));
        }
        match removed {
            Some(slot) => Some(slot.handle),
            None => None,
        }
    }

    /// The managed windows as listed by the host: one entry per window, in strictly
    /// increasing identifier order, each with its current configuration.
    pub fn snapshot(&self) -> (states: Vec<LayerShellWindowState>)
        ensures
            strictly_sorted(listing_pairs(states@)),
            map_of(listing_pairs(states@)) == self@,
    {
        let ghost s = self.slots.pairs();
        let _ = self.slots.len();
        let mut states: Vec<LayerShellWindowState> = Vec::new();
        let mut i: usize = 0;
        while i < self.slots.len()
            invariant
                s == self.slots.pairs(),
                strictly_sorted(s),
                i <= s.len(),
                states@.len() == i,
                forall|j: int|
                    0 <= j < i ==> (#[trigger] states@[j]).id@ == s[j].0 && states@[j].spec
                        == s[j].1.spec,
            decreases s.len() - i,
        {
            let id = self.slots.id_at(i).clone();
            let spec = self.slots.value_at(i).spec.duplicate();
            states.push(LayerShellWindowState { id, spec });
            i = i + 1;
        }
        proof {
            let f = |slot: WindowSlot<W>| slot_spec(slot);
            assert forall|j: int| 0 <= j < s.len() implies (#[trigger] listing_pairs(states@)[j]).0
                == s[j].0 && listing_pairs(states@)[j].1 == f(s[j].1) by {
                assert(states@[j].id@ == s[j].0);
            }
            lemma_map_of_map_values(s, listing_pairs(states@), f);
        }
        states
    }

    /// `state` with its window list replaced by the current listing, and its
    /// session-lock state kept.
    pub fn publish(&self, state: &AppState) -> (next: AppState)
        ensures
            strictly_sorted(listing_pairs(next.layer_shell_windows@)),
            map_of(listing_pairs(next.layer_shell_windows@)) == self@,
            next.session_lock == state.session_lock,
    {
        state.with_layer_shell_windows(self.snapshot())
    }
}

/// An update creates the window when its identifier is unknown, or updates the
/// existing window in place: afterwards the identifier maps to the new
/// configuration, and every other window keeps its configuration.
pub proof fn lemma_upsert_sets_only_its_window(
    windows: Map<Seq<char>, LayerShellWindowSpec>,
    id: Seq<char>,
    spec: LayerShellWindowSpec,
    other: Seq<char>,
)
    requires
        other != id,
    ensures
        windows.insert(id, spec).contains_key(id),
        windows.insert(id, spec)[id] == spec,
        windows.insert(id, spec).contains_key(other) == windows.contains_key(other),
        windows.contains_key(other) ==> windows.insert(id, spec)[other] == windows[other],
{
}

/// Closing an unknown identifier leaves the managed window set unchanged; closing a
/// known one removes exactly that window.
pub proof fn lemma_close_removes_only_its_window(
    windows: Map<Seq<char>, LayerShellWindowSpec>,
    id: Seq<char>,
    other: Seq<char>,
)
    requires
        other != id,
    ensures
        !windows.contains_key(id) ==> windows.remove(id) == windows,
        !windows.remove(id).contains_key(id),
        windows.remove(id).contains_key(other) == windows.contains_key(other),
        windows.contains_key(other) ==> windows.remove(id)[other] == windows[other],
{
    if !windows.contains_key(id) {
        assert(windows.remove(id) =~= windows);
    }
}

} // verus!
