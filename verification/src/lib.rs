//! A tabbed-container widget core for character-grid user interfaces.
//!
//! The crate pairs a bar of selectable tab buttons ([`bar::TabBar`]) with a
//! container that shows exactly one child view at a time ([`TabView`]), and
//! composes the two in a bordered panel that also routes keyboard focus
//! ([`panel::TabPanel`]). The bar and the container never hold references to
//! each other: they agree on the selected tab through a pair of one-way
//! message queues, each drained down to its newest value once per layout
//! pass.

use vstd::prelude::*;

pub mod bar;
pub mod channel;
pub mod child;
pub mod error;
pub mod event;
pub mod geom;
pub mod panel;
pub mod status;

pub use crate::panel::{Align, Placement, TabPanel};

use crate::channel::{channel_send, channel_try_recv, channel_len};
use crate::child::ChildView;
use crate::error::IdNotFound;
use crate::event::{CannotFocus, Direction, Event, EventResult};
use crate::geom::Vec2;

verus! {

/// No identifier occurs twice.
pub open spec fn distinct_keys(keys: Seq<Seq<char>>) -> bool {
    forall|i: int, j: int| 0 <= i < j < keys.len() ==> keys[i] != keys[j]
}

/// The position of identifier `k` in `keys`; meaningful when `keys`
/// contains `k`, and unique when the identifiers are distinct.
pub open spec fn idx_of(keys: Seq<Seq<char>>, k: Seq<char>) -> int {
    choose|i: int| 0 <= i < keys.len() && keys[i] == k
}

/// The key order after asking to exchange `a` and `b`: unchanged unless
/// both are present at different positions, in which case the two
/// positions trade their identifiers.
pub open spec fn spec_swapped(keys: Seq<Seq<char>>, a: Seq<char>, b: Seq<char>) -> Seq<Seq<char>> {
    if keys.contains(a) && keys.contains(b) && idx_of(keys, a) != idx_of(keys, b) {
        keys.update(idx_of(keys, a), b).update(idx_of(keys, b), a)
    } else {
        keys
    }
}

/// One step of cyclic tab rotation: the identifier after `cur` in
/// `keys`, wrapping at the end.
pub open spec fn spec_next_key(keys: Seq<Seq<char>>, cur: Seq<char>) -> Seq<char>
    recommends
        keys.contains(cur),
{
    keys[(idx_of(keys, cur) + 1) % (keys.len() as int)]
}

/// `n` steps of cyclic tab rotation starting from `cur`.
pub open spec fn spec_iterate_next(keys: Seq<Seq<char>>, cur: Seq<char>, n: nat) -> Seq<char>
    decreases n,
{
    if n == 0 {
        cur
    } else {
        spec_iterate_next(keys, spec_next_key(keys, cur), (n - 1) as nat)
    }
}

/// With distinct identifiers, the position of an element is the only one
/// holding it.
proof fn lemma_idx_of(keys: Seq<Seq<char>>, i: int)
    requires
        distinct_keys(keys),
        0 <= i < keys.len(),
    ensures
        keys.contains(keys[i]),
        idx_of(keys, keys[i]) == i,
{
    assert(keys.contains(keys[i])) by {
        assert(keys[i] == keys[i]);
    }
    let w = idx_of(keys, keys[i]);
    assert(0 <= w < keys.len() && keys[w] == keys[i]) by {
        assert(exists|j: int| 0 <= j < keys.len() && keys[j] == keys[i]) by {
            assert(0 <= i < keys.len() && keys[i] == keys[i]);
        }
    }
}

/// Rotation stepping, resolved to index arithmetic: starting at position
/// `i`, `n` steps land on position `(i + n) % len`.
proof fn lemma_iterate_from_index(keys: Seq<Seq<char>>, i: int, n: nat)
    requires
        distinct_keys(keys),
        0 <= i < keys.len(),
    ensures
        spec_iterate_next(keys, keys[i], n) == keys[(i + n) % (keys.len() as int)],
    decreases n,
{
    let m = keys.len() as int;
    if n == 0 {
        vstd::arithmetic::div_mod::lemma_small_mod(i as nat, keys.len());
    } else {
        lemma_idx_of(keys, i);
        assert(spec_next_key(keys, keys[i]) == keys[(i + 1) % m]);
        vstd::arithmetic::div_mod::lemma_mod_division_less_than_divisor(i + 1, m);
        vstd::arithmetic::div_mod::lemma_mod_decreases((i + 1) as nat, keys.len());
        let i1 = (i + 1) % m;
        assert(0 <= i1 < m) by {
            vstd::arithmetic::div_mod::lemma_mod_division_less_than_divisor(i + 1, m);
        }
        lemma_iterate_from_index(keys, i1, (n - 1) as nat);
        assert((i1 + (n - 1)) % m == (i + n) % m) by {
            vstd::arithmetic::div_mod::lemma_add_mod_noop_right(i1, n - 1, m);
            vstd::arithmetic::div_mod::lemma_add_mod_noop(i + 1, n - 1, m);
            vstd::arithmetic::div_mod::lemma_add_mod_noop_right(i + 1, n - 1, m);
        }
    }
}

/// The cyclic rotation law: starting from any visible tab, stepping to
/// the next tab as many times as there are tabs returns to the same tab.
pub proof fn lemma_next_full_cycle(keys: Seq<Seq<char>>, cur: Seq<char>)
    requires
        distinct_keys(keys),
        keys.contains(cur),
    ensures
        spec_iterate_next(keys, cur, keys.len()) == cur,
{
    let m = keys.len() as int;
    let i = idx_of(keys, cur);
    assert(0 <= i < keys.len() && keys[i] == cur) by {
        assert(exists|j: int| 0 <= j < keys.len() && keys[j] == cur);
    }
    lemma_iterate_from_index(keys, i, keys.len());
    assert((i + m) % m == i) by {
        vstd::arithmetic::div_mod::lemma_mod_add_multiples_vanish(i, m);
        vstd::arithmetic::div_mod::lemma_small_mod(i as nat, keys.len());
    }
}

/// The swap idempotence law: asking to exchange the same two identifiers
/// twice in a row restores the original order.
pub proof fn lemma_swap_twice_restores(keys: Seq<Seq<char>>, a: Seq<char>, b: Seq<char>)
    requires
        distinct_keys(keys),
    ensures
        spec_swapped(spec_swapped(keys, a, b), a, b) =~= keys,
{
    if keys.contains(a) && keys.contains(b) {
        let ia = idx_of(keys, a);
        let ib = idx_of(keys, b);
        assert(0 <= ia < keys.len() && keys[ia] == a) by {
            assert(exists|j: int| 0 <= j < keys.len() && keys[j] == a);
        }
        assert(0 <= ib < keys.len() && keys[ib] == b) by {
            assert(exists|j: int| 0 <= j < keys.len() && keys[j] == b);
        }
        if ia != ib {
            let k1 = keys.update(ia, b).update(ib, a);
            assert(spec_swapped(keys, a, b) == k1);
            assert(k1[ib] == a && k1[ia] == b);
            assert forall|i: int, j: int| 0 <= i < j < k1.len() implies k1[i] != k1[j] by {
                let oi = if i == ia {
                    ib
                } else if i == ib {
                    ia
                } else {
                    i
                };
                let oj = if j == ia {
                    ib
                } else if j == ib {
                    ia
                } else {
                    j
                };
                assert(k1[i] == keys[oi]);
                assert(k1[j] == keys[oj]);
            }
            assert(distinct_keys(k1));
            assert(k1.contains(a)) by {
                assert(k1[ib] == a);
            }
            assert(k1.contains(b)) by {
                assert(k1[ia] == b);
            }
            let wa = idx_of(k1, a);
            assert(0 <= wa < k1.len() && k1[wa] == a) by {
                assert(exists|j: int| 0 <= j < k1.len() && k1[j] == a);
            }
            assert(wa == ib);
            let wb = idx_of(k1, b);
            assert(0 <= wb < k1.len() && k1[wb] == b) by {
                assert(exists|j: int| 0 <= j < k1.len() && k1[j] == b);
            }
            assert(wb == ia);
            let k2 = k1.update(ib, b).update(ia, a);
            assert(spec_swapped(k1, a, b) == k2);
            assert(k2 =~= keys);
        }
    }
}

/// One tab of the container: a stable identifier and the hosted view.
struct TabEntry<V> {
    key: String,
    view: V,
}

/// The container half of the widget: an ordered collection of identified
/// child views of which at most one, named by `current_id`, is visible
/// and receives events.
///
/// Invariant ([`TabView::wf`]): identifiers are distinct, and the current
/// identifier, when set, names a held entry.
pub struct TabView<V> {
    current_id: Option<String>,
    entries: Vec<TabEntry<V>>,
    bar_rx: Option<crossbeam::channel::Receiver<String>>,
    active_key_tx: Option<crossbeam::channel::Sender<String>>,
    invalidated: bool,
}

impl<V> TabView<V> {
    /// The identifiers in visual order.
    pub closed spec fn key_seq(self) -> Seq<Seq<char>> {
        self.entries@.map_values(|e: TabEntry<V>| e.key@)
    }

    /// The hosted views in visual order; the view at position `i`
    /// belongs to the identifier at position `i` of `key_seq`, and
    /// every operation on the order moves the two together.
    pub closed spec fn view_seq(self) -> Seq<V> {
        self.entries@.map_values(|e: TabEntry<V>| e.view)
    }

    /// The identifier of the visible entry, if any.
    pub closed spec fn current_key(self) -> Option<Seq<char>> {
        match self.current_id {
            Some(s) => Some(s@),
            None => None,
        }
    }

    /// Whether the container wants a fresh layout pass of its own accord.
    pub closed spec fn dirty(self) -> bool {
        self.invalidated
    }

    pub open spec fn has_key(self, k: Seq<char>) -> bool {
        self.key_seq().contains(k)
    }

    /// The container's invariant.
    pub open spec fn wf(self) -> bool {
        &&& distinct_keys(self.key_seq())
        &&& match self.current_key() {
            Some(k) => self.has_key(k),
            None => true,
        }
    }

    /// A fresh, empty container with no queues attached.
    pub fn new() -> (r: TabView<V>)
        ensures
            r.key_seq() =~= Seq::<Seq<char>>::empty(),
            r.view_seq() =~= Seq::<V>::empty(),
            r.current_key() is None,
            r.dirty(),
            r.wf(),
    {
        TabView {
            current_id: None,
            entries: Vec::new(),
            bar_rx: None,
            active_key_tx: None,
            invalidated: true,
        }
    }

    /// The currently visible tab's identifier.
    pub fn active_tab(&self) -> (r: Option<&str>)
        ensures
            match r {
                Some(s) => self.current_key() == Some(s@),
                None => self.current_key() is None,
            },
    {
        match &self.current_id {
            Some(s) => Some(s.as_str()),
            None => None,
        }
    }

    /// The position of `id` among the entries, or `None` if absent.
    fn find_key(&self, id: &str) -> (r: Option<usize>)
        ensures
            match r {
                Some(i) => i < self.key_seq().len() && self.key_seq()[i as int] == id@,
                None => !self.has_key(id@),
            },
    {
        let id_s: String = id.to_owned();
        let n = self.entries.len();
        let mut i: usize = 0;
        while i < n
            invariant
                n == self.key_seq().len(),
                i <= n,
                forall|j: int| 0 <= j < i ==> self.key_seq()[j] != id_s@,
                id_s@ == id@,
            decreases n - i,
        {
            if self.entries[i].key == id_s {
                assert(self.key_seq()[i as int] == id@);
                return Some(i);
            }
            i += 1;
        }
        assert(forall|j: int| 0 <= j < self.key_seq().len() ==> self.key_seq()[j] != id@);
        None
    }

    /// Makes the tab named `id` the visible one, announces the new
    /// identifier on the outbound queue, and reports `IdNotFound` without
    /// changing anything when no entry has that identifier.
    pub fn set_active_tab(&mut self, id: &str) -> (r: Result<(), IdNotFound>)
        requires
            old(self).wf(),
        ensures
            final(self).wf(),
            final(self).key_seq() == old(self).key_seq(),
            final(self).view_seq() == old(self).view_seq(),
            old(self).has_key(id@) ==> r is Ok && final(self).current_key() == Some(id@)
                && final(self).dirty(),
            !old(self).has_key(id@) ==> (match r {
                Err(e) => e.id@ == id@,
                Ok(_) => false,
            }) && final(self).current_key() == old(self).current_key() && final(self).dirty()
                == old(self).dirty(),
    {
        match self.find_key(id) {
            Some(_) => {
                match &self.active_key_tx {
                    Some(tx) => channel_send(tx, id),
                    None => {},
                }
                self.current_id = Some(id.to_owned());
                self.invalidated = true;
                Ok(())
            },
            None => Err(IdNotFound { id: id.to_owned() }),
        }
    }

    /// Consuming variant of [`TabView::set_active_tab`]: hands the
    /// container back as `Ok` exactly when the identifier was known.
    pub fn with_active_tab(self, id: &str) -> (r: Result<TabView<V>, TabView<V>>)
        requires
            self.wf(),
        ensures
            self.has_key(id@) ==> (match r {
                Ok(t) => t.wf() && t.key_seq() == self.key_seq() && t.current_key() == Some(id@),
                Err(_) => false,
            }),
            !self.has_key(id@) ==> (match r {
                Err(t) => t.wf() && t.key_seq() == self.key_seq() && t.current_key()
                    == self.current_key(),
                Ok(_) => false,
            }),
    {
        let mut s = self;
        match s.set_active_tab(id) {
            Ok(_) => Ok(s),
            Err(_) => Err(s),
        }
    }

    /// Appends a tab at the end of the order and makes it the visible
    /// one. Identifier uniqueness is the caller's responsibility, stated
    /// here as a precondition.
    pub fn add_tab(&mut self, id: &str, view: V)
        requires
            old(self).wf(),
            !old(self).has_key(id@),
        ensures
            final(self).wf(),
            final(self).key_seq() =~= old(self).key_seq().push(id@),
            final(self).view_seq() =~= old(self).view_seq().push(view),
            final(self).current_key() == Some(id@),
            final(self).dirty() == old(self).dirty(),
    {
        let id_s: String = id.to_owned();
        self.entries.push(TabEntry { key: id_s, view });
        self.current_id = Some(id.to_owned());
        proof {
            let ks0 = old(self).key_seq();
            let ks1 = self.key_seq();
            assert(ks1 =~= ks0.push(id@));
            assert(self.view_seq() =~= old(self).view_seq().push(view));
            assert(ks1.contains(id@)) by {
                assert(ks1[ks0.len() as int] == id@);
            }
            assert forall|i: int, j: int| 0 <= i < j < ks1.len() implies ks1[i] != ks1[j] by {
                if j == ks0.len() {
                    if ks0[i] == id@ {
                        assert(ks0.contains(id@));
                    }
                }
            }
            assert(distinct_keys(ks1));
        }
    }

    /// Consuming variant of [`TabView::add_tab`].
    pub fn with_tab(self, id: &str, view: V) -> (r: TabView<V>)
        requires
            self.wf(),
            !self.has_key(id@),
        ensures
            r.wf(),
            r.key_seq() =~= self.key_seq().push(id@),
            r.view_seq() =~= self.view_seq().push(view),
            r.current_key() == Some(id@),
    {
        let mut s = self;
        s.add_tab(id, view);
        s
    }

    /// A copy of the identifiers in visual order.
    pub fn tab_order(&self) -> (r: Vec<String>)
        ensures
            r@.map_values(|s: String| s@) =~= self.key_seq(),
    {
        let n = self.entries.len();
        let mut out: Vec<String> = Vec::new();
        let mut i: usize = 0;
        while i < n
            invariant
                n == self.key_seq().len(),
                n == self.entries@.len(),
                i <= n,
                out@.len() == i,
                forall|j: int| 0 <= j < i ==> out@.map_values(|s: String| s@)[j]
                    == self.key_seq()[j],
            decreases n - i,
        {
            let e = &self.entries[i];
            out.push(e.key.clone());
            i += 1;
        }
        proof {
            assert(out@.map_values(|s: String| s@) =~= self.key_seq());
        }
        out
    }

    /// Inserts a tab at `pos`, clamped to the current length (an
    /// out-of-range position appends), makes it the visible one, and
    /// announces it on the outbound queue.
    pub fn add_tab_at(&mut self, id: &str, view: V, pos: usize)
        requires
            old(self).wf(),
            !old(self).has_key(id@),
        ensures
            final(self).wf(),
            final(self).key_seq() =~= old(self).key_seq().insert(
                if pos <= old(self).key_seq().len() {
                    pos as int
                } else {
                    old(self).key_seq().len() as int
                },
                id@,
            ),
            final(self).view_seq() =~= old(self).view_seq().insert(
                if pos <= old(self).key_seq().len() {
                    pos as int
                } else {
                    old(self).key_seq().len() as int
                },
                view,
            ),
            final(self).current_key() == Some(id@),
    {
        let ghost ks0 = old(self).key_seq();
        match &self.active_key_tx {
            Some(tx) => channel_send(tx, id),
            None => {},
        }
        self.current_id = Some(id.to_owned());
        let entry = TabEntry { key: id.to_owned(), view };
        if self.entries.len() > pos {
            self.entries.insert(pos, entry);
        } else {
            self.entries.push(entry);
        }
        proof {
            let p = if pos <= ks0.len() {
                pos as int
            } else {
                ks0.len() as int
            };
            let ks1 = self.key_seq();
            assert(ks1 =~= ks0.insert(p, id@));
            assert(ks1.contains(id@)) by {
                assert(ks1[p] == id@);
            }
            assert forall|i: int, j: int| 0 <= i < j < ks1.len() implies ks1[i] != ks1[j] by {
                if ks1[i] == id@ && i != p {
                    let oi = if i < p {
                        i
                    } else {
                        i - 1
                    };
                    assert(ks0[oi] == ks1[i]);
                    assert(ks0.contains(id@));
                }
                if ks1[j] == id@ && j != p {
                    let oj = if j < p {
                        j
                    } else {
                        j - 1
                    };
                    assert(ks0[oj] == ks1[j]);
                    assert(ks0.contains(id@));
                }
            }
            assert(distinct_keys(ks1));
        }
    }

    /// Consuming variant of [`TabView::add_tab_at`].
    pub fn with_tab_at(self, id: &str, view: V, pos: usize) -> (r: TabView<V>)
        requires
            self.wf(),
            !self.has_key(id@),
        ensures
            r.wf(),
            r.key_seq() =~= self.key_seq().insert(
                if pos <= self.key_seq().len() {
                    pos as int
                } else {
                    self.key_seq().len() as int
                },
                id@,
            ),
            r.view_seq() =~= self.view_seq().insert(
                if pos <= self.key_seq().len() {
                    pos as int
                } else {
                    self.key_seq().len() as int
                },
                view,
            ),
            r.current_key() == Some(id@),
    {
        let mut s = self;
        s.add_tab_at(id, view, pos);
        s
    }

    /// Removes the tab named `id`. When it was the visible one, no tab is
    /// visible afterwards and the caller re-establishes focus explicitly.
    /// Reports `IdNotFound` without changing anything when absent.
    pub fn remove_tab(&mut self, id: &str) -> (r: Result<(), IdNotFound>)
        requires
            old(self).wf(),
        ensures
            final(self).wf(),
            old(self).has_key(id@) ==> r is Ok && final(self).key_seq() =~= old(
                self,
            ).key_seq().remove(idx_of(old(self).key_seq(), id@)) && final(self).view_seq() =~= old(
                self,
            ).view_seq().remove(idx_of(old(self).key_seq(), id@)) && final(self).current_key() == (
            if old(self).current_key() == Some(id@) {
                Option::<Seq<char>>::None
            } else {
                old(self).current_key()
            }) && final(self).dirty(),
            !old(self).has_key(id@) ==> (match r {
                Err(e) => e.id@ == id@,
                Ok(_) => false,
            }) && final(self).key_seq() == old(self).key_seq()
                && final(self).view_seq() == old(self).view_seq()
                && final(self).current_key() == old(self).current_key()
                && final(self).dirty() == old(self).dirty(),
    {
        let ghost ks0 = old(self).key_seq();
        match self.find_key(id) {
            Some(i) => {
                let was_current = match &self.current_id {
                    Some(cur) => {
                        let id_s: String = id.to_owned();
                        *cur == id_s
                    },
                    None => false,
                };
                if was_current {
                    self.current_id = None;
                }
                self.entries.remove(i);
                self.invalidated = true;
                proof {
                    assert(0 <= i < ks0.len() && ks0[i as int] == id@);
                    assert(idx_of(ks0, id@) == i as int) by {
                        let w = idx_of(ks0, id@);
                        assert(0 <= w < ks0.len() && ks0[w] == id@);
                        if w != i as int {
                            assert(false);
                        }
                    }
                    let ks1 = self.key_seq();
                    assert(ks1 =~= ks0.remove(i as int));
                    assert(self.view_seq() =~= old(self).view_seq().remove(i as int));
                    assert forall|a: int, b: int| 0 <= a < b < ks1.len() implies ks1[a]
                        != ks1[b] by {
                        let oa = if a < i as int {
                            a
                        } else {
                            a + 1
                        };
                        let ob = if b < i as int {
                            b
                        } else {
                            b + 1
                        };
                        assert(ks1[a] == ks0[oa]);
                        assert(ks1[b] == ks0[ob]);
                    }
                    assert(distinct_keys(ks1));
                    match self.current_key() {
                        Some(k) => {
                            assert(ks0.contains(k));
                            let w = idx_of(ks0, k);
                            assert(0 <= w < ks0.len() && ks0[w] == k);
                            assert(w != i as int);
                            let nw = if w < i as int {
                                w
                            } else {
                                w - 1
                            };
                            assert(ks1[nw] == k);
                            assert(ks1.contains(k));
                        },
                        None => {},
                    }
                }
                Ok(())
            },
            None => Err(IdNotFound { id: id.to_owned() }),
        }
    }

    /// Exchanges the positions of the tabs named `fst` and `snd` in the
    /// order; the identifier-to-view association and the visible tab are
    /// unchanged. A no-op unless both identifiers name distinct entries.
    /// When the visible tab is one of the two, its identifier is
    /// re-announced on the outbound queue so listeners re-synchronize.
    pub fn swap_tabs(&mut self, fst: &str, snd: &str)
        requires
            old(self).wf(),
        ensures
            final(self).wf(),
            final(self).key_seq() =~= spec_swapped(old(self).key_seq(), fst@, snd@),
            final(self).view_seq() =~= ({
                let ks = old(self).key_seq();
                let vs = old(self).view_seq();
                if ks.contains(fst@) && ks.contains(snd@) && idx_of(ks, fst@) != idx_of(ks, snd@) {
                    vs.update(idx_of(ks, fst@), vs[idx_of(ks, snd@)]).update(
                        idx_of(ks, snd@),
                        vs[idx_of(ks, fst@)],
                    )
                } else {
                    vs
                }
            }),
            final(self).current_key() == old(self).current_key(),
            final(self).dirty() == old(self).dirty(),
    {
        let ghost ks0 = old(self).key_seq();
        let fst_pos = self.find_key(fst);
        let snd_pos = self.find_key(snd);
        match (fst_pos, snd_pos) {
            (Some(a), Some(b)) => {
                if a != b {
                    proof {
                        assert(ks0.contains(fst@)) by {
                            assert(ks0[a as int] == fst@);
                        }
                        assert(ks0.contains(snd@)) by {
                            assert(ks0[b as int] == snd@);
                        }
                        assert(idx_of(ks0, fst@) == a as int) by {
                            let w = idx_of(ks0, fst@);
                            assert(0 <= w < ks0.len() && ks0[w] == fst@);
                        }
                        assert(idx_of(ks0, snd@) == b as int) by {
                            let w = idx_of(ks0, snd@);
                            assert(0 <= w < ks0.len() && ks0[w] == snd@);
                        }
                    }
                    let announce = match &self.current_id {
                        Some(cur) => {
                            let fst_s: String = fst.to_owned();
                            let snd_s: String = snd.to_owned();
                            *cur == fst_s || *cur == snd_s
                        },
                        None => false,
                    };
                    if announce {
                        match (&self.active_key_tx, &self.current_id) {
                            (Some(tx), Some(cur)) => channel_send(tx, cur.as_str()),
                            _ => {},
                        }
                    }
                    let (lo, hi) = if a < b {
                        (a, b)
                    } else {
                        (b, a)
                    };
                    let e_hi = self.entries.remove(hi);
                    let e_lo = self.entries.remove(lo);
                    self.entries.insert(lo, e_hi);
                    self.entries.insert(hi, e_lo);
                    proof {
                        let ks1 = self.key_seq();
                        assert(ks1 =~= ks0.update(a as int, snd@).update(b as int, fst@));
                        assert(ks1 =~= spec_swapped(ks0, fst@, snd@));
                        let vs0 = old(self).view_seq();
                        assert(self.view_seq() =~= vs0.update(a as int, vs0[b as int]).update(
                            b as int,
                            vs0[a as int],
                        ));
                        assert forall|i: int, j: int| 0 <= i < j < ks1.len() implies ks1[i]
                            != ks1[j] by {
                            let oi = if i == a as int {
                                b as int
                            } else if i == b as int {
                                a as int
                            } else {
                                i
                            };
                            let oj = if j == a as int {
                                b as int
                            } else if j == b as int {
                                a as int
                            } else {
                                j
                            };
                            assert(ks1[i] == ks0[oi]);
                            assert(ks1[j] == ks0[oj]);
                        }
                        assert(distinct_keys(ks1));
                        match self.current_key() {
                            Some(k) => {
                                let w = idx_of(ks0, k);
                                assert(0 <= w < ks0.len() && ks0[w] == k);
                                let nw = if w == a as int {
                                    b as int
                                } else if w == b as int {
                                    a as int
                                } else {
                                    w
                                };
                                assert(ks1[nw] == k);
                                assert(ks1.contains(k));
                            },
                            None => {},
                        }
                    }
                } else {
                    proof {
                        assert(idx_of(ks0, fst@) == idx_of(ks0, snd@)) by {
                            assert(ks0[a as int] == fst@ && ks0[a as int] == snd@);
                            let wf_ = idx_of(ks0, fst@);
                            assert(0 <= wf_ < ks0.len() && ks0[wf_] == fst@);
                            let ws_ = idx_of(ks0, snd@);
                            assert(0 <= ws_ < ks0.len() && ks0[ws_] == snd@);
                        }
                    }
                }
            },
            _ => {
                proof {
                    assert(!(ks0.contains(fst@) && ks0.contains(snd@)));
                }
            },
        }
    }

    /// Moves the visible tab to the next identifier in the order, with
    /// wraparound; a no-op when no tab is visible.
    pub fn next(&mut self)
        requires
            old(self).wf(),
        ensures
            final(self).wf(),
            final(self).key_seq() == old(self).key_seq(),
            final(self).view_seq() == old(self).view_seq(),
            old(self).current_key() is None ==> final(self).current_key() is None,
            match old(self).current_key() {
                Some(k) => final(self).current_key() == Some(
                    spec_next_key(old(self).key_seq(), k),
                ),
                None => true,
            },
    {
        let ghost ks0 = old(self).key_seq();
        let cur: Option<String> = match &self.current_id {
            Some(s) => Some(s.clone()),
            None => None,
        };
        match cur {
            Some(cur_key) => {
                match self.find_key(cur_key.as_str()) {
                    Some(i) => {
                        proof {
                            assert(idx_of(ks0, cur_key@) == i as int) by {
                                let w = idx_of(ks0, cur_key@);
                                assert(0 <= w < ks0.len() && ks0[w] == cur_key@);
                            }
                        }
                        let n = self.entries.len();
                        let idx = (i + 1) % n;
                        let key = self.entries[idx].key.clone();
                        proof {
                            assert(ks0[idx as int] == key@);
                            assert(ks0.contains(key@));
                        }
                        let res = self.set_active_tab(key.as_str());
                        proof {
                            assert(res is Ok);
                        }
                    },
                    None => {
                        proof {
                            assert(false);
                        }
                    },
                }
            },
            None => {},
        }
    }

    /// Moves the visible tab to the previous identifier in the order,
    /// with wraparound; a no-op when no tab is visible.
    pub fn prev(&mut self)
        requires
            old(self).wf(),
        ensures
            final(self).wf(),
            final(self).key_seq() == old(self).key_seq(),
            final(self).view_seq() == old(self).view_seq(),
            old(self).current_key() is None ==> final(self).current_key() is None,
            match old(self).current_key() {
                Some(k) => final(self).current_key() == Some(
                    old(self).key_seq()[(idx_of(old(self).key_seq(), k) + (old(
                        self,
                    ).key_seq().len() as int) - 1) % (old(self).key_seq().len() as int)],
                ),
                None => true,
            },
    {
        let ghost ks0 = old(self).key_seq();
        let cur: Option<String> = match &self.current_id {
            Some(s) => Some(s.clone()),
            None => None,
        };
        match cur {
            Some(cur_key) => {
                match self.find_key(cur_key.as_str()) {
                    Some(i) => {
                        proof {
                            assert(idx_of(ks0, cur_key@) == i as int) by {
                                let w = idx_of(ks0, cur_key@);
                                assert(0 <= w < ks0.len() && ks0[w] == cur_key@);
                            }
                        }
                        let n = self.entries.len();
                        let idx = if i == 0 {
                            n - 1
                        } else {
                            i - 1
                        };
                        proof {
                            assert(idx as int == (i as int + n as int - 1) % (n as int))
                                by (nonlinear_arith)
                                requires
                                    0 < n,
                                    0 <= i < n,
                                    idx as int == if i == 0 {
                                        n as int - 1
                                    } else {
                                        i as int - 1
                                    },
                            ;
                        }
                        let key = self.entries[idx].key.clone();
                        proof {
                            assert(ks0[idx as int] == key@);
                            assert(ks0.contains(key@));
                        }
                        let res = self.set_active_tab(key.as_str());
                        proof {
                            assert(res is Ok);
                        }
                    },
                    None => {
                        proof {
                            assert(false);
                        }
                    },
                }
            },
            None => {},
        }
    }

    /// Installs the receiving half of the bar-to-container queue.
    pub fn set_bar_rx(&mut self, rx: crossbeam::channel::Receiver<String>)
        ensures
            final(self).key_seq() == old(self).key_seq(),
            final(self).view_seq() == old(self).view_seq(),
            final(self).current_key() == old(self).current_key(),
            final(self).dirty() == old(self).dirty(),
            old(self).wf() ==> final(self).wf(),
    {
        self.bar_rx = Some(rx);
    }

    /// Installs the sending half of the container-to-bar queue.
    pub fn set_active_key_tx(&mut self, tx: crossbeam::channel::Sender<String>)
        ensures
            final(self).key_seq() == old(self).key_seq(),
            final(self).view_seq() == old(self).view_seq(),
            final(self).current_key() == old(self).current_key(),
            final(self).dirty() == old(self).dirty(),
            old(self).wf() ==> final(self).wf(),
    {
        self.active_key_tx = Some(tx);
    }

    /// Discards every pending message on the inbound queue but the
    /// newest, and returns that newest one, if any. Only messages already
    /// pending when the pass begins are taken, so the pass always ends.
    fn drain_latest(&mut self) -> (r: Option<String>)
        ensures
            *final(self) == *old(self),
    {
        let mut latest: Option<String> = None;
        match &self.bar_rx {
            Some(rx) => {
                let pending = channel_len(rx);
                let mut cnt: usize = 0;
                while cnt < pending
                    invariant
                        cnt <= pending,
                    decreases pending - cnt,
                {
                    match channel_try_recv(rx) {
                        Some(m) => {
                            latest = Some(m);
                        },
                        None => {},
                    }
                    cnt += 1;
                }
            },
            None => {},
        }
        latest
    }

    /// The visible child view, if a tab is visible: the view that was
    /// added under the visible identifier.
    pub fn active_view(&self) -> (r: Option<&V>)
        requires
            self.wf(),
        ensures
            r is Some <==> self.current_key() is Some,
            match r {
                Some(v) => match self.current_key() {
                    Some(k) => *v == self.view_seq()[idx_of(self.key_seq(), k)],
                    None => false,
                },
                None => true,
            },
    {
        let cur: Option<String> = match &self.current_id {
            Some(s) => Some(s.clone()),
            None => None,
        };
        match cur {
            Some(k) => {
                match self.find_key(k.as_str()) {
                    Some(i) => {
                        proof {
                            let ks = self.key_seq();
                            assert(idx_of(ks, k@) == i as int) by {
                                assert(ks.contains(k@)) by {
                                    assert(ks[i as int] == k@);
                                }
                                let w = idx_of(ks, k@);
                                assert(0 <= w < ks.len() && ks[w] == k@);
                            }
                        }
                        Some(&self.entries[i].view)
                    },
                    None => {
                        proof {
                            assert(false);
                        }
                        None
                    },
                }
            },
            None => None,
        }
    }

    /// The visible child view, mutably, if a tab is visible. Whatever the
    /// caller does through the reference, the identifiers, the visible
    /// identifier and the dirty flag stay as they are.
    pub fn active_view_mut(&mut self) -> (r: Option<&mut V>)
        requires
            old(self).wf(),
        ensures
            final(self).key_seq() =~= old(self).key_seq(),
            final(self).current_key() == old(self).current_key(),
            final(self).dirty() == old(self).dirty(),
            r is Some <==> old(self).current_key() is Some,
    {
        let cur: Option<String> = match &self.current_id {
            Some(s) => Some(s.clone()),
            None => None,
        };
        match cur {
            Some(k) => {
                match self.find_key(k.as_str()) {
                    Some(i) => {
                        let e = &mut self.entries[i];
                        Some(&mut e.view)
                    },
                    None => {
                        proof {
                            assert(false);
                        }
                        None
                    },
                }
            },
            None => None,
        }
    }

    /// How many tabs the container holds.
    pub fn view_count(&self) -> (r: usize)
        ensures
            r == self.key_seq().len(),
    {
        self.entries.len()
    }

    /// Borrows every hosted view, in visual order.
    pub fn views(&self) -> (r: Vec<&V>)
        ensures
            r@.len() == self.key_seq().len(),
    {
        let n = self.entries.len();
        let mut out: Vec<&V> = Vec::new();
        let mut i: usize = 0;
        while i < n
            invariant
                n == self.key_seq().len(),
                n == self.entries@.len(),
                i <= n,
                out@.len() == i,
            decreases n - i,
        {
            out.push(&self.entries[i].view);
            i += 1;
        }
        out
    }

    /// The view at position `i` of the order, mutably. As with
    /// [`TabView::active_view_mut`], nothing the caller does through the
    /// reference disturbs identifiers, visible identifier or dirty flag.
    pub fn view_at_mut(&mut self, i: usize) -> (r: &mut V)
        requires
            i < old(self).key_seq().len(),
        ensures
            final(self).key_seq() =~= old(self).key_seq(),
            final(self).current_key() == old(self).current_key(),
            final(self).dirty() == old(self).dirty(),
    {
        let e = &mut self.entries[i];
        &mut e.view
    }
}

impl<V: ChildView> TabView<V> {
    /// The position of the visible entry, or `None` when no tab is
    /// visible; under the invariant the visible identifier is always
    /// found.
    fn with_current_index(&self) -> (r: Option<usize>)
        requires
            self.wf(),
        ensures
            match r {
                Some(i) => i < self.key_seq().len() && self.current_key() == Some(
                    self.key_seq()[i as int],
                ),
                None => self.current_key() is None,
            },
    {
        let cur: Option<String> = match &self.current_id {
            Some(s) => Some(s.clone()),
            None => None,
        };
        match cur {
            Some(k) => {
                match self.find_key(k.as_str()) {
                    Some(i) => Some(i),
                    None => {
                        proof {
                            assert(false);
                        }
                        None
                    },
                }
            },
            None => None,
        }
    }

    /// One layout pass of the container: first the inbound queue is
    /// collapsed to its newest message, which becomes the visible tab if
    /// it names a known identifier; then the visible child is asked for
    /// its size, with a minimal one-by-one placeholder when no tab is
    /// visible.
    pub fn required_size(&mut self, req: Vec2) -> (r: Vec2)
        requires
            old(self).wf(),
        ensures
            final(self).wf(),
            final(self).key_seq() =~= old(self).key_seq(),
            final(self).current_key() is None ==> old(self).current_key() is None && r == (Vec2 {
                x: 1usize,
                y: 1usize,
            }),
    {
        let latest = self.drain_latest();
        match latest {
            Some(m) => {
                let _ = self.set_active_tab(m.as_str());
            },
            None => {},
        }
        let ghost mid = *self;
        match self.with_current_index() {
            Some(i) => {
                let e = &mut self.entries[i];
                let out = e.view.required_size(req);
                proof {
                    assert(self.key_seq() =~= mid.key_seq());
                }
                out
            },
            None => Vec2::new(1, 1),
        }
    }

    /// Grants the visible child its extent for this frame and clears the
    /// container's own relayout flag.
    pub fn layout(&mut self, size: Vec2)
        requires
            old(self).wf(),
        ensures
            final(self).wf(),
            final(self).key_seq() =~= old(self).key_seq(),
            final(self).current_key() == old(self).current_key(),
            !final(self).dirty(),
    {
        self.invalidated = false;
        let ghost mid = *self;
        match self.with_current_index() {
            Some(i) => {
                let e = &mut self.entries[i];
                e.view.layout(size);
                proof {
                    assert(self.key_seq() =~= mid.key_seq());
                }
            },
            None => {},
        }
    }

    /// Offers an event to the visible child; ignored when no tab is
    /// visible.
    pub fn on_event(&mut self, event: Event) -> (r: EventResult)
        requires
            old(self).wf(),
        ensures
            final(self).wf(),
            final(self).key_seq() =~= old(self).key_seq(),
            final(self).current_key() == old(self).current_key(),
            final(self).dirty() == old(self).dirty(),
            old(self).current_key() is None ==> r == EventResult::Ignored,
    {
        let ghost mid = *self;
        match self.with_current_index() {
            Some(i) => {
                let e = &mut self.entries[i];
                let out = e.view.on_event(event);
                proof {
                    assert(self.key_seq() =~= mid.key_seq());
                }
                out
            },
            None => EventResult::Ignored,
        }
    }

    /// Asks the visible child to accept keyboard focus; fails with
    /// `CannotFocus` when no tab is visible or the child declines.
    pub fn take_focus(&mut self, source: Direction) -> (r: Result<EventResult, CannotFocus>)
        requires
            old(self).wf(),
        ensures
            final(self).wf(),
            final(self).key_seq() =~= old(self).key_seq(),
            final(self).current_key() == old(self).current_key(),
            final(self).dirty() == old(self).dirty(),
            old(self).current_key() is None ==> r is Err,
    {
        let ghost mid = *self;
        match self.with_current_index() {
            Some(i) => {
                let e = &mut self.entries[i];
                let took = e.view.take_focus(source);
                proof {
                    assert(self.key_seq() =~= mid.key_seq());
                }
                if took {
                    Ok(EventResult::Consumed)
                } else {
                    Err(CannotFocus)
                }
            },
            None => Err(CannotFocus),
        }
    }

    /// Whether the container or its visible child wants a fresh layout
    /// pass.
    pub fn needs_relayout(&self) -> (r: bool)
        requires
            self.wf(),
        ensures
            self.dirty() ==> r,
    {
        if self.invalidated {
            true
        } else {
            match self.with_current_index() {
                Some(i) => self.entries[i].view.needs_relayout(),
                None => false,
            }
        }
    }
}

impl<V> Default for TabView<V> {
    /// The default container is the fresh, empty one.
    fn default() -> (r: TabView<V>)
        ensures
            r.key_seq() =~= Seq::<Seq<char>>::empty(),
            r.current_key() is None,
            r.wf(),
    {
        TabView::new()
    }
}

} // verus!
