use vstd::prelude::*;
use vstd::string::StrSliceExecFns;

use crate::channel::{channel_send, channel_try_recv, channel_len};
use crate::distinct_keys;
use crate::event::{Event, EventResult, Key, MouseButton, MouseEventKind};
use crate::geom::{sat_add, sat_sub, usize_sat_add, usize_sat_sub, Vec2};
use crate::idx_of;
use crate::panel::{spec_offset, Align, Placement};
use crate::spec_swapped;

verus! {

/// The extent one tab button asks for: one cell per character of its
/// label, which is the identifier padded with one space on either side,
/// on a single row.
pub open spec fn spec_button_size(k: Seq<char>) -> Vec2 {
    Vec2 { x: sat_add(k.len() as usize, 2), y: 1 }
}

/// Whether `placement` stacks buttons along the horizontal axis.
pub open spec fn spec_horizontal(placement: Placement) -> bool {
    placement == Placement::HorizontalTop || placement == Placement::HorizontalBottom
}

/// Stacking of button extents along the placement axis.
pub open spec fn spec_stack(placement: Placement, a: Vec2, b: Vec2) -> Vec2 {
    if spec_horizontal(placement) {
        Vec2 {
            x: sat_add(a.x, b.x),
            y: if a.y >= b.y {
                a.y
            } else {
                b.y
            },
        }
    } else {
        Vec2 {
            x: if a.x >= b.x {
                a.x
            } else {
                b.x
            },
            y: sat_add(a.y, b.y),
        }
    }
}

/// The accumulated extent of the first `n` buttons.
pub open spec fn spec_acc(keys: Seq<Seq<char>>, placement: Placement, n: int) -> Vec2
    decreases n,
{
    if n <= 0 {
        Vec2 { x: 0, y: 0 }
    } else {
        spec_stack(placement, spec_acc(keys, placement, n - 1), spec_button_size(keys[n - 1]))
    }
}

/// One tab button of the bar: its identifier, the queue its activation
/// is announced on, and the accumulated position cached by the last
/// measure pass.
struct BarEntry {
    key: String,
    tx: crossbeam::channel::Sender<String>,
    pos: Vec2,
}

/// The bar half of the widget: an ordered row (or column) of tab
/// buttons, a keyboard cursor, and the index of the visually selected
/// tab. The bar learns about externally driven tab switches by draining
/// its inbound queue once per measure pass, and announces activations on
/// the per-button queues.
///
/// Invariant ([`TabBar::wf`]): identifiers are distinct, and cursor and
/// active, when present, lie below the number of buttons.
pub struct TabBar {
    children: Vec<BarEntry>,
    sizes: Vec<Vec2>,
    cursor: Option<usize>,
    active: Option<usize>,
    align: Align,
    placement: Placement,
    bar_size: Vec2,
    last_rendered_size: Vec2,
    rx: crossbeam::channel::Receiver<String>,
    invalidated: bool,
}

impl TabBar {
    /// The identifiers in visual order.
    pub closed spec fn keys(self) -> Seq<Seq<char>> {
        self.children@.map_values(|e: BarEntry| e.key@)
    }

    /// The keyboard cursor: the button that arrow keys move from.
    pub closed spec fn cursor_index(self) -> Option<usize> {
        self.cursor
    }

    /// The visually selected button.
    pub closed spec fn active_index(self) -> Option<usize> {
        self.active
    }

    /// The per-button extents cached by the last measure pass.
    pub closed spec fn sizes_seq(self) -> Seq<Vec2> {
        self.sizes@
    }

    /// The cached accumulated positions.
    pub closed spec fn pos_seq(self) -> Seq<Vec2> {
        self.children@.map_values(|e: BarEntry| e.pos)
    }

    /// The accumulated extent of all buttons, as of the last measure
    /// pass.
    pub closed spec fn bar_extent(self) -> Vec2 {
        self.bar_size
    }

    /// The extent granted by the last layout pass.
    pub closed spec fn rendered_size(self) -> Vec2 {
        self.last_rendered_size
    }

    pub closed spec fn alignment(self) -> Align {
        self.align
    }

    pub closed spec fn placement(self) -> Placement {
        self.placement
    }

    /// Whether the bar wants a fresh layout pass.
    pub closed spec fn dirty(self) -> bool {
        self.invalidated
    }

    pub open spec fn has_key(self, k: Seq<char>) -> bool {
        self.keys().contains(k)
    }

    /// The bar's invariant: distinct identifiers; cursor and active in
    /// bounds whenever present.
    pub open spec fn wf(self) -> bool {
        &&& distinct_keys(self.keys())
        &&& match self.cursor_index() {
            Some(i) => i < self.keys().len(),
            None => true,
        }
        &&& match self.active_index() {
            Some(i) => i < self.keys().len(),
            None => true,
        }
    }

    /// Whether the cached extents match the buttons, as they do after
    /// every measure pass.
    pub open spec fn measured(self) -> bool {
        self.sizes_seq().len() == self.keys().len()
    }

    /// A fresh, empty bar reading externally driven selections from
    /// `rx`, placed along the top edge with start alignment.
    pub fn new(rx: crossbeam::channel::Receiver<String>) -> (r: TabBar)
        ensures
            r.keys() =~= Seq::<Seq<char>>::empty(),
            r.cursor_index() is None,
            r.active_index() is None,
            r.alignment() == Align::Start,
            r.placement() == Placement::HorizontalTop,
            r.dirty(),
            r.wf(),
            r.measured(),
    {
        TabBar {
            children: Vec::new(),
            sizes: Vec::new(),
            cursor: None,
            active: None,
            align: Align::Start,
            placement: Placement::HorizontalTop,
            bar_size: Vec2::new(0, 0),
            last_rendered_size: Vec2::new(0, 0),
            rx,
            invalidated: true,
        }
    }

    /// Consuming variant of [`TabBar::set_alignment`].
    pub fn with_alignment(self, align: Align) -> (r: TabBar)
        ensures
            r.keys() == self.keys(),
            r.cursor_index() == self.cursor_index(),
            r.active_index() == self.active_index(),
            r.alignment() == align,
            r.placement() == self.placement(),
            r.sizes_seq() == self.sizes_seq(),
            r.dirty(),
            self.wf() ==> r.wf(),
            self.measured() ==> r.measured(),
    {
        let mut s = self;
        s.align = align;
        s.invalidated = true;
        s
    }

    /// Changes the alignment and marks the layout dirty; nothing else
    /// moves.
    pub fn set_alignment(&mut self, align: Align)
        ensures
            final(self).keys() == old(self).keys(),
            final(self).cursor_index() == old(self).cursor_index(),
            final(self).active_index() == old(self).active_index(),
            final(self).alignment() == align,
            final(self).placement() == old(self).placement(),
            final(self).sizes_seq() == old(self).sizes_seq(),
            final(self).dirty(),
            old(self).wf() ==> final(self).wf(),
            old(self).measured() ==> final(self).measured(),
    {
        self.align = align;
        self.invalidated = true;
    }

    /// Consuming variant of [`TabBar::set_placement`].
    pub fn with_placement(self, placement: Placement) -> (r: TabBar)
        ensures
            r.keys() == self.keys(),
            r.cursor_index() == self.cursor_index(),
            r.active_index() == self.active_index(),
            r.alignment() == self.alignment(),
            r.placement() == placement,
            r.sizes_seq() == self.sizes_seq(),
            r.dirty(),
            self.wf() ==> r.wf(),
            self.measured() ==> r.measured(),
    {
        let mut s = self;
        s.placement = placement;
        s.invalidated = true;
        s
    }

    /// Changes the placement edge and marks the layout dirty; nothing
    /// else moves.
    pub fn set_placement(&mut self, placement: Placement)
        ensures
            final(self).keys() == old(self).keys(),
            final(self).cursor_index() == old(self).cursor_index(),
            final(self).active_index() == old(self).active_index(),
            final(self).alignment() == old(self).alignment(),
            final(self).placement() == placement,
            final(self).sizes_seq() == old(self).sizes_seq(),
            final(self).dirty(),
            old(self).wf() ==> final(self).wf(),
            old(self).measured() ==> final(self).measured(),
    {
        self.placement = placement;
        self.invalidated = true;
    }

    /// Appends a button for `key` at the end and moves both cursor and
    /// selection onto it. Identifier uniqueness is the caller's
    /// responsibility, stated as a precondition.
    pub fn add_button(&mut self, tx: crossbeam::channel::Sender<String>, key: &str)
        requires
            old(self).wf(),
            !old(self).has_key(key@),
        ensures
            final(self).wf(),
            final(self).keys() =~= old(self).keys().push(key@),
            final(self).cursor_index() == Some((old(self).keys().len()) as usize),
            final(self).active_index() == Some((old(self).keys().len()) as usize),
            final(self).dirty(),
            final(self).placement() == old(self).placement(),
            final(self).alignment() == old(self).alignment(),
    {
        let ghost ks0 = old(self).keys();
        self.children.push(BarEntry { key: key.to_owned(), tx, pos: Vec2::new(0, 0) });
        let last = self.children.len() - 1;
        self.cursor = Some(last);
        self.active = Some(last);
        self.invalidated = true;
        proof {
            let ks1 = self.keys();
            assert(ks1 =~= ks0.push(key@));
            assert forall|i: int, j: int| 0 <= i < j < ks1.len() implies ks1[i] != ks1[j] by {
                if j == ks0.len() {
                    if ks0[i] == key@ {
                        assert(ks0.contains(key@));
                    }
                }
            }
            assert(distinct_keys(ks1));
        }
    }

    /// Inserts a button for `key` at `pos`, clamped to the current
    /// length (an out-of-range position appends), and moves both cursor
    /// and selection onto it.
    pub fn add_button_at(&mut self, tx: crossbeam::channel::Sender<String>, key: &str, pos: usize)
        requires
            old(self).wf(),
            !old(self).has_key(key@),
        ensures
            final(self).wf(),
            final(self).keys() =~= old(self).keys().insert(
                if pos <= old(self).keys().len() {
                    pos as int
                } else {
                    old(self).keys().len() as int
                },
                key@,
            ),
            final(self).cursor_index() == Some(
                if pos <= old(self).keys().len() {
                    pos
                } else {
                    (old(self).keys().len()) as usize
                },
            ),
            final(self).active_index() == final(self).cursor_index(),
            final(self).dirty(),
            final(self).placement() == old(self).placement(),
            final(self).alignment() == old(self).alignment(),
    {
        let ghost ks0 = old(self).keys();
        let n = self.children.len();
        let eff = if pos < n {
            pos
        } else {
            n
        };
        let entry = BarEntry { key: key.to_owned(), tx, pos: Vec2::new(0, 0) };
        if eff < n {
            self.children.insert(eff, entry);
        } else {
            self.children.push(entry);
        }
        self.cursor = Some(eff);
        self.active = Some(eff);
        self.invalidated = true;
        proof {
            let p = eff as int;
            let ks1 = self.keys();
            assert(ks1 =~= ks0.insert(p, key@));
            assert forall|i: int, j: int| 0 <= i < j < ks1.len() implies ks1[i] != ks1[j] by {
                if ks1[i] == key@ && i != p {
                    let oi = if i < p {
                        i
                    } else {
                        i - 1
                    };
                    assert(ks0[oi] == ks1[i]);
                    assert(ks0.contains(key@));
                }
                if ks1[j] == key@ && j != p {
                    let oj = if j < p {
                        j
                    } else {
                        j - 1
                    };
                    assert(ks0[oj] == ks1[j]);
                    assert(ks0.contains(key@));
                }
            }
            assert(distinct_keys(ks1));
        }
    }

    /// The position of `key` among the buttons, or `None` if absent.
    fn find_button(&self, key: &str) -> (r: Option<usize>)
        ensures
            match r {
                Some(i) => i < self.keys().len() && self.keys()[i as int] == key@,
                None => !self.has_key(key@),
            },
    {
        let key_s: String = key.to_owned();
        let n = self.children.len();
        let mut i: usize = 0;
        while i < n
            invariant
                n == self.keys().len(),
                i <= n,
                forall|j: int| 0 <= j < i ==> self.keys()[j] != key_s@,
                key_s@ == key@,
            decreases n - i,
        {
            if self.children[i].key == key_s {
                assert(self.keys()[i as int] == key@);
                return Some(i);
            }
            i += 1;
        }
        assert(forall|j: int| 0 <= j < self.keys().len() ==> self.keys()[j] != key@);
        None
    }

    /// Removes the first button whose identifier is `key`; a no-op when
    /// absent. When the removed index was the cursor's or the
    /// selection's, both become `None`; tracked indices past the removed
    /// one slide down so they keep naming the same buttons.
    pub fn remove_button(&mut self, key: &str)
        requires
            old(self).wf(),
        ensures
            final(self).wf(),
            final(self).dirty(),
            final(self).placement() == old(self).placement(),
            final(self).alignment() == old(self).alignment(),
            old(self).has_key(key@) ==> {
                let i = idx_of(old(self).keys(), key@);
                &&& final(self).keys() =~= old(self).keys().remove(i)
                &&& final(self).cursor_index() == spec_slide(
                    old(self).cursor_index(),
                    old(self).active_index(),
                    i,
                )
                &&& final(self).active_index() == spec_slide(
                    old(self).active_index(),
                    old(self).cursor_index(),
                    i,
                )
            },
            !old(self).has_key(key@) ==> final(self).keys() == old(self).keys()
                && final(self).cursor_index() == old(self).cursor_index()
                && final(self).active_index() == old(self).active_index(),
    {
        let ghost ks0 = old(self).keys();
        match self.find_button(key) {
            Some(i) => {
                proof {
                    assert(ks0.contains(key@)) by {
                        assert(ks0[i as int] == key@);
                    }
                    assert(idx_of(ks0, key@) == i as int) by {
                        let w = idx_of(ks0, key@);
                        assert(0 <= w < ks0.len() && ks0[w] == key@);
                    }
                }
                let hit_tracked = match (self.cursor, self.active) {
                    (Some(c), _) if c == i => true,
                    (_, Some(a)) if a == i => true,
                    _ => false,
                };
                if hit_tracked {
                    self.cursor = None;
                    self.active = None;
                } else {
                    self.cursor = match self.cursor {
                        Some(c) => if c > i {
                            Some(c - 1)
                        } else {
                            Some(c)
                        },
                        None => None,
                    };
                    self.active = match self.active {
                        Some(a) => if a > i {
                            Some(a - 1)
                        } else {
                            Some(a)
                        },
                        None => None,
                    };
                }
                self.children.remove(i);
                self.invalidated = true;
                proof {
                    let ks1 = self.keys();
                    assert(ks1 =~= ks0.remove(i as int));
                    assert forall|a: int, b: int| 0 <= a < b < ks1.len() implies ks1[a]
                        != ks1[b] by {
                        let oa = if a < i as int {
                            a
                        } else {
                            a + 1
                        };
                        let ob = if b < i as int {
                            b
                        } else {
                            b + 1
                        };
                        assert(ks1[a] == ks0[oa]);
                        assert(ks1[b] == ks0[ob]);
                    }
                    assert(distinct_keys(ks1));
                }
            },
            None => {
                self.invalidated = true;
            },
        }
    }

    /// Exchanges the positions of the buttons for `first` and `second`;
    /// a no-op unless both name distinct buttons. Cursor and selection
    /// indices are left as they are.
    pub fn swap_button(&mut self, first: &str, second: &str)
        requires
            old(self).wf(),
        ensures
            final(self).wf(),
            final(self).keys() =~= spec_swapped(old(self).keys(), first@, second@),
            final(self).cursor_index() == old(self).cursor_index(),
            final(self).active_index() == old(self).active_index(),
            final(self).dirty(),
            final(self).placement() == old(self).placement(),
            final(self).alignment() == old(self).alignment(),
    {
        let ghost ks0 = old(self).keys();
        let fst_pos = self.find_button(first);
        let snd_pos = self.find_button(second);
        match (fst_pos, snd_pos) {
            (Some(a), Some(b)) => {
                if a != b {
                    proof {
                        assert(ks0.contains(first@)) by {
                            assert(ks0[a as int] == first@);
                        }
                        assert(ks0.contains(second@)) by {
                            assert(ks0[b as int] == second@);
                        }
                        assert(idx_of(ks0, first@) == a as int) by {
                            let w = idx_of(ks0, first@);
                            assert(0 <= w < ks0.len() && ks0[w] == first@);
                        }
                        assert(idx_of(ks0, second@) == b as int) by {
                            let w = idx_of(ks0, second@);
                            assert(0 <= w < ks0.len() && ks0[w] == second@);
                        }
                    }
                    let (lo, hi) = if a < b {
                        (a, b)
                    } else {
                        (b, a)
                    };
                    let e_hi = self.children.remove(hi);
                    let e_lo = self.children.remove(lo);
                    self.children.insert(lo, e_hi);
                    self.children.insert(hi, e_lo);
                    proof {
                        let ks1 = self.keys();
                        assert(ks1 =~= ks0.update(a as int, second@).update(b as int, first@));
                        assert(ks1 =~= spec_swapped(ks0, first@, second@));
                        assert forall|i: int, j: int| 0 <= i < j < ks1.len() implies ks1[i]
                            != ks1[j] by {
                            let oi = if i == a as int {
                                b as int
                            } else if i == b as int {
                                a as int
                            } else {
                                i
                            };
                            let oj = if j == a as int {
                                b as int
                            } else if j == b as int {
                                a as int
                            } else {
                                j
                            };
                            assert(ks1[i] == ks0[oi]);
                            assert(ks1[j] == ks0[oj]);
                        }
                        assert(distinct_keys(ks1));
                    }
                } else {
                    proof {
                        assert(idx_of(ks0, first@) == idx_of(ks0, second@)) by {
                            assert(ks0[a as int] == first@ && ks0[a as int] == second@);
                            let wf_ = idx_of(ks0, first@);
                            assert(0 <= wf_ < ks0.len() && ks0[wf_] == first@);
                            let ws_ = idx_of(ks0, second@);
                            assert(0 <= ws_ < ks0.len() && ks0[ws_] == second@);
                        }
                    }
                }
            },
            _ => {
                proof {
                    assert(!(ks0.contains(first@) && ks0.contains(second@)));
                }
            },
        }
        self.invalidated = true;
    }
}

impl TabBar {
    /// Whether buttons stack along the horizontal axis.
    fn is_horizontal(&self) -> (r: bool)
        ensures
            r == spec_horizontal(self.placement()),
    {
        match self.placement {
            Placement::HorizontalTop => true,
            Placement::HorizontalBottom => true,
            _ => false,
        }
    }

    /// Moves the cursor one button back, clamped at the first: consumed
    /// exactly when it moved.
    fn decrement_idx(&mut self) -> (r: EventResult)
        ensures
            final(self).keys() == old(self).keys(),
            final(self).active_index() == old(self).active_index(),
            final(self).placement() == old(self).placement(),
            final(self).alignment() == old(self).alignment(),
            final(self).sizes_seq() == old(self).sizes_seq(),
            final(self).pos_seq() == old(self).pos_seq(),
            final(self).bar_extent() == old(self).bar_extent(),
            final(self).rendered_size() == old(self).rendered_size(),
            match old(self).cursor_index() {
                Some(i) => if i > 0 {
                    final(self).cursor_index() == Some((i - 1) as usize) && r
                        == EventResult::Consumed && final(self).dirty()
                } else {
                    final(self).cursor_index() == old(self).cursor_index() && r
                        == EventResult::Ignored && final(self).dirty() == old(self).dirty()
                },
                None => final(self).cursor_index() is None && r == EventResult::Ignored
                    && final(self).dirty() == old(self).dirty(),
            },
            old(self).wf() ==> final(self).wf(),
    {
        match self.cursor {
            Some(index) => {
                if index > 0 {
                    self.cursor = Some(index - 1);
                    self.invalidated = true;
                    EventResult::Consumed
                } else {
                    EventResult::Ignored
                }
            },
            None => EventResult::Ignored,
        }
    }

    /// Moves the cursor one button forward, clamped at the last:
    /// consumed exactly when it moved.
    fn increment_idx(&mut self) -> (r: EventResult)
        ensures
            final(self).keys() == old(self).keys(),
            final(self).active_index() == old(self).active_index(),
            final(self).placement() == old(self).placement(),
            final(self).alignment() == old(self).alignment(),
            final(self).sizes_seq() == old(self).sizes_seq(),
            final(self).pos_seq() == old(self).pos_seq(),
            final(self).bar_extent() == old(self).bar_extent(),
            final(self).rendered_size() == old(self).rendered_size(),
            match old(self).cursor_index() {
                Some(i) => if i + 1 < old(self).keys().len() {
                    final(self).cursor_index() == Some((i + 1) as usize) && r
                        == EventResult::Consumed && final(self).dirty()
                } else {
                    final(self).cursor_index() == old(self).cursor_index() && r
                        == EventResult::Ignored && final(self).dirty() == old(self).dirty()
                },
                None => final(self).cursor_index() is None && r == EventResult::Ignored
                    && final(self).dirty() == old(self).dirty(),
            },
            old(self).wf() ==> final(self).wf(),
    {
        match self.cursor {
            Some(index) => {
                if index < self.children.len() && index + 1 < self.children.len() {
                    self.cursor = Some(index + 1);
                    self.invalidated = true;
                    EventResult::Consumed
                } else {
                    EventResult::Ignored
                }
            },
            None => EventResult::Ignored,
        }
    }

    /// One measure pass: first the inbound queue is collapsed to its
    /// newest message, which moves the selection if it names a known
    /// identifier; then every button is measured and the per-button
    /// extents, accumulated positions and total extent are cached. The
    /// returned request reserves two extra cells along the placement
    /// axis for the delimiter glyphs; an empty bar asks for a one-by-one
    /// placeholder.
    pub fn required_size(&mut self, cst: Vec2) -> (r: Vec2)
        requires
            old(self).wf(),
        ensures
            final(self).wf(),
            final(self).keys() == old(self).keys(),
            final(self).cursor_index() == old(self).cursor_index(),
            final(self).placement() == old(self).placement(),
            final(self).alignment() == old(self).alignment(),
            final(self).rendered_size() == old(self).rendered_size(),
            final(self).measured(),
            old(self).active_index() is Some ==> final(self).active_index() is Some,
            final(self).active_index() == old(self).active_index() || final(self).dirty(),
            forall|i: int| 0 <= i < final(self).keys().len() ==> final(self).sizes_seq()[i]
                == spec_button_size(final(self).keys()[i]),
            forall|i: int| 0 <= i < final(self).keys().len() ==> final(self).pos_seq()[i]
                == spec_acc(final(self).keys(), final(self).placement(), i + 1),
            old(self).keys().len() == 0 ==> r == (Vec2 { x: 1usize, y: 1usize })
                && final(self).bar_extent() == old(self).bar_extent(),
            old(self).keys().len() > 0 ==> final(self).bar_extent() == spec_acc(
                old(self).keys(),
                old(self).placement(),
                old(self).keys().len() as int,
            ) && r == (if spec_horizontal(old(self).placement()) {
                Vec2 {
                    x: sat_add(final(self).bar_extent().x, 2),
                    y: final(self).bar_extent().y,
                }
            } else {
                Vec2 {
                    x: final(self).bar_extent().x,
                    y: sat_add(final(self).bar_extent().y, 2),
                }
            }),
    {
        let pending = channel_len(&self.rx);
        let mut skipped: usize = 0;
        while pending - skipped > 1
            invariant
                skipped <= pending,
            decreases pending - skipped,
        {
            let _ = channel_try_recv(&self.rx);
            skipped += 1;
        }
        match channel_try_recv(&self.rx) {
            Some(new_active) => {
                self.invalidated = true;
                match self.find_button(new_active.as_str()) {
                    Some(i) => {
                        self.active = Some(i);
                    },
                    None => {},
                }
            },
            None => {},
        }
        let ghost mid = *self;
        self.sizes.clear();
        let n = self.children.len();
        if n == 0 {
            return Vec2::new(1, 1);
        }
        let horizontal = self.is_horizontal();
        let mut acc = Vec2::new(0, 0);
        let mut i: usize = 0;
        while i < n
            invariant
                self.wf(),
                n == self.keys().len(),
                i <= n,
                self.keys() == mid.keys(),
                self.cursor_index() == mid.cursor_index(),
                self.active_index() == mid.active_index(),
                self.placement() == mid.placement(),
                self.alignment() == mid.alignment(),
                self.rendered_size() == mid.rendered_size(),
                self.bar_extent() == mid.bar_extent(),
                self.dirty() == mid.dirty(),
                horizontal == spec_horizontal(self.placement()),
                self.sizes_seq().len() == i,
                forall|j: int| 0 <= j < i ==> self.sizes_seq()[j] == spec_button_size(
                    self.keys()[j],
                ),
                forall|j: int| 0 <= j < i ==> self.pos_seq()[j] == spec_acc(
                    self.keys(),
                    self.placement(),
                    j + 1,
                ),
                acc == spec_acc(self.keys(), self.placement(), i as int),
            decreases n - i,
        {
            let ghost pre = *self;
            let w = usize_sat_add(self.children[i].key.as_str().unicode_len(), 2);
            let size = Vec2::new(w, 1);
            proof {
                assert(size == spec_button_size(self.keys()[i as int]));
            }
            acc = if horizontal {
                acc.stack_horizontal(size)
            } else {
                acc.stack_vertical(size)
            };
            let e = &mut self.children[i];
            e.pos = acc;
            self.sizes.push(size);
            proof {
                assert(self.keys() =~= pre.keys());
                assert(self.pos_seq() =~= pre.pos_seq().update(i as int, acc));
                assert(acc == spec_acc(self.keys(), self.placement(), i + 1));
            }
            i += 1;
        }
        let ghost fin0 = *self;
        proof {
            assert(forall|j: int| 0 <= j < fin0.keys().len() ==> fin0.pos_seq()[j] == spec_acc(
                fin0.keys(),
                fin0.placement(),
                j + 1,
            ));
        }
        self.bar_size = acc;
        proof {
            assert(self.pos_seq() == fin0.pos_seq());
            assert(self.keys() == fin0.keys());
            assert(self.placement() == fin0.placement());
            assert forall|j: int| 0 <= j < self.keys().len() implies self.pos_seq()[j] == spec_acc(
                self.keys(),
                self.placement(),
                j + 1,
            ) by {
                assert(fin0.pos_seq()[j] == spec_acc(fin0.keys(), fin0.placement(), j + 1));
            }
        }
        if horizontal {
            Vec2::new(usize_sat_add(acc.x, 2), acc.y)
        } else {
            Vec2::new(acc.x, usize_sat_add(acc.y, 2))
        }
    }

    /// One layout pass: records the granted extent and clears the
    /// relayout flag.
    pub fn layout(&mut self, vec: Vec2)
        ensures
            final(self).keys() == old(self).keys(),
            final(self).cursor_index() == old(self).cursor_index(),
            final(self).active_index() == old(self).active_index(),
            final(self).placement() == old(self).placement(),
            final(self).alignment() == old(self).alignment(),
            final(self).sizes_seq() == old(self).sizes_seq(),
            final(self).pos_seq() == old(self).pos_seq(),
            final(self).bar_extent() == old(self).bar_extent(),
            final(self).rendered_size() == vec,
            !final(self).dirty(),
            old(self).wf() ==> final(self).wf(),
            old(self).measured() ==> final(self).measured(),
    {
        self.invalidated = false;
        self.last_rendered_size = vec;
    }

    /// Whether the bar wants a fresh layout pass.
    pub fn needs_relayout(&self) -> (r: bool)
        ensures
            r == self.dirty(),
    {
        self.invalidated
    }

    /// The keyboard cursor's position.
    pub fn cursor(&self) -> (r: Option<usize>)
        ensures
            r == self.cursor_index(),
    {
        self.cursor
    }

    /// The selected button's position.
    pub fn active(&self) -> (r: Option<usize>)
        ensures
            r == self.active_index(),
    {
        self.active
    }

    /// How many buttons the bar holds.
    pub fn button_count(&self) -> (r: usize)
        ensures
            r == self.keys().len(),
    {
        self.children.len()
    }

    /// The identifier of button `i`.
    pub fn key_at(&self, i: usize) -> (r: &str)
        requires
            i < self.keys().len(),
        ensures
            r@ == self.keys()[i as int],
    {
        self.children[i].key.as_str()
    }

    /// The cached extent of button `i`, from the last measure pass.
    pub fn size_at(&self, i: usize) -> (r: Vec2)
        requires
            self.measured(),
            i < self.keys().len(),
        ensures
            r == self.sizes_seq()[i as int],
    {
        self.sizes[i]
    }

    /// The cached accumulated position of button `i`.
    pub fn pos_at(&self, i: usize) -> (r: Vec2)
        requires
            i < self.keys().len(),
        ensures
            r == self.pos_seq()[i as int],
    {
        self.children[i].pos
    }

    /// The accumulated extent of all buttons, from the last measure
    /// pass.
    pub fn total_extent(&self) -> (r: Vec2)
        ensures
            r == self.bar_extent(),
    {
        self.bar_size
    }

    /// The extent granted by the last layout pass.
    pub fn granted_extent(&self) -> (r: Vec2)
        ensures
            r == self.rendered_size(),
    {
        self.last_rendered_size
    }

    /// The bar's alignment.
    pub fn get_alignment(&self) -> (r: Align)
        ensures
            r == self.alignment(),
    {
        self.align
    }

    /// The bar's placement edge.
    pub fn get_placement(&self) -> (r: Placement)
        ensures
            r == self.placement(),
    {
        self.placement
    }

    /// Where button `i`'s cell starts within the bar's viewport: the
    /// alignment offset of the whole bar, plus the accumulated extent
    /// of the buttons before it, plus one cell per delimiter before
    /// it; a left-placed vertical bar additionally pushes each button
    /// against the panel border.
    pub fn button_origin(&self, i: usize) -> (r: Vec2)
        requires
            self.measured(),
            i < self.keys().len(),
        ensures
            spec_horizontal(self.placement()) ==> r == (Vec2 {
                x: sat_add(
                    sat_add(
                        spec_offset(
                            self.alignment(),
                            sat_add(self.bar_extent().x, sat_add(self.keys().len() as usize, 1)) as nat,
                            self.rendered_size().x as nat,
                        ) as usize,
                        if i == 0 {
                            0
                        } else {
                            self.pos_seq()[i - 1].x
                        },
                    ),
                    i,
                ),
                y: 0,
            }),
            !spec_horizontal(self.placement()) ==> r == (Vec2 {
                x: if self.placement() == Placement::VerticalLeft {
                    sat_sub(self.bar_extent().x, self.sizes_seq()[i as int].x)
                } else {
                    0
                },
                y: sat_add(
                    sat_add(
                        spec_offset(
                            self.alignment(),
                            sat_add(self.bar_extent().y, sat_add(self.keys().len() as usize, 1)) as nat,
                            self.rendered_size().y as nat,
                        ) as usize,
                        if i == 0 {
                            0
                        } else {
                            self.pos_seq()[i - 1].y
                        },
                    ),
                    i,
                ),
            }),
    {
        let n = self.children.len();
        match self.placement {
            Placement::HorizontalTop | Placement::HorizontalBottom => {
                let content = usize_sat_add(self.bar_size.x, usize_sat_add(n, 1));
                let off = self.align.get_offset(content, self.last_rendered_size.x);
                let before = if i == 0 {
                    0
                } else {
                    self.children[i - 1].pos.x
                };
                Vec2::new(usize_sat_add(usize_sat_add(off, before), i), 0)
            },
            Placement::VerticalLeft | Placement::VerticalRight => {
                let content = usize_sat_add(self.bar_size.y, usize_sat_add(n, 1));
                let off = self.align.get_offset(content, self.last_rendered_size.y);
                let before = if i == 0 {
                    0
                } else {
                    self.children[i - 1].pos.y
                };
                let x = match self.placement {
                    Placement::VerticalLeft => usize_sat_sub(self.bar_size.x, self.sizes[i].x),
                    _ => 0,
                };
                Vec2::new(x, usize_sat_add(usize_sat_add(off, before), i))
            },
        }
    }

    /// The extent button `i`'s cell is cropped to: its own measured
    /// extent plus room for the delimiters it carries — two along the
    /// placement axis for the first and last button, one for the rest.
    pub fn button_crop(&self, i: usize) -> (r: Vec2)
        requires
            self.measured(),
            i < self.keys().len(),
        ensures
            ({
                let size = self.sizes_seq()[i as int];
                let extra: usize = if i == 0 || i + 1 == self.keys().len() {
                    2
                } else {
                    1
                };
                if spec_horizontal(self.placement()) {
                    r == (Vec2 {
                        x: sat_add(size.x, extra),
                        y: if size.y >= 1 {
                            size.y
                        } else {
                            1
                        },
                    })
                } else {
                    r == (Vec2 {
                        x: if size.x >= 1 {
                            size.x
                        } else {
                            1
                        },
                        y: sat_add(size.y, extra),
                    })
                }
            }),
    {
        let n = self.children.len();
        let size = self.sizes[i];
        let extra: usize = if i == 0 || i + 1 == n {
            2
        } else {
            1
        };
        match self.placement {
            Placement::HorizontalTop | Placement::HorizontalBottom => size.stack_horizontal(
                Vec2::new(extra, 1),
            ),
            Placement::VerticalLeft | Placement::VerticalRight => size.stack_vertical(
                Vec2::new(1, extra),
            ),
        }
    }
}

/// The hit-test threshold of button `idx`: the accumulated extent of
/// the buttons up to and including it, shifted by the inter-button
/// delimiters before it and by the alignment offset of the whole bar
/// within the extent granted by the last layout pass. A pointer position
/// belongs to the first button whose threshold it does not exceed.
pub open spec fn spec_threshold(bar: TabBar, idx: int) -> Vec2 {
    let len = bar.keys().len() as usize;
    if spec_horizontal(bar.placement()) {
        let off = spec_offset(
            bar.alignment(),
            sat_add(bar.bar_extent().x, sat_add(len, 1)) as nat,
            bar.rendered_size().x as nat,
        );
        Vec2 {
            x: sat_add(sat_add(bar.pos_seq()[idx].x, (idx + 1) as usize), off as usize),
            y: bar.pos_seq()[idx].y,
        }
    } else {
        let off = spec_offset(
            bar.alignment(),
            sat_add(bar.bar_extent().y, sat_add(len, 1)) as nat,
            bar.rendered_size().y as nat,
        );
        Vec2 {
            x: bar.pos_seq()[idx].x,
            y: sat_add(sat_add(bar.pos_seq()[idx].y, (idx + 1) as usize), off as usize),
        }
    }
}

/// Whether a pointer at absolute `position`, over a bar whose top-left
/// corner is at `offset`, falls within button `idx`'s threshold.
pub open spec fn spec_hit(bar: TabBar, idx: int, offset: Vec2, position: Vec2) -> bool {
    &&& offset.x <= position.x
    &&& offset.y <= position.y
    &&& spec_threshold(bar, idx).x >= position.x - offset.x
    &&& spec_threshold(bar, idx).y >= position.y - offset.y
}

/// An event that leaves the bar alone: ignored, cursor and dirty flag
/// untouched.
pub open spec fn spec_bar_unmoved(pre: TabBar, post: TabBar, r: EventResult) -> bool {
    &&& r == EventResult::Ignored
    &&& post.cursor_index() == pre.cursor_index()
    &&& post.dirty() == pre.dirty()
}

/// The outcome of an arrow key pointing backward: the cursor moves one
/// button back and the event is consumed, except at the first button or
/// with no cursor, where the event is ignored. No wraparound.
pub open spec fn spec_cursor_back(pre: TabBar, post: TabBar, r: EventResult) -> bool {
    match pre.cursor_index() {
        Some(i) => if i > 0 {
            post.cursor_index() == Some((i - 1) as usize) && r == EventResult::Consumed
                && post.dirty()
        } else {
            spec_bar_unmoved(pre, post, r)
        },
        None => spec_bar_unmoved(pre, post, r),
    }
}

/// The outcome of an arrow key pointing forward: the mirror image of
/// [`spec_cursor_back`], clamped at the last button.
pub open spec fn spec_cursor_forward(pre: TabBar, post: TabBar, r: EventResult) -> bool {
    match pre.cursor_index() {
        Some(i) => if i + 1 < pre.keys().len() {
            post.cursor_index() == Some((i + 1) as usize) && r == EventResult::Consumed
                && post.dirty()
        } else {
            spec_bar_unmoved(pre, post, r)
        },
        None => spec_bar_unmoved(pre, post, r),
    }
}

impl TabBar {
    /// The hit-test threshold of button `idx`, from the cached geometry.
    fn threshold(&self, idx: usize) -> (r: Vec2)
        requires
            idx < self.keys().len(),
        ensures
            r == spec_threshold(*self, idx as int),
    {
        let n = self.children.len();
        let pos = self.children[idx].pos;
        match self.placement {
            Placement::HorizontalTop | Placement::HorizontalBottom => {
                let content = usize_sat_add(self.bar_size.x, usize_sat_add(n, 1));
                let off = self.align.get_offset(content, self.last_rendered_size.x);
                Vec2::new(usize_sat_add(usize_sat_add(pos.x, idx + 1), off), pos.y)
            },
            Placement::VerticalLeft | Placement::VerticalRight => {
                let content = usize_sat_add(self.bar_size.y, usize_sat_add(n, 1));
                let off = self.align.get_offset(content, self.last_rendered_size.y);
                Vec2::new(pos.x, usize_sat_add(usize_sat_add(pos.y, idx + 1), off))
            },
        }
    }

    /// Routes an input event. A primary-button release inside a button's
    /// hit region moves the cursor there and announces that button's
    /// identifier on its queue; `Enter` announces the cursor's button;
    /// arrow keys along the placement axis move the cursor, clamped at
    /// both ends; everything else is ignored. The selection only ever
    /// changes through the inbound queue, never here.
    #[verifier::loop_isolation(false)]
    pub fn on_event(&mut self, evt: Event) -> (r: EventResult)
        requires
            old(self).wf(),
        ensures
            final(self).wf(),
            final(self).keys() == old(self).keys(),
            final(self).active_index() == old(self).active_index(),
            final(self).placement() == old(self).placement(),
            final(self).alignment() == old(self).alignment(),
            final(self).sizes_seq() == old(self).sizes_seq(),
            final(self).pos_seq() == old(self).pos_seq(),
            final(self).bar_extent() == old(self).bar_extent(),
            final(self).rendered_size() == old(self).rendered_size(),
            match evt {
                Event::Mouse { offset, position, event } => {
                    if event == MouseEventKind::Release(MouseButton::Left) && (exists|i: int|
                        0 <= i < old(self).keys().len() && spec_hit(*old(self), i, offset, position)) {
                        r == EventResult::Consumed && final(self).dirty() && (match final(self).cursor_index() {
                            Some(c) => c < old(self).keys().len() && spec_hit(
                                *old(self),
                                c as int,
                                offset,
                                position,
                            ) && (forall|j: int|
                                0 <= j < c ==> !spec_hit(*old(self), j, offset, position)),
                            None => false,
                        })
                    } else {
                        spec_bar_unmoved(*old(self), *final(self), r)
                    }
                },
                Event::Key(Key::Enter) => match old(self).cursor_index() {
                    Some(_) => r == EventResult::Consumed && final(self).cursor_index() == old(
                        self,
                    ).cursor_index() && final(self).dirty(),
                    None => spec_bar_unmoved(*old(self), *final(self), r),
                },
                Event::Key(Key::Left) => if spec_horizontal(old(self).placement()) {
                    spec_cursor_back(*old(self), *final(self), r)
                } else {
                    spec_bar_unmoved(*old(self), *final(self), r)
                },
                Event::Key(Key::Up) => if !spec_horizontal(old(self).placement()) {
                    spec_cursor_back(*old(self), *final(self), r)
                } else {
                    spec_bar_unmoved(*old(self), *final(self), r)
                },
                Event::Key(Key::Right) => if spec_horizontal(old(self).placement()) {
                    spec_cursor_forward(*old(self), *final(self), r)
                } else {
                    spec_bar_unmoved(*old(self), *final(self), r)
                },
                Event::Key(Key::Down) => if !spec_horizontal(old(self).placement()) {
                    spec_cursor_forward(*old(self), *final(self), r)
                } else {
                    spec_bar_unmoved(*old(self), *final(self), r)
                },
                Event::Other => spec_bar_unmoved(*old(self), *final(self), r),
            },
    {
        match evt {
            Event::Mouse { offset, position, event } => {
                let release_left = match event {
                    MouseEventKind::Release(MouseButton::Left) => true,
                    _ => false,
                };
                if release_left {
                    let n = self.children.len();
                    let mut i: usize = 0;
                    while i < n
                        invariant
                            *self == *old(self),
                            self.wf(),
                            n == self.keys().len(),
                            i <= n,
                            forall|j: int| 0 <= j < i ==> !spec_hit(*old(self), j, offset, position),
                        decreases n - i,
                    {
                        let hit = match position.checked_sub(offset) {
                            Some(rel) => self.threshold(i).fits(rel),
                            None => false,
                        };
                        proof {
                            assert(hit == spec_hit(*old(self), i as int, offset, position));
                        }
                        if hit {
                            self.invalidated = true;
                            self.cursor = Some(i);
                            let k = self.children[i].key.clone();
                            channel_send(&self.children[i].tx, k.as_str());
                            proof {
                                assert(exists|v: int|
                                    0 <= v < old(self).keys().len() && spec_hit(
                                        *old(self),
                                        v,
                                        offset,
                                        position,
                                    )) by {
                                    assert(spec_hit(*old(self), i as int, offset, position));
                                }
                                assert(match self.cursor_index() {
                                    Some(c) => c < old(self).keys().len() && spec_hit(
                                        *old(self),
                                        c as int,
                                        offset,
                                        position,
                                    ) && (forall|j: int|
                                        0 <= j < c ==> !spec_hit(*old(self), j, offset, position)),
                                    None => false,
                                }) by {
                                    assert(self.cursor_index() == Some(i));
                                    assert(spec_hit(*old(self), i as int, offset, position));
                                }
                            }
                            return EventResult::Consumed;
                        }
                        i += 1;
                    }
                }
                EventResult::Ignored
            },
            Event::Key(k) => {
                match k {
                    Key::Enter => {
                        match self.cursor {
                            Some(focus) => {
                                self.invalidated = true;
                                let key = self.children[focus].key.clone();
                                channel_send(&self.children[focus].tx, key.as_str());
                                EventResult::Consumed
                            },
                            None => EventResult::Ignored,
                        }
                    },
                    Key::Left => {
                        if self.is_horizontal() {
                            self.decrement_idx()
                        } else {
                            EventResult::Ignored
                        }
                    },
                    Key::Up => {
                        if !self.is_horizontal() {
                            self.decrement_idx()
                        } else {
                            EventResult::Ignored
                        }
                    },
                    Key::Right => {
                        if self.is_horizontal() {
                            self.increment_idx()
                        } else {
                            EventResult::Ignored
                        }
                    },
                    Key::Down => {
                        if !self.is_horizontal() {
                            self.increment_idx()
                        } else {
                            EventResult::Ignored
                        }
                    },
                }
            },
            Event::Other => EventResult::Ignored,
        }
    }
}

/// The glyph drawn at the left edge of button `idx` in a horizontal
/// bar: the first button carries a start cap, every later one a
/// vertical separator; both turn heavy when they border the selected
/// button.
pub fn horizontal_delimiter(idx: usize, active: Option<usize>) -> (c: char)
    ensures
        idx == 0 ==> c == (if active == Some(0usize) {
            '\u{2528}'
        } else {
            '\u{2524}'
        }),
        idx > 0 ==> c == (if active == Some(idx) || active == Some((idx - 1) as usize) {
            '\u{2503}'
        } else {
            '\u{2502}'
        }),
{
    if idx == 0 {
        match active {
            Some(a) if a == 0 => '\u{2528}',
            _ => '\u{2524}',
        }
    } else {
        match active {
            Some(a) if a == idx || a == idx - 1 => '\u{2503}',
            _ => '\u{2502}',
        }
    }
}

/// The glyph capping the right edge of the last button in a horizontal
/// bar; heavy when that button is the selected one.
pub fn horizontal_end_cap(last: usize, active: Option<usize>) -> (c: char)
    ensures
        c == (if active == Some(last) {
            '\u{2520}'
        } else {
            '\u{251c}'
        }),
{
    match active {
        Some(a) if a == last => '\u{2520}',
        _ => '\u{251c}',
    }
}

/// The glyph filling the line above button `idx` in a vertical bar;
/// heavy when it borders the selected button.
pub fn vertical_delimiter(idx: usize, active: Option<usize>) -> (c: char)
    ensures
        idx == 0 ==> c == (if active == Some(0usize) {
            '\u{2501}'
        } else {
            '\u{2500}'
        }),
        idx > 0 ==> c == (if active == Some(idx) || active == Some((idx - 1) as usize) {
            '\u{2501}'
        } else {
            '\u{2500}'
        }),
{
    if idx == 0 {
        match active {
            Some(a) if a == 0 => '\u{2501}',
            _ => '\u{2500}',
        }
    } else {
        match active {
            Some(a) if a == idx || a == idx - 1 => '\u{2501}',
            _ => '\u{2500}',
        }
    }
}

/// The junction glyph where the first button's top line meets the
/// panel's vertical border; heavy when the first button is selected.
pub fn vertical_start_connector(active: Option<usize>) -> (c: char)
    ensures
        c == (if active == Some(0usize) {
            '\u{2537}'
        } else {
            '\u{2534}'
        }),
{
    match active {
        Some(a) if a == 0 => '\u{2537}',
        _ => '\u{2534}',
    }
}

/// The glyph filling the line below the last button in a vertical bar;
/// heavy when that button is selected.
pub fn vertical_end_delimiter(last: usize, active: Option<usize>) -> (c: char)
    ensures
        c == (if active == Some(last) {
            '\u{2501}'
        } else {
            '\u{2500}'
        }),
{
    match active {
        Some(a) if a == last => '\u{2501}',
        _ => '\u{2500}',
    }
}

/// The junction glyph where the last button's bottom line meets the
/// panel's vertical border; heavy when that button is selected.
pub fn vertical_end_connector(last: usize, active: Option<usize>) -> (c: char)
    ensures
        c == (if active == Some(last) {
            '\u{252f}'
        } else {
            '\u{252c}'
        }),
{
    match active {
        Some(a) if a == last => '\u{252f}',
        _ => '\u{252c}',
    }
}

/// The index-bounds law: in a well-formed bar, the cursor and the
/// selection, whenever present, name an existing button. Every bar
/// operation returns a well-formed bar, so this holds at all times.
pub proof fn lemma_cursor_active_bounds(bar: TabBar)
    requires
        bar.wf(),
    ensures
        match bar.cursor_index() {
            Some(i) => i < bar.keys().len(),
            None => true,
        },
        match bar.active_index() {
            Some(i) => i < bar.keys().len(),
            None => true,
        },
{
}

/// How a tracked index reacts to the removal of index `removed`: when
/// either tracked index (the one in question, `this`, or its sibling,
/// `other`) equals the removed one, tracking resets entirely; otherwise
/// an index past the removed one slides down by one.
pub open spec fn spec_slide(this: Option<usize>, other: Option<usize>, removed: int) -> Option<
    usize,
> {
    if this == Some(removed as usize) || other == Some(removed as usize) {
        None
    } else {
        match this {
            Some(v) => if v > removed {
                Some((v - 1) as usize)
            } else {
                Some(v)
            },
            None => None,
        }
    }
}

} // verus!
