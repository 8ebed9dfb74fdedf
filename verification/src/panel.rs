use vstd::prelude::*;

use crate::bar::TabBar;
use crate::channel::channel_pair;
use crate::error::IdNotFound;
use crate::event::{CannotFocus, Direction, Event, EventResult, Key, MouseEventKind};
use crate::geom::{sat_add, sat_sub, usize_sat_add, usize_sat_sub, Vec2};
use crate::child::ChildView;
use crate::TabView;

verus! {

/// How the bar's total button extent sits inside the space the container
/// grants it along the placement axis.
#[derive(Clone, Copy, PartialEq, Eq, Structural, Debug)]
pub enum Align {
    Start,
    Center,
    End,
}

/// Which edge of the panel the tab bar occupies. Horizontal placements
/// stack buttons left to right, vertical ones top to bottom.
#[derive(Clone, Copy, PartialEq, Eq, Structural, Debug)]
pub enum Placement {
    VerticalLeft,
    VerticalRight,
    HorizontalTop,
    HorizontalBottom,
}

impl Align {
    /// Where aligned content of extent `content` starts inside a container
    /// of extent `container`. Total and deterministic: when the container
    /// is smaller than the content the offset is zero and the content
    /// simply overflows; otherwise `Start` pins to zero, `Center` halves
    /// the slack (rounding down) and `End` uses all of it.
    pub fn get_offset(self, content: usize, container: usize) -> (r: usize)
        ensures
            r == spec_offset(self, content as nat, container as nat),
            container < content ==> r == 0,
            container >= content ==> match self {
                Align::Start => r == 0,
                Align::Center => r == ((container - content) as usize) / 2,
                Align::End => r == container - content,
            },
    {
        if container < content {
            0
        } else {
            match self {
                Align::Start => 0,
                Align::Center => (container - content) / 2,
                Align::End => container - content,
            }
        }
    }
}

/// The alignment offset law: content never starts before the container,
/// an offset of zero is used whenever the container is too small, centred
/// content leaves slack `container - content` split in two parts that
/// differ by at most one cell, and `End` makes offset and content close
/// exactly with the container's far edge.
pub proof fn lemma_align_offset_law(align: Align, content: nat, container: nat)
    ensures
        container < content ==> spec_offset(align, content, container) == 0,
        container >= content && align == Align::End ==> spec_offset(align, content, container)
            + content == container,
        container >= content && align == Align::Center ==> {
            let off = spec_offset(align, content, container);
            let rest = (container - content - off) as nat;
            &&& off + content + rest == container
            &&& (off == rest || off + 1 == rest)
            &&& (off + content + off == container || off + content + off + 1 == container)
        },
{
    if container >= content && align == Align::Center {
        let slack = (container - content) as nat;
        let off = slack / 2;
        assert(slack == 2 * (slack / 2) + slack % 2) by (nonlinear_arith);
        assert(slack % 2 == 0 || slack % 2 == 1) by (nonlinear_arith);
    }
}

/// The offset `get_offset` returns, as a mathematical function.
pub open spec fn spec_offset(align: Align, content: nat, container: nat) -> nat {
    if container < content {
        0
    } else {
        match align {
            Align::Start => 0,
            Align::Center => ((container - content) as nat) / 2,
            Align::End => (container - content) as nat,
        }
    }
}

/// Whether a focus request from `d` enters the panel through its
/// content edge, the edge opposite the bar.
pub open spec fn spec_toward_content(p: Placement, d: Direction) -> bool {
    match p {
        Placement::HorizontalTop => d == Direction::Down,
        Placement::HorizontalBottom => d == Direction::Up,
        Placement::VerticalLeft => d == Direction::Right,
        Placement::VerticalRight => d == Direction::Left,
    }
}

/// Whether a focus request from `d` enters the panel through its bar
/// edge.
pub open spec fn spec_toward_bar(p: Placement, d: Direction) -> bool {
    match p {
        Placement::HorizontalTop => d == Direction::Up,
        Placement::HorizontalBottom => d == Direction::Down,
        Placement::VerticalLeft => d == Direction::Left,
        Placement::VerticalRight => d == Direction::Right,
    }
}

/// Whether `d` runs perpendicular to the bar edge, deferring the focus
/// decision to whichever region holds focus.
pub open spec fn spec_perpendicular(p: Placement, d: Direction) -> bool {
    d != Direction::Neutral && !spec_toward_content(p, d) && !spec_toward_bar(p, d)
}

/// The composite widget: one [`TabBar`] and one [`TabView`] joined by
/// the two selection queues, wrapped in a frame, with a two-state focus
/// delegation machine (`bar_focused` against content-focused) deciding
/// which region receives keyboard events.
///
/// Invariant ([`TabPanel::wf`]): both halves are well formed, they hold
/// exactly the same identifiers in the same order, and the bar carries
/// the panel's placement and alignment.
pub struct TabPanel<V> {
    bar: TabBar,
    bar_size: Vec2,
    tab_size: Vec2,
    tx: crossbeam::channel::Sender<String>,
    tabs: TabView<V>,
    bar_focused: bool,
    bar_align: Align,
    bar_placement: Placement,
}

impl<V> TabPanel<V> {
    /// The identifiers as the bar holds them.
    pub closed spec fn bar_keys(self) -> Seq<Seq<char>> {
        self.bar.keys()
    }

    /// The identifiers as the container holds them.
    pub closed spec fn tab_keys(self) -> Seq<Seq<char>> {
        self.tabs.key_seq()
    }

    /// The container's visible identifier.
    pub closed spec fn current_key(self) -> Option<Seq<char>> {
        self.tabs.current_key()
    }

    /// The bar's keyboard cursor.
    pub closed spec fn cursor_index(self) -> Option<usize> {
        self.bar.cursor_index()
    }

    /// The bar's selected button.
    pub closed spec fn active_index(self) -> Option<usize> {
        self.bar.active_index()
    }

    /// Which of the two regions holds keyboard focus: the bar when
    /// true, the content when false — always exactly one of the two.
    pub closed spec fn bar_focused(self) -> bool {
        self.bar_focused
    }

    pub closed spec fn placement(self) -> Placement {
        self.bar_placement
    }

    pub closed spec fn alignment(self) -> Align {
        self.bar_align
    }

    /// The bar extent cached by the last measure pass.
    pub closed spec fn bar_size_cache(self) -> Vec2 {
        self.bar_size
    }

    /// The content extent cached by the last layout pass.
    pub closed spec fn tab_size_cache(self) -> Vec2 {
        self.tab_size
    }

    /// Whether the bar half wants a fresh layout pass.
    pub closed spec fn bar_dirty(self) -> bool {
        self.bar.dirty()
    }

    /// Whether the container half wants a fresh layout pass of its own
    /// accord (its visible child may want one besides).
    pub closed spec fn content_dirty(self) -> bool {
        self.tabs.dirty()
    }

    /// The extent the bar was granted by the last layout pass.
    pub closed spec fn bar_rendered_size(self) -> Vec2 {
        self.bar.rendered_size()
    }

    /// The accumulated extent of all bar buttons, from the bar's last
    /// measure pass.
    pub closed spec fn bar_total_extent(self) -> Vec2 {
        self.bar.bar_extent()
    }

    /// The bar's cached per-button extents.
    pub closed spec fn bar_sizes(self) -> Seq<Vec2> {
        self.bar.sizes_seq()
    }

    /// The bar's cached accumulated button positions.
    pub closed spec fn bar_positions(self) -> Seq<Vec2> {
        self.bar.pos_seq()
    }

    /// The views hosted by the container, in visual order; the view at
    /// position `i` belongs to the identifier at position `i`.
    pub closed spec fn tab_views(self) -> Seq<V> {
        self.tabs.view_seq()
    }

    pub open spec fn has_key(self, k: Seq<char>) -> bool {
        self.tab_keys().contains(k)
    }

    /// The panel's invariant. Its heart is the synchronization
    /// property: whatever sequence of additions, removals and swaps ran
    /// through the panel, bar and container always hold the same
    /// identifiers in the same order.
    pub closed spec fn wf(self) -> bool {
        &&& self.bar.wf()
        &&& self.tabs.wf()
        &&& self.bar.keys() == self.tabs.key_seq()
        &&& self.bar.placement() == self.placement()
        &&& self.bar.alignment() == self.alignment()
    }

    /// The synchronization law, stated on its own: a well-formed panel's
    /// bar and container agree on the set and order of identifiers.
    pub proof fn lemma_keys_in_sync(self)
        requires
            self.wf(),
        ensures
            self.bar_keys() == self.tab_keys(),
    {
    }

    /// A fresh, empty panel: bar on the top edge, start-aligned, bar
    /// focused, with the two queues wired between bar and container.
    pub fn new() -> (r: TabPanel<V>)
        ensures
            r.wf(),
            r.bar_keys() =~= Seq::<Seq<char>>::empty(),
            r.tab_keys() =~= Seq::<Seq<char>>::empty(),
            r.current_key() is None,
            r.bar_focused(),
            r.placement() == Placement::HorizontalTop,
            r.alignment() == Align::Start,
    {
        let mut tabs: TabView<V> = TabView::new();
        let (tx, rx) = channel_pair();
        let (active_tx, active_rx) = channel_pair();
        tabs.set_bar_rx(rx);
        tabs.set_active_key_tx(active_tx);
        let bar = TabBar::new(active_rx).with_placement(Placement::HorizontalTop).with_alignment(
            Align::Start,
        );
        TabPanel {
            bar,
            bar_size: Vec2::new(1, 1),
            tab_size: Vec2::new(1, 1),
            tabs,
            tx,
            bar_focused: true,
            bar_align: Align::Start,
            bar_placement: Placement::HorizontalTop,
        }
    }

    /// The visible tab's identifier.
    pub fn active_tab(&self) -> (r: Option<&str>)
        ensures
            match r {
                Some(s) => self.current_key() == Some(s@),
                None => self.current_key() is None,
            },
    {
        self.tabs.active_tab()
    }

    /// Makes the tab named `id` the visible one; `IdNotFound` when no
    /// tab has that identifier.
    pub fn set_active_tab(&mut self, id: &str) -> (r: Result<(), IdNotFound>)
        requires
            old(self).wf(),
        ensures
            final(self).wf(),
            final(self).tab_keys() == old(self).tab_keys(),
            final(self).tab_views() == old(self).tab_views(),
            final(self).bar_keys() == old(self).bar_keys(),
            final(self).bar_focused() == old(self).bar_focused(),
            old(self).has_key(id@) ==> r is Ok && final(self).current_key() == Some(id@),
            !old(self).has_key(id@) ==> (match r {
                Err(e) => e.id@ == id@,
                Ok(_) => false,
            }) && final(self).current_key() == old(self).current_key(),
    {
        self.tabs.set_active_tab(id)
    }

    /// Consuming variant of [`TabPanel::set_active_tab`]: hands the
    /// panel back as `Ok` exactly when the identifier was known.
    pub fn with_active_tab(self, id: &str) -> (r: Result<TabPanel<V>, TabPanel<V>>)
        requires
            self.wf(),
        ensures
            self.has_key(id@) ==> (match r {
                Ok(p) => p.wf() && p.tab_keys() == self.tab_keys() && p.current_key() == Some(id@),
                Err(_) => false,
            }),
            !self.has_key(id@) ==> (match r {
                Err(p) => p.wf() && p.tab_keys() == self.tab_keys() && p.current_key()
                    == self.current_key(),
                Ok(_) => false,
            }),
    {
        let mut s = self;
        match s.set_active_tab(id) {
            Ok(_) => Ok(s),
            Err(_) => Err(s),
        }
    }

    /// Adds a tab at the end of both halves: a button in the bar, the
    /// view in the container; the new tab becomes visible and selected.
    pub fn add_tab(&mut self, id: &str, view: V)
        requires
            old(self).wf(),
            !old(self).has_key(id@),
        ensures
            final(self).wf(),
            final(self).tab_keys() =~= old(self).tab_keys().push(id@),
            final(self).tab_views() =~= old(self).tab_views().push(view),
            final(self).current_key() == Some(id@),
            final(self).active_index() == Some((old(self).tab_keys().len()) as usize),
            final(self).cursor_index() == Some((old(self).tab_keys().len()) as usize),
            final(self).bar_focused() == old(self).bar_focused(),
    {
        let btx = self.tx.clone();
        self.bar.add_button(btx, id);
        self.tabs.add_tab(id, view);
        proof {
            assert(final(self).bar.keys() =~= final(self).tabs.key_seq());
        }
    }

    /// Consuming variant of [`TabPanel::add_tab`].
    pub fn with_tab(self, id: &str, view: V) -> (r: TabPanel<V>)
        requires
            self.wf(),
            !self.has_key(id@),
        ensures
            r.wf(),
            r.tab_keys() =~= self.tab_keys().push(id@),
            r.tab_views() =~= self.tab_views().push(view),
            r.current_key() == Some(id@),
    {
        let mut s = self;
        s.add_tab(id, view);
        s
    }

    /// Adds a tab at `pos` in both halves, clamped to the current
    /// length; the new tab becomes visible and selected.
    pub fn add_tab_at(&mut self, id: &str, view: V, pos: usize)
        requires
            old(self).wf(),
            !old(self).has_key(id@),
        ensures
            final(self).wf(),
            final(self).tab_keys() =~= old(self).tab_keys().insert(
                if pos <= old(self).tab_keys().len() {
                    pos as int
                } else {
                    old(self).tab_keys().len() as int
                },
                id@,
            ),
            final(self).tab_views() =~= old(self).tab_views().insert(
                if pos <= old(self).tab_keys().len() {
                    pos as int
                } else {
                    old(self).tab_keys().len() as int
                },
                view,
            ),
            final(self).current_key() == Some(id@),
            final(self).bar_focused() == old(self).bar_focused(),
    {
        let btx = self.tx.clone();
        self.bar.add_button_at(btx, id, pos);
        self.tabs.add_tab_at(id, view, pos);
        proof {
            assert(final(self).bar.keys() =~= final(self).tabs.key_seq());
        }
    }

    /// Consuming variant of [`TabPanel::add_tab_at`].
    pub fn with_tab_at(self, id: &str, view: V, pos: usize) -> (r: TabPanel<V>)
        requires
            self.wf(),
            !self.has_key(id@),
        ensures
            r.wf(),
            r.tab_keys() =~= self.tab_keys().insert(
                if pos <= self.tab_keys().len() {
                    pos as int
                } else {
                    self.tab_keys().len() as int
                },
                id@,
            ),
            r.current_key() == Some(id@),
    {
        let mut s = self;
        s.add_tab_at(id, view, pos);
        s
    }

    /// Removes the tab named `id` from both halves; `IdNotFound` when
    /// absent, with nothing changed.
    pub fn remove_tab(&mut self, id: &str) -> (r: Result<(), IdNotFound>)
        requires
            old(self).wf(),
        ensures
            final(self).wf(),
            final(self).bar_focused() == old(self).bar_focused(),
            old(self).has_key(id@) ==> r is Ok && final(self).tab_keys() =~= old(
                self,
            ).tab_keys().remove(crate::idx_of(old(self).tab_keys(), id@))
                && final(self).tab_views() =~= old(self).tab_views().remove(
                crate::idx_of(old(self).tab_keys(), id@),
            ) && final(self).current_key() == (if old(self).current_key() == Some(id@) {
                Option::<Seq<char>>::None
            } else {
                old(self).current_key()
            }),
            !old(self).has_key(id@) ==> (match r {
                Err(e) => e.id@ == id@,
                Ok(_) => false,
            }) && final(self).tab_keys() == old(self).tab_keys()
                && final(self).tab_views() == old(self).tab_views()
                && final(self).current_key() == old(self).current_key(),
    {
        self.bar.remove_button(id);
        let r = self.tabs.remove_tab(id);
        proof {
            if old(self).has_key(id@) {
                assert(final(self).bar.keys() =~= final(self).tabs.key_seq());
            }
        }
        r
    }

    /// Exchanges the positions of two tabs in both halves; a no-op
    /// unless both identifiers name distinct tabs.
    pub fn swap_tabs(&mut self, fst: &str, snd: &str)
        requires
            old(self).wf(),
        ensures
            final(self).wf(),
            final(self).tab_keys() =~= crate::spec_swapped(old(self).tab_keys(), fst@, snd@),
            final(self).tab_views() =~= ({
                let ks = old(self).tab_keys();
                let vs = old(self).tab_views();
                if ks.contains(fst@) && ks.contains(snd@) && crate::idx_of(ks, fst@)
                    != crate::idx_of(ks, snd@) {
                    vs.update(crate::idx_of(ks, fst@), vs[crate::idx_of(ks, snd@)]).update(
                        crate::idx_of(ks, snd@),
                        vs[crate::idx_of(ks, fst@)],
                    )
                } else {
                    vs
                }
            }),
            final(self).current_key() == old(self).current_key(),
            final(self).bar_focused() == old(self).bar_focused(),
    {
        self.tabs.swap_tabs(fst, snd);
        self.bar.swap_button(fst, snd);
        proof {
            assert(final(self).bar.keys() =~= final(self).tabs.key_seq());
        }
    }

    /// Moves the visible tab to the next one in order, with wraparound.
    pub fn next(&mut self)
        requires
            old(self).wf(),
        ensures
            final(self).wf(),
            final(self).tab_keys() == old(self).tab_keys(),
            final(self).tab_views() == old(self).tab_views(),
            final(self).bar_focused() == old(self).bar_focused(),
            old(self).current_key() is None ==> final(self).current_key() is None,
            match old(self).current_key() {
                Some(k) => final(self).current_key() == Some(
                    crate::spec_next_key(old(self).tab_keys(), k),
                ),
                None => true,
            },
    {
        self.tabs.next()
    }

    /// Moves the visible tab to the previous one in order, with
    /// wraparound.
    pub fn prev(&mut self)
        requires
            old(self).wf(),
        ensures
            final(self).wf(),
            final(self).tab_keys() == old(self).tab_keys(),
            final(self).tab_views() == old(self).tab_views(),
            final(self).bar_focused() == old(self).bar_focused(),
            old(self).current_key() is None ==> final(self).current_key() is None,
            match old(self).current_key() {
                Some(k) => final(self).current_key() == Some(
                    old(self).tab_keys()[(crate::idx_of(old(self).tab_keys(), k) + (old(
                        self,
                    ).tab_keys().len() as int) - 1) % (old(self).tab_keys().len() as int)],
                ),
                None => true,
            },
    {
        self.tabs.prev()
    }

    /// Consuming variant of [`TabPanel::set_bar_alignment`].
    pub fn with_bar_alignment(self, align: Align) -> (r: TabPanel<V>)
        requires
            self.wf(),
        ensures
            r.wf(),
            r.alignment() == align,
            r.placement() == self.placement(),
            r.tab_keys() == self.tab_keys(),
            r.current_key() == self.current_key(),
            r.bar_dirty(),
    {
        let mut s = self;
        s.set_bar_alignment(align);
        s
    }

    /// Aligns the bar's buttons within its edge.
    pub fn set_bar_alignment(&mut self, align: Align)
        requires
            old(self).wf(),
        ensures
            final(self).wf(),
            final(self).alignment() == align,
            final(self).placement() == old(self).placement(),
            final(self).tab_keys() == old(self).tab_keys(),
            final(self).tab_views() == old(self).tab_views(),
            final(self).current_key() == old(self).current_key(),
            final(self).bar_focused() == old(self).bar_focused(),
            final(self).bar_dirty(),
    {
        self.bar_align = align;
        self.bar.set_alignment(align);
    }

    /// Consuming variant of [`TabPanel::set_bar_placement`].
    pub fn with_bar_placement(self, placement: Placement) -> (r: TabPanel<V>)
        requires
            self.wf(),
        ensures
            r.wf(),
            r.placement() == placement,
            r.alignment() == self.alignment(),
            r.tab_keys() == self.tab_keys(),
            r.current_key() == self.current_key(),
            r.bar_dirty(),
    {
        let mut s = self;
        s.set_bar_placement(placement);
        s
    }

    /// Moves the bar to another edge of the panel.
    pub fn set_bar_placement(&mut self, placement: Placement)
        requires
            old(self).wf(),
        ensures
            final(self).wf(),
            final(self).placement() == placement,
            final(self).alignment() == old(self).alignment(),
            final(self).tab_keys() == old(self).tab_keys(),
            final(self).tab_views() == old(self).tab_views(),
            final(self).current_key() == old(self).current_key(),
            final(self).bar_focused() == old(self).bar_focused(),
            final(self).bar_dirty(),
    {
        self.bar_placement = placement;
        self.bar.set_placement(placement);
    }

    /// A copy of the identifiers in visual order.
    pub fn tab_order(&self) -> (r: Vec<String>)
        ensures
            r@.map_values(|s: String| s@) =~= self.tab_keys(),
    {
        self.tabs.tab_order()
    }

    /// Where the bar is drawn inside the panel: its offset and the
    /// extent it is cropped to, from the panel's granted extent and the
    /// cached bar extent.
    pub fn bar_viewport(&self, size: Vec2) -> (r: (Vec2, Vec2))
        ensures
            r == (match self.placement() {
                Placement::HorizontalTop => (
                    Vec2 { x: 1, y: 0 },
                    Vec2 { x: sat_sub(size.x, 2), y: self.bar_size_cache().y },
                ),
                Placement::HorizontalBottom => (
                    Vec2 {
                        x: 1,
                        y: if sat_sub(size.y, self.bar_size_cache().y) <= sat_sub(size.y, 1) {
                            sat_sub(size.y, self.bar_size_cache().y)
                        } else {
                            sat_sub(size.y, 1)
                        },
                    },
                    Vec2 { x: sat_sub(size.x, 2), y: self.bar_size_cache().y },
                ),
                Placement::VerticalLeft => (
                    Vec2 { x: 0, y: 1 },
                    Vec2 { x: self.bar_size_cache().x, y: sat_sub(size.y, 2) },
                ),
                Placement::VerticalRight => (
                    Vec2 {
                        x: if sat_sub(size.x, self.bar_size_cache().x) <= sat_sub(size.x, 1) {
                            sat_sub(size.x, self.bar_size_cache().x)
                        } else {
                            sat_sub(size.x, 1)
                        },
                        y: 1,
                    },
                    Vec2 { x: self.bar_size_cache().x, y: sat_sub(size.y, 2) },
                ),
            }),
    {
        match self.bar_placement {
            Placement::HorizontalTop => {
                (Vec2::new(1, 0), Vec2::new(usize_sat_sub(size.x, 2), self.bar_size.y))
            },
            Placement::HorizontalBottom => {
                let v = usize_sat_sub(size.y, self.bar_size.y);
                let hi = usize_sat_sub(size.y, 1);
                let y = if v <= hi {
                    v
                } else {
                    hi
                };
                (Vec2::new(1, y), Vec2::new(usize_sat_sub(size.x, 2), self.bar_size.y))
            },
            Placement::VerticalLeft => {
                (Vec2::new(0, 1), Vec2::new(self.bar_size.x, usize_sat_sub(size.y, 2)))
            },
            Placement::VerticalRight => {
                let v = usize_sat_sub(size.x, self.bar_size.x);
                let hi = usize_sat_sub(size.x, 1);
                let x = if v <= hi {
                    v
                } else {
                    hi
                };
                (Vec2::new(x, 1), Vec2::new(self.bar_size.x, usize_sat_sub(size.y, 2)))
            },
        }
    }

    /// Where the content is drawn inside the panel: its offset and the
    /// extent it is cropped to.
    pub fn content_viewport(&self, size: Vec2) -> (r: (Vec2, Vec2))
        ensures
            r == (match self.placement() {
                Placement::HorizontalTop => (
                    Vec2 { x: 1, y: self.bar_size_cache().y },
                    Vec2 {
                        x: sat_sub(size.x, 2),
                        y: sat_sub(size.y, sat_add(self.bar_size_cache().y, 1)),
                    },
                ),
                Placement::HorizontalBottom => (
                    Vec2 { x: 1, y: 1 },
                    Vec2 {
                        x: sat_sub(size.x, 2),
                        y: sat_sub(size.y, sat_add(self.bar_size_cache().y, 1)),
                    },
                ),
                Placement::VerticalLeft => (
                    Vec2 { x: self.bar_size_cache().x, y: 1 },
                    Vec2 {
                        x: sat_sub(size.x, sat_add(self.bar_size_cache().x, 1)),
                        y: sat_sub(size.y, 2),
                    },
                ),
                Placement::VerticalRight => (
                    Vec2 { x: 1, y: 1 },
                    Vec2 {
                        x: sat_sub(size.x, sat_add(self.bar_size_cache().x, 1)),
                        y: sat_sub(size.y, 2),
                    },
                ),
            }),
    {
        match self.bar_placement {
            Placement::HorizontalTop => {
                (
                    Vec2::new(1, self.bar_size.y),
                    Vec2::new(
                        usize_sat_sub(size.x, 2),
                        usize_sat_sub(size.y, usize_sat_add(self.bar_size.y, 1)),
                    ),
                )
            },
            Placement::HorizontalBottom => {
                (
                    Vec2::new(1, 1),
                    Vec2::new(
                        usize_sat_sub(size.x, 2),
                        usize_sat_sub(size.y, usize_sat_add(self.bar_size.y, 1)),
                    ),
                )
            },
            Placement::VerticalLeft => {
                (
                    Vec2::new(self.bar_size.x, 1),
                    Vec2::new(
                        usize_sat_sub(size.x, usize_sat_add(self.bar_size.x, 1)),
                        usize_sat_sub(size.y, 2),
                    ),
                )
            },
            Placement::VerticalRight => {
                (
                    Vec2::new(1, 1),
                    Vec2::new(
                        usize_sat_sub(size.x, usize_sat_add(self.bar_size.x, 1)),
                        usize_sat_sub(size.y, 2),
                    ),
                )
            },
        }
    }

    /// The four corner positions of the panel's frame, in the order
    /// top-left, top-right, bottom-left, bottom-right of the frame that
    /// encloses the content region; their placement depends on which
    /// edge the bar occupies.
    pub fn frame_corners(&self, size: Vec2) -> (r: (Vec2, Vec2, Vec2, Vec2))
        ensures
            r == (match self.placement() {
                Placement::HorizontalTop => (
                    Vec2 { x: 0, y: sat_sub(self.bar_size_cache().y, 1) },
                    Vec2 { x: sat_sub(size.x, 1), y: sat_sub(self.bar_size_cache().y, 1) },
                    Vec2 { x: 0, y: sat_sub(size.y, 1) },
                    Vec2 { x: sat_sub(size.x, 1), y: sat_sub(size.y, 1) },
                ),
                Placement::HorizontalBottom => (
                    Vec2 { x: 0, y: 0 },
                    Vec2 { x: sat_sub(size.x, 1), y: 0 },
                    Vec2 {
                        x: 0,
                        y: if sat_sub(size.y, self.bar_size_cache().y) <= sat_sub(size.y, 1) {
                            sat_sub(size.y, self.bar_size_cache().y)
                        } else {
                            sat_sub(size.y, 1)
                        },
                    },
                    Vec2 {
                        x: sat_sub(size.x, 1),
                        y: if sat_sub(size.y, self.bar_size_cache().y) <= sat_sub(size.y, 1) {
                            sat_sub(size.y, self.bar_size_cache().y)
                        } else {
                            sat_sub(size.y, 1)
                        },
                    },
                ),
                Placement::VerticalLeft => (
                    Vec2 { x: sat_sub(self.bar_size_cache().x, 1), y: 0 },
                    Vec2 { x: sat_sub(size.x, 1), y: 0 },
                    Vec2 { x: sat_sub(self.bar_size_cache().x, 1), y: sat_sub(size.y, 1) },
                    Vec2 { x: sat_sub(size.x, 1), y: sat_sub(size.y, 1) },
                ),
                Placement::VerticalRight => (
                    Vec2 { x: 0, y: 0 },
                    Vec2 {
                        x: if sat_sub(size.x, self.bar_size_cache().x) <= sat_sub(size.x, 1) {
                            sat_sub(size.x, self.bar_size_cache().x)
                        } else {
                            sat_sub(size.x, 1)
                        },
                        y: 0,
                    },
                    Vec2 { x: 0, y: sat_sub(size.y, 1) },
                    Vec2 {
                        x: if sat_sub(size.x, self.bar_size_cache().x) <= sat_sub(size.x, 1) {
                            sat_sub(size.x, self.bar_size_cache().x)
                        } else {
                            sat_sub(size.x, 1)
                        },
                        y: sat_sub(size.y, 1),
                    },
                ),
            }),
    {
        match self.bar_placement {
            Placement::HorizontalTop => {
                let by = usize_sat_sub(self.bar_size.y, 1);
                (
                    Vec2::new(0, by),
                    Vec2::new(usize_sat_sub(size.x, 1), by),
                    Vec2::new(0, usize_sat_sub(size.y, 1)),
                    Vec2::new(usize_sat_sub(size.x, 1), usize_sat_sub(size.y, 1)),
                )
            },
            Placement::HorizontalBottom => {
                let v = usize_sat_sub(size.y, self.bar_size.y);
                let hi = usize_sat_sub(size.y, 1);
                let lowest = if v <= hi {
                    v
                } else {
                    hi
                };
                (
                    Vec2::new(0, 0),
                    Vec2::new(usize_sat_sub(size.x, 1), 0),
                    Vec2::new(0, lowest),
                    Vec2::new(usize_sat_sub(size.x, 1), lowest),
                )
            },
            Placement::VerticalLeft => {
                let bx = usize_sat_sub(self.bar_size.x, 1);
                (
                    Vec2::new(bx, 0),
                    Vec2::new(usize_sat_sub(size.x, 1), 0),
                    Vec2::new(bx, usize_sat_sub(size.y, 1)),
                    Vec2::new(usize_sat_sub(size.x, 1), usize_sat_sub(size.y, 1)),
                )
            },
            Placement::VerticalRight => {
                let v = usize_sat_sub(size.x, self.bar_size.x);
                let hi = usize_sat_sub(size.x, 1);
                let right = if v <= hi {
                    v
                } else {
                    hi
                };
                (
                    Vec2::new(0, 0),
                    Vec2::new(right, 0),
                    Vec2::new(0, usize_sat_sub(size.y, 1)),
                    Vec2::new(right, usize_sat_sub(size.y, 1)),
                )
            },
        }
    }
}

/// The size request the bar makes for a given set of identifiers: its
/// accumulated extent plus two cells for the delimiter glyphs along
/// the placement axis, or a one-by-one placeholder when empty.
pub open spec fn spec_bar_request(keys: Seq<Seq<char>>, placement: Placement) -> Vec2 {
    if keys.len() == 0 {
        Vec2 { x: 1, y: 1 }
    } else {
        let acc = crate::bar::spec_acc(keys, placement, keys.len() as int);
        if crate::bar::spec_horizontal(placement) {
            Vec2 { x: sat_add(acc.x, 2), y: acc.y }
        } else {
            Vec2 { x: acc.x, y: sat_add(acc.y, 2) }
        }
    }
}

/// How the panel composes its own size request out of the bar's
/// request `b` and the content's request `t`: the two are stacked
/// along the placement's perpendicular axis, with room reserved for
/// the frame. Deliberately asymmetric: the horizontal form reserves a
/// single extra row for the closing border, while the vertical form
/// reserves a whole extra band as tall as the content plus two rows,
/// so side-placed bars request generous height.
pub open spec fn spec_panel_compose(placement: Placement, b: Vec2, t: Vec2) -> Vec2 {
    if crate::bar::spec_horizontal(placement) {
        let s1 = Vec2 {
            x: if b.x >= t.x {
                b.x
            } else {
                t.x
            },
            y: sat_add(b.y, t.y),
        };
        let s2 = Vec2 { x: sat_add(t.x, 2), y: 1 };
        Vec2 {
            x: if s1.x >= s2.x {
                s1.x
            } else {
                s2.x
            },
            y: sat_add(s1.y, 1),
        }
    } else {
        let s1 = Vec2 {
            x: sat_add(b.x, t.x),
            y: if b.y >= t.y {
                b.y
            } else {
                t.y
            },
        };
        let s2 = Vec2 { x: 1, y: sat_add(t.y, 2) };
        Vec2 {
            x: if s1.x >= s2.x {
                s1.x
            } else {
                s2.x
            },
            y: sat_add(s1.y, s2.y),
        }
    }
}

/// The keyboard key that, pressed while the bar holds focus, points
/// away from the bar's edge into the content region.
pub open spec fn spec_away_key(p: Placement, evt: Event) -> bool {
    match p {
        Placement::HorizontalTop => evt == Event::Key(Key::Down),
        Placement::HorizontalBottom => evt == Event::Key(Key::Up),
        Placement::VerticalLeft => evt == Event::Key(Key::Right),
        Placement::VerticalRight => evt == Event::Key(Key::Left),
    }
}

/// The keyboard key that, pressed while the content holds focus,
/// points back toward the bar's edge.
pub open spec fn spec_toward_key(p: Placement, evt: Event) -> bool {
    match p {
        Placement::HorizontalTop => evt == Event::Key(Key::Up),
        Placement::HorizontalBottom => evt == Event::Key(Key::Down),
        Placement::VerticalLeft => evt == Event::Key(Key::Left),
        Placement::VerticalRight => evt == Event::Key(Key::Right),
    }
}

/// The arrow key that moves the bar's cursor one button back along
/// the placement axis.
pub open spec fn spec_axis_back_key(p: Placement, evt: Event) -> bool {
    if crate::bar::spec_horizontal(p) {
        evt == Event::Key(Key::Left)
    } else {
        evt == Event::Key(Key::Up)
    }
}

/// The arrow key that moves the bar's cursor one button forward along
/// the placement axis.
pub open spec fn spec_axis_forward_key(p: Placement, evt: Event) -> bool {
    if crate::bar::spec_horizontal(p) {
        evt == Event::Key(Key::Right)
    } else {
        evt == Event::Key(Key::Down)
    }
}

/// The backward arrow's outcome, lifted to the panel: the cursor moves
/// one button back and the key is consumed, except at the first button
/// or with no cursor, where the key is ignored and nothing moves.
pub open spec fn spec_panel_cursor_back(
    pre: Option<usize>,
    post: Option<usize>,
    r: EventResult,
) -> bool {
    match pre {
        Some(i) => if i > 0 {
            post == Some((i - 1) as usize) && r == EventResult::Consumed
        } else {
            post == pre && r == EventResult::Ignored
        },
        None => post == pre && r == EventResult::Ignored,
    }
}

/// The forward arrow's outcome, lifted to the panel; clamped at the
/// last of `len` buttons.
pub open spec fn spec_panel_cursor_forward(
    pre: Option<usize>,
    post: Option<usize>,
    len: nat,
    r: EventResult,
) -> bool {
    match pre {
        Some(i) => if i + 1 < len {
            post == Some((i + 1) as usize) && r == EventResult::Consumed
        } else {
            post == pre && r == EventResult::Ignored
        },
        None => post == pre && r == EventResult::Ignored,
    }
}

/// Whether a pointer grab at `position` lands inside the bar's region,
/// judged from the cached bar extent, for the placements anchored at
/// the origin (top and left).
pub open spec fn spec_grab_in_bar(bar_size: Vec2, offset: Vec2, position: Vec2) -> bool {
    &&& position.x >= offset.x
    &&& position.y >= offset.y
    &&& sat_sub(bar_size.x, 1) >= sat_sub(position.x, offset.x)
    &&& sat_sub(bar_size.y, 1) >= sat_sub(position.y, offset.y)
}

/// Whether a pointer grab at `position` lands inside the content
/// region, judged from the cached content extent, for the placements
/// anchored away from the origin (bottom and right).
pub open spec fn spec_grab_in_content(tab_size: Vec2, offset: Vec2, position: Vec2) -> bool {
    &&& position.x > offset.x
    &&& position.y > offset.y
    &&& tab_size.x >= sat_sub(position.x, offset.x)
    &&& tab_size.y >= sat_sub(position.y, offset.y)
}

impl<V: ChildView> TabPanel<V> {
    /// Hands focus into the content region from direction `d`:
    /// consumed and content-focused when the visible child accepts,
    /// ignored with the focus state untouched when it declines.
    fn focus_content(&mut self, d: Direction) -> (r: EventResult)
        requires
            old(self).wf(),
            old(self).bar_focused(),
        ensures
            final(self).wf(),
            final(self).tab_keys() == old(self).tab_keys(),
            final(self).current_key() == old(self).current_key(),
            final(self).placement() == old(self).placement(),
            final(self).alignment() == old(self).alignment(),
            final(self).cursor_index() == old(self).cursor_index(),
            r == EventResult::Consumed <==> !final(self).bar_focused(),
            r == EventResult::Ignored ==> final(self).bar_focused() == old(self).bar_focused(),
            old(self).current_key() is None ==> r == EventResult::Ignored,
            r == EventResult::Ignored || old(self).bar_focused() || !final(self).bar_focused(),
    {
        match self.tabs.take_focus(d) {
            Ok(_) => {
                self.bar_focused = false;
                EventResult::Consumed
            },
            Err(_) => EventResult::Ignored,
        }
    }

    /// Routes an event while the bar holds focus: the bar sees it
    /// first; when the bar ignores a key pointing away from its edge,
    /// the panel tries to hand focus into the content, consuming the
    /// key on success and leaving everything as it was on failure.
    fn on_event_focused(&mut self, evt: Event) -> (r: EventResult)
        requires
            old(self).wf(),
            old(self).bar_focused(),
        ensures
            final(self).wf(),
            final(self).tab_keys() == old(self).tab_keys(),
            final(self).current_key() == old(self).current_key(),
            final(self).placement() == old(self).placement(),
            final(self).alignment() == old(self).alignment(),
            !final(self).bar_focused() ==> spec_away_key(old(self).placement(), evt) && r
                == EventResult::Consumed,
            !spec_away_key(old(self).placement(), evt) ==> final(self).bar_focused(),
            old(self).current_key() is None ==> final(self).bar_focused(),
            spec_away_key(old(self).placement(), evt)
                ==> (r == EventResult::Consumed <==> !final(self).bar_focused())
                && final(self).cursor_index() == old(self).cursor_index()
                && (old(self).current_key() is None ==> r == EventResult::Ignored),
            evt == Event::Key(Key::Enter)
                ==> final(self).cursor_index() == old(self).cursor_index()
                && (match old(self).cursor_index() {
                Some(_) => r == EventResult::Consumed,
                None => r == EventResult::Ignored,
            }),
            spec_axis_back_key(old(self).placement(), evt) ==> spec_panel_cursor_back(
                old(self).cursor_index(),
                final(self).cursor_index(),
                r,
            ),
            spec_axis_forward_key(old(self).placement(), evt) ==> spec_panel_cursor_forward(
                old(self).cursor_index(),
                final(self).cursor_index(),
                old(self).tab_keys().len(),
                r,
            ),
            match evt {
                Event::Key(_) => true,
                _ => final(self).cursor_index() == old(self).cursor_index() || r
                    == EventResult::Consumed,
            },
    {
        let rel_off = match self.bar_placement {
            Placement::HorizontalTop | Placement::VerticalLeft => Vec2::new(0, 0),
            Placement::HorizontalBottom => Vec2::new(0, usize_sat_add(self.tab_size.y, 1)),
            Placement::VerticalRight => Vec2::new(usize_sat_add(self.tab_size.x, 1), 0),
        };
        match self.bar.on_event(evt.relativized(rel_off)) {
            EventResult::Consumed => EventResult::Consumed,
            EventResult::Ignored => {
                let away = match (self.bar_placement, evt) {
                    (Placement::HorizontalTop, Event::Key(Key::Down)) => true,
                    (Placement::HorizontalBottom, Event::Key(Key::Up)) => true,
                    (Placement::VerticalLeft, Event::Key(Key::Right)) => true,
                    (Placement::VerticalRight, Event::Key(Key::Left)) => true,
                    _ => false,
                };
                if away {
                    let d = match self.bar_placement {
                        Placement::HorizontalTop => Direction::Up,
                        Placement::HorizontalBottom => Direction::Down,
                        Placement::VerticalLeft => Direction::Left,
                        Placement::VerticalRight => Direction::Right,
                    };
                    self.focus_content(d)
                } else {
                    EventResult::Ignored
                }
            },
        }
    }

    /// Routes an event while the content holds focus: the visible
    /// child sees it first; when the child ignores a key pointing back
    /// toward the bar's edge, focus returns to the bar, which always
    /// accepts, and the key is consumed.
    fn on_event_unfocused(&mut self, evt: Event) -> (r: EventResult)
        requires
            old(self).wf(),
            !old(self).bar_focused(),
        ensures
            final(self).wf(),
            final(self).tab_keys() == old(self).tab_keys(),
            final(self).current_key() == old(self).current_key(),
            final(self).placement() == old(self).placement(),
            final(self).alignment() == old(self).alignment(),
            final(self).bar_focused() ==> spec_toward_key(old(self).placement(), evt) && r
                == EventResult::Consumed,
            !spec_toward_key(old(self).placement(), evt) ==> !final(self).bar_focused(),
            final(self).cursor_index() == old(self).cursor_index(),
            spec_toward_key(old(self).placement(), evt) ==> r == EventResult::Consumed,
    {
        let rel_off = match self.bar_placement {
            Placement::HorizontalTop => Vec2::new(1, self.bar_size.y),
            Placement::VerticalLeft => Vec2::new(self.bar_size.x, 1),
            Placement::HorizontalBottom | Placement::VerticalRight => Vec2::new(1, 1),
        };
        match self.tabs.on_event(evt.relativized(rel_off)) {
            EventResult::Consumed => EventResult::Consumed,
            EventResult::Ignored => {
                let toward = match (self.bar_placement, evt) {
                    (Placement::HorizontalTop, Event::Key(Key::Up)) => true,
                    (Placement::HorizontalBottom, Event::Key(Key::Down)) => true,
                    (Placement::VerticalLeft, Event::Key(Key::Left)) => true,
                    (Placement::VerticalRight, Event::Key(Key::Right)) => true,
                    _ => false,
                };
                if toward {
                    self.bar_focused = true;
                    EventResult::Consumed
                } else {
                    EventResult::Ignored
                }
            },
        }
    }

    /// Classifies a pointer event that claims focus: one landing in the
    /// bar's region focuses the bar, one landing in the content region
    /// hands focus to the visible child if it accepts; everything else
    /// leaves the focus state alone.
    fn check_focus_grab(&mut self, evt: Event) -> (r: EventResult)
        requires
            old(self).wf(),
        ensures
            final(self).wf(),
            final(self).tab_keys() == old(self).tab_keys(),
            final(self).current_key() == old(self).current_key(),
            final(self).placement() == old(self).placement(),
            final(self).alignment() == old(self).alignment(),
            final(self).cursor_index() == old(self).cursor_index(),
            final(self).active_index() == old(self).active_index(),
            r == EventResult::Consumed ==> !final(self).bar_focused(),
            match evt {
                Event::Mouse { offset, position, event } => {
                    &&& !event.spec_grabs_focus() ==> r == EventResult::Ignored
                        && final(self).bar_focused() == old(self).bar_focused()
                    &&& event.spec_grabs_focus() ==> match old(self).placement() {
                        Placement::HorizontalTop | Placement::VerticalLeft => spec_grab_in_bar(
                            old(self).bar_size_cache(),
                            offset,
                            position,
                        ) ==> final(self).bar_focused() && r == EventResult::Ignored,
                        Placement::HorizontalBottom | Placement::VerticalRight => {
                            !spec_grab_in_content(old(self).tab_size_cache(), offset, position)
                                ==> final(self).bar_focused() && r == EventResult::Ignored
                        },
                    }
                },
                _ => r == EventResult::Ignored && final(self).bar_focused() == old(
                    self,
                ).bar_focused(),
            },
    {
        match evt {
            Event::Mouse { offset, position, event } => {
                if !event.grabs_focus() {
                    return EventResult::Ignored;
                }
                match self.bar_placement {
                    Placement::VerticalRight | Placement::HorizontalBottom => {
                        let in_content = position.strictly_gt(offset) && self.tab_size.fits(
                            position.saturating_sub(offset),
                        );
                        if in_content {
                            match self.tabs.take_focus(Direction::Neutral) {
                                Ok(_) => {
                                    self.bar_focused = false;
                                    return EventResult::Consumed;
                                },
                                Err(_) => {},
                            }
                        } else {
                            self.bar_focused = true;
                        }
                    },
                    Placement::HorizontalTop | Placement::VerticalLeft => {
                        let in_bar = position.fits(offset) && self.bar_size.saturating_sub(
                            Vec2::new(1, 1),
                        ).fits(position.saturating_sub(offset));
                        if in_bar {
                            self.bar_focused = true;
                        } else {
                            match self.tabs.take_focus(Direction::Neutral) {
                                Ok(_) => {
                                    self.bar_focused = false;
                                    return EventResult::Consumed;
                                },
                                Err(_) => {},
                            }
                        }
                    },
                }
                EventResult::Ignored
            },
            _ => EventResult::Ignored,
        }
    }

    /// Routes an incoming event: a focus-grabbing pointer event may
    /// first move focus between the regions, then the event goes to
    /// whichever region holds focus. At every moment exactly one of the
    /// two regions holds focus, and a keyboard event moves focus only
    /// along the keys that point across the bar edge, consuming the
    /// key whenever it does.
    pub fn on_event(&mut self, evt: Event) -> (r: EventResult)
        requires
            old(self).wf(),
        ensures
            final(self).wf(),
            final(self).tab_keys() == old(self).tab_keys(),
            final(self).current_key() == old(self).current_key(),
            final(self).placement() == old(self).placement(),
            final(self).alignment() == old(self).alignment(),
            match evt {
                Event::Key(_) => {
                    &&& old(self).bar_focused() ==> final(self).bar_focused() || (spec_away_key(
                        old(self).placement(),
                        evt,
                    ) && r == EventResult::Consumed)
                    &&& !old(self).bar_focused() ==> !final(self).bar_focused() || (
                    spec_toward_key(old(self).placement(), evt) && r == EventResult::Consumed)
                },
                _ => true,
            },
            old(self).bar_focused() && spec_away_key(old(self).placement(), evt)
                ==> (r == EventResult::Consumed <==> !final(self).bar_focused())
                && (old(self).current_key() is None ==> r == EventResult::Ignored
                && final(self).bar_focused()),
            !old(self).bar_focused() && spec_toward_key(old(self).placement(), evt)
                ==> r == EventResult::Consumed,
            old(self).bar_focused() && evt == Event::Key(Key::Enter)
                ==> final(self).bar_focused()
                && final(self).cursor_index() == old(self).cursor_index()
                && (match old(self).cursor_index() {
                Some(_) => r == EventResult::Consumed,
                None => r == EventResult::Ignored,
            }),
            old(self).bar_focused() && spec_axis_back_key(old(self).placement(), evt)
                ==> final(self).bar_focused() && spec_panel_cursor_back(
                old(self).cursor_index(),
                final(self).cursor_index(),
                r,
            ),
            old(self).bar_focused() && spec_axis_forward_key(old(self).placement(), evt)
                ==> final(self).bar_focused() && spec_panel_cursor_forward(
                old(self).cursor_index(),
                final(self).cursor_index(),
                old(self).tab_keys().len(),
                r,
            ),
            match evt {
                Event::Mouse { offset, position, event } => event.spec_grabs_focus()
                    ==> match old(self).placement() {
                    Placement::HorizontalTop | Placement::VerticalLeft => spec_grab_in_bar(
                        old(self).bar_size_cache(),
                        offset,
                        position,
                    ) ==> final(self).bar_focused(),
                    Placement::HorizontalBottom | Placement::VerticalRight => {
                        !spec_grab_in_content(old(self).tab_size_cache(), offset, position)
                            ==> final(self).bar_focused()
                    },
                },
                _ => true,
            },
    {
        let grab = self.check_focus_grab(evt);
        let routed = if self.bar_focused {
            self.on_event_focused(evt)
        } else {
            self.on_event_unfocused(evt)
        };
        grab.and(routed)
    }

    /// Hands keyboard focus to the panel from direction `d`. A request
    /// through the bar edge always lands on the bar. One through the
    /// content edge lands on the visible child, or fails with
    /// `CannotFocus` — focus then falls back to the bar. A
    /// perpendicular request stays with whichever region holds focus,
    /// except that a content region with nothing to focus hands back to
    /// the bar with the request ignored. A neutral request is accepted
    /// without moving focus.
    pub fn take_focus(&mut self, d: Direction) -> (r: Result<EventResult, CannotFocus>)
        requires
            old(self).wf(),
        ensures
            final(self).wf(),
            final(self).tab_keys() == old(self).tab_keys(),
            final(self).current_key() == old(self).current_key(),
            final(self).placement() == old(self).placement(),
            final(self).alignment() == old(self).alignment(),
            spec_toward_bar(old(self).placement(), d) ==> final(self).bar_focused() && (match r {
                Ok(e) => e == EventResult::Consumed,
                Err(_) => false,
            }),
            spec_toward_content(old(self).placement(), d) ==> (match r {
                Ok(e) => e == EventResult::Consumed && !final(self).bar_focused(),
                Err(_) => final(self).bar_focused(),
            }) && (old(self).current_key() is None ==> r is Err),
            spec_perpendicular(old(self).placement(), d) && old(self).bar_focused()
                ==> final(self).bar_focused() && (match r {
                Ok(e) => e == EventResult::Consumed,
                Err(_) => false,
            }),
            spec_perpendicular(old(self).placement(), d) && !old(self).bar_focused() ==> (match r {
                Ok(e) => (e == EventResult::Consumed && !final(self).bar_focused()) || (e
                    == EventResult::Ignored && final(self).bar_focused()),
                Err(_) => false,
            }),
            d == Direction::Neutral ==> final(self).bar_focused() == old(self).bar_focused() && (
            match r {
                Ok(e) => e == EventResult::Consumed,
                Err(_) => false,
            }),
    {
        let toward_bar = match (self.bar_placement, d) {
            (Placement::HorizontalTop, Direction::Up) => true,
            (Placement::HorizontalBottom, Direction::Down) => true,
            (Placement::VerticalLeft, Direction::Left) => true,
            (Placement::VerticalRight, Direction::Right) => true,
            _ => false,
        };
        let toward_content = match (self.bar_placement, d) {
            (Placement::HorizontalTop, Direction::Down) => true,
            (Placement::HorizontalBottom, Direction::Up) => true,
            (Placement::VerticalLeft, Direction::Right) => true,
            (Placement::VerticalRight, Direction::Left) => true,
            _ => false,
        };
        if toward_bar {
            self.bar_focused = true;
            Ok(EventResult::Consumed)
        } else if toward_content {
            match self.tabs.take_focus(d) {
                Ok(_) => {
                    self.bar_focused = false;
                    Ok(EventResult::Consumed)
                },
                Err(_) => {
                    self.bar_focused = true;
                    Err(CannotFocus)
                },
            }
        } else {
            let neutral = match d {
                Direction::Neutral => true,
                _ => false,
            };
            if neutral {
                Ok(EventResult::Consumed)
            } else if self.bar_focused {
                Ok(EventResult::Consumed)
            } else {
                match self.tabs.take_focus(d) {
                    Ok(_) => Ok(EventResult::Consumed),
                    Err(_) => {
                        self.bar_focused = true;
                        Ok(EventResult::Ignored)
                    },
                }
            }
        }
    }

    /// One measure pass of the whole panel: the container and the bar
    /// each run their own pass — draining their queues in the course of
    /// it — and the results are stacked with one extra row or column
    /// for the shared border.
    pub fn required_size(&mut self, cst: Vec2) -> (r: Vec2)
        requires
            old(self).wf(),
        ensures
            final(self).wf(),
            final(self).tab_keys() =~= old(self).tab_keys(),
            final(self).placement() == old(self).placement(),
            final(self).alignment() == old(self).alignment(),
            final(self).bar_focused() == old(self).bar_focused(),
            final(self).current_key() is None ==> old(self).current_key() is None,
            final(self).bar_size_cache() == spec_bar_request(
                old(self).tab_keys(),
                old(self).placement(),
            ),
            exists|t: Vec2|
                r == spec_panel_compose(
                    old(self).placement(),
                    spec_bar_request(old(self).tab_keys(), old(self).placement()),
                    t,
                ),
    {
        let t = self.tabs.required_size(cst);
        let b = self.bar.required_size(cst);
        self.bar_size = b;
        let out = match self.bar_placement {
            Placement::HorizontalTop | Placement::HorizontalBottom => {
                b.stack_vertical(t).stack_vertical(Vec2::new(usize_sat_add(t.x, 2), 1))
            },
            Placement::VerticalLeft | Placement::VerticalRight => {
                b.stack_horizontal(t).stack_vertical(Vec2::new(1, usize_sat_add(t.y, 2)))
            },
        };
        proof {
            assert(b == spec_bar_request(old(self).tab_keys(), old(self).placement()));
            assert(out == spec_panel_compose(old(self).placement(), b, t));
        }
        out
    }

    /// One layout pass: the bar is granted its measured extent along
    /// the placement axis, the content the remainder, with the border
    /// cells taken out of both.
    pub fn layout(&mut self, vec: Vec2)
        requires
            old(self).wf(),
        ensures
            final(self).wf(),
            final(self).tab_keys() =~= old(self).tab_keys(),
            final(self).current_key() == old(self).current_key(),
            final(self).placement() == old(self).placement(),
            final(self).alignment() == old(self).alignment(),
            final(self).bar_focused() == old(self).bar_focused(),
            final(self).bar_rendered_size() == (match old(self).placement() {
                Placement::VerticalRight | Placement::VerticalLeft => Vec2 {
                    x: old(self).bar_size_cache().x,
                    y: sat_sub(vec.y, 2),
                },
                Placement::HorizontalBottom | Placement::HorizontalTop => Vec2 {
                    x: sat_sub(vec.x, 2),
                    y: old(self).bar_size_cache().y,
                },
            }),
            final(self).tab_size_cache() == (match old(self).placement() {
                Placement::VerticalRight | Placement::VerticalLeft => Vec2 {
                    x: sat_sub(vec.x, sat_add(old(self).bar_size_cache().x, 1)),
                    y: sat_sub(vec.y, 2),
                },
                Placement::HorizontalBottom | Placement::HorizontalTop => Vec2 {
                    x: sat_sub(vec.x, 2),
                    y: sat_sub(vec.y, sat_add(old(self).bar_size_cache().y, 1)),
                },
            }),
            !final(self).bar_dirty(),
            !final(self).content_dirty(),
    {
        let bar_grant = match self.bar_placement {
            Placement::VerticalRight | Placement::VerticalLeft => Vec2::new(
                self.bar_size.x,
                usize_sat_sub(vec.y, 2),
            ),
            Placement::HorizontalBottom | Placement::HorizontalTop => Vec2::new(
                usize_sat_sub(vec.x, 2),
                self.bar_size.y,
            ),
        };
        self.bar.layout(bar_grant);
        let ts = match self.bar_placement {
            Placement::VerticalRight | Placement::VerticalLeft => Vec2::new(
                usize_sat_sub(vec.x, usize_sat_add(self.bar_size.x, 1)),
                usize_sat_sub(vec.y, 2),
            ),
            Placement::HorizontalBottom | Placement::HorizontalTop => Vec2::new(
                usize_sat_sub(vec.x, 2),
                usize_sat_sub(vec.y, usize_sat_add(self.bar_size.y, 1)),
            ),
        };
        self.tab_size = ts;
        self.tabs.layout(ts);
    }

    /// Whether either half wants a fresh layout pass: always true when
    /// the bar or the container has pending changes; the visible child
    /// may ask for one besides.
    pub fn needs_relayout(&self) -> (r: bool)
        requires
            self.wf(),
        ensures
            self.bar_dirty() || self.content_dirty() ==> r,
    {
        self.bar.needs_relayout() || self.tabs.needs_relayout()
    }

    /// The visible child view, if a tab is visible: the view that was
    /// added under the visible identifier.
    pub fn active_view(&self) -> (r: Option<&V>)
        requires
            self.wf(),
        ensures
            r is Some <==> self.current_key() is Some,
            match r {
                Some(v) => match self.current_key() {
                    Some(k) => *v == self.tab_views()[crate::idx_of(self.tab_keys(), k)],
                    None => false,
                },
                None => true,
            },
    {
        self.tabs.active_view()
    }

    /// Borrows every hosted view, in visual order.
    pub fn views(&self) -> (r: Vec<&V>)
        ensures
            r@.len() == self.tab_keys().len(),
    {
        self.tabs.views()
    }

    /// How many tabs the panel holds.
    pub fn view_count(&self) -> (r: usize)
        ensures
            r == self.tab_keys().len(),
    {
        self.tabs.view_count()
    }

    /// The view at position `i` of the order, mutably; identifiers,
    /// visible identifier and focus state stay as they are.
    pub fn view_at_mut(&mut self, i: usize) -> (r: &mut V)
        requires
            i < old(self).tab_keys().len(),
        ensures
            final(self).tab_keys() =~= old(self).tab_keys(),
            final(self).bar_keys() == old(self).bar_keys(),
            final(self).current_key() == old(self).current_key(),
            final(self).bar_focused() == old(self).bar_focused(),
    {
        self.tabs.view_at_mut(i)
    }

    /// Read access to the bar half, for rendering.
    pub fn bar_ref(&self) -> (r: &TabBar)
        requires
            self.wf(),
        ensures
            r.keys() == self.bar_keys(),
            r.cursor_index() == self.cursor_index(),
            r.active_index() == self.active_index(),
            r.placement() == self.placement(),
            r.alignment() == self.alignment(),
            r.sizes_seq() == self.bar_sizes(),
            r.pos_seq() == self.bar_positions(),
            r.bar_extent() == self.bar_total_extent(),
            r.rendered_size() == self.bar_rendered_size(),
            r.wf(),
    {
        &self.bar
    }

    /// Which edge the bar occupies.
    pub fn get_placement(&self) -> (r: Placement)
        ensures
            r == self.placement(),
    {
        self.bar_placement
    }

    /// How the bar is aligned along its edge.
    pub fn get_alignment(&self) -> (r: Align)
        ensures
            r == self.alignment(),
    {
        self.bar_align
    }

    /// Whether the bar region holds keyboard focus; the content region
    /// holds it otherwise.
    pub fn is_bar_focused(&self) -> (r: bool)
        ensures
            r == self.bar_focused(),
    {
        self.bar_focused
    }

    /// The visible child view, mutably, if a tab is visible.
    pub fn active_view_mut(&mut self) -> (r: Option<&mut V>)
        requires
            old(self).wf(),
        ensures
            final(self).tab_keys() =~= old(self).tab_keys(),
            final(self).current_key() == old(self).current_key(),
            r is Some <==> old(self).current_key() is Some,
    {
        self.tabs.active_view_mut()
    }
}

} // verus!
