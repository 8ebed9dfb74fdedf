use vstd::prelude::*;
use vstd::string::StringExecFns;

use crate::distinct_keys;
use crate::geom::Vec2;

verus! {

/// A condition a page tab can report alongside its label. Several can
/// hold at once, each backed by any number of reasons.
#[derive(Clone, Copy, PartialEq, Eq, Structural, Hash, Debug)]
pub enum TabStatus {
    Success,
    Error,
    Warn,
    Loading,
    Info,
}

/// The one-glyph marks of the five conditions, joined in a fixed
/// order for every condition that currently has at least one reason.
pub open spec fn spec_icon_of(
    has_success: bool,
    has_error: bool,
    has_warn: bool,
    has_loading: bool,
    has_info: bool,
) -> Seq<char> {
    (if has_success {
        "\u{2713}"@
    } else {
        Seq::<char>::empty()
    }) + (if has_error {
        "X"@
    } else {
        Seq::<char>::empty()
    }) + (if has_warn {
        "\u{26a0}"@
    } else {
        Seq::<char>::empty()
    }) + (if has_loading {
        "~"@
    } else {
        Seq::<char>::empty()
    }) + (if has_info {
        "i"@
    } else {
        Seq::<char>::empty()
    })
}

/// The character sequences of a sequence of strings.
pub open spec fn str_views(v: Seq<String>) -> Seq<Seq<char>> {
    v.map_values(|s: String| s@)
}

/// Appends `reason` unless an equal one is already held; says whether
/// anything changed. Distinctness is preserved.
#[verifier::loop_isolation(false)]
fn add_reason(v: &mut Vec<String>, reason: String) -> (changed: bool)
    requires
        distinct_keys(str_views(old(v)@)),
    ensures
        distinct_keys(str_views(final(v)@)),
        changed == !str_views(old(v)@).contains(reason@),
        changed ==> str_views(final(v)@) =~= str_views(old(v)@).push(reason@),
        !changed ==> final(v)@ == old(v)@,
{
    let n = v.len();
    let mut i: usize = 0;
    while i < n
        invariant
            n == v@.len(),
            i <= n,
            *v == *old(v),
            forall|j: int| 0 <= j < i ==> str_views(v@)[j] != reason@,
        decreases n - i,
    {
        if v[i] == reason {
            proof {
                assert(str_views(v@)[i as int] == reason@);
                assert(str_views(v@).contains(reason@));
            }
            return false;
        }
        i += 1;
    }
    proof {
        assert(forall|j: int| 0 <= j < str_views(v@).len() ==> str_views(v@)[j] != reason@);
        assert(!str_views(v@).contains(reason@));
    }
    let ghost vs0 = str_views(v@);
    v.push(reason);
    proof {
        let vs1 = str_views(v@);
        assert(vs1 =~= vs0.push(reason@));
        assert forall|a: int, b: int| 0 <= a < b < vs1.len() implies vs1[a] != vs1[b] by {
            if b == vs0.len() {
                if vs0[a] == reason@ {
                    assert(vs0.contains(reason@));
                }
            }
        }
        assert(distinct_keys(vs1));
    }
    true
}

/// Removes the first reason equal to `reason`, if any; says whether
/// anything changed. Distinctness is preserved.
#[verifier::loop_isolation(false)]
fn del_reason(v: &mut Vec<String>, reason: &str) -> (changed: bool)
    requires
        distinct_keys(str_views(old(v)@)),
    ensures
        distinct_keys(str_views(final(v)@)),
        changed == str_views(old(v)@).contains(reason@),
        changed ==> str_views(final(v)@) =~= str_views(old(v)@).remove(
            crate::idx_of(str_views(old(v)@), reason@),
        ),
        !changed ==> final(v)@ == old(v)@,
{
    let reason_s: String = reason.to_owned();
    let n = v.len();
    let mut i: usize = 0;
    while i < n
        invariant
            n == v@.len(),
            i <= n,
            *v == *old(v),
            reason_s@ == reason@,
            forall|j: int| 0 <= j < i ==> str_views(v@)[j] != reason@,
        decreases n - i,
    {
        if v[i] == reason_s {
            proof {
                assert(str_views(v@)[i as int] == reason@);
                assert(str_views(v@).contains(reason@));
                assert(crate::idx_of(str_views(v@), reason@) == i as int) by {
                    let w = crate::idx_of(str_views(v@), reason@);
                    assert(0 <= w < str_views(v@).len() && str_views(v@)[w] == reason@);
                }
            }
            let ghost vs0 = str_views(v@);
            v.remove(i);
            proof {
                let vs1 = str_views(v@);
                assert(vs1 =~= vs0.remove(i as int));
                assert forall|a: int, b: int| 0 <= a < b < vs1.len() implies vs1[a] != vs1[b] by {
                    let oa = if a < i as int {
                        a
                    } else {
                        a + 1
                    };
                    let ob = if b < i as int {
                        b
                    } else {
                        b + 1
                    };
                    assert(vs1[a] == vs0[oa]);
                    assert(vs1[b] == vs0[ob]);
                }
                assert(distinct_keys(vs1));
            }
            return true;
        }
        i += 1;
    }
    proof {
        assert(forall|j: int| 0 <= j < str_views(v@).len() ==> str_views(v@)[j] != reason@);
        assert(!str_views(v@).contains(reason@));
    }
    false
}

/// The identity and condition state of one page tab: a stable
/// identifier, a set of reasons for each condition, a derived icon
/// string, and the rendered bounds used for pointer hit tests. How the
/// label and icon are painted is the embedding's business; this type
/// carries the state and the rules.
///
/// Invariant ([`PageTab::wf`]): the reasons of each condition are
/// distinct, and the icon always equals the glyphs of the conditions
/// that have reasons, in the fixed order of [`spec_icon_of`].
pub struct PageTab {
    id: String,
    success: Vec<String>,
    error: Vec<String>,
    warn: Vec<String>,
    loading: Vec<String>,
    info: Vec<String>,
    icon: String,
    start_pos: Vec2,
    end_pos: Vec2,
}

impl PageTab {
    /// The tab's identifier.
    pub closed spec fn id_spec(self) -> Seq<char> {
        self.id@
    }

    /// The reasons currently backing `status`, in insertion order.
    pub closed spec fn reasons(self, status: TabStatus) -> Seq<Seq<char>> {
        match status {
            TabStatus::Success => str_views(self.success@),
            TabStatus::Error => str_views(self.error@),
            TabStatus::Warn => str_views(self.warn@),
            TabStatus::Loading => str_views(self.loading@),
            TabStatus::Info => str_views(self.info@),
        }
    }

    /// The icon the tab currently shows.
    pub closed spec fn icon_spec(self) -> Seq<char> {
        self.icon@
    }

    pub closed spec fn start_pos_spec(self) -> Vec2 {
        self.start_pos
    }

    pub closed spec fn end_pos_spec(self) -> Vec2 {
        self.end_pos
    }

    /// The icon the current condition state calls for.
    pub open spec fn expected_icon(self) -> Seq<char> {
        spec_icon_of(
            self.reasons(TabStatus::Success).len() > 0,
            self.reasons(TabStatus::Error).len() > 0,
            self.reasons(TabStatus::Warn).len() > 0,
            self.reasons(TabStatus::Loading).len() > 0,
            self.reasons(TabStatus::Info).len() > 0,
        )
    }

    /// The tab's invariant.
    pub open spec fn wf(self) -> bool {
        &&& distinct_keys(self.reasons(TabStatus::Success))
        &&& distinct_keys(self.reasons(TabStatus::Error))
        &&& distinct_keys(self.reasons(TabStatus::Warn))
        &&& distinct_keys(self.reasons(TabStatus::Loading))
        &&& distinct_keys(self.reasons(TabStatus::Info))
        &&& self.icon_spec() == self.expected_icon()
    }

    /// A fresh tab with no conditions and an empty icon.
    pub fn new(id: String) -> (r: PageTab)
        ensures
            r.wf(),
            r.id_spec() == id@,
            forall|st: TabStatus| r.reasons(st) =~= Seq::<Seq<char>>::empty(),
            r.icon_spec() =~= Seq::<char>::empty(),
    {
        let r = PageTab {
            id,
            success: Vec::new(),
            error: Vec::new(),
            warn: Vec::new(),
            loading: Vec::new(),
            info: Vec::new(),
            icon: String::new(),
            start_pos: Vec2::new(0, 0),
            end_pos: Vec2::new(0, 0),
        };
        proof {
            assert forall|st: TabStatus| r.reasons(st) =~= Seq::<Seq<char>>::empty() by {
                match st {
                    TabStatus::Success => {},
                    TabStatus::Error => {},
                    TabStatus::Warn => {},
                    TabStatus::Loading => {},
                    TabStatus::Info => {},
                }
            }
            assert(r.icon_spec() =~= r.expected_icon());
        }
        r
    }

    /// The tab's identifier.
    pub fn get_id(&self) -> (r: &str)
        ensures
            r@ == self.id_spec(),
    {
        self.id.as_str()
    }

    /// The icon to paint beside the label.
    pub fn icon(&self) -> (r: &str)
        ensures
            r@ == self.icon_spec(),
    {
        self.icon.as_str()
    }

    /// Records the rendered bounds for later pointer hit tests.
    pub fn set_pos(&mut self, start_pos: Vec2, end_pos: Vec2)
        ensures
            final(self).start_pos_spec() == start_pos,
            final(self).end_pos_spec() == end_pos,
            final(self).id_spec() == old(self).id_spec(),
            final(self).icon_spec() == old(self).icon_spec(),
            forall|st: TabStatus| final(self).reasons(st) == old(self).reasons(st),
            old(self).wf() ==> final(self).wf(),
    {
        self.start_pos = start_pos;
        self.end_pos = end_pos;
        proof {
            assert forall|st: TabStatus| self.reasons(st) == old(self).reasons(st) by {
                match st {
                    TabStatus::Success => {},
                    TabStatus::Error => {},
                    TabStatus::Warn => {},
                    TabStatus::Loading => {},
                    TabStatus::Info => {},
                }
            }
        }
    }

    /// Rebuilds the icon from the current condition state.
    fn update_icon(&mut self)
        ensures
            final(self).id_spec() == old(self).id_spec(),
            final(self).start_pos_spec() == old(self).start_pos_spec(),
            final(self).end_pos_spec() == old(self).end_pos_spec(),
            forall|st: TabStatus| final(self).reasons(st) == old(self).reasons(st),
            final(self).icon_spec() == final(self).expected_icon(),
    {
        let mut icon = String::new();
        if self.success.len() > 0 {
            icon.append("\u{2713}");
        }
        if self.error.len() > 0 {
            icon.append("X");
        }
        if self.warn.len() > 0 {
            icon.append("\u{26a0}");
        }
        if self.loading.len() > 0 {
            icon.append("~");
        }
        if self.info.len() > 0 {
            icon.append("i");
        }
        self.icon = icon;
        proof {
            assert forall|st: TabStatus| self.reasons(st) == old(self).reasons(st) by {
                match st {
                    TabStatus::Success => {},
                    TabStatus::Error => {},
                    TabStatus::Warn => {},
                    TabStatus::Loading => {},
                    TabStatus::Info => {},
                }
            }
            assert(self.icon_spec() =~= self.expected_icon());
        }
    }

    /// Adds `reason` to the reasons for `status`; the other conditions
    /// are untouched, and nothing changes when that reason is already
    /// recorded. The icon follows the new state.
    pub fn add_status(&mut self, status: TabStatus, reason: String)
        requires
            old(self).wf(),
        ensures
            final(self).wf(),
            final(self).id_spec() == old(self).id_spec(),
            final(self).start_pos_spec() == old(self).start_pos_spec(),
            final(self).end_pos_spec() == old(self).end_pos_spec(),
            forall|st: TabStatus| st != status ==> final(self).reasons(st) == old(self).reasons(
                st,
            ),
            old(self).reasons(status).contains(reason@) ==> final(self).reasons(status) == old(
                self,
            ).reasons(status),
            !old(self).reasons(status).contains(reason@) ==> final(self).reasons(status) =~= old(
                self,
            ).reasons(status).push(reason@),
    {
        let changed = match status {
            TabStatus::Success => add_reason(&mut self.success, reason),
            TabStatus::Error => add_reason(&mut self.error, reason),
            TabStatus::Warn => add_reason(&mut self.warn, reason),
            TabStatus::Loading => add_reason(&mut self.loading, reason),
            TabStatus::Info => add_reason(&mut self.info, reason),
        };
        if changed {
            self.update_icon();
        }
        proof {
            assert forall|st: TabStatus| st != status implies self.reasons(st) == old(
                self,
            ).reasons(st) by {
                match st {
                    TabStatus::Success => {},
                    TabStatus::Error => {},
                    TabStatus::Warn => {},
                    TabStatus::Loading => {},
                    TabStatus::Info => {},
                }
            }
            if !changed {
                assert(self.icon_spec() == self.expected_icon());
            }
        }
    }

    /// Removes `reason` from the reasons for `status`; the other
    /// conditions are untouched, and nothing changes when that reason
    /// was not recorded. The icon follows the new state.
    pub fn del_status(&mut self, status: TabStatus, reason: String)
        requires
            old(self).wf(),
        ensures
            final(self).wf(),
            final(self).id_spec() == old(self).id_spec(),
            final(self).start_pos_spec() == old(self).start_pos_spec(),
            final(self).end_pos_spec() == old(self).end_pos_spec(),
            forall|st: TabStatus| st != status ==> final(self).reasons(st) == old(self).reasons(
                st,
            ),
            !old(self).reasons(status).contains(reason@) ==> final(self).reasons(status) == old(
                self,
            ).reasons(status),
            old(self).reasons(status).contains(reason@) ==> final(self).reasons(status) =~= old(
                self,
            ).reasons(status).remove(crate::idx_of(old(self).reasons(status), reason@)),
    {
        let changed = match status {
            TabStatus::Success => del_reason(&mut self.success, reason.as_str()),
            TabStatus::Error => del_reason(&mut self.error, reason.as_str()),
            TabStatus::Warn => del_reason(&mut self.warn, reason.as_str()),
            TabStatus::Loading => del_reason(&mut self.loading, reason.as_str()),
            TabStatus::Info => del_reason(&mut self.info, reason.as_str()),
        };
        if changed {
            self.update_icon();
        }
        proof {
            assert forall|st: TabStatus| st != status implies self.reasons(st) == old(
                self,
            ).reasons(st) by {
                match st {
                    TabStatus::Success => {},
                    TabStatus::Error => {},
                    TabStatus::Warn => {},
                    TabStatus::Loading => {},
                    TabStatus::Info => {},
                }
            }
            if !changed {
                assert(self.icon_spec() == self.expected_icon());
            }
        }
    }

    /// Whether a pointer at `position` falls within the recorded
    /// bounds: on the tab row and between the recorded columns.
    pub fn check_position(&self, position: Vec2) -> (r: bool)
        ensures
            r == (position.y <= 1 && self.start_pos_spec().x <= position.x && position.x
                <= self.end_pos_spec().x),
    {
        if position.y > 1 {
            return false;
        }
        self.start_pos.x <= position.x && position.x <= self.end_pos.x
    }
}

} // verus!
