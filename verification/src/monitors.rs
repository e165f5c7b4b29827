//! Monitors offered for capture and the order they are listed in.
use vstd::prelude::*;

verus! {

/// A monitor offered for capture, with a base64 JPEG thumbnail (empty when the
/// capture failed).
#[derive(Debug)]
pub struct MonitorInfo {
    pub name: String,
    pub x: i32,
    pub y: i32,
    pub width: u32,
    pub height: u32,
    pub thumbnail: String,
}

/// Mathematical form of a [`MonitorInfo`].
pub struct MonitorInfoView {
    pub name: Seq<char>,
    pub x: i32,
    pub y: i32,
    pub width: u32,
    pub height: u32,
    pub thumbnail: Seq<char>,
}

impl View for MonitorInfo {
    type V = MonitorInfoView;

    open spec fn view(&self) -> MonitorInfoView {
        MonitorInfoView {
            name: self.name@,
            x: self.x,
            y: self.y,
            width: self.width,
            height: self.height,
            thumbnail: self.thumbnail@,
        }
    }
}

impl DeepView for MonitorInfo {
    type V = MonitorInfoView;

    open spec fn deep_view(&self) -> MonitorInfoView {
        self@
    }
}

impl MonitorInfo {
    /// A field-by-field copy.
    pub fn copy(&self) -> (r: MonitorInfo)
        ensures
            r@ == self@,
    {
        MonitorInfo {
            name: self.name.clone(),
            x: self.x,
            y: self.y,
            width: self.width,
            height: self.height,
            thumbnail: self.thumbnail.clone(),
        }
    }
}

/// `a` sorts no later than `b`: its `(x, y)` pair is lexicographically no greater.
pub open spec fn key_le(a: MonitorInfoView, b: MonitorInfoView) -> bool {
    a.x < b.x || (a.x == b.x && a.y <= b.y)
}

/// `m` inserted into `s` just before the first element that sorts after it.
pub open spec fn insert_in_order(s: Seq<MonitorInfoView>, m: MonitorInfoView) -> Seq<MonitorInfoView>
    decreases s.len(),
{
    if s.len() == 0 {
        seq![m]
    } else if key_le(s[0], m) {
        seq![s[0]] + insert_in_order(s.drop_first(), m)
    } else {
        seq![m] + s
    }
}

/// The monitors ordered by position `(x, y)`, keeping the order in which they
/// were reported among monitors at the same position (a stable sort by key).
pub open spec fn sorted_by_position(s: Seq<MonitorInfoView>) -> Seq<MonitorInfoView>
    decreases s.len(),
{
    if s.len() == 0 {
        seq![]
    } else {
        insert_in_order(sorted_by_position(s.drop_last()), s.last())
    }
}

/// Every monitor sorts no later than every monitor after it.
pub open spec fn is_sorted_by_position(s: Seq<MonitorInfoView>) -> bool {
    forall|i: int, j: int| 0 <= i < j < s.len() ==> key_le(#[trigger] s[i], #[trigger] s[j])
}

/// The first position in `s` whose element sorts after `m` (or the length).
pub open spec fn insertion_point(s: Seq<MonitorInfoView>, m: MonitorInfoView) -> int
    decreases s.len(),
{
    if s.len() == 0 {
        0
    } else if key_le(s[0], m) {
        1 + insertion_point(s.drop_first(), m)
    } else {
        0
    }
}

proof fn insert_in_order_splits(s: Seq<MonitorInfoView>, m: MonitorInfoView)
    ensures
        0 <= insertion_point(s, m) <= s.len(),
        insert_in_order(s, m) == s.take(insertion_point(s, m)).push(m) + s.skip(insertion_point(s, m)),
        forall|i: int| 0 <= i < insertion_point(s, m) ==> key_le(#[trigger] s[i], m),
        insertion_point(s, m) < s.len() ==> !key_le(s[insertion_point(s, m)], m),
    decreases s.len(),
{
    if s.len() > 0 {
        if key_le(s[0], m) {
            insert_in_order_splits(s.drop_first(), m);
            let p: int = insertion_point(s, m);
            assert(insert_in_order(s, m) =~= s.take(p).push(m) + s.skip(p));
            assert forall|i: int| 0 <= i < p implies key_le(#[trigger] s[i], m) by {
                if i > 0 {
                    assert(s[i] == s.drop_first()[i - 1]);
                }
            }
        } else {
            assert(insert_in_order(s, m) =~= s.take(0).push(m) + s.skip(0));
        }
    }
}

/// Finds where `m` goes in `out`: just before the first monitor that sorts after it.
fn find_insertion_point(out: &Vec<MonitorInfo>, m: &MonitorInfo) -> (p: usize)
    ensures
        p == insertion_point(out.deep_view(), m@),
{
    let ghost s = out.deep_view();
    proof {
        insert_in_order_splits(s, m@);
    }
    let mut i: usize = 0;
    while i < out.len()
        invariant
            s == out.deep_view(),
            0 <= insertion_point(s, m@) <= s.len(),
            forall|k: int| 0 <= k < insertion_point(s, m@) ==> key_le(#[trigger] s[k], m@),
            insertion_point(s, m@) < s.len() ==> !key_le(s[insertion_point(s, m@)], m@),
            i <= insertion_point(s, m@),
        decreases out.len() - i,
    {
        let e = &out[i];
        assert(s[i as int] == e@);
        if !(e.x < m.x || (e.x == m.x && e.y <= m.y)) {
            return i;
        }
        i = i + 1;
    }
    i
}

/// Orders monitors by position `(x, y)`, left to right and then top to bottom,
/// keeping the reported order among monitors at the same position.
pub fn sort_monitors(monitors: Vec<MonitorInfo>) -> (out: Vec<MonitorInfo>)
    ensures
        out.deep_view() == sorted_by_position(monitors.deep_view()),
{
    let mut out: Vec<MonitorInfo> = Vec::new();
    let mut i: usize = 0;
    while i < monitors.len()
        invariant
            i <= monitors.len(),
            out.deep_view() == sorted_by_position(monitors.deep_view().subrange(0, i as int)),
        decreases monitors.len() - i,
    {
        let ghost before = out.deep_view();
        let m = monitors[i].copy();
        let p: usize = find_insertion_point(&out, &m);
        proof {
            insert_in_order_splits(before, m@);
        }
        out.insert(p, m);
        proof {
            let next = monitors.deep_view().subrange(0, i + 1);
            assert(next.drop_last() =~= monitors.deep_view().subrange(0, i as int));
            assert(next.last() == monitors.deep_view()[i as int]);
            assert(out.deep_view() =~= before.take(p as int).push(monitors.deep_view()[i as int]) + before.skip(p as int));
        }
        i = i + 1;
    }
    assert(monitors.deep_view().subrange(0, monitors.len() as int) =~= monitors.deep_view());
    out
}

} // verus!

verus! {

/// The monitors of `s` that sit at `(x, y)`, in order.
pub open spec fn at_position(s: Seq<MonitorInfoView>, x: i32, y: i32) -> Seq<MonitorInfoView> {
    s.filter(|e: MonitorInfoView| e.x == x && e.y == y)
}

proof fn insert_in_order_keeps_order(s: Seq<MonitorInfoView>, m: MonitorInfoView)
    requires
        is_sorted_by_position(s),
    ensures
        is_sorted_by_position(insert_in_order(s, m)),
        insert_in_order(s, m).to_multiset() == s.to_multiset().insert(m),
        forall|x: i32, y: i32| #[trigger] at_position(insert_in_order(s, m), x, y)
            == if m.x == x && m.y == y { at_position(s, x, y).push(m) } else { at_position(s, x, y) },
{
    broadcast use vstd::seq_lib::group_seq_properties;
    insert_in_order_splits(s, m);
    let p: int = insertion_point(s, m);
    let r = insert_in_order(s, m);
    let a = s.take(p);
    let b = s.skip(p);
    assert(s =~= a + b);
    assert(r =~= s.insert(p, m));
    vstd::seq_lib::to_multiset_insert(s, p, m);
    assert forall|i: int, j: int| 0 <= i < j < r.len() implies key_le(#[trigger] r[i], #[trigger] r[j]) by {
        if j < p {
            assert(r[i] == s[i] && r[j] == s[j]);
        } else if j == p {
            assert(r[j] == m);
            assert(r[i] == s[i]);
        } else if i < p {
            assert(r[i] == s[i] && r[j] == s[j - 1]);
        } else if i == p {
            assert(r[i] == m && r[j] == s[j - 1]);
            if j - 1 > p {
                assert(key_le(s[p], s[j - 1]));
            }
        } else {
            assert(r[i] == s[i - 1] && r[j] == s[j - 1]);
        }
    }
    assert forall|x: i32, y: i32| #[trigger] at_position(r, x, y)
        == if m.x == x && m.y == y { at_position(s, x, y).push(m) } else { at_position(s, x, y) } by {
        let pred = |e: MonitorInfoView| e.x == x && e.y == y;
        Seq::filter_distributes_over_add(a.push(m), b, pred);
        Seq::filter_distributes_over_add(a, b, pred);
        a.lemma_filter_push(m, pred);
        if m.x == x && m.y == y {
            assert forall|k: int| 0 <= k < b.len() implies !pred(#[trigger] b[k]) by {
                assert(b[k] == s[p + k]);
                if k > 0 {
                    assert(key_le(s[p], s[p + k]));
                }
            }
            b.lemma_all_neg_filter_empty(pred);
            assert(b.filter(pred) =~= Seq::<MonitorInfoView>::empty());
            assert(at_position(r, x, y) =~= at_position(s, x, y).push(m));
        }
    }
}

/// The monitor order is a stable sort by position: the result is ordered by
/// `(x, y)`, holds the same monitors as many times each, and lists the monitors
/// that share a position in the order they were reported.
pub proof fn monitor_order_is_stable_sort(s: Seq<MonitorInfoView>)
    ensures
        is_sorted_by_position(sorted_by_position(s)),
        sorted_by_position(s).to_multiset() == s.to_multiset(),
        forall|x: i32, y: i32| #[trigger] at_position(sorted_by_position(s), x, y) == at_position(s, x, y),
    decreases s.len(),
{
    broadcast use vstd::seq_lib::group_seq_properties;
    if s.len() == 0 {
        assert forall|x: i32, y: i32| #[trigger] at_position(sorted_by_position(s), x, y) == at_position(s, x, y) by {
            assert(sorted_by_position(s) =~= s);
        }
    } else {
        let prev = s.drop_last();
        monitor_order_is_stable_sort(prev);
        insert_in_order_keeps_order(sorted_by_position(prev), s.last());
        assert(s =~= prev.push(s.last()));
        assert forall|x: i32, y: i32| #[trigger] at_position(sorted_by_position(s), x, y) == at_position(s, x, y) by {
            let pred = |e: MonitorInfoView| e.x == x && e.y == y;
            prev.lemma_filter_push(s.last(), pred);
            assert(at_position(sorted_by_position(prev), x, y) == at_position(prev, x, y));
        }
    }
}

} // verus!
