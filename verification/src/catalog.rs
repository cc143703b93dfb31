//! The monitor catalog: the monitors the platform enumerated at startup,
//! held in a stable order sorted ascending by each rectangle's `left`
//! coordinate, so that the numbering is reproducible across runs on an
//! unchanged topology.

use vstd::prelude::*;

use crate::geometry::{in_rect, point_in_rect, MonitorGeometry, Point};

verus! {

/// Ascending by the rectangle's `left` coordinate.
pub open spec fn sorted_by_left(s: Seq<MonitorGeometry>) -> bool {
    forall|i: int, j: int| 0 <= i < j < s.len() ==> s[i].rect.left <= s[j].rect.left
}

/// The predicate "this monitor's rectangle has `left` coordinate `k`".
pub open spec fn left_is(k: int) -> spec_fn(MonitorGeometry) -> bool {
    |m: MonitorGeometry| m.rect.left == k
}

/// The subsequence of monitors whose rectangle has `left` coordinate `k`,
/// in the order they stand in `s`.
pub open spec fn with_left(s: Seq<MonitorGeometry>, k: int) -> Seq<MonitorGeometry> {
    s.filter(left_is(k))
}

/// `sorted` is the stable by-`left` sort of `original`: same length, sorted
/// ascending by `left`, and for every `left` value the monitors carrying it
/// stand in their original enumeration order.
pub open spec fn stable_sort_of(
    original: Seq<MonitorGeometry>,
    sorted: Seq<MonitorGeometry>,
) -> bool {
    &&& sorted.len() == original.len()
    &&& sorted_by_left(sorted)
    &&& forall|k: int| with_left(sorted, k) == with_left(original, k)
}

/// The ordered list of monitor geometries, built once at startup.
pub struct MonitorCatalog {
    monitors: Vec<MonitorGeometry>,
}

impl View for MonitorCatalog {
    type V = Seq<MonitorGeometry>;

    closed spec fn view(&self) -> Seq<MonitorGeometry> {
        self.monitors@
    }
}

impl MonitorCatalog {
    /// Catalog invariant: sorted ascending by `left`, every rectangle
    /// non-degenerate.
    pub open spec fn wf(self) -> bool {
        &&& sorted_by_left(self@)
        &&& forall|i: int| 0 <= i < self@.len() ==> self@[i].well_formed()
    }

    /// Builds the catalog from the monitors the platform enumerated, sorting
    /// them ascending by `left` with ties kept in enumeration order. The
    /// result is empty only if the enumeration was.
    pub fn new(enumerated: &Vec<MonitorGeometry>) -> (c: MonitorCatalog)
        requires
            forall|i: int| 0 <= i < enumerated@.len() ==> enumerated@[i].well_formed(),
        ensures
            c.wf(),
            stable_sort_of(enumerated@, c@),
    {
        let mut monitors: Vec<MonitorGeometry> = Vec::new();
        let mut i: usize = 0;
        while i < enumerated.len()
            invariant
                i <= enumerated@.len(),
                monitors@.len() == i,
                sorted_by_left(monitors@),
                forall|j: int| 0 <= j < enumerated@.len() ==> enumerated@[j].well_formed(),
                forall|j: int| 0 <= j < monitors@.len() ==> monitors@[j].well_formed(),
                forall|k: int| with_left(monitors@, k) == with_left(enumerated@.take(i as int), k),
            decreases enumerated@.len() - i,
        {
            let m = enumerated[i];
            let ghost pre = monitors@;
            let p = insert_position(&monitors, m.rect.left);
            monitors.insert(p, m);
            proof {
                lemma_stable_insert(pre, m, p as int, enumerated@, i as int);
            }
            i += 1;
        }
        proof {
            assert(enumerated@.take(enumerated@.len() as int) =~= enumerated@);
        }
        MonitorCatalog { monitors }
    }

    /// Number of monitors in the catalog.
    pub fn len(&self) -> (n: usize)
        ensures
            n == self@.len(),
    {
        self.monitors.len()
    }

    /// Whether the enumeration reported zero monitors — a fatal startup
    /// condition for the caller.
    pub fn is_empty(&self) -> (b: bool)
        ensures
            b == (self@.len() == 0),
    {
        self.monitors.is_empty()
    }

    /// The monitor at catalog position `i`.
    pub fn get(&self, i: usize) -> (m: &MonitorGeometry)
        requires
            i < self@.len(),
        ensures
            *m == self@[i as int],
    {
        &self.monitors[i]
    }

    /// The catalog position of the first monitor whose rectangle contains
    /// the point under half-open containment, or `None` if the point lies in
    /// no monitor.
    pub fn index_of(&self, p: &Point) -> (r: Option<usize>)
        ensures
            match r {
                Some(i) => {
                    &&& i < self@.len()
                    &&& in_rect(*p, self@[i as int].rect)
                    &&& forall|j: int| 0 <= j < i ==> !in_rect(*p, self@[j].rect)
                },
                None => forall|j: int| 0 <= j < self@.len() ==> !in_rect(*p, self@[j].rect),
            },
    {
        let mut i: usize = 0;
        while i < self.monitors.len()
            invariant
                i <= self@.len(),
                forall|j: int| 0 <= j < i ==> !in_rect(*p, self@[j].rect),
            decreases self@.len() - i,
        {
            if point_in_rect(p, &self.monitors[i].rect) {
                return Some(i);
            }
            i += 1;
        }
        None
    }
}

/// The position where a monitor with `left` coordinate `left` is inserted to
/// keep the vector sorted and the sort stable: after every entry with a
/// `left` no greater than it.
fn insert_position(v: &Vec<MonitorGeometry>, left: i32) -> (p: usize)
    requires
        sorted_by_left(v@),
    ensures
        p <= v@.len(),
        forall|q: int| 0 <= q < p ==> v@[q].rect.left <= left,
        forall|q: int| p <= q < v@.len() ==> v@[q].rect.left > left,
{
    let mut p: usize = 0;
    while p < v.len() && v[p].rect.left <= left
        invariant
            p <= v@.len(),
            sorted_by_left(v@),
            forall|q: int| 0 <= q < p ==> v@[q].rect.left <= left,
        decreases v@.len() - p,
    {
        p += 1;
    }
    p
}

/// Filtering by a `left` value that no monitor of `s` carries gives the
/// empty subsequence.
proof fn lemma_with_left_none(s: Seq<MonitorGeometry>, k: int)
    requires
        forall|j: int| 0 <= j < s.len() ==> s[j].rect.left != k,
    ensures
        with_left(s, k) == Seq::<MonitorGeometry>::empty(),
    decreases s.len(),
{
    reveal(Seq::filter);
    if s.len() == 0 {
        assert(s =~= Seq::<MonitorGeometry>::empty());
    } else {
        lemma_with_left_none(s.drop_last(), k);
    }
}

/// Appending one monitor extends the filtered subsequence exactly when the
/// monitor carries the filtered `left` value.
proof fn lemma_with_left_push(s: Seq<MonitorGeometry>, m: MonitorGeometry, k: int)
    ensures
        m.rect.left == k ==> with_left(s.push(m), k) == with_left(s, k).push(m),
        m.rect.left != k ==> with_left(s.push(m), k) == with_left(s, k),
{
    reveal(Seq::filter);
    assert(s.push(m).drop_last() =~= s);
    assert(s.push(m).last() == m);
}

/// Inserting `orig[i]` into a sorted vector, after every entry whose `left`
/// is no greater and before every entry whose `left` is greater, keeps the
/// vector sorted and keeps it the stable sort of the first `i + 1` original
/// entries.
proof fn lemma_stable_insert(
    pre: Seq<MonitorGeometry>,
    m: MonitorGeometry,
    p: int,
    orig: Seq<MonitorGeometry>,
    i: int,
)
    requires
        0 <= p <= pre.len(),
        0 <= i < orig.len(),
        orig[i] == m,
        sorted_by_left(pre),
        forall|q: int| 0 <= q < p ==> pre[q].rect.left <= m.rect.left,
        forall|q: int| p <= q < pre.len() ==> pre[q].rect.left > m.rect.left,
        forall|k: int| with_left(pre, k) == with_left(orig.take(i), k),
    ensures
        sorted_by_left(pre.insert(p, m)),
        forall|k: int| with_left(pre.insert(p, m), k) == with_left(orig.take(i + 1), k),
{
    let result = pre.insert(p, m);
    pre.insert_ensures(p, m);
    assert(sorted_by_left(result)) by {
        assert forall|a: int, b: int| 0 <= a < b < result.len() implies result[a].rect.left
            <= result[b].rect.left by {
            if a < p {
                assert(result[a] == pre[a]);
            }
            if b < p {
                assert(result[b] == pre[b]);
            }
            if a > p {
                assert(result[a] == pre[a - 1]);
            }
            if b > p {
                assert(result[b] == pre[b - 1]);
            }
        }
    }
    let sub0 = pre.subrange(0, p);
    let subp = pre.subrange(p, pre.len() as int);
    assert(result == sub0.push(m) + subp);
    assert(pre =~= sub0 + subp);
    assert(orig.take(i + 1) =~= orig.take(i).push(m));
    assert forall|k: int| with_left(result, k) == with_left(orig.take(i + 1), k) by {
        Seq::filter_distributes_over_add(sub0.push(m), subp, left_is(k));
        Seq::filter_distributes_over_add(sub0, subp, left_is(k));
        lemma_with_left_push(sub0, m, k);
        lemma_with_left_push(orig.take(i), m, k);
        if m.rect.left == k {
            lemma_with_left_none(subp, k);
            assert(with_left(result, k) =~= with_left(sub0, k).push(m));
            assert(with_left(pre, k) =~= with_left(sub0, k));
        } else {
            assert(with_left(result, k) =~= with_left(sub0, k) + with_left(subp, k));
            assert(with_left(pre, k) =~= with_left(sub0, k) + with_left(subp, k));
        }
    }
}

} // verus!
