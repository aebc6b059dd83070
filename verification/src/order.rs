//! Sorting: the order of texts, and the places of a list in a given order.
use vstd::prelude::*;
use crate::text;

verus! {

/// The first text stands before the second, character by character.
pub open spec fn text_before(a: Seq<char>, b: Seq<char>) -> bool
    decreases a.len(),
{
    if b.len() == 0 {
        false
    } else if a.len() == 0 {
        true
    } else if a[0] != b[0] {
        a[0] < b[0]
    } else {
        text_before(a.drop_first(), b.drop_first())
    }
}

/// Each text stands before the ones behind it; so none occurs twice.
pub open spec fn strictly_sorted(list: Seq<Seq<char>>) -> bool {
    forall|i: int, j: int|
        0 <= i < j < list.len() ==> text_before(#[trigger] list[i], #[trigger] list[j])
}

/// No text stands before one in front of it.
pub open spec fn sorted(list: Seq<Seq<char>>) -> bool {
    forall|i: int, j: int|
        0 <= i < j < list.len() ==> !text_before(#[trigger] list[j], #[trigger] list[i])
}

/// Each of the places below `n` once.
pub open spec fn is_arrangement(order: Seq<int>, n: nat) -> bool {
    &&& order.len() == n
    &&& order.no_duplicates()
    &&& forall|k: int| 0 <= k < n ==> 0 <= #[trigger] order[k] < n
    &&& forall|i: int| 0 <= i < n ==> #[trigger] order.contains(i)
}

/// The items of a list in the order of the given places.
pub open spec fn arranged<T>(list: Seq<T>, order: Seq<int>) -> Seq<T> {
    order.map_values(|i: int| list[i])
}

/// The second list is the first one in another order.
pub open spec fn is_rearranged<T>(list: Seq<T>, other: Seq<T>) -> bool {
    exists|order: Seq<int>| #[trigger]
        is_arrangement(order, list.len()) && other == arranged(list, order)
}

/// Two texts that differ stand in exactly one order; a text is not before itself.
pub proof fn lemma_text_total(a: Seq<char>, b: Seq<char>)
    ensures
        a == b ==> !text_before(a, b),
        a != b ==> text_before(a, b) != text_before(b, a),
    decreases a.len(),
{
    if a.len() == 0 || b.len() == 0 {
        if a.len() == 0 && b.len() == 0 {
            assert(a =~= b);
        }
    } else if a[0] == b[0] {
        lemma_text_total(a.drop_first(), b.drop_first());
        if a.drop_first() == b.drop_first() {
            assert(a =~= seq![a[0]] + a.drop_first());
            assert(b =~= seq![b[0]] + b.drop_first());
        }
    }
}

/// The order of texts carries over.
pub proof fn lemma_text_transitive(a: Seq<char>, b: Seq<char>, c: Seq<char>)
    requires
        text_before(a, b),
        text_before(b, c),
    ensures
        text_before(a, c),
    decreases a.len(),
{
    if a.len() > 0 && a[0] == b[0] && b[0] == c[0] {
        lemma_text_transitive(a.drop_first(), b.drop_first(), c.drop_first());
    }
}

/// Whether the first text stands before the second.
pub fn comes_before(a: &str, b: &str) -> (r: bool)
    ensures
        r == text_before(a@, b@),
{
    let x = text::chars_of(a);
    let y = text::chars_of(b);
    let mut i: usize = 0;
    assert(a@.skip(0) =~= a@ && b@.skip(0) =~= b@);
    while i < x.len() && i < y.len()
        invariant
            i <= x@.len(),
            i <= y@.len(),
            x@ == a@,
            y@ == b@,
            text_before(a@, b@) == text_before(a@.skip(i as int), b@.skip(i as int)),
        decreases x@.len() - i,
    {
        let ghost p = a@.skip(i as int);
        let ghost q = b@.skip(i as int);
        assert(p[0] == x@[i as int] && q[0] == y@[i as int]);
        if x[i] != y[i] {
            return x[i] < y[i];
        }
        assert(p.drop_first() =~= a@.skip(i + 1));
        assert(q.drop_first() =~= b@.skip(i + 1));
        i += 1;
    }
    i < y.len()
}

/// A list whose places have a strict total order.
pub trait Ranked {
    /// How many places there are.
    spec fn size(&self) -> nat;

    /// The first place ranks before the second.
    spec fn ranks_before(&self, i: int, j: int) -> bool;

    proof fn ranks_total(&self, i: int, j: int)
        requires
            0 <= i < self.size(),
            0 <= j < self.size(),
        ensures
            i == j ==> !self.ranks_before(i, j),
            i != j ==> self.ranks_before(i, j) != self.ranks_before(j, i),
    ;

    proof fn ranks_transitive(&self, i: int, j: int, k: int)
        requires
            0 <= i < self.size(),
            0 <= j < self.size(),
            0 <= k < self.size(),
            self.ranks_before(i, j),
            self.ranks_before(j, k),
        ensures
            self.ranks_before(i, k),
    ;

    fn count(&self) -> (r: usize)
        ensures
            r == self.size(),
    ;

    fn before(&self, i: usize, j: usize) -> (r: bool)
        requires
            i < self.size(),
            j < self.size(),
        ensures
            r == self.ranks_before(i as int, j as int),
    ;
}

/// The places as numbers.
pub open spec fn places(order: Seq<usize>) -> Seq<int> {
    order.map_values(|i: usize| i as int)
}

/// Each place ranks before the ones behind it.
pub open spec fn ranked<R: Ranked>(list: &R, order: Seq<usize>) -> bool {
    forall|a: int, b: int|
        0 <= a < b < order.len() ==> list.ranks_before(
            #[trigger] order[a] as int,
            #[trigger] order[b] as int,
        )
}

/// The places are those from `lo` up to `hi`.
pub open spec fn spans(order: Seq<usize>, lo: int, hi: int) -> bool {
    &&& forall|k: int| 0 <= k < order.len() ==> lo <= #[trigger] order[k] < hi
    &&& forall|i: usize| lo <= i < hi ==> #[trigger] order.contains(i)
}

/// The two ranked halves as one ranked list.
fn merge<R: Ranked>(list: &R, a: Vec<usize>, b: Vec<usize>, lo: usize, mid: usize, hi: usize) -> (r:
    Vec<usize>)
    requires
        lo <= mid <= hi <= list.size(),
        ranked(list, a@),
        ranked(list, b@),
        spans(a@, lo as int, mid as int),
        spans(b@, mid as int, hi as int),
    ensures
        ranked(list, r@),
        spans(r@, lo as int, hi as int),
{
    let mut out: Vec<usize> = Vec::new();
    let mut i: usize = 0;
    let mut j: usize = 0;
    while i < a.len() || j < b.len()
        invariant
            lo <= mid <= hi <= list.size(),
            i <= a@.len(),
            j <= b@.len(),
            ranked(list, a@),
            ranked(list, b@),
            spans(a@, lo as int, mid as int),
            spans(b@, mid as int, hi as int),
            ranked(list, out@),
            forall|k: int| 0 <= k < out@.len() ==> lo <= #[trigger] out@[k] < hi,
            forall|k: int, m: int|
                0 <= k < out@.len() && i <= m < a@.len() ==> list.ranks_before(
                    #[trigger] out@[k] as int,
                    #[trigger] a@[m] as int,
                ),
            forall|k: int, m: int|
                0 <= k < out@.len() && j <= m < b@.len() ==> list.ranks_before(
                    #[trigger] out@[k] as int,
                    #[trigger] b@[m] as int,
                ),
            forall|m: int| 0 <= m < i ==> out@.contains(#[trigger] a@[m]),
            forall|m: int| 0 <= m < j ==> out@.contains(#[trigger] b@[m]),
        decreases a@.len() - i + b@.len() - j,
    {
        let ghost before = out@;
        let take_a = if i == a.len() {
            false
        } else if j == b.len() {
            true
        } else {
            list.before(a[i], b[j])
        };
        if take_a {
            let x = a[i];
            proof {
                assert forall|m: int| j <= m < b@.len() implies list.ranks_before(
                    x as int,
                    #[trigger] b@[m] as int,
                ) by {
                    if m > j {
                        list.ranks_transitive(x as int, b@[j as int] as int, b@[m] as int);
                    }
                }
            }
            out.push(x);
            proof {
                assert(out@[before.len() as int] == x);
                assert forall|m: int| 0 <= m < i + 1 implies out@.contains(#[trigger] a@[m]) by {
                    if m < i {
                        let k = choose|k: int| 0 <= k < before.len() && before[k] == a@[m];
                        assert(out@[k] == a@[m]);
                    }
                }
                assert forall|m: int| 0 <= m < j implies out@.contains(#[trigger] b@[m]) by {
                    let k = choose|k: int| 0 <= k < before.len() && before[k] == b@[m];
                    assert(out@[k] == b@[m]);
                }
            }
            i += 1;
        } else {
            let y = b[j];
            proof {
                assert forall|m: int| i <= m < a@.len() implies list.ranks_before(
                    y as int,
                    #[trigger] a@[m] as int,
                ) by {
                    list.ranks_total(a@[i as int] as int, y as int);
                    if m > i {
                        list.ranks_transitive(y as int, a@[i as int] as int, a@[m] as int);
                    }
                }
            }
            out.push(y);
            proof {
                assert(out@[before.len() as int] == y);
                assert forall|m: int| 0 <= m < j + 1 implies out@.contains(#[trigger] b@[m]) by {
                    if m < j {
                        let k = choose|k: int| 0 <= k < before.len() && before[k] == b@[m];
                        assert(out@[k] == b@[m]);
                    }
                }
                assert forall|m: int| 0 <= m < i implies out@.contains(#[trigger] a@[m]) by {
                    let k = choose|k: int| 0 <= k < before.len() && before[k] == a@[m];
                    assert(out@[k] == a@[m]);
                }
            }
            j += 1;
        }
    }
    assert forall|p: usize| lo <= p < hi implies #[trigger] out@.contains(p) by {
        if p < mid {
            assert(a@.contains(p));
            let m = choose|m: int| 0 <= m < a@.len() && a@[m] == p;
            assert(out@.contains(a@[m]));
        } else {
            assert(b@.contains(p));
            let m = choose|m: int| 0 <= m < b@.len() && b@[m] == p;
            assert(out@.contains(b@[m]));
        }
    }
    out
}

/// The places from `lo` up to `hi` in their order.
fn rank_span<R: Ranked>(list: &R, lo: usize, hi: usize) -> (r: Vec<usize>)
    requires
        lo <= hi <= list.size(),
    ensures
        ranked(list, r@),
        spans(r@, lo as int, hi as int),
    decreases hi - lo,
{
    if hi - lo <= 1 {
        let mut out: Vec<usize> = Vec::new();
        if lo < hi {
            out.push(lo);
            assert(out@[0] == lo);
        }
        out
    } else {
        let mid: usize = lo + (hi - lo) / 2;
        let a = rank_span(list, lo, mid);
        let b = rank_span(list, mid, hi);
        merge(list, a, b, lo, mid, hi)
    }
}

/// Places that differ from one another and are all below `n` are no more than `n`.
proof fn lemma_places_fit(order: Seq<int>, n: nat)
    requires
        order.no_duplicates(),
        forall|k: int| 0 <= k < order.len() ==> 0 <= #[trigger] order[k] < n,
        forall|i: int| 0 <= i < n ==> #[trigger] order.contains(i),
    ensures
        order.len() == n,
{
    order.unique_seq_to_set();
    let set = order.to_set();
    let range = vstd::set_lib::set_int_range(0, n as int);
    vstd::set_lib::lemma_int_range(0, n as int);
    assert(set =~= range) by {
        assert forall|i: int| range.contains(i) implies set.contains(i) by {
            assert(order.contains(i));
        }
    }
}

/// All places of a list in their order.
pub fn rank_all<R: Ranked>(list: &R) -> (r: Vec<usize>)
    ensures
        ranked(list, r@),
        is_arrangement(places(r@), list.size()),
{
    let n = list.count();
    let r = rank_span(list, 0, n);
    proof {
        let order = places(r@);
        assert forall|a: int, b: int| 0 <= a < order.len() && 0 <= b < order.len() && a
            != b implies order[a] != order[b] by {
            if a < b {
                assert(list.ranks_before(r@[a] as int, r@[b] as int));
                list.ranks_total(r@[a] as int, r@[b] as int);
            } else {
                assert(list.ranks_before(r@[b] as int, r@[a] as int));
                list.ranks_total(r@[b] as int, r@[a] as int);
            }
        }
        assert forall|i: int| 0 <= i < n implies #[trigger] order.contains(i) by {
            assert(r@.contains(i as usize));
            let k = choose|k: int| 0 <= k < r@.len() && r@[k] == i as usize;
            assert(order[k] == i);
        }
        lemma_places_fit(order, n as nat);
    }
    r
}

/// A list of texts, ranked by the texts and, among the same ones, by place.
struct Texts<'a> {
    list: &'a Vec<String>,
}

impl<'a> Ranked for Texts<'a> {
    closed spec fn size(&self) -> nat {
        self.list@.len()
    }

    closed spec fn ranks_before(&self, i: int, j: int) -> bool {
        let a = self.list@[i]@;
        let b = self.list@[j]@;
        text_before(a, b) || (a == b && i < j)
    }

    proof fn ranks_total(&self, i: int, j: int) {
        lemma_text_total(self.list@[i]@, self.list@[j]@);
        lemma_text_total(self.list@[j]@, self.list@[i]@);
    }

    proof fn ranks_transitive(&self, i: int, j: int, k: int) {
        let a = self.list@[i]@;
        let b = self.list@[j]@;
        let c = self.list@[k]@;
        if text_before(a, b) && text_before(b, c) {
            lemma_text_transitive(a, b, c);
        }
    }

    fn count(&self) -> (r: usize) {
        self.list.len()
    }

    fn before(&self, i: usize, j: usize) -> (r: bool) {
        let a = self.list[i].as_str();
        let b = self.list[j].as_str();
        comes_before(a, b) || (text::text_eq(a, b) && i < j)
    }
}

/// The texts in order.
pub fn sort_texts(list: &Vec<String>) -> (r: Vec<String>)
    ensures
        sorted(text::views(r@)),
        is_rearranged(text::views(list@), text::views(r@)),
{
    let texts = Texts { list };
    let order = rank_all(&texts);
    let ghost views = text::views(list@);
    let mut out: Vec<String> = Vec::new();
    let mut k: usize = 0;
    while k < order.len()
        invariant
            k <= order@.len(),
            views == text::views(list@),
            is_arrangement(places(order@), list@.len()),
            out@.len() == k,
            forall|m: int| 0 <= m < k ==> (#[trigger] out@[m])@ == list@[order@[m] as int]@,
        decreases order@.len() - k,
    {
        assert(places(order@)[k as int] == order@[k as int]);
        out.push(list[order[k]].clone());
        k += 1;
    }
    proof {
        let result = text::views(out@);
        assert forall|k: int| 0 <= k < order@.len() implies 0 <= (#[trigger] places(order@)[k])
            < list@.len() by {}
        assert(result =~= arranged(views, places(order@)));
        assert(is_arrangement(places(order@), views.len()));
        assert forall|i: int, j: int| 0 <= i < j < result.len() implies !text_before(
            #[trigger] result[j],
            #[trigger] result[i],
        ) by {
            assert(texts.ranks_before(order@[i] as int, order@[j] as int));
            lemma_text_total(result[i], result[j]);
        }
    }
    out
}

/// Moments, ranked from the latest to the earliest and, among the same ones, by place.
struct Moments<'a> {
    stamps: &'a Vec<i128>,
}

/// The first moment is later than the second, or the same and in front of it.
pub open spec fn newer(stamps: Seq<i128>, i: int, j: int) -> bool {
    stamps[i] > stamps[j] || (stamps[i] == stamps[j] && i < j)
}

impl<'a> Ranked for Moments<'a> {
    closed spec fn size(&self) -> nat {
        self.stamps@.len()
    }

    closed spec fn ranks_before(&self, i: int, j: int) -> bool {
        newer(self.stamps@, i, j)
    }

    proof fn ranks_total(&self, i: int, j: int) {
    }

    proof fn ranks_transitive(&self, i: int, j: int, k: int) {
    }

    fn count(&self) -> (r: usize) {
        self.stamps.len()
    }

    fn before(&self, i: usize, j: usize) -> (r: bool) {
        self.stamps[i] > self.stamps[j] || (self.stamps[i] == self.stamps[j] && i < j)
    }
}

/// Each place holds a moment no earlier than the places behind it, and the
/// same moments stand in their original order.
pub open spec fn newest_first(stamps: Seq<i128>, order: Seq<int>) -> bool {
    forall|a: int, b: int|
        0 <= a < b < order.len() ==> newer(stamps, #[trigger] order[a], #[trigger] order[b])
}

/// The places of the moments from the latest to the earliest.
pub fn rank_newest_first(stamps: &Vec<i128>) -> (r: Vec<usize>)
    ensures
        is_arrangement(places(r@), stamps@.len()),
        newest_first(stamps@, places(r@)),
{
    let moments = Moments { stamps };
    let r = rank_all(&moments);
    proof {
        let order = places(r@);
        assert forall|a: int, b: int| 0 <= a < b < order.len() implies newer(
            stamps@,
            #[trigger] order[a],
            #[trigger] order[b],
        ) by {
            assert(moments.ranks_before(r@[a] as int, r@[b] as int));
        }
    }
    r
}

} // verus!
