//! A map with text keys, kept in the order of the keys.
use vstd::prelude::*;
use crate::order;
use crate::text;

verus! {

/// A map from texts to values.
#[derive(Debug)]
pub struct TextMap<V> {
    entries: Vec<(String, V)>,
}

/// The keys of a list of entries.
pub open spec fn entry_keys<V>(entries: Seq<(String, V)>) -> Seq<Seq<char>> {
    entries.map_values(|entry: (String, V)| entry.0@)
}

/// The map that a list of entries with distinct keys makes.
pub open spec fn entries_map<V>(entries: Seq<(String, V)>) -> Map<Seq<char>, V> {
    Map::new(
        |key: Seq<char>| entry_keys(entries).contains(key),
        |key: Seq<char>| entries[entry_keys(entries).index_of(key)].1,
    )
}

impl<V> View for TextMap<V> {
    type V = Map<Seq<char>, V>;

    closed spec fn view(&self) -> Map<Seq<char>, V> {
        entries_map(self.entries@)
    }
}

/// Under strictly sorted keys each entry is found under its own.
pub proof fn lemma_entry_found<V>(entries: Seq<(String, V)>, i: int)
    requires
        order::strictly_sorted(entry_keys(entries)),
        0 <= i < entries.len(),
    ensures
        entries_map(entries).dom().contains(entries[i].0@),
        entries_map(entries)[entries[i].0@] == entries[i].1,
{
    let keys = entry_keys(entries);
    let key = entries[i].0@;
    assert(keys[i] == key);
    assert(keys.contains(key));
    let j = keys.index_of(key);
    assert(0 <= j < keys.len() && keys[j] == key);
    if i != j {
        order::lemma_text_total(key, key);
    }
}

impl<V> TextMap<V> {
    /// The keys stand in order, each once.
    pub closed spec fn well_formed(&self) -> bool {
        order::strictly_sorted(entry_keys(self.entries@))
    }

    /// A map without entries.
    pub fn new() -> (r: TextMap<V>)
        ensures
            r.well_formed(),
            r@ == Map::<Seq<char>, V>::empty(),
    {
        let r = TextMap { entries: Vec::new() };
        assert(r@ =~= Map::<Seq<char>, V>::empty());
        r
    }

    /// The place of a key, or the place where it belongs.
    fn find(&self, key: &str) -> (r: (usize, bool))
        requires
            self.well_formed(),
        ensures
            r.0 <= self.entries@.len(),
            r.1 == self@.dom().contains(key@),
            r.1 ==> r.0 < self.entries@.len() && self.entries@[r.0 as int].0@ == key@,
            forall|i: int|
                0 <= i < r.0 ==> order::text_before(#[trigger] entry_keys(self.entries@)[i], key@),
            !r.1 ==> forall|i: int|
                r.0 <= i < self.entries@.len() ==> order::text_before(
                    key@,
                    #[trigger] entry_keys(self.entries@)[i],
                ),
    {
        let ghost keys = entry_keys(self.entries@);
        let mut lo: usize = 0;
        let mut hi: usize = self.entries.len();
        while lo < hi
            invariant
                lo <= hi <= self.entries@.len(),
                keys == entry_keys(self.entries@),
                order::strictly_sorted(keys),
                forall|i: int| 0 <= i < lo ==> order::text_before(#[trigger] keys[i], key@),
                forall|i: int| hi <= i < keys.len() ==> order::text_before(key@, #[trigger] keys[i]),
            decreases hi - lo,
        {
            let mid: usize = lo + (hi - lo) / 2;
            assert(keys[mid as int] == self.entries@[mid as int].0@);
            if order::comes_before(self.entries[mid].0.as_str(), key) {
                assert forall|i: int| 0 <= i < mid + 1 implies order::text_before(
                    #[trigger] keys[i],
                    key@,
                ) by {
                    if i < mid {
                        order::lemma_text_transitive(keys[i], keys[mid as int], key@);
                    }
                }
                lo = mid + 1;
            } else if order::comes_before(key, self.entries[mid].0.as_str()) {
                assert forall|i: int| mid <= i < keys.len() implies order::text_before(
                    key@,
                    #[trigger] keys[i],
                ) by {
                    if mid < i {
                        order::lemma_text_transitive(key@, keys[mid as int], keys[i]);
                    }
                }
                hi = mid;
            } else {
                proof {
                    order::lemma_text_total(keys[mid as int], key@);
                    lemma_entry_found(self.entries@, mid as int);
                }
                return (mid, true);
            }
        }
        proof {
            if keys.contains(key@) {
                let i = keys.index_of(key@);
                assert(keys[i] == key@);
                order::lemma_text_total(key@, key@);
            }
        }
        (lo, false)
    }

    /// The value under a key.
    pub fn get(&self, key: &str) -> (r: Option<&V>)
        requires
            self.well_formed(),
        ensures
            match r {
                Some(value) => self@.dom().contains(key@) && self@[key@] == *value,
                None => !self@.dom().contains(key@),
            },
    {
        let (at, found) = self.find(key);
        if found {
            proof {
                lemma_entry_found(self.entries@, at as int);
            }
            Some(&self.entries[at].1)
        } else {
            None
        }
    }

    /// Whether there is a value under a key.
    pub fn has(&self, key: &str) -> (r: bool)
        requires
            self.well_formed(),
        ensures
            r == self@.dom().contains(key@),
    {
        self.find(key).1
    }

    /// Takes the value under a key out.
    pub fn remove(&mut self, key: &str) -> (r: Option<V>)
        requires
            old(self).well_formed(),
        ensures
            final(self).well_formed(),
            final(self)@ == old(self)@.remove(key@),
            match r {
                Some(value) => old(self)@.dom().contains(key@) && old(self)@[key@] == value,
                None => !old(self)@.dom().contains(key@),
            },
    {
        let (at, found) = self.find(key);
        if !found {
            assert(self@ =~= old(self)@.remove(key@));
            return None;
        }
        let ghost before = self.entries@;
        let (_, value) = self.entries.remove(at);
        proof {
            let after = self.entries@;
            lemma_entry_found(before, at as int);
            assert forall|i: int| 0 <= i < after.len() implies #[trigger] entry_keys(after)[i]
                == entry_keys(before)[if i < at {
                i
            } else {
                i + 1
            }] by {}
            assert(order::strictly_sorted(entry_keys(after)));
            lemma_same_entries_but(before, after, at as int);
        }
        Some(value)
    }

    /// Sets the value under a key and hands out the one before.
    pub fn insert(&mut self, key: &str, value: V) -> (r: Option<V>)
        requires
            old(self).well_formed(),
        ensures
            final(self).well_formed(),
            final(self)@ == old(self)@.insert(key@, value),
            match r {
                Some(former) => old(self)@.dom().contains(key@) && old(self)@[key@] == former,
                None => !old(self)@.dom().contains(key@),
            },
    {
        let former = self.remove(key);
        let ghost without = self@;
        let (at, _) = self.find(key);
        let ghost before = self.entries@;
        self.entries.insert(at, (key.to_string(), value));
        proof {
            let after = self.entries@;
            assert forall|i: int| 0 <= i < after.len() implies #[trigger] entry_keys(after)[i] == (
            if i < at {
                entry_keys(before)[i]
            } else if i == at {
                key@
            } else {
                entry_keys(before)[i - 1]
            }) by {}
            assert(order::strictly_sorted(entry_keys(after))) by {
                assert forall|i: int, j: int| 0 <= i < j < after.len() implies order::text_before(
                    #[trigger] entry_keys(after)[i],
                    #[trigger] entry_keys(after)[j],
                ) by {
                    if i < at && j > at {
                        order::lemma_text_transitive(
                            entry_keys(after)[i],
                            key@,
                            entry_keys(after)[j],
                        );
                    }
                }
            }
            assert(after.remove(at as int) =~= before);
            lemma_entry_found(after, at as int);
            lemma_same_entries_but(after, before, at as int);
            assert(without == entries_map(after).remove(key@));
            assert(self@.dom() =~= old(self)@.insert(key@, value).dom());
            assert forall|k: Seq<char>| self@.dom().contains(k) implies self@[k] == old(
                self,
            )@.insert(key@, value)[k] by {
                if k != key@ {
                    assert(without.dom().contains(k) && without[k] == old(self)@[k]);
                    assert(without[k] == entries_map(after)[k]);
                }
            }
            assert(self@ =~= old(self)@.insert(key@, value));
        }
        former
    }

    /// How many keys there are.
    pub fn len(&self) -> (r: usize)
        requires
            self.well_formed(),
        ensures
            r == self@.dom().len(),
            self@.dom().finite(),
    {
        proof {
            lemma_keys(self.entries@);
        }
        self.entries.len()
    }

    /// The keys in order.
    pub fn keys(&self) -> (r: Vec<String>)
        requires
            self.well_formed(),
        ensures
            order::strictly_sorted(text::views(r@)),
            text::views(r@).to_set() == self@.dom(),
    {
        let ghost keys = entry_keys(self.entries@);
        let mut out: Vec<String> = Vec::new();
        let mut i: usize = 0;
        while i < self.entries.len()
            invariant
                i <= self.entries@.len(),
                keys == entry_keys(self.entries@),
                out@.len() == i,
                forall|j: int| 0 <= j < i ==> (#[trigger] out@[j])@ == keys[j],
            decreases self.entries@.len() - i,
        {
            out.push(self.entries[i].0.clone());
            i += 1;
        }
        proof {
            assert(text::views(out@) =~= keys);
            lemma_keys(self.entries@);
        }
        out
    }

    /// The entries in the order of their keys.
    pub fn into_entries(self) -> (r: Vec<(String, V)>)
        requires
            self.well_formed(),
        ensures
            order::strictly_sorted(entry_keys(r@)),
            entries_map(r@) == self@,
    {
        self.entries
    }
}

/// The entries but one make the map without its key.
proof fn lemma_same_entries_but<V>(all: Seq<(String, V)>, rest: Seq<(String, V)>, at: int)
    requires
        order::strictly_sorted(entry_keys(all)),
        order::strictly_sorted(entry_keys(rest)),
        0 <= at < all.len(),
        rest == all.remove(at),
    ensures
        entries_map(rest) == entries_map(all).remove(all[at].0@),
{
    let key = all[at].0@;
    let full = entries_map(all);
    let less = entries_map(rest);
    assert forall|k: Seq<char>| #[trigger] full.remove(key).dom().contains(k) implies
        less.dom().contains(k) && less[k] == full[k] by {
        let i = entry_keys(all).index_of(k);
        assert(entry_keys(all)[i] == k);
        assert(all[i].0@ == k);
        assert(i != at);
        lemma_entry_found(all, i);
        let j = if i < at {
            i
        } else {
            i - 1
        };
        assert(rest[j] == all[i]);
        lemma_entry_found(rest, j);
    }
    assert forall|k: Seq<char>| #[trigger] less.dom().contains(k) implies full.remove(
        key,
    ).dom().contains(k) by {
        let j = entry_keys(rest).index_of(k);
        assert(entry_keys(rest)[j] == k);
        let i = if j < at {
            j
        } else {
            j + 1
        };
        assert(all[i] == rest[j]);
        lemma_entry_found(all, i);
        order::lemma_text_total(key, key);
        assert(entry_keys(all)[i] == k && entry_keys(all)[at] == key);
    }
    assert(less.dom() =~= full.remove(key).dom());
    assert forall|k: Seq<char>| less.dom().contains(k) implies less[k] == full.remove(key)[k] by {
        assert(full.remove(key).dom().contains(k));
    }
    assert(less =~= full.remove(key));
}

/// The keys of the map are the keys of the entries, each once.
proof fn lemma_keys<V>(entries: Seq<(String, V)>)
    requires
        order::strictly_sorted(entry_keys(entries)),
    ensures
        entries_map(entries).dom() == entry_keys(entries).to_set(),
        entries_map(entries).dom().finite(),
        entries_map(entries).dom().len() == entries.len(),
{
    let keys = entry_keys(entries);
    assert(keys.no_duplicates()) by {
        assert forall|i: int, j: int| 0 <= i < keys.len() && 0 <= j < keys.len() && i
            != j implies keys[i] != keys[j] by {
            order::lemma_text_total(keys[i], keys[j]);
            if i < j {
                assert(order::text_before(keys[i], keys[j]));
            } else {
                assert(order::text_before(keys[j], keys[i]));
                order::lemma_text_total(keys[j], keys[i]);
            }
        }
    }
    keys.unique_seq_to_set();
    assert(entries_map(entries).dom() =~= keys.to_set());
}

} // verus!
