//! How often clients ask: counts within a sliding window, kept in this process
//! or in a shared store.
use vstd::prelude::*;
use crate::detection::FrequencyFeatures;
use crate::order;
use crate::text_map;
use crate::text_map::TextMap;

verus! {

/// How many requests pass between two sweeps of all clients.
pub const SWEEP_EVERY: u64 = 1024;

/// The moments, in nanoseconds, at which clients asked.
#[derive(Debug)]
pub struct InMemoryFrequency {
    seen: TextMap<Vec<u64>>,
    operations: u64,
}

/// The moment is not older than the window; one that lies ahead is not old at all.
pub open spec fn is_recent(moment: u64, now: u64, window: u64) -> bool {
    moment >= now || now - moment <= window
}

/// The moments that are not older than the window.
pub open spec fn recent(moments: Seq<u64>, now: u64, window: u64) -> Seq<u64>
    decreases moments.len(),
{
    if moments.len() == 0 {
        Seq::empty()
    } else {
        let before = recent(moments.drop_last(), now, window);
        if is_recent(moments.last(), now, window) {
            before.push(moments.last())
        } else {
            before
        }
    }
}

/// The nanoseconds from one moment to a later one; none to an earlier one.
pub open spec fn elapsed(from: u64, to: u64) -> int {
    if from <= to {
        to - from
    } else {
        0
    }
}

/// The moments at which each client asked.
pub open spec fn moments_of(seen: Map<Seq<char>, Vec<u64>>) -> Map<Seq<char>, Seq<u64>> {
    seen.map_values(|moments: Vec<u64>| moments@)
}

/// The moments of one client; none if it is not known.
pub open spec fn known_moments(seen: Map<Seq<char>, Seq<u64>>, key: Seq<char>) -> Seq<u64> {
    if seen.dom().contains(key) {
        seen[key]
    } else {
        Seq::empty()
    }
}

/// The clients that asked within the window, with the moments at which they did.
pub open spec fn swept(seen: Map<Seq<char>, Seq<u64>>, now: u64, window: u64) -> Map<
    Seq<char>,
    Seq<u64>,
> {
    Map::new(
        |key: Seq<char>| seen.dom().contains(key) && recent(seen[key], now, window).len() > 0,
        |key: Seq<char>| recent(seen[key], now, window),
    )
}

/// The moments that are not older than the window.
fn keep_recent(moments: &Vec<u64>, now: u64, window: u64) -> (r: Vec<u64>)
    ensures
        r@ == recent(moments@, now, window),
        r@.len() <= moments@.len(),
{
    let mut out: Vec<u64> = Vec::new();
    let mut i: usize = 0;
    while i < moments.len()
        invariant
            i <= moments@.len(),
            out@ == recent(moments@.take(i as int), now, window),
            out@.len() <= i,
        decreases moments@.len() - i,
    {
        let moment = moments[i];
        assert(moments@.take(i + 1).drop_last() =~= moments@.take(i as int));
        if moment >= now || now - moment <= window {
            out.push(moment);
        }
        i += 1;
    }
    assert(moments@.take(i as int) =~= moments@);
    out
}

/// The clients that asked within the window.
fn sweep(seen: TextMap<Vec<u64>>, now: u64, window: u64) -> (r: TextMap<Vec<u64>>)
    requires
        seen.well_formed(),
    ensures
        r.well_formed(),
        moments_of(r@) == swept(moments_of(seen@), now, window),
{
    let entries = seen.into_entries();
    let ghost all = entries@;
    let ghost goal = swept(moments_of(seen@), now, window);
    let mut out: TextMap<Vec<u64>> = TextMap::new();
    for entry in it: entries.into_iter()
        invariant
            it.seq() == all,
            out.well_formed(),
            order::strictly_sorted(text_map::entry_keys(all)),
            text_map::entries_map(all) == seen@,
            goal == swept(moments_of(seen@), now, window),
            forall|key: Seq<char>| #[trigger]
                out@.dom().contains(key) ==> goal.dom().contains(key) && out@[key]@ == goal[key],
            forall|j: int|
                0 <= j < it.index() && goal.dom().contains((#[trigger] all[j]).0@)
                    ==> out@.dom().contains(all[j].0@),
    {
        let ghost n = it.index() as int;
        let (key, moments) = entry;
        proof {
            text_map::lemma_entry_found(all, n);
            assert(moments_of(seen@).dom().contains(key@));
            assert(moments_of(seen@)[key@] == moments@);
        }
        let kept = keep_recent(&moments, now, window);
        if kept.len() > 0 {
            out.insert(key.as_str(), kept);
        }
    }
    proof {
        assert forall|key: Seq<char>| goal.dom().contains(key) implies out@.dom().contains(key) by {
            let keys = text_map::entry_keys(all);
            assert(seen@.dom().contains(key));
            assert(keys.contains(key));
            let j = keys.index_of(key);
            assert(keys[j] == key);
            assert(all[j].0@ == key);
        }
        assert(moments_of(out@) =~= goal);
    }
    out
}

impl InMemoryFrequency {
    /// The moments at which each client asked.
    pub closed spec fn seen(&self) -> Map<Seq<char>, Seq<u64>> {
        moments_of(self.seen@)
    }

    /// How many requests were counted so far, modulo the largest counter.
    pub closed spec fn operations(&self) -> u64 {
        self.operations
    }

    pub closed spec fn well_formed(&self) -> bool {
        self.seen.well_formed()
    }

    /// No client has asked yet.
    pub fn new() -> (r: InMemoryFrequency)
        ensures
            r.well_formed(),
            r.seen() == Map::<Seq<char>, Seq<u64>>::empty(),
            r.operations() == 0,
    {
        let r = InMemoryFrequency { seen: TextMap::new(), operations: 0 };
        assert(r.seen() =~= Map::<Seq<char>, Seq<u64>>::empty());
        r
    }

    /// Counts a request of a client, and says how often and how long ago it
    /// asked before within the window. Every so many requests the clients that
    /// have not asked within the window are forgotten.
    pub fn record(&mut self, key: &str, window: u64, now: u64) -> (r: FrequencyFeatures)
        requires
            old(self).well_formed(),
        ensures
            final(self).well_formed(),
            ({
                let before = if old(self).operations() % SWEEP_EVERY == 0 {
                    swept(old(self).seen(), now, window)
                } else {
                    old(self).seen()
                };
                let moments = recent(known_moments(before, key@), now, window);
                &&& final(self).seen() == before.insert(key@, moments.push(now))
                &&& r.count == moments.len()
                &&& r.time_since == (if moments.len() > 0 {
                    Some(elapsed(moments.last(), now) as i128)
                } else {
                    None
                })
            }),
            final(self).operations() == (if old(self).operations() == u64::MAX {
                0
            } else {
                (old(self).operations() + 1) as u64
            }),
    {
        let due = self.operations % SWEEP_EVERY == 0;
        self.operations = if self.operations == u64::MAX {
            0
        } else {
            self.operations + 1
        };
        if due {
            let mut all: TextMap<Vec<u64>> = TextMap::new();
            std::mem::swap(&mut all, &mut self.seen);
            self.seen = sweep(all, now, window);
        }
        let ghost before = self.seen();
        let mut moments = match self.seen.get(key) {
            Some(known) => keep_recent(known, now, window),
            None => Vec::new(),
        };
        assert(moments@ == recent(known_moments(before, key@), now, window));
        let count = moments.len();
        let time_since: Option<i128> = if count > 0 {
            let last = moments[count - 1];
            if last <= now {
                Some((now - last) as i128)
            } else {
                Some(0)
            }
        } else {
            None
        };
        moments.push(now);
        let ghost pushed = moments@;
        self.seen.insert(key, moments);
        assert(self.seen() =~= before.insert(key@, pushed));
        FrequencyFeatures { count: count as u64, time_since }
    }
}

/// What is asked of the shared store next, for one request.
#[derive(Debug, Clone, Copy, PartialEq, Eq, Structural)]
pub enum StoreStep {
    /// Connect to the store.
    Connect,
    /// Remove the moments in front of the window.
    Trim,
    /// Add this moment.
    Insert,
    /// Count the moments within the window.
    Count,
    /// Read the last two moments.
    Latest,
    /// Let the client's moments expire later.
    Expire,
    /// All answers are in.
    Answered,
    /// The store is of no use for this request; count in this process.
    Fallback,
}

/// The step that follows an answer. Only a store that cannot be reached or
/// trimmed is given up at once.
pub open spec fn step_after(step: StoreStep, ok: bool) -> StoreStep {
    match step {
        StoreStep::Connect => if ok {
            StoreStep::Trim
        } else {
            StoreStep::Fallback
        },
        StoreStep::Trim => if ok {
            StoreStep::Insert
        } else {
            StoreStep::Fallback
        },
        StoreStep::Insert => StoreStep::Count,
        StoreStep::Count => StoreStep::Latest,
        StoreStep::Latest => StoreStep::Expire,
        StoreStep::Expire => StoreStep::Answered,
        StoreStep::Answered => StoreStep::Answered,
        StoreStep::Fallback => StoreStep::Fallback,
    }
}

/// The step that follows an answer.
pub fn next_step(step: StoreStep, ok: bool) -> (r: StoreStep)
    ensures
        r == step_after(step, ok),
{
    match step {
        StoreStep::Connect => if ok {
            StoreStep::Trim
        } else {
            StoreStep::Fallback
        },
        StoreStep::Trim => if ok {
            StoreStep::Insert
        } else {
            StoreStep::Fallback
        },
        StoreStep::Insert => StoreStep::Count,
        StoreStep::Count => StoreStep::Latest,
        StoreStep::Latest => StoreStep::Expire,
        StoreStep::Expire => StoreStep::Answered,
        StoreStep::Answered => StoreStep::Answered,
        StoreStep::Fallback => StoreStep::Fallback,
    }
}

/// The features that the shared store's answers make: the request itself does
/// not count, and the moment before is in milliseconds. Without a count the
/// store is of no use.
pub open spec fn store_features(count: Option<u64>, last_but_one: Option<i64>) -> Option<
    FrequencyFeatures,
> {
    match count {
        Some(n) => Some(
            FrequencyFeatures {
                count: if n == 0 {
                    0
                } else {
                    (n - 1) as u64
                },
                time_since: match last_but_one {
                    Some(milliseconds) => Some((milliseconds * 1_000_000) as i128),
                    None => None,
                },
            },
        ),
        None => None,
    }
}

/// The features that the shared store's answers make.
pub fn features_from_store(count: Option<u64>, last_but_one: Option<i64>) -> (r: Option<
    FrequencyFeatures,
>)
    ensures
        r == store_features(count, last_but_one),
{
    match count {
        Some(n) => Some(
            FrequencyFeatures {
                count: if n == 0 {
                    0
                } else {
                    n - 1
                },
                time_since: match last_but_one {
                    Some(milliseconds) => Some((milliseconds as i128) * 1_000_000),
                    None => None,
                },
            },
        ),
        None => None,
    }
}

/// The key under which the shared store keeps the moments of a client.
pub fn frequency_key(prefix: &str, ip: &str) -> (r: String)
    ensures
        r@ == prefix@ + ip@,
{
    let mut out = prefix.to_string();
    out.append(ip);
    out
}

/// How many seconds the shared store keeps a client: the window and a minute.
pub fn store_ttl(window_seconds: u64) -> (r: u64)
    requires
        window_seconds <= u64::MAX - 60,
    ensures
        r == window_seconds + 60,
{
    window_seconds + 60
}

/// The first request within a window counts nothing before it, and a second
/// one at the same moment counts one more.
pub proof fn law_requests_are_counted(moments: Seq<u64>, now: u64, window: u64)
    ensures
        recent(Seq::<u64>::empty(), now, window).len() == 0,
        recent(recent(moments, now, window).push(now), now, window).len() == recent(
            moments,
            now,
            window,
        ).len() + 1,
{
    let kept = recent(moments, now, window);
    assert(kept.push(now).drop_last() =~= kept);
    law_trimming_is_idempotent(moments, now, window);
}

/// What is within the window stays within it at the same moment.
pub proof fn law_trimming_is_idempotent(moments: Seq<u64>, now: u64, window: u64)
    ensures
        recent(recent(moments, now, window), now, window) == recent(moments, now, window),
    decreases moments.len(),
{
    if moments.len() > 0 {
        law_trimming_is_idempotent(moments.drop_last(), now, window);
        let before = recent(moments.drop_last(), now, window);
        if is_recent(moments.last(), now, window) {
            assert(before.push(moments.last()).drop_last() =~= before);
        }
    }
}

/// A sweep changes nothing of what later requests at that moment are told.
pub proof fn law_sweep_keeps_answers(
    seen: Map<Seq<char>, Seq<u64>>,
    key: Seq<char>,
    now: u64,
    window: u64,
)
    ensures
        recent(known_moments(swept(seen, now, window), key), now, window) == recent(
            known_moments(seen, key),
            now,
            window,
        ),
{
    if seen.dom().contains(key) {
        law_trimming_is_idempotent(seen[key], now, window);
        if recent(seen[key], now, window).len() == 0 {
            assert(recent(seen[key], now, window) =~= Seq::<u64>::empty());
        }
    }
}

} // verus!
