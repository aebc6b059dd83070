//! The blocklist: addresses that are blocked, and addresses that are flagged
//! with a reason. A shared store may answer in its place.
use vstd::prelude::*;
use crate::order;
use crate::origin;
use crate::origin::TrustedProxies;
use crate::text;
use crate::text_map::TextMap;

verus! {

/// The blocked and the flagged addresses that this process knows of.
#[derive(Debug)]
pub struct BlocklistState {
    blocked: TextMap<bool>,
    flagged: TextMap<String>,
}

/// How many addresses are blocked and flagged.
#[derive(Debug, Clone, Copy)]
pub struct BlocklistStats {
    pub blocked_count: usize,
    pub flagged_count: usize,
}

/// An action on an address, as a request names it.
#[derive(Debug)]
pub struct IpAction {
    pub ip: Option<String>,
    pub reason: Option<String>,
}

/// What a blocklist holds.
pub ghost struct BlocklistView {
    pub blocked: Set<Seq<char>>,
    pub flagged: Map<Seq<char>, Seq<char>>,
}

impl View for BlocklistState {
    type V = BlocklistView;

    closed spec fn view(&self) -> BlocklistView {
        BlocklistView {
            blocked: self.blocked@.dom(),
            flagged: self.flagged@.map_values(|reason: String| reason@),
        }
    }
}

impl BlocklistView {
    /// The list after an address was blocked: it is, unless it is none or a
    /// trusted proxy.
    pub open spec fn after_block(self, ip: Seq<char>, proxies: origin::ProxiesView) -> BlocklistView {
        if origin::is_blockable(ip, proxies) {
            BlocklistView { blocked: self.blocked.insert(ip), flagged: self.flagged }
        } else {
            self
        }
    }

    /// The list after an address was allowed.
    pub open spec fn after_allow(self, ip: Seq<char>) -> BlocklistView {
        BlocklistView { blocked: self.blocked.remove(ip), flagged: self.flagged }
    }

    /// The list after an address was flagged.
    pub open spec fn after_flag(self, ip: Seq<char>, reason: Seq<char>) -> BlocklistView {
        BlocklistView { blocked: self.blocked, flagged: self.flagged.insert(ip, reason) }
    }

    /// The list after the flag of an address was taken away.
    pub open spec fn after_unflag(self, ip: Seq<char>) -> BlocklistView {
        BlocklistView { blocked: self.blocked, flagged: self.flagged.remove(ip) }
    }
}

impl BlocklistState {
    /// Both lists are well formed.
    pub closed spec fn well_formed(&self) -> bool {
        self.blocked.well_formed() && self.flagged.well_formed()
    }

    /// A list that blocks and flags nothing.
    pub fn new() -> (r: BlocklistState)
        ensures
            r.well_formed(),
            r@ == (BlocklistView { blocked: Set::empty(), flagged: Map::empty() }),
    {
        let r = BlocklistState { blocked: TextMap::new(), flagged: TextMap::new() };
        assert(r@.flagged =~= Map::empty());
        assert(r@.blocked =~= Set::empty());
        r
    }

    /// Blocks an address, unless it is none or a trusted proxy; says whether it did.
    pub fn block(&mut self, ip: &str, proxies: &TrustedProxies) -> (r: bool)
        requires
            old(self).well_formed(),
        ensures
            final(self).well_formed(),
            r == origin::is_blockable(ip@, proxies@),
            final(self)@ == old(self)@.after_block(ip@, proxies@),
    {
        if !origin::is_blockable_client_ip(ip, proxies) {
            return false;
        }
        self.blocked.insert(ip, true);
        true
    }

    /// Blocks an address no longer.
    pub fn allow(&mut self, ip: &str)
        requires
            old(self).well_formed(),
        ensures
            final(self).well_formed(),
            final(self)@ == old(self)@.after_allow(ip@),
    {
        self.blocked.remove(ip);
    }

    /// Flags an address with a reason.
    pub fn flag(&mut self, ip: &str, reason: &str)
        requires
            old(self).well_formed(),
        ensures
            final(self).well_formed(),
            final(self)@ == old(self)@.after_flag(ip@, reason@),
    {
        self.flagged.insert(ip, reason.to_string());
        assert(self@.flagged =~= old(self)@.flagged.insert(ip@, reason@));
    }

    /// Takes the flag of an address away.
    pub fn unflag(&mut self, ip: &str)
        requires
            old(self).well_formed(),
        ensures
            final(self).well_formed(),
            final(self)@ == old(self)@.after_unflag(ip@),
    {
        self.flagged.remove(ip);
        assert(self@.flagged =~= old(self)@.flagged.remove(ip@));
    }

    /// Whether this process itself knows an address as blocked.
    pub fn knows(&self, ip: &str) -> (r: bool)
        requires
            self.well_formed(),
        ensures
            r == self@.blocked.contains(ip@),
    {
        self.blocked.has(ip)
    }

    /// Whether an address is blocked, here or in the shared store where that
    /// answered. What the shared store blocks is remembered here.
    pub fn contains(&mut self, ip: &str, shared: Option<bool>) -> (r: bool)
        requires
            old(self).well_formed(),
        ensures
            final(self).well_formed(),
            r == (old(self)@.blocked.contains(ip@) || shared == Some(true)),
            final(self)@.flagged == old(self)@.flagged,
            final(self)@.blocked == (if r {
                old(self)@.blocked.insert(ip@)
            } else {
                old(self)@.blocked
            }),
    {
        if self.blocked.has(ip) {
            assert(self@.blocked =~= old(self)@.blocked.insert(ip@));
            return true;
        }
        match shared {
            Some(true) => {
                self.blocked.insert(ip, true);
                true
            },
            _ => false,
        }
    }

    /// The blocked addresses in order: those of the shared store where it
    /// answered, else those of this process.
    pub fn blocked(&self, shared: Option<&Vec<String>>) -> (r: Vec<String>)
        requires
            self.well_formed(),
        ensures
            order::sorted(text::views(r@)),
            match shared {
                Some(entries) => order::is_rearranged(text::views(entries@), text::views(r@)),
                None => order::strictly_sorted(text::views(r@)) && text::views(r@).to_set()
                    == self@.blocked,
            },
    {
        match shared {
            Some(entries) => order::sort_texts(entries),
            None => {
                let r = self.blocked.keys();
                proof {
                    let list = text::views(r@);
                    assert forall|i: int, j: int| 0 <= i < j < list.len() implies !order::text_before(
                        #[trigger] list[j],
                        #[trigger] list[i],
                    ) by {
                        order::lemma_text_total(list[i], list[j]);
                    }
                }
                r
            },
        }
    }

    /// How many addresses are blocked and flagged, in the shared store where
    /// it answered, else here.
    pub fn stats(&self, shared: Option<BlocklistStats>) -> (r: BlocklistStats)
        requires
            self.well_formed(),
        ensures
            match shared {
                Some(counts) => r == counts,
                None => r.blocked_count == self@.blocked.len() && r.flagged_count
                    == self@.flagged.dom().len(),
            },
    {
        match shared {
            Some(counts) => counts,
            None => {
                assert(self@.flagged.dom() =~= self.flagged@.dom());
                BlocklistStats {
                    blocked_count: self.blocked.len(),
                    flagged_count: self.flagged.len(),
                }
            },
        }
    }
}

/// The key under which the shared store keeps the flag of an address.
pub fn flag_key(prefix: &str, ip: &str) -> (r: String)
    ensures
        r@ == prefix@ + ip@,
{
    let mut out = prefix.to_string();
    out.append(ip);
    out
}

/// The addresses of a list that may be blocked.
pub open spec fn blockable_of(
    ips: Seq<Seq<char>>,
    proxies: origin::ProxiesView,
) -> Seq<Seq<char>>
    decreases ips.len(),
{
    if ips.len() == 0 {
        Seq::empty()
    } else {
        let before = blockable_of(ips.drop_last(), proxies);
        if origin::is_blockable(ips.last(), proxies) {
            before.push(ips.last())
        } else {
            before
        }
    }
}

/// Blocks every address of a list that may be blocked; says how many those were.
pub fn block_all(state: &mut BlocklistState, ips: &Vec<String>, proxies: &TrustedProxies) -> (r:
    usize)
    requires
        old(state).well_formed(),
    ensures
        final(state).well_formed(),
        r == blockable_of(text::views(ips@), proxies@).len(),
        r <= ips@.len(),
        final(state)@.flagged == old(state)@.flagged,
        final(state)@.blocked == old(state)@.blocked.union(
            blockable_of(text::views(ips@), proxies@).to_set(),
        ),
{
    let ghost views = text::views(ips@);
    let ghost start = state@.blocked;
    let mut accepted: usize = 0;
    let mut i: usize = 0;
    assert(views.take(0).len() == 0);
    assert(start =~= start.union(blockable_of(views.take(0), proxies@).to_set()));
    while i < ips.len()
        invariant
            i <= ips@.len(),
            state.well_formed(),
            views == text::views(ips@),
            state@.flagged == old(state)@.flagged,
            start == old(state)@.blocked,
            accepted == blockable_of(views.take(i as int), proxies@).len(),
            accepted <= i,
            state@.blocked == start.union(blockable_of(views.take(i as int), proxies@).to_set()),
        decreases ips@.len() - i,
    {
        let ghost before = blockable_of(views.take(i as int), proxies@);
        let ghost now = views.take(i + 1);
        let ghost known = state@.blocked;
        assert(now.drop_last() =~= views.take(i as int));
        assert(now.last() == ips@[i as int]@);
        if state.block(ips[i].as_str(), proxies) {
            accepted += 1;
            proof {
                let after = before.push(ips@[i as int]@);
                assert(blockable_of(now, proxies@) == after);
                assert(after.to_set() =~= before.to_set().insert(ips@[i as int]@)) by {
                    assert forall|s: Seq<char>| before.to_set().insert(
                        ips@[i as int]@,
                    ).contains(s) implies after.to_set().contains(s) by {
                        if s == ips@[i as int]@ {
                            assert(after[before.len() as int] == s);
                        } else {
                            let k = choose|k: int| 0 <= k < before.len() && before[k] == s;
                            assert(after[k] == s);
                        }
                    }
                }
                assert(state@.blocked =~= start.union(after.to_set()));
            }
        }
        i += 1;
    }
    assert(views.take(i as int) =~= views);
    accepted
}

/// Allowing an address undoes blocking it: an address that may be blocked is
/// blocked in between, and the list is then as it was, but for that address.
pub proof fn law_block_then_allow(
    before: BlocklistView,
    ip: Seq<char>,
    proxies: origin::ProxiesView,
)
    ensures
        origin::is_blockable(ip, proxies) ==> before.after_block(ip, proxies).blocked.contains(ip),
        before.after_block(ip, proxies).after_allow(ip) == before.after_allow(ip),
        !before.blocked.contains(ip) ==> before.after_block(ip, proxies).after_allow(ip) == before,
{
    assert(before.blocked.insert(ip).remove(ip) =~= before.blocked.remove(ip));
    assert(!before.blocked.contains(ip) ==> before.blocked.remove(ip) =~= before.blocked);
}

/// Taking a flag away undoes flagging: an address is flagged with the reason in
/// between, and the list is then as it was, but for that address.
pub proof fn law_flag_then_unflag(before: BlocklistView, ip: Seq<char>, reason: Seq<char>)
    ensures
        before.after_flag(ip, reason).flagged.contains_pair(ip, reason),
        before.after_flag(ip, reason).after_unflag(ip) == before.after_unflag(ip),
        !before.flagged.contains_key(ip) ==> before.after_flag(ip, reason).after_unflag(ip)
            == before,
{
    assert(before.flagged.insert(ip, reason).remove(ip) =~= before.flagged.remove(ip));
    assert(!before.flagged.contains_key(ip) ==> before.flagged.remove(ip) =~= before.flagged);
}

/// Nothing but addresses outside the trusted proxies is ever added by a list of
/// addresses, however it was written.
pub proof fn law_only_blockable_addresses_are_added(
    ips: Seq<Seq<char>>,
    proxies: origin::ProxiesView,
)
    ensures
        forall|i: int|
            0 <= i < blockable_of(ips, proxies).len() ==> origin::is_blockable(
                #[trigger] blockable_of(ips, proxies)[i],
                proxies,
            ) && ips.contains(blockable_of(ips, proxies)[i]),
    decreases ips.len(),
{
    if ips.len() > 0 {
        law_only_blockable_addresses_are_added(ips.drop_last(), proxies);
        let before = blockable_of(ips.drop_last(), proxies);
        let list = blockable_of(ips, proxies);
        assert forall|i: int| 0 <= i < list.len() implies origin::is_blockable(
            #[trigger] list[i],
            proxies,
        ) && ips.contains(list[i]) by {
            if i < before.len() {
                assert(list[i] == before[i]);
                let k = choose|k: int| 0 <= k < ips.drop_last().len() && ips.drop_last()[k]
                    == before[i];
                assert(ips[k] == list[i]);
            } else {
                assert(ips[ips.len() - 1] == list[i]);
            }
        }
    }
}

} // verus!
