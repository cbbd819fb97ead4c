//! An in-memory store of subscriptions, endpoints and their links, with the
//! join that yields each feed's active endpoints.
use vstd::prelude::*;
use crate::models::{EndpointKind, EndpointRow, SubscriptionRow};
use crate::store::FeedMapping;

verus! {

/// Why a store operation was refused.
#[derive(Debug, Clone, PartialEq, Eq)]
pub enum StoreError {
    /// No endpoint has this id.
    EndpointNotFound(i64),
    /// Every id has been handed out.
    IdsExhausted,
}

/// The first subscription with the id, if any.
pub open spec fn first_sub(s: Seq<SubscriptionRow>, id: i64) -> Option<SubscriptionRow>
    decreases s.len(),
{
    if s.len() == 0 {
        None
    } else {
        match first_sub(s.drop_last(), id) {
            Some(x) => Some(x),
            None => if s.last().id == id { Some(s.last()) } else { None },
        }
    }
}

/// The first active endpoint with the id, if any.
pub open spec fn first_active(s: Seq<EndpointRow>, id: i64) -> Option<EndpointRow>
    decreases s.len(),
{
    if s.len() == 0 {
        None
    } else {
        match first_active(s.drop_last(), id) {
            Some(x) => Some(x),
            None => if s.last().id == id && s.last().active { Some(s.last()) } else { None },
        }
    }
}

/// For each link whose subscription exists and whose endpoint exists and is
/// active, in link order: the subscription's feed and the endpoint.
pub open spec fn joined_links(
    links: Seq<(i64, i64)>,
    subs: Seq<SubscriptionRow>,
    eps: Seq<EndpointRow>,
) -> Seq<(String, EndpointRow)>
    decreases links.len(),
{
    if links.len() == 0 {
        Seq::empty()
    } else {
        let p = joined_links(links.drop_last(), subs, eps);
        match (first_sub(subs, links.last().0), first_active(eps, links.last().1)) {
            (Some(s), Some(e)) => p.push((s.subreddit, e)),
            _ => p,
        }
    }
}

proof fn lemma_first_sub_found(s: Seq<SubscriptionRow>, k: int, id: i64)
    requires
        0 <= k < s.len(),
        first_sub(s.subrange(0, k), id) is None,
        s[k].id == id,
    ensures
        first_sub(s, id) == Some(s[k]),
    decreases s.len() - k,
{
    assert(s.subrange(0, k + 1).drop_last() =~= s.subrange(0, k));
    lemma_first_sub_extends(s, k + 1, s[k]);
}

proof fn lemma_first_sub_extends(s: Seq<SubscriptionRow>, k: int, x: SubscriptionRow)
    requires
        0 < k <= s.len(),
        first_sub(s.subrange(0, k), x.id) == Some(x),
    ensures
        first_sub(s, x.id) == Some(x),
    decreases s.len() - k,
{
    if k == s.len() {
        assert(s.subrange(0, k) =~= s);
    } else {
        assert(s.subrange(0, k + 1).drop_last() =~= s.subrange(0, k));
        lemma_first_sub_extends(s, k + 1, x);
    }
}

proof fn lemma_first_active_found(s: Seq<EndpointRow>, k: int, id: i64)
    requires
        0 <= k < s.len(),
        first_active(s.subrange(0, k), id) is None,
        s[k].id == id,
        s[k].active,
    ensures
        first_active(s, id) == Some(s[k]),
    decreases s.len() - k,
{
    assert(s.subrange(0, k + 1).drop_last() =~= s.subrange(0, k));
    lemma_first_active_extends(s, k + 1, id, s[k]);
}

proof fn lemma_first_active_extends(s: Seq<EndpointRow>, k: int, id: i64, x: EndpointRow)
    requires
        0 < k <= s.len(),
        first_active(s.subrange(0, k), id) == Some(x),
    ensures
        first_active(s, id) == Some(x),
    decreases s.len() - k,
{
    if k == s.len() {
        assert(s.subrange(0, k) =~= s);
    } else {
        assert(s.subrange(0, k + 1).drop_last() =~= s.subrange(0, k));
        lemma_first_active_extends(s, k + 1, id, x);
    }
}

/// Subscriptions, endpoints, the links between them, and the next id to hand out.
#[derive(Debug)]
pub struct MemoryStore {
    pub subscriptions: Vec<SubscriptionRow>,
    pub endpoints: Vec<EndpointRow>,
    pub links: Vec<(i64, i64)>,
    pub next_id: i64,
}

impl MemoryStore {
    /// An empty store; ids start at 1.
    pub fn new() -> (r: MemoryStore)
        ensures
            r.subscriptions@.len() == 0,
            r.endpoints@.len() == 0,
            r.links@.len() == 0,
            r.next_id == 1,
    {
        MemoryStore { subscriptions: Vec::new(), endpoints: Vec::new(), links: Vec::new(), next_id: 1 }
    }

    fn take_id(&mut self) -> (r: Result<i64, StoreError>)
        ensures
            old(self).next_id < i64::MAX ==> r == Ok::<i64, StoreError>(old(self).next_id) && final(self).next_id == old(self).next_id + 1,
            old(self).next_id == i64::MAX ==> r == Err::<i64, StoreError>(StoreError::IdsExhausted) && final(self).next_id == old(self).next_id,
            final(self).subscriptions == old(self).subscriptions,
            final(self).endpoints == old(self).endpoints,
            final(self).links == old(self).links,
    {
        if self.next_id == i64::MAX {
            return Err(StoreError::IdsExhausted);
        }
        let id = self.next_id;
        self.next_id = id + 1;
        Ok(id)
    }

    /// Adds a subscription to a feed under a fresh id.
    pub fn create_subscription(&mut self, subreddit: &str, created_at: &str) -> (r: Result<i64, StoreError>)
        ensures
            old(self).next_id < i64::MAX ==> r == Ok::<i64, StoreError>(old(self).next_id)
                && final(self).subscriptions@ == old(self).subscriptions@.push(
                    SubscriptionRow { id: old(self).next_id, subreddit: final(self).subscriptions@.last().subreddit, created_at: final(self).subscriptions@.last().created_at },
                ) && final(self).subscriptions@.last().subreddit@ == subreddit@
                && final(self).subscriptions@.last().created_at@ == created_at@,
            old(self).next_id == i64::MAX ==> r == Err::<i64, StoreError>(StoreError::IdsExhausted)
                && final(self).subscriptions@ == old(self).subscriptions@,
            final(self).endpoints@ == old(self).endpoints@,
            final(self).links@ == old(self).links@,
    {
        let id = match self.take_id() {
            Ok(id) => id,
            Err(e) => return Err(e),
        };
        self.subscriptions.push(SubscriptionRow {
            id,
            subreddit: String::from_str(subreddit),
            created_at: String::from_str(created_at),
        });
        Ok(id)
    }

    /// Adds an active endpoint of the named kind under a fresh id.
    pub fn create_endpoint(&mut self, kind: EndpointKind, config_json: &str, note: Option<String>) -> (r: Result<i64, StoreError>)
        ensures
            old(self).next_id < i64::MAX ==> r == Ok::<i64, StoreError>(old(self).next_id)
                && final(self).endpoints@ == old(self).endpoints@.push(final(self).endpoints@.last())
                && final(self).endpoints@.last().id == old(self).next_id
                && final(self).endpoints@.last().kind == kind
                && final(self).endpoints@.last().config_json@ == config_json@
                && final(self).endpoints@.last().active
                && final(self).endpoints@.last().note == note,
            old(self).next_id == i64::MAX ==> r == Err::<i64, StoreError>(StoreError::IdsExhausted)
                && final(self).endpoints@ == old(self).endpoints@,
            final(self).subscriptions@ == old(self).subscriptions@,
            final(self).links@ == old(self).links@,
    {
        let id = match self.take_id() {
            Ok(id) => id,
            Err(e) => return Err(e),
        };
        self.endpoints.push(EndpointRow { id, kind, config_json: String::from_str(config_json), active: true, note });
        Ok(id)
    }

    /// Links a subscription to an endpoint, unless already linked.
    pub fn link_subscription_endpoint(&mut self, subscription_id: i64, endpoint_id: i64)
        ensures
            old(self).links@.contains((subscription_id, endpoint_id)) ==> final(self).links@ == old(self).links@,
            !old(self).links@.contains((subscription_id, endpoint_id)) ==> final(self).links@ == old(self).links@.push((subscription_id, endpoint_id)),
            final(self).subscriptions@ == old(self).subscriptions@,
            final(self).endpoints@ == old(self).endpoints@,
    {
        let mut k: usize = 0;
        while k < self.links.len()
            invariant
                k <= self.links@.len(),
                forall|t: int| 0 <= t < k ==> self.links@[t] != (subscription_id, endpoint_id),
            decreases self.links@.len() - k,
        {
            if self.links[k].0 == subscription_id && self.links[k].1 == endpoint_id {
                assert(self.links@[k as int] == (subscription_id, endpoint_id));
                return;
            }
            k = k + 1;
        }
        self.links.push((subscription_id, endpoint_id));
    }

    /// Removes every link between the subscription and the endpoint.
    pub fn unlink_subscription_endpoint(&mut self, subscription_id: i64, endpoint_id: i64)
        ensures
            final(self).links@ == old(self).links@.filter(|l: (i64, i64)| l != (subscription_id, endpoint_id)),
            final(self).subscriptions@ == old(self).subscriptions@,
            final(self).endpoints@ == old(self).endpoints@,
    {
        let mut kept: Vec<(i64, i64)> = Vec::new();
        let mut k: usize = 0;
        while k < self.links.len()
            invariant
                k <= self.links@.len(),
                kept@ == self.links@.subrange(0, k as int).filter(|l: (i64, i64)| l != (subscription_id, endpoint_id)),
            decreases self.links@.len() - k,
        {
            let l = self.links[k];
            proof {
                let pre = self.links@.subrange(0, k as int);
                assert(self.links@.subrange(0, k + 1) =~= pre.push(l));
                pre.lemma_filter_push(l, |l: (i64, i64)| l != (subscription_id, endpoint_id));
            }
            if !(l.0 == subscription_id && l.1 == endpoint_id) {
                kept.push(l);
            }
            k = k + 1;
        }
        proof {
            assert(self.links@.subrange(0, self.links@.len() as int) =~= self.links@);
        }
        self.links = kept;
    }

    /// Removes a subscription and every link from it.
    pub fn delete_subscription(&mut self, id: i64)
        ensures
            final(self).subscriptions@ == old(self).subscriptions@.filter(|s: SubscriptionRow| s.id != id),
            final(self).links@ == old(self).links@.filter(|l: (i64, i64)| l.0 != id),
            final(self).endpoints@ == old(self).endpoints@,
    {
        let mut kept: Vec<SubscriptionRow> = Vec::new();
        let mut k: usize = 0;
        while k < self.subscriptions.len()
            invariant
                k <= self.subscriptions@.len(),
                kept@ == self.subscriptions@.subrange(0, k as int).filter(|s: SubscriptionRow| s.id != id),
            decreases self.subscriptions@.len() - k,
        {
            proof {
                let pre = self.subscriptions@.subrange(0, k as int);
                assert(self.subscriptions@.subrange(0, k + 1) =~= pre.push(self.subscriptions@[k as int]));
                pre.lemma_filter_push(self.subscriptions@[k as int], |s: SubscriptionRow| s.id != id);
            }
            if self.subscriptions[k].id != id {
                kept.push(self.subscriptions[k].clone());
            }
            k = k + 1;
        }
        proof {
            assert(self.subscriptions@.subrange(0, self.subscriptions@.len() as int) =~= self.subscriptions@);
        }
        self.subscriptions = kept;
        let mut links: Vec<(i64, i64)> = Vec::new();
        let mut j: usize = 0;
        while j < self.links.len()
            invariant
                j <= self.links@.len(),
                links@ == self.links@.subrange(0, j as int).filter(|l: (i64, i64)| l.0 != id),
            decreases self.links@.len() - j,
        {
            let l = self.links[j];
            proof {
                let pre = self.links@.subrange(0, j as int);
                assert(self.links@.subrange(0, j + 1) =~= pre.push(l));
                pre.lemma_filter_push(l, |l: (i64, i64)| l.0 != id);
            }
            if l.0 != id {
                links.push(l);
            }
            j = j + 1;
        }
        proof {
            assert(self.links@.subrange(0, self.links@.len() as int) =~= self.links@);
        }
        self.links = links;
    }

    /// Flips an endpoint's active flag and returns the new value.
    pub fn toggle_endpoint_active(&mut self, id: i64) -> (r: Result<bool, StoreError>)
        ensures
            final(self).subscriptions@ == old(self).subscriptions@,
            final(self).links@ == old(self).links@,
            final(self).endpoints@.len() == old(self).endpoints@.len(),
            (forall|t: int| 0 <= t < old(self).endpoints@.len() ==> old(self).endpoints@[t].id != id) ==>
                r == Err::<bool, StoreError>(StoreError::EndpointNotFound(id)) && final(self).endpoints@ == old(self).endpoints@,
            r is Ok ==> exists|k: int| 0 <= k < old(self).endpoints@.len() && old(self).endpoints@[k].id == id
                && (forall|t: int| 0 <= t < k ==> old(self).endpoints@[t].id != id)
                && final(self).endpoints@ == old(self).endpoints@.update(k, EndpointRow { active: !old(self).endpoints@[k].active, ..old(self).endpoints@[k] })
                && r == Ok::<bool, StoreError>(!old(self).endpoints@[k].active),
    {
        let mut k: usize = 0;
        while k < self.endpoints.len()
            invariant
                k <= self.endpoints@.len(),
                self.endpoints@ == old(self).endpoints@,
                self.subscriptions@ == old(self).subscriptions@,
                self.links@ == old(self).links@,
                forall|t: int| 0 <= t < k ==> self.endpoints@[t].id != id,
            decreases self.endpoints@.len() - k,
        {
            if self.endpoints[k].id == id {
                let e = self.endpoints[k].clone();
                let flipped = EndpointRow { active: !e.active, ..e };
                let now_active = flipped.active;
                self.endpoints.set(k, flipped);
                return Ok(now_active);
            }
            k = k + 1;
        }
        Err(StoreError::EndpointNotFound(id))
    }

    fn find_sub(&self, id: i64) -> (r: Option<usize>)
        ensures
            first_sub(self.subscriptions@, id) is None <==> r is None,
            r matches Some(k) ==> k < self.subscriptions@.len() && first_sub(self.subscriptions@, id) == Some(self.subscriptions@[k as int]),
    {
        let mut k: usize = 0;
        while k < self.subscriptions.len()
            invariant
                k <= self.subscriptions@.len(),
                first_sub(self.subscriptions@.subrange(0, k as int), id) is None,
            decreases self.subscriptions@.len() - k,
        {
            if self.subscriptions[k].id == id {
                proof {
                    lemma_first_sub_found(self.subscriptions@, k as int, id);
                }
                return Some(k);
            }
            proof {
                assert(self.subscriptions@.subrange(0, k + 1).drop_last() =~= self.subscriptions@.subrange(0, k as int));
            }
            k = k + 1;
        }
        proof {
            assert(self.subscriptions@.subrange(0, k as int) =~= self.subscriptions@);
        }
        None
    }

    fn find_active(&self, id: i64) -> (r: Option<usize>)
        ensures
            first_active(self.endpoints@, id) is None <==> r is None,
            r matches Some(k) ==> k < self.endpoints@.len() && first_active(self.endpoints@, id) == Some(self.endpoints@[k as int]),
    {
        let mut k: usize = 0;
        while k < self.endpoints.len()
            invariant
                k <= self.endpoints@.len(),
                first_active(self.endpoints@.subrange(0, k as int), id) is None,
            decreases self.endpoints@.len() - k,
        {
            if self.endpoints[k].id == id && self.endpoints[k].active {
                proof {
                    lemma_first_active_found(self.endpoints@, k as int, id);
                }
                return Some(k);
            }
            proof {
                assert(self.endpoints@.subrange(0, k + 1).drop_last() =~= self.endpoints@.subrange(0, k as int));
            }
            k = k + 1;
        }
        proof {
            assert(self.endpoints@.subrange(0, k as int) =~= self.endpoints@);
        }
        None
    }

    /// Every active feed-to-endpoint link, in link order.
    pub fn endpoint_mapping(&self) -> (r: FeedMapping)
        ensures
            r.entries@ == joined_links(self.links@, self.subscriptions@, self.endpoints@),
    {
        let mut entries: Vec<(String, EndpointRow)> = Vec::new();
        let mut i: usize = 0;
        while i < self.links.len()
            invariant
                i <= self.links@.len(),
                entries@ == joined_links(self.links@.subrange(0, i as int), self.subscriptions@, self.endpoints@),
            decreases self.links@.len() - i,
        {
            let (sid, eid) = self.links[i];
            proof {
                assert(self.links@.subrange(0, i + 1).drop_last() =~= self.links@.subrange(0, i as int));
            }
            match (self.find_sub(sid), self.find_active(eid)) {
                (Some(a), Some(b)) => {
                    entries.push((self.subscriptions[a].subreddit.clone(), self.endpoints[b].clone()));
                },
                _ => {},
            }
            i = i + 1;
        }
        proof {
            assert(self.links@.subrange(0, self.links@.len() as int) =~= self.links@);
        }
        FeedMapping { entries }
    }
}

} // verus!
