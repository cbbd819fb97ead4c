//! The dedup ledger and the feed-to-endpoint mapping, and the per-item
//! decision that ties them to the freshness window.
use vstd::prelude::*;
use crate::models::{EndpointKind, EndpointRow, kind_of_name, clone_opt_string, opt_view};
use crate::poller::{
    RedditPost, REDDIT_BASE, is_within_window, spec_within_window, post_url, spec_post_url,
    alert_title, spec_alert_title, unique_endpoints, first_by_id,
};
use crate::text::{decode_entities, html_decoded};

verus! {

/// One row of the joined subscription/endpoint listing, kind still as stored text.
#[derive(Debug, Clone)]
pub struct MappingRow {
    pub subreddit: String,
    pub id: i64,
    pub kind: String,
    pub config_json: String,
    pub active: bool,
    pub note: Option<String>,
}

/// The endpoint record that a row describes, once its kind is known.
pub open spec fn endpoint_of(r: MappingRow, k: EndpointKind) -> EndpointRow {
    EndpointRow { id: r.id, kind: k, config_json: r.config_json, active: r.active, note: r.note }
}

/// The (feed, endpoint) pairs of the rows that are active and whose kind parses, in order.
pub open spec fn usable_rows(rows: Seq<MappingRow>) -> Seq<(String, EndpointRow)>
    decreases rows.len(),
{
    if rows.len() == 0 {
        Seq::empty()
    } else {
        let p = usable_rows(rows.drop_last());
        let r = rows.last();
        match kind_of_name(r.kind@) {
            Some(k) => if r.active { p.push((r.subreddit, endpoint_of(r, k))) } else { p },
            None => p,
        }
    }
}

/// The endpoints mapped to a feed, in order.
pub open spec fn endpoints_for(entries: Seq<(String, EndpointRow)>, feed: Seq<char>) -> Seq<EndpointRow>
    decreases entries.len(),
{
    if entries.len() == 0 {
        Seq::empty()
    } else {
        let p = endpoints_for(entries.drop_last(), feed);
        if entries.last().0@ == feed { p.push(entries.last().1) } else { p }
    }
}

/// Every active feed-to-endpoint link of one poll cycle.
#[derive(Debug)]
pub struct FeedMapping {
    pub entries: Vec<(String, EndpointRow)>,
}

impl FeedMapping {
    /// Groups the joined rows by feed; a row with an unknown kind, or an
    /// inactive endpoint, is left out on its own without affecting the others.
    pub fn from_rows(rows: &Vec<MappingRow>) -> (r: FeedMapping)
        ensures
            r.entries@ == usable_rows(rows@),
    {
        let mut entries: Vec<(String, EndpointRow)> = Vec::new();
        let mut i: usize = 0;
        while i < rows.len()
            invariant
                i <= rows@.len(),
                entries@ == usable_rows(rows@.subrange(0, i as int)),
            decreases rows@.len() - i,
        {
            let row = &rows[i];
            proof {
                assert(rows@.subrange(0, i + 1).drop_last() =~= rows@.subrange(0, i as int));
            }
            match EndpointKind::parse(row.kind.as_str()) {
                Ok(kind) => {
                    if row.active {
                        let ep = EndpointRow {
                            id: row.id,
                            kind,
                            config_json: row.config_json.clone(),
                            active: row.active,
                            note: clone_opt_string(&row.note),
                        };
                        entries.push((row.subreddit.clone(), ep));
                    }
                },
                Err(_) => {},
            }
            i = i + 1;
        }
        proof {
            assert(rows@.subrange(0, rows@.len() as int) =~= rows@);
        }
        FeedMapping { entries }
    }

    /// The endpoints of a feed; `None` when the feed has none.
    pub fn lookup(&self, feed: &str) -> (r: Option<Vec<EndpointRow>>)
        ensures
            r is None <==> endpoints_for(self.entries@, feed@).len() == 0,
            r matches Some(v) ==> v@ == endpoints_for(self.entries@, feed@),
    {
        let target = String::from_str(feed);
        let mut out: Vec<EndpointRow> = Vec::new();
        let mut i: usize = 0;
        while i < self.entries.len()
            invariant
                i <= self.entries@.len(),
                target@ == feed@,
                out@ == endpoints_for(self.entries@.subrange(0, i as int), feed@),
            decreases self.entries@.len() - i,
        {
            proof {
                assert(self.entries@.subrange(0, i + 1).drop_last() =~= self.entries@.subrange(0, i as int));
            }
            if self.entries[i].0 == target {
                out.push(self.entries[i].1.clone());
            }
            i = i + 1;
        }
        proof {
            assert(self.entries@.subrange(0, self.entries@.len() as int) =~= self.entries@);
        }
        if out.len() == 0 {
            None
        } else {
            Some(out)
        }
    }
}

/// The feed names of a sequence of texts, as character sequences.
pub open spec fn feed_names(entries: Seq<(String, EndpointRow)>) -> Seq<Seq<char>> {
    entries.map_values(|e: (String, EndpointRow)| e.0@)
}

impl FeedMapping {
    /// The distinct feeds that have at least one active endpoint, in order of
    /// first appearance.
    pub fn feeds(&self) -> (r: Vec<String>)
        ensures
            forall|a: int, b: int| 0 <= a < b < r@.len() ==> r@[a]@ != r@[b]@,
            forall|f: Seq<char>| (exists|k: int| 0 <= k < r@.len() && r@[k]@ == f) <==> feed_names(self.entries@).contains(f),
    {
        let mut out: Vec<String> = Vec::new();
        let mut i: usize = 0;
        while i < self.entries.len()
            invariant
                i <= self.entries@.len(),
                forall|a: int, b: int| 0 <= a < b < out@.len() ==> out@[a]@ != out@[b]@,
                forall|f: Seq<char>| (exists|k: int| 0 <= k < out@.len() && out@[k]@ == f) <==>
                    feed_names(self.entries@.subrange(0, i as int)).contains(f),
            decreases self.entries@.len() - i,
        {
            let name = &self.entries[i].0;
            let mut seen = false;
            let mut k: usize = 0;
            while k < out.len()
                invariant
                    k <= out@.len(),
                    seen == (exists|t: int| 0 <= t < k && out@[t]@ == name@),
                decreases out@.len() - k,
            {
                if out[k] == *name {
                    seen = true;
                }
                k = k + 1;
            }
            let ghost pre = feed_names(self.entries@.subrange(0, i as int));
            let ghost nxt = feed_names(self.entries@.subrange(0, i + 1));
            proof {
                assert(nxt =~= pre.push(name@));
            }
            let ghost old_out = out@;
            if !seen {
                out.push(name.clone());
            }
            proof {
                assert forall|f: Seq<char>| (exists|k: int| 0 <= k < out@.len() && out@[k]@ == f) <==> nxt.contains(f) by {
                    if exists|k: int| 0 <= k < out@.len() && out@[k]@ == f {
                        let k = choose|k: int| 0 <= k < out@.len() && out@[k]@ == f;
                        if k < old_out.len() {
                            assert(old_out[k]@ == f);
                            assert(exists|k2: int| 0 <= k2 < old_out.len() && old_out[k2]@ == f);
                            assert(pre.contains(f));
                            let t = choose|t: int| 0 <= t < pre.len() && pre[t] == f;
                            assert(nxt[t] == f);
                        } else {
                            assert(nxt[pre.len() as int] == f);
                        }
                    }
                    if nxt.contains(f) {
                        let t = choose|t: int| 0 <= t < nxt.len() && nxt[t] == f;
                        if t < pre.len() {
                            assert(pre[t] == f);
                            assert(pre.contains(f));
                            let k = choose|k: int| 0 <= k < old_out.len() && old_out[k]@ == f;
                            assert(out@[k]@ == f);
                        } else if !seen {
                            assert(out@[old_out.len() as int]@ == f);
                        } else {
                            let k = choose|k: int| 0 <= k < old_out.len() && old_out[k]@ == name@;
                            assert(out@[k]@ == f);
                        }
                    }
                }
            }
            i = i + 1;
        }
        proof {
            assert(self.entries@.subrange(0, self.entries@.len() as int) =~= self.entries@);
        }
        out
    }
}

/// One ledger row: an item of a feed that was already notified.
#[derive(Debug, Clone)]
pub struct LedgerRecord {
    pub feed: String,
    pub item_id: String,
    pub first_seen_ms: i64,
}

/// The (feed, item) key of each row.
pub open spec fn record_keys(s: Seq<LedgerRecord>) -> Seq<(Seq<char>, Seq<char>)> {
    s.map_values(|r: LedgerRecord| (r.feed@, r.item_id@))
}

/// How many entries of `s` equal `k`.
pub open spec fn count_of(s: Seq<(Seq<char>, Seq<char>)>, k: (Seq<char>, Seq<char>)) -> nat
    decreases s.len(),
{
    if s.len() == 0 {
        0
    } else {
        count_of(s.drop_last(), k) + if s.last() == k { 1nat } else { 0nat }
    }
}

/// The at-most-once ledger of notified items.
#[derive(Debug)]
pub struct Ledger {
    pub records: Vec<LedgerRecord>,
}

impl Ledger {
    pub open spec fn keys(&self) -> Seq<(Seq<char>, Seq<char>)> {
        record_keys(self.records@)
    }

    /// No (feed, item) pair is recorded twice.
    pub open spec fn wf(&self) -> bool {
        self.keys().no_duplicates()
    }

    pub open spec fn has(&self, feed: Seq<char>, id: Seq<char>) -> bool {
        self.keys().contains((feed, id))
    }

    /// What one `record_if_new` call does: it answers whether the pair was
    /// absent, and afterwards the pair is recorded exactly once.
    pub open spec fn recorded(pre: Ledger, feed: Seq<char>, id: Seq<char>, post: Ledger, r: bool) -> bool {
        &&& r == !pre.has(feed, id)
        &&& post.keys() == if r { pre.keys().push((feed, id)) } else { pre.keys() }
        &&& post.wf()
    }

    pub fn new() -> (r: Ledger)
        ensures
            r.wf(),
            r.keys().len() == 0,
    {
        Ledger { records: Vec::new() }
    }

    /// Whether the pair is already in the ledger.
    pub fn contains(&self, feed: &str, id: &str) -> (r: bool)
        ensures
            r == self.has(feed@, id@),
    {
        let f = String::from_str(feed);
        let d = String::from_str(id);
        let mut i: usize = 0;
        while i < self.records.len()
            invariant
                i <= self.records@.len(),
                f@ == feed@,
                d@ == id@,
                forall|t: int| 0 <= t < i ==> #[trigger] self.keys()[t] != (feed@, id@),
            decreases self.records@.len() - i,
        {
            if self.records[i].feed == f && self.records[i].item_id == d {
                assert(self.keys()[i as int] == (feed@, id@));
                return true;
            }
            i = i + 1;
        }
        false
    }

    /// Records (feed, id) first seen at `now_ms`; true only when it was not there before.
    pub fn record_if_new(&mut self, feed: &str, id: &str, now_ms: i64) -> (r: bool)
        requires
            old(self).wf(),
        ensures
            Ledger::recorded(*old(self), feed@, id@, *final(self), r),
    {
        if self.contains(feed, id) {
            return false;
        }
        let ghost before = self.keys();
        self.records.push(LedgerRecord { feed: String::from_str(feed), item_id: String::from_str(id), first_seen_ms: now_ms });
        proof {
            assert(self.keys() =~= before.push((feed@, id@)));
            assert forall|a: int, b: int| 0 <= a < self.keys().len() && 0 <= b < self.keys().len() && a != b
                implies self.keys()[a] != self.keys()[b] by {
                if b == before.len() {
                    assert(before[a] == self.keys()[a]);
                } else if a == before.len() {
                    assert(before[b] == self.keys()[b]);
                }
            }
        }
        true
    }
}

/// A duplicate-free sequence counts each of its members once.
pub proof fn lemma_count_unique(s: Seq<(Seq<char>, Seq<char>)>, k: (Seq<char>, Seq<char>))
    requires
        s.no_duplicates(),
    ensures
        count_of(s, k) == if s.contains(k) { 1nat } else { 0nat },
    decreases s.len(),
{
    if s.len() > 0 {
        let p = s.drop_last();
        assert(p.no_duplicates());
        lemma_count_unique(p, k);
        if s.last() == k {
            if p.contains(k) {
                let t = choose|t: int| 0 <= t < p.len() && p[t] == k;
                assert(s[t] == s[s.len() - 1]);
            }
        }
        if s.contains(k) && s.last() != k {
            let t = choose|t: int| 0 <= t < s.len() && s[t] == k;
            assert(p[t] == k);
        }
        if p.contains(k) {
            let t = choose|t: int| 0 <= t < p.len() && p[t] == k;
            assert(s[t] == k);
        }
    }
}

/// Dedup idempotence: recording a new (feed, item) pair twice answers true,
/// then false, and leaves exactly one row for it in the ledger.
pub proof fn lemma_record_twice(l0: Ledger, l1: Ledger, l2: Ledger, feed: Seq<char>, id: Seq<char>, r1: bool, r2: bool)
    requires
        l0.wf(),
        !l0.has(feed, id),
        Ledger::recorded(l0, feed, id, l1, r1),
        Ledger::recorded(l1, feed, id, l2, r2),
    ensures
        r1,
        !r2,
        count_of(l2.keys(), (feed, id)) == 1,
{
    assert(l1.keys()[l1.keys().len() - 1] == (feed, id));
    assert(l1.has(feed, id));
    lemma_count_unique(l2.keys(), (feed, id));
}

/// What is sent for one new item: the alert heading, the decoded title, the
/// item's address and the distinct endpoints of its feed.
#[derive(Debug)]
pub struct Delivery {
    pub feed: String,
    pub heading: String,
    pub title: String,
    pub url: String,
    pub endpoints: Vec<EndpointRow>,
}

/// What becomes of one item of a listing.
#[derive(Debug)]
pub enum ItemOutcome {
    /// Outside the 24-hour window.
    Stale,
    /// Already in the ledger.
    AlreadyNotified,
    /// Its feed has no active endpoint in this cycle's mapping.
    NoEndpoints,
    /// To be delivered.
    Notify(Delivery),
}

/// The delivery that a new item of a feed with endpoints `eps` gets.
pub open spec fn delivery_matches(d: Delivery, post: RedditPost, eps: Seq<EndpointRow>) -> bool {
    &&& d.feed@ == post.subreddit@
    &&& d.heading@ == spec_alert_title(post.subreddit@)
    &&& d.title@ == html_decoded(post.title@)
    &&& d.url@ == spec_post_url(REDDIT_BASE@, post.subreddit@, post.id@, opt_view(post.permalink), opt_view(post.url))
    &&& d.endpoints@ == first_by_id(eps)
}

/// What happens to an item that passed the window, given the ledger's answer.
pub open spec fn spec_after_dedup(is_new: bool, mapping: FeedMapping, post: RedditPost, r: ItemOutcome) -> bool {
    let eps = endpoints_for(mapping.entries@, post.subreddit@);
    if !is_new {
        r is AlreadyNotified
    } else if eps.len() == 0 {
        r is NoEndpoints
    } else {
        r matches ItemOutcome::Notify(d) && delivery_matches(d, post, eps)
    }
}

/// Decides about an item once the ledger has answered whether it is new.
pub fn plan_after_dedup(is_new: bool, mapping: &FeedMapping, post: &RedditPost) -> (r: ItemOutcome)
    ensures
        spec_after_dedup(is_new, *mapping, *post, r),
{
    if !is_new {
        return ItemOutcome::AlreadyNotified;
    }
    match mapping.lookup(post.subreddit.as_str()) {
        None => ItemOutcome::NoEndpoints,
        Some(eps) => {
            let endpoints = unique_endpoints(&eps);
            let url = post_url(REDDIT_BASE, post.subreddit.as_str(), post.id.as_str(), &post.permalink, &post.url);
            ItemOutcome::Notify(Delivery {
                feed: post.subreddit.clone(),
                heading: alert_title(post.subreddit.as_str()),
                title: decode_entities(post.title.as_str()),
                url,
                endpoints,
            })
        },
    }
}

/// Runs one item through the window, the ledger and the mapping, in that order.
/// A stale item never reaches the ledger.
pub fn process_item(ledger: &mut Ledger, mapping: &FeedMapping, post: &RedditPost, now_ms: i64) -> (r: ItemOutcome)
    requires
        old(ledger).wf(),
    ensures
        final(ledger).wf(),
        !spec_within_window(now_ms as int, post.created_utc_ms as int) ==> (r is Stale && *final(ledger) == *old(ledger)),
        spec_within_window(now_ms as int, post.created_utc_ms as int) ==> exists|is_new: bool|
            Ledger::recorded(*old(ledger), post.subreddit@, post.id@, *final(ledger), is_new)
            && #[trigger] spec_after_dedup(is_new, *mapping, *post, r),
{
    if !is_within_window(now_ms, post.created_utc_ms) {
        return ItemOutcome::Stale;
    }
    let is_new = ledger.record_if_new(post.subreddit.as_str(), post.id.as_str(), now_ms);
    let r = plan_after_dedup(is_new, mapping, post);
    assert(spec_after_dedup(is_new, *mapping, *post, r));
    r
}

} // verus!
