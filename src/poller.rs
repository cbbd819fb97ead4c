//! The pure steps of one poll cycle: batching feeds, building request and item
//! addresses, the freshness window, and endpoint de-duplication.
use vstd::prelude::*;
use crate::models::{EndpointRow, opt_view};

verus! {

/// Most feeds the source accepts combined in one listing request.
pub const MAX_FEEDS_PER_BATCH: usize = 100;

/// Width of the freshness window on either side of now, in milliseconds (24 hours).
pub const FRESHNESS_WINDOW_MS: i64 = 86_400_000;

/// Base address of the source site.
pub const REDDIT_BASE: &'static str = "https://www.reddit.com";

/// One item of a listing, as the engine reads it.
#[derive(Debug, Clone)]
pub struct RedditPost {
    pub id: String,
    pub title: String,
    pub subreddit: String,
    pub permalink: Option<String>,
    pub url: Option<String>,
    /// Creation time, in milliseconds since the Unix epoch.
    pub created_utc_ms: i64,
}

pub open spec fn abs_diff(a: int, b: int) -> int {
    if a >= b { a - b } else { b - a }
}

/// An item is fresh when its creation time lies within 24 hours of now, on either side.
pub open spec fn spec_within_window(now_ms: int, created_ms: int) -> bool {
    abs_diff(now_ms, created_ms) <= FRESHNESS_WINDOW_MS
}

/// Whether an item created at `created_ms` passes the freshness filter at `now_ms`.
pub fn is_within_window(now_ms: i64, created_ms: i64) -> (r: bool)
    ensures
        r == spec_within_window(now_ms as int, created_ms as int),
{
    let d: i128 = now_ms as i128 - created_ms as i128;
    if d >= 0 {
        d <= FRESHNESS_WINDOW_MS as i128
    } else {
        -d <= FRESHNESS_WINDOW_MS as i128
    }
}

pub open spec fn min_int(a: int, b: int) -> int {
    if a <= b { a } else { b }
}

/// Splits the feed list into batches of at most 100 feeds, in order.
pub fn partition_feeds(feeds: &Vec<String>) -> (r: Vec<Vec<String>>)
    ensures
        r@.len() * 100 >= feeds@.len(),
        r@.len() == 0 || (r@.len() - 1) * 100 < feeds@.len(),
        forall|i: int| 0 <= i < r@.len() ==>
            #[trigger] r@[i]@ == feeds@.subrange(100 * i, min_int(100 * i + 100, feeds@.len() as int)),
{
    let n = feeds.len();
    let mut out: Vec<Vec<String>> = Vec::new();
    let mut start: usize = 0;
    while start < n
        invariant
            n == feeds@.len(),
            start == min_int(100 * (out@.len() as int), n as int),
            out@.len() == 0 || (out@.len() - 1) * 100 < n,
            forall|i: int| 0 <= i < out@.len() ==>
                #[trigger] out@[i]@ == feeds@.subrange(100 * i, min_int(100 * i + 100, n as int)),
        decreases n - start,
    {
        let end: usize = if n - start > MAX_FEEDS_PER_BATCH { start + MAX_FEEDS_PER_BATCH } else { n };
        let mut chunk: Vec<String> = Vec::new();
        let mut j: usize = start;
        while j < end
            invariant
                n == feeds@.len(),
                start <= j <= end <= n,
                chunk@ == feeds@.subrange(start as int, j as int),
            decreases end - j,
        {
            chunk.push(feeds[j].clone());
            proof {
                assert(feeds@.subrange(start as int, j + 1) =~= feeds@.subrange(start as int, j as int).push(feeds@[j as int]));
            }
            j = j + 1;
        }
        proof {
            assert(start == 100 * out@.len());
        }
        out.push(chunk);
        start = end;
    }
    out
}

/// The characters of each text of a sequence.
pub open spec fn texts(v: Seq<String>) -> Seq<Seq<char>> {
    v.map_values(|s: String| s@)
}

/// Texts joined with `+` between neighbours.
pub open spec fn joined(s: Seq<Seq<char>>) -> Seq<char>
    decreases s.len(),
{
    if s.len() == 0 {
        Seq::empty()
    } else if s.len() == 1 {
        s[0]
    } else {
        joined(s.drop_last()) + seq!['+'] + s.last()
    }
}

/// The combined feed path of a batch: its feed names joined with `+`.
pub fn join_feeds(batch: &Vec<String>) -> (r: String)
    ensures
        r@ == joined(texts(batch@)),
{
    let n = batch.len();
    if n == 0 {
        return String::new();
    }
    let mut out = batch[0].clone();
    proof {
        assert(texts(batch@).subrange(0, 1).len() == 1);
    }
    let mut i: usize = 1;
    while i < n
        invariant
            n == batch@.len(),
            1 <= i <= n,
            out@ == joined(texts(batch@).subrange(0, i as int)),
        decreases n - i,
    {
        proof {
            reveal_strlit("+");
        }
        out.append("+");
        out.append(batch[i].as_str());
        proof {
            let s = texts(batch@).subrange(0, i + 1);
            assert(s.drop_last() =~= texts(batch@).subrange(0, i as int));
            assert("+"@ =~= seq!['+']);
        }
        i = i + 1;
    }
    proof {
        assert(texts(batch@).subrange(0, n as int) =~= texts(batch@));
    }
    out
}

/// Address of the newest-items listing of a batch of feeds.
pub open spec fn spec_listing_url(base: Seq<char>, batch: Seq<String>) -> Seq<char> {
    base + "/r/"@ + joined(texts(batch)) + "/new.json?limit=100"@
}

/// Builds the listing address for one batch: `{base}/r/{a+b+...}/new.json?limit=100`.
pub fn listing_url(base: &str, batch: &Vec<String>) -> (r: String)
    ensures
        r@ == spec_listing_url(base@, batch@),
{
    let joined = join_feeds(batch);
    let mut out = String::from_str(base);
    out.append("/r/");
    out.append(joined.as_str());
    out.append("/new.json?limit=100");
    out
}

/// The address an item is announced with: its permalink under the base, else
/// its own link, else the comments page synthesized from feed and id.
pub open spec fn spec_post_url(
    base: Seq<char>,
    feed: Seq<char>,
    id: Seq<char>,
    permalink: Option<Seq<char>>,
    url: Option<Seq<char>>,
) -> Seq<char> {
    match permalink {
        Some(p) => base + p,
        None => match url {
            Some(u) => u,
            None => base + "/r/"@ + feed + "/comments/"@ + id,
        },
    }
}

/// Builds the canonical address of an item.
pub fn post_url(base: &str, feed: &str, id: &str, permalink: &Option<String>, url: &Option<String>) -> (r: String)
    ensures
        r@ == spec_post_url(base@, feed@, id@, opt_view(*permalink), opt_view(*url)),
{
    match permalink {
        Some(p) => String::from_str(base).concat(p.as_str()),
        None => match url {
            Some(u) => u.clone(),
            None => {
                let mut out = String::from_str(base);
                out.append("/r/");
                out.append(feed);
                out.append("/comments/");
                out.append(id);
                out
            },
        },
    }
}

/// The heading of an alert about a new item of a feed.
pub open spec fn spec_alert_title(feed: Seq<char>) -> Seq<char> {
    "New Reddit Post Alert ("@ + feed + ")"@
}

/// Builds the alert heading `New Reddit Post Alert ({feed})`.
pub fn alert_title(feed: &str) -> (r: String)
    ensures
        r@ == spec_alert_title(feed@),
{
    let mut out = String::from_str("New Reddit Post Alert (");
    out.append(feed);
    out.append(")");
    out
}

/// The ids of a sequence of endpoints.
pub open spec fn ids_of(s: Seq<EndpointRow>) -> Seq<i64> {
    s.map_values(|e: EndpointRow| e.id)
}

/// The endpoints of `s` in order, keeping only the first one of each id.
pub open spec fn first_by_id(s: Seq<EndpointRow>) -> Seq<EndpointRow>
    decreases s.len(),
{
    if s.len() == 0 {
        s
    } else {
        let p = first_by_id(s.drop_last());
        if ids_of(s.drop_last()).contains(s.last().id) {
            p
        } else {
            p.push(s.last())
        }
    }
}

proof fn lemma_push_contains(s: Seq<i64>, v: i64, x: i64)
    ensures
        s.push(v).contains(x) <==> (s.contains(x) || x == v),
{
    if s.push(v).contains(x) {
        let k = choose|k: int| 0 <= k < s.push(v).len() && s.push(v)[k] == x;
        if k < s.len() {
            assert(s[k] == x);
        }
    }
    if s.contains(x) {
        let k = choose|k: int| 0 <= k < s.len() && s[k] == x;
        assert(s.push(v)[k] == x);
    }
    if x == v {
        assert(s.push(v)[s.len() as int] == x);
    }
}

/// Whether some endpoint of `v` has the id.
fn has_id(v: &Vec<EndpointRow>, id: i64) -> (r: bool)
    ensures
        r == ids_of(v@).contains(id),
{
    let mut k: usize = 0;
    while k < v.len()
        invariant
            k <= v@.len(),
            forall|t: int| 0 <= t < k ==> v@[t].id != id,
        decreases v@.len() - k,
    {
        if v[k].id == id {
            assert(ids_of(v@)[k as int] == id);
            return true;
        }
        k = k + 1;
    }
    proof {
        if ids_of(v@).contains(id) {
            let t = choose|t: int| 0 <= t < ids_of(v@).len() && ids_of(v@)[t] == id;
            assert(v@[t].id == id);
        }
    }
    false
}

/// Drops repeated endpoints (the same endpoint reached through several
/// subscriptions), keeping the first of each id, in order.
pub fn unique_endpoints(eps: &Vec<EndpointRow>) -> (r: Vec<EndpointRow>)
    ensures
        r@ == first_by_id(eps@),
        forall|a: int, b: int| 0 <= a < b < r@.len() ==> r@[a].id != r@[b].id,
        forall|x: i64| ids_of(r@).contains(x) <==> ids_of(eps@).contains(x),
{
    let mut out: Vec<EndpointRow> = Vec::new();
    let mut i: usize = 0;
    while i < eps.len()
        invariant
            i <= eps@.len(),
            out@ == first_by_id(eps@.subrange(0, i as int)),
            forall|a: int, b: int| 0 <= a < b < out@.len() ==> out@[a].id != out@[b].id,
            forall|x: i64| ids_of(out@).contains(x) <==> ids_of(eps@.subrange(0, i as int)).contains(x),
        decreases eps@.len() - i,
    {
        let e = &eps[i];
        let seen = has_id(&out, e.id);
        let ghost pre = eps@.subrange(0, i as int);
        let ghost nxt = eps@.subrange(0, i + 1);
        proof {
            assert(nxt.drop_last() =~= pre);
            assert(nxt.last() == eps@[i as int]);
            assert(ids_of(nxt) =~= ids_of(pre).push(eps@[i as int].id));
        }
        if !seen {
            let ghost old_out = out@;
            out.push(e.clone());
            proof {
                assert(ids_of(out@) =~= ids_of(old_out).push(eps@[i as int].id));
                assert(ids_of(out@).drop_last() =~= ids_of(old_out));
                assert forall|a: int, b: int| 0 <= a < b < out@.len() implies out@[a].id != out@[b].id by {
                    if b == out@.len() - 1 {
                        assert(ids_of(old_out)[a] == old_out[a].id);
                    }
                }
            }
        }
        proof {
            assert forall|x: i64| ids_of(out@).contains(x) <==> ids_of(nxt).contains(x) by {
                lemma_push_contains(ids_of(pre), eps@[i as int].id, x);
                if !seen {
                    assert(ids_of(out@).contains(x) <==> (ids_of(out@).drop_last().contains(x) || x == eps@[i as int].id)) by {
                        lemma_push_contains(ids_of(out@).drop_last(), eps@[i as int].id, x);
                        assert(ids_of(out@).drop_last().push(eps@[i as int].id) =~= ids_of(out@));
                    }
                }
            }
        }
        i = i + 1;
    }
    proof {
        assert(eps@.subrange(0, eps@.len() as int) =~= eps@);
    }
    out
}

} // verus!
