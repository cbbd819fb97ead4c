//! Records read from the store and the engine's configuration.
use vstd::prelude::*;
use crate::text::same_text;

verus! {

/// The two kinds of delivery endpoint.
#[derive(Debug, Clone, Copy, PartialEq, Eq, Structural)]
pub enum EndpointKind {
    Discord,
    Pushover,
}

/// The stored name of each endpoint kind.
pub open spec fn kind_name(k: EndpointKind) -> Seq<char> {
    match k {
        EndpointKind::Discord => seq!['d', 'i', 's', 'c', 'o', 'r', 'd'],
        EndpointKind::Pushover => seq!['p', 'u', 's', 'h', 'o', 'v', 'e', 'r'],
    }
}

/// The kind that a stored name denotes, if any.
pub open spec fn kind_of_name(s: Seq<char>) -> Option<EndpointKind> {
    if s == kind_name(EndpointKind::Discord) {
        Some(EndpointKind::Discord)
    } else if s == kind_name(EndpointKind::Pushover) {
        Some(EndpointKind::Pushover)
    } else {
        None
    }
}

pub open spec fn unknown_kind_message(s: Seq<char>) -> Seq<char> {
    "Unknown endpoint kind: "@ + s
}

impl EndpointKind {
    pub fn as_str(&self) -> (r: &'static str)
        ensures
            r@ == kind_name(*self),
    {
        proof {
            reveal_strlit("discord");
            reveal_strlit("pushover");
            assert("discord"@ =~= kind_name(EndpointKind::Discord));
            assert("pushover"@ =~= kind_name(EndpointKind::Pushover));
        }
        match self {
            EndpointKind::Discord => "discord",
            EndpointKind::Pushover => "pushover",
        }
    }

    /// Reads a stored kind name; any other text is refused with a message naming it.
    pub fn parse(s: &str) -> (r: Result<EndpointKind, String>)
        ensures
            r matches Ok(k) ==> kind_of_name(s@) == Some(k),
            r matches Err(m) ==> kind_of_name(s@).is_none() && m@ == unknown_kind_message(s@),
            r.is_ok() == kind_of_name(s@).is_some(),
    {
        proof {
            reveal_strlit("discord");
            reveal_strlit("pushover");
            assert("discord"@ =~= kind_name(EndpointKind::Discord));
            assert("pushover"@ =~= kind_name(EndpointKind::Pushover));
        }
        if same_text(s, "discord") {
            Ok(EndpointKind::Discord)
        } else if same_text(s, "pushover") {
            Ok(EndpointKind::Pushover)
        } else {
            let prefix = String::from_str("Unknown endpoint kind: ");
            Err(prefix.concat(s))
        }
    }
}

/// A delivery endpoint as stored.
#[derive(Debug)]
pub struct EndpointRow {
    pub id: i64,
    pub kind: EndpointKind,
    pub config_json: String,
    pub active: bool,
    pub note: Option<String>,
}

pub fn clone_opt_string(o: &Option<String>) -> (r: Option<String>)
    ensures
        r == *o,
{
    match o {
        Some(s) => Some(s.clone()),
        None => None,
    }
}

pub fn eq_opt_string(a: &Option<String>, b: &Option<String>) -> (r: bool)
    ensures
        r == (opt_view(*a) == opt_view(*b)),
{
    match (a, b) {
        (Some(x), Some(y)) => *x == *y,
        (None, None) => true,
        _ => false,
    }
}

/// The characters of an optional text.
pub open spec fn opt_view(o: Option<String>) -> Option<Seq<char>> {
    match o {
        Some(s) => Some(s@),
        None => None,
    }
}

impl Clone for EndpointRow {
    fn clone(&self) -> (r: Self)
        ensures
            r == *self,
    {
        EndpointRow {
            id: self.id,
            kind: self.kind,
            config_json: self.config_json.clone(),
            active: self.active,
            note: clone_opt_string(&self.note),
        }
    }
}

impl EndpointRow {
    /// Equality of every field, by the characters of the texts.
    pub open spec fn same_as(&self, o: &EndpointRow) -> bool {
        &&& self.id == o.id
        &&& self.kind == o.kind
        &&& self.config_json@ == o.config_json@
        &&& self.active == o.active
        &&& opt_view(self.note) == opt_view(o.note)
    }
}

impl PartialEq for EndpointRow {
    fn eq(&self, o: &EndpointRow) -> (r: bool) {
        self.id == o.id && self.kind == o.kind && self.config_json == o.config_json
            && self.active == o.active && eq_opt_string(&self.note, &o.note)
    }
}

impl vstd::std_specs::cmp::PartialEqSpecImpl for EndpointRow {
    open spec fn obeys_eq_spec() -> bool {
        true
    }

    open spec fn eq_spec(&self, o: &EndpointRow) -> bool {
        self.same_as(o)
    }
}

/// A feed subscription as stored.
#[derive(Debug)]
pub struct SubscriptionRow {
    pub id: i64,
    pub subreddit: String,
    pub created_at: String,
}

impl Clone for SubscriptionRow {
    fn clone(&self) -> (r: Self)
        ensures
            r == *self,
    {
        SubscriptionRow { id: self.id, subreddit: self.subreddit.clone(), created_at: self.created_at.clone() }
    }
}

/// A ledger record of an item that was already notified.
#[derive(Debug, Clone)]
pub struct NotifiedPostRow {
    pub id: i64,
    pub subreddit: String,
    pub post_id: String,
    pub first_seen_at: String,
}

/// Settings of a chat-webhook endpoint.
#[derive(Debug, Clone)]
pub struct DiscordConfig {
    pub webhook_url: String,
    pub username: Option<String>,
}

/// Settings of a push-service endpoint.
#[derive(Debug, Clone)]
pub struct PushoverConfig {
    pub token: String,
    pub user: String,
    pub device: Option<String>,
}

/// Polling rate used when none is configured, in requests per minute.
pub const DEFAULT_RATE_LIMIT: u32 = 20;

/// Highest polling rate allowed, in requests per minute.
pub const MAX_RATE_LIMIT: u32 = 50;

/// The rate that applies for a requested one: the default when none is given,
/// and never above the safety cap.
pub open spec fn spec_effective_rate(requested: Option<u32>) -> u32 {
    match requested {
        None => DEFAULT_RATE_LIMIT,
        Some(r) => if r > MAX_RATE_LIMIT { MAX_RATE_LIMIT } else { r },
    }
}

/// Settings of the engine, read at start-up.
#[derive(Debug, Clone)]
pub struct AppConfig {
    pub database_url: String,
    pub rate_limit_per_minute: u32,
    pub reddit_user_agent: String,
}

impl AppConfig {
    /// Builds the settings from the raw values, applying the default rate and its cap.
    pub fn from_parts(database_url: String, requested_rate: Option<u32>, reddit_user_agent: String) -> (r: AppConfig)
        ensures
            r.database_url == database_url,
            r.rate_limit_per_minute == spec_effective_rate(requested_rate),
            r.reddit_user_agent == reddit_user_agent,
    {
        AppConfig { database_url, rate_limit_per_minute: effective_rate_limit(requested_rate), reddit_user_agent }
    }
}

/// The polling rate that applies for a requested one.
pub fn effective_rate_limit(requested: Option<u32>) -> (r: u32)
    ensures
        r == spec_effective_rate(requested),
        1 <= r || requested == Some(0u32),
        r <= MAX_RATE_LIMIT,
{
    match requested {
        None => DEFAULT_RATE_LIMIT,
        Some(v) => if v > MAX_RATE_LIMIT { MAX_RATE_LIMIT } else { v },
    }
}

} // verus!
