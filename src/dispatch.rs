//! Delivery to endpoints: the message each kind of endpoint receives, and the
//! fan-out over a delivery's endpoints, where one endpoint's failure never
//! keeps the others from being tried.
use vstd::prelude::*;
use crate::models::{DiscordConfig, EndpointRow, PushoverConfig, opt_view};
use crate::poller::ids_of;
use crate::store::Delivery;

verus! {

/// Sender name used on the chat webhook when none is configured.
pub const DEFAULT_USERNAME: &'static str = "Reddit Notifier";

/// Fixed address of the push service's message API.
pub const PUSHOVER_API_URL: &'static str = "https://api.pushover.net/1/messages.json";

/// What a chat webhook receives: one rich embed.
#[derive(Debug, Clone)]
pub struct DiscordMessage {
    pub webhook_url: String,
    pub username: String,
    pub title: String,
    pub description: String,
    pub url: String,
}

/// Builds the webhook message of a delivery.
pub fn discord_message(cfg: &DiscordConfig, d: &Delivery) -> (r: DiscordMessage)
    ensures
        r.webhook_url@ == cfg.webhook_url@,
        r.username@ == match opt_view(cfg.username) {
            Some(u) => u,
            None => DEFAULT_USERNAME@,
        },
        r.title@ == d.heading@,
        r.description@ == d.title@,
        r.url@ == d.url@,
{
    let username = match &cfg.username {
        Some(u) => u.clone(),
        None => String::from_str(DEFAULT_USERNAME),
    };
    DiscordMessage {
        webhook_url: cfg.webhook_url.clone(),
        username,
        title: d.heading.clone(),
        description: d.title.clone(),
        url: d.url.clone(),
    }
}

/// The form fields the push service receives, in order.
pub open spec fn spec_pushover_form(cfg: PushoverConfig, d: Delivery) -> Seq<(Seq<char>, Seq<char>)> {
    let base = seq![
        ("token"@, cfg.token@),
        ("user"@, cfg.user@),
        ("title"@, d.heading@),
        ("message"@, d.title@),
        ("url"@, d.url@),
    ];
    match cfg.device {
        Some(dev) => base.push(("device"@, dev@)),
        None => base,
    }
}

pub open spec fn pair_texts(v: Seq<(String, String)>) -> Seq<(Seq<char>, Seq<char>)> {
    v.map_values(|p: (String, String)| (p.0@, p.1@))
}

fn field(name: &str, value: &String) -> (r: (String, String))
    ensures
        r.0@ == name@,
        r.1@ == value@,
{
    (String::from_str(name), value.clone())
}

/// Builds the push-service form of a delivery; the device field only when configured.
pub fn pushover_form(cfg: &PushoverConfig, d: &Delivery) -> (r: Vec<(String, String)>)
    ensures
        pair_texts(r@) == spec_pushover_form(*cfg, *d),
{
    let mut form: Vec<(String, String)> = Vec::new();
    form.push(field("token", &cfg.token));
    form.push(field("user", &cfg.user));
    form.push(field("title", &d.heading));
    form.push(field("message", &d.title));
    form.push(field("url", &d.url));
    match &cfg.device {
        Some(dev) => {
            form.push(field("device", dev));
        },
        None => {},
    }
    assert(pair_texts(form@) =~= spec_pushover_form(*cfg, *d));
    form
}

/// Progress of handing one delivery to each of its endpoints in turn.
#[derive(Debug)]
pub struct FanOut {
    pub targets: Vec<EndpointRow>,
    pub next: usize,
    pub failed: Vec<i64>,
}

/// The ghost state of a fan-out: endpoint ids, how many were tried, which failed.
pub struct FanOutState {
    pub ids: Seq<i64>,
    pub next: nat,
    pub failed: Seq<i64>,
}

/// The effect of reporting one send outcome: the next endpoint is done with,
/// and a failure is noted; nothing else changes.
pub open spec fn fan_out_step(s: FanOutState, ok: bool) -> FanOutState {
    FanOutState {
        ids: s.ids,
        next: s.next + 1,
        failed: if ok { s.failed } else { s.failed.push(s.ids[s.next as int]) },
    }
}

/// The state after reporting a run of outcomes, one per endpoint, in order.
pub open spec fn fan_out_run(s: FanOutState, outcomes: Seq<bool>) -> FanOutState
    decreases outcomes.len(),
{
    if outcomes.len() == 0 {
        s
    } else {
        fan_out_run(fan_out_step(s, outcomes[0]), outcomes.drop_first())
    }
}

/// The ids of the endpoints whose outcome was a failure, in order.
pub open spec fn failed_ids(ids: Seq<i64>, outcomes: Seq<bool>) -> Seq<i64>
    decreases outcomes.len(),
{
    if outcomes.len() == 0 || ids.len() == 0 {
        Seq::empty()
    } else if outcomes[0] {
        failed_ids(ids.drop_first(), outcomes.drop_first())
    } else {
        seq![ids[0]] + failed_ids(ids.drop_first(), outcomes.drop_first())
    }
}

impl FanOut {
    pub open spec fn state(&self) -> FanOutState {
        FanOutState { ids: ids_of(self.targets@), next: self.next as nat, failed: self.failed@ }
    }

    pub open spec fn wf(&self) -> bool {
        self.next <= self.targets@.len()
    }

    pub fn new(targets: Vec<EndpointRow>) -> (r: FanOut)
        ensures
            r.wf(),
            r.targets@ == targets@,
            r.next == 0,
            r.failed@.len() == 0,
    {
        FanOut { targets, next: 0, failed: Vec::new() }
    }

    /// The endpoint to send to now, if any is left.
    pub fn current(&self) -> (r: Option<&EndpointRow>)
        requires
            self.wf(),
        ensures
            self.next < self.targets@.len() ==> r == Some(&self.targets@[self.next as int]),
            self.next == self.targets@.len() ==> r is None,
    {
        if self.next < self.targets.len() {
            Some(&self.targets[self.next])
        } else {
            None
        }
    }

    /// Reports the outcome of the send to the current endpoint and moves on.
    pub fn record_outcome(&mut self, ok: bool)
        requires
            old(self).wf(),
            old(self).next < old(self).targets@.len(),
        ensures
            final(self).wf(),
            final(self).state() == fan_out_step(old(self).state(), ok),
    {
        let n = self.targets.len();
        if !ok {
            let id = self.targets[self.next].id;
            self.failed.push(id);
        }
        self.next = self.next + 1;
    }
}

/// Fan-out isolation: whatever the outcomes of the sends, one per endpoint,
/// every endpoint of the delivery is tried, and exactly the failed ones are
/// noted as failed; a failure never ends the fan-out early.
pub proof fn lemma_fan_out_isolation(s: FanOutState, outcomes: Seq<bool>)
    requires
        s.next + outcomes.len() == s.ids.len(),
    ensures
        fan_out_run(s, outcomes).next == s.ids.len(),
        fan_out_run(s, outcomes).failed == s.failed + failed_ids(s.ids.subrange(s.next as int, s.ids.len() as int), outcomes),
    decreases outcomes.len(),
{
    let rest = s.ids.subrange(s.next as int, s.ids.len() as int);
    if outcomes.len() == 0 {
        assert(s.failed + failed_ids(rest, outcomes) =~= s.failed);
    } else {
        let s1 = fan_out_step(s, outcomes[0]);
        lemma_fan_out_isolation(s1, outcomes.drop_first());
        let rest1 = s.ids.subrange(s1.next as int, s.ids.len() as int);
        assert(rest.drop_first() =~= rest1);
        assert(rest[0] == s.ids[s.next as int]);
        if outcomes[0] {
            assert(s1.failed == s.failed);
        } else {
            assert(s.failed.push(s.ids[s.next as int]) + failed_ids(rest1, outcomes.drop_first())
                =~= s.failed + (seq![rest[0]] + failed_ids(rest1, outcomes.drop_first())));
        }
    }
}

} // verus!
