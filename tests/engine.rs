use reddit_notifier::config_builder::{ConfigAction, ConfigBuilder};
use reddit_notifier::dispatch::{discord_message, pushover_form, FanOut};
use reddit_notifier::keys::Key;
use reddit_notifier::models::{effective_rate_limit, AppConfig, DiscordConfig, EndpointKind, EndpointRow, PushoverConfig};
use reddit_notifier::poller::{
    alert_title, is_within_window, join_feeds, listing_url, partition_feeds, post_url, unique_endpoints, RedditPost,
    REDDIT_BASE,
};
use reddit_notifier::rate_limiter::{refill_interval_for_rate, RateLimiter};
use reddit_notifier::retry::{next_delay, ConnectionConfig, RetryDecision, RetryState};
use reddit_notifier::store::{plan_after_dedup, process_item, Delivery, FeedMapping, ItemOutcome, Ledger, MappingRow};
use reddit_notifier::text::decode_entities;
use reddit_notifier::validators::{url_verdict, webhook_format_check, NonEmptyValidator, UrlFormatValidator};

const NOW: i64 = 1_700_000_000_000;
const MINUTE: i64 = 60_000;
const HOUR: i64 = 60 * MINUTE;

fn endpoint(id: i64, kind: EndpointKind, config: &str) -> EndpointRow {
    EndpointRow { id, kind, config_json: config.to_string(), active: true, note: None }
}

fn row(feed: &str, id: i64, kind: &str, active: bool) -> MappingRow {
    MappingRow {
        subreddit: feed.to_string(),
        id,
        kind: kind.to_string(),
        config_json: format!("{{\"n\":{}}}", id),
        active,
        note: None,
    }
}

fn post(feed: &str, id: &str, title: &str, created: i64) -> RedditPost {
    RedditPost {
        id: id.to_string(),
        title: title.to_string(),
        subreddit: feed.to_string(),
        permalink: None,
        url: None,
        created_utc_ms: created,
    }
}

#[test]
fn test_default_config() {
    let config = ConnectionConfig::default();
    assert_eq!(config.max_retries, 5);
    assert_eq!(config.initial_delay_ms, 500);
    assert_eq!(config.max_delay_ms, 5000);
}

#[test]
fn test_exponential_backoff_cap() {
    let config = ConnectionConfig { max_retries: 10, initial_delay_ms: 100, max_delay_ms: 1000 };
    let mut delay = config.initial_delay_ms;
    delay = next_delay(delay, config.max_delay_ms);
    assert_eq!(delay, 200);
    delay = next_delay(delay, config.max_delay_ms);
    assert_eq!(delay, 400);
    delay = next_delay(delay, config.max_delay_ms);
    assert_eq!(delay, 800);
    delay = next_delay(delay, config.max_delay_ms);
    assert_eq!(delay, 1000);
    delay = next_delay(delay, config.max_delay_ms);
    assert_eq!(delay, 1000);
}

#[test]
fn retry_state_delays_then_gives_up() {
    let config = ConnectionConfig { max_retries: 7, initial_delay_ms: 100, max_delay_ms: 1000 };
    let mut state = RetryState::start(&config);
    let mut waits = Vec::new();
    loop {
        match state.on_failure(&config) {
            RetryDecision::RetryAfter(ms) => waits.push(ms),
            RetryDecision::GiveUp => break,
        }
    }
    assert_eq!(waits, vec![100, 200, 400, 800, 1000, 1000]);
    assert_eq!(state.attempt, 7);
}

#[test]
fn overrides_replace_defaults() {
    let c = ConnectionConfig::with_overrides(Some(3), None, Some(900));
    assert_eq!((c.max_retries, c.initial_delay_ms, c.max_delay_ms), (3, 500, 900));
}

#[test]
fn freshness_boundary() {
    assert!(!is_within_window(NOW, NOW - 24 * HOUR - MINUTE));
    assert!(is_within_window(NOW, NOW - 23 * HOUR - 59 * MINUTE));
    assert!(is_within_window(NOW, NOW + 23 * HOUR + 59 * MINUTE));
    assert!(!is_within_window(NOW, NOW + 24 * HOUR + MINUTE));
    assert!(is_within_window(NOW, NOW - 24 * HOUR));
    assert!(is_within_window(i64::MIN, i64::MIN) && !is_within_window(i64::MAX, i64::MIN));
}

#[test]
fn stale_item_is_skipped_before_the_ledger() {
    let mut ledger = Ledger::new();
    let mapping = FeedMapping::from_rows(&vec![row("rust", 1, "discord", true)]);
    let p = post("rust", "old", "t", NOW - 24 * HOUR - MINUTE);
    assert!(matches!(process_item(&mut ledger, &mapping, &p, NOW), ItemOutcome::Stale));
    assert!(ledger.records.is_empty());
    let fresh = post("rust", "old", "t", NOW - 23 * HOUR - 59 * MINUTE);
    assert!(matches!(process_item(&mut ledger, &mapping, &fresh, NOW), ItemOutcome::Notify(_)));
}

#[test]
fn dedup_idempotence() {
    let mut ledger = Ledger::new();
    assert!(ledger.record_if_new("rust", "abc", NOW));
    assert!(!ledger.record_if_new("rust", "abc", NOW + 1));
    assert_eq!(ledger.records.len(), 1);
    assert!(ledger.record_if_new("golang", "abc", NOW));
    assert!(ledger.contains("golang", "abc"));
    assert!(!ledger.contains("golang", "abd"));
    assert_eq!(ledger.records[0].first_seen_ms, NOW);
}

#[test]
fn scenario_new_item_to_webhook() {
    let mapping = FeedMapping::from_rows(&vec![MappingRow {
        subreddit: "rust".to_string(),
        id: 1,
        kind: "discord".to_string(),
        config_json: "{\"webhook_url\":\"https://discord.com/api/webhooks/1\"}".to_string(),
        active: true,
        note: None,
    }]);
    let mut ledger = Ledger::new();
    let mut item = post("rust", "abc", "Hello &amp; World", NOW - 5 * MINUTE);
    item.permalink = Some("/r/rust/comments/abc".to_string());
    let first = process_item(&mut ledger, &mapping, &item, NOW);
    let d = match first {
        ItemOutcome::Notify(d) => d,
        other => panic!("expected a delivery, got {:?}", other),
    };
    assert_eq!(d.title, "Hello & World");
    assert_eq!(d.url, "https://www.reddit.com/r/rust/comments/abc");
    assert_eq!(d.heading, "New Reddit Post Alert (rust)");
    assert_eq!(d.endpoints.len(), 1);
    assert_eq!(d.endpoints[0].kind, EndpointKind::Discord);
    assert!(ledger.contains("rust", "abc"));
    let second = process_item(&mut ledger, &mapping, &item, NOW + MINUTE);
    assert!(matches!(second, ItemOutcome::AlreadyNotified));
}

#[test]
fn feed_without_endpoints_is_skipped() {
    let mapping = FeedMapping::from_rows(&vec![row("rust", 1, "discord", true)]);
    let p = post("golang", "x", "t", NOW);
    assert!(matches!(plan_after_dedup(true, &mapping, &p), ItemOutcome::NoEndpoints));
    assert!(matches!(plan_after_dedup(false, &mapping, &p), ItemOutcome::AlreadyNotified));
}

#[test]
fn mapping_skips_bad_kind_and_inactive_rows() {
    let rows = vec![
        row("rust", 1, "discord", true),
        row("rust", 2, "telegram", true),
        row("rust", 3, "pushover", false),
        row("golang", 4, "pushover", true),
        row("rust", 5, "pushover", true),
    ];
    let mapping = FeedMapping::from_rows(&rows);
    let rust = mapping.lookup("rust").unwrap();
    assert_eq!(rust.iter().map(|e| e.id).collect::<Vec<_>>(), vec![1, 5]);
    assert_eq!(rust[1].kind, EndpointKind::Pushover);
    assert_eq!(mapping.lookup("golang").unwrap().len(), 1);
    assert!(mapping.lookup("Rust").is_none());
}

#[test]
fn distinct_feeds_with_endpoints() {
    let rows = vec![
        row("rust", 1, "discord", true),
        row("golang", 2, "pushover", true),
        row("rust", 3, "pushover", true),
        row("zig", 4, "pushover", false),
        row("ocaml", 5, "email", true),
    ];
    let feeds = FeedMapping::from_rows(&rows).feeds();
    assert_eq!(feeds, vec!["rust".to_string(), "golang".to_string()]);
}

#[test]
fn duplicate_endpoints_are_sent_once() {
    let eps = vec![
        endpoint(3, EndpointKind::Discord, "a"),
        endpoint(1, EndpointKind::Pushover, "b"),
        endpoint(3, EndpointKind::Discord, "c"),
    ];
    let u = unique_endpoints(&eps);
    assert_eq!(u.len(), 2);
    assert_eq!(u[0].config_json, "a");
    assert_eq!(u[1].id, 1);
}

#[test]
fn batches_of_one_hundred() {
    let feeds: Vec<String> = (0..250).map(|i| format!("f{}", i)).collect();
    let batches = partition_feeds(&feeds);
    assert_eq!(batches.iter().map(|b| b.len()).collect::<Vec<_>>(), vec![100, 100, 50]);
    assert_eq!(batches[1][0], "f100");
    assert_eq!(batches[2][49], "f249");
    assert!(partition_feeds(&Vec::new()).is_empty());
    assert_eq!(partition_feeds(&feeds[..100].to_vec()).len(), 1);
}

#[test]
fn combined_listing_address() {
    let batch = vec!["rust".to_string(), "golang".to_string(), "zig".to_string()];
    assert_eq!(join_feeds(&batch), "rust+golang+zig");
    assert_eq!(
        listing_url(REDDIT_BASE, &batch),
        "https://www.reddit.com/r/rust+golang+zig/new.json?limit=100"
    );
    assert_eq!(join_feeds(&vec!["one".to_string()]), "one");
}

#[test]
fn item_address_preference() {
    let perm = Some("/r/rust/comments/x1/title/".to_string());
    let link = Some("https://example.com/a".to_string());
    assert_eq!(post_url(REDDIT_BASE, "rust", "x1", &perm, &link), "https://www.reddit.com/r/rust/comments/x1/title/");
    assert_eq!(post_url(REDDIT_BASE, "rust", "x1", &None, &link), "https://example.com/a");
    assert_eq!(post_url(REDDIT_BASE, "rust", "x1", &None, &None), "https://www.reddit.com/r/rust/comments/x1");
    assert_eq!(alert_title("rust"), "New Reddit Post Alert (rust)");
}

#[test]
fn endpoint_kind_names() {
    assert_eq!(EndpointKind::Discord.as_str(), "discord");
    assert_eq!(EndpointKind::Pushover.as_str(), "pushover");
    assert_eq!(EndpointKind::parse("pushover"), Ok(EndpointKind::Pushover));
    assert_eq!(EndpointKind::parse("Discord"), Err("Unknown endpoint kind: Discord".to_string()));
}

#[test]
fn rate_limit_default_and_cap() {
    assert_eq!(effective_rate_limit(None), 20);
    assert_eq!(effective_rate_limit(Some(4)), 4);
    assert_eq!(effective_rate_limit(Some(51)), 50);
    let cfg = AppConfig::from_parts("sqlite://x.db".to_string(), Some(500), "agent".to_string());
    assert_eq!(cfg.rate_limit_per_minute, 50);
    assert_eq!(refill_interval_for_rate(120), 500);
    assert_eq!(refill_interval_for_rate(12), 5000);
}

#[test]
fn rate_limiter_pacing() {
    let mut rl = RateLimiter::new(5, 100, 1_000);
    assert!(rl.try_acquire(1_000));
    assert!(!rl.try_acquire(1_050));
    assert!(!rl.try_acquire(1_099));
    assert!(rl.try_acquire(1_100));
    assert!(!rl.try_acquire(1_150));
    assert!(rl.try_acquire(1_200));
    assert_eq!(rl.retry_delay_ms(), 50);
}

#[test]
fn rate_limiter_refills_up_to_capacity() {
    let mut rl = RateLimiter::new(5, 100, 0);
    assert!(rl.try_acquire(0));
    let mut granted = 0;
    for _ in 0..10 {
        if rl.try_acquire(10_000) {
            granted += 1;
        }
    }
    assert_eq!(granted, 5);
}

#[test]
fn fan_out_continues_after_a_failure() {
    let targets = vec![endpoint(1, EndpointKind::Discord, "x"), endpoint(2, EndpointKind::Pushover, "y")];
    let mut fan = FanOut::new(targets);
    let mut sent_to = Vec::new();
    while let Some(ep) = fan.current() {
        let id = ep.id;
        sent_to.push(id);
        fan.record_outcome(id != 1);
    }
    assert_eq!(sent_to, vec![1, 2]);
    assert_eq!(fan.failed, vec![1]);
}

fn delivery() -> Delivery {
    Delivery {
        feed: "rust".to_string(),
        heading: "New Reddit Post Alert (rust)".to_string(),
        title: "Hello & World".to_string(),
        url: "https://www.reddit.com/r/rust/comments/abc".to_string(),
        endpoints: vec![],
    }
}

#[test]
fn webhook_message_fields() {
    let cfg = DiscordConfig { webhook_url: "https://discord.com/api/webhooks/1".to_string(), username: None };
    let m = discord_message(&cfg, &delivery());
    assert_eq!(m.username, "Reddit Notifier");
    assert_eq!(m.title, "New Reddit Post Alert (rust)");
    assert_eq!(m.description, "Hello & World");
    let named = DiscordConfig { webhook_url: "u".to_string(), username: Some("Bot".to_string()) };
    assert_eq!(discord_message(&named, &delivery()).username, "Bot");
}

#[test]
fn push_form_fields() {
    let cfg = PushoverConfig { token: "t".to_string(), user: "u".to_string(), device: None };
    let form = pushover_form(&cfg, &delivery());
    let keys: Vec<&str> = form.iter().map(|(k, _)| k.as_str()).collect();
    assert_eq!(keys, vec!["token", "user", "title", "message", "url"]);
    assert_eq!(form[3].1, "Hello & World");
    let with_device = PushoverConfig { device: Some("phone".to_string()), ..cfg };
    let form = pushover_form(&with_device, &delivery());
    assert_eq!(form.last().unwrap(), &("device".to_string(), "phone".to_string()));
}

#[test]
fn html_entities_are_decoded() {
    assert_eq!(decode_entities("Hello &amp; World"), "Hello & World");
    assert_eq!(decode_entities("&lt;b&gt; &#39;q&#39;"), "<b> 'q'");
    assert_eq!(decode_entities("plain"), "plain");
}

fn fill(b: &mut ConfigBuilder, text: &str) {
    for c in text.chars() {
        b.handle_input(Key::Char(c)).unwrap();
    }
}

#[test]
fn config_builder_webhook_json() {
    let mut b = ConfigBuilder::new();
    assert!(b.type_selection_mode);
    assert_eq!(b.fields.len(), 2);
    assert_eq!(b.handle_input(Key::Enter), Ok(None));
    assert_eq!(b.handle_input(Key::Enter), Err("Field 'Webhook URL' is required".to_string()));
    fill(&mut b, "http://x");
    assert_eq!(b.handle_input(Key::Enter), Err("Webhook URL must start with https://".to_string()));
    b.fields[0].value = "https://d/\"w\" ".to_string();
    assert_eq!(b.build_json(), Ok("{\"webhook_url\":\"https://d/\\\"w\\\"\"}".to_string()));
    b.handle_input(Key::Tab).unwrap();
    fill(&mut b, "Bot");
    assert_eq!(b.build_json(), Ok("{\"username\":\"Bot\",\"webhook_url\":\"https://d/\\\"w\\\"\"}".to_string()));
    assert_eq!(b.handle_input(Key::Enter), Ok(Some(ConfigAction::Save)));
    assert_eq!(b.get_note(), None);
}

#[test]
fn config_builder_push_json() {
    let mut b = ConfigBuilder::new();
    b.handle_input(Key::Down).unwrap();
    assert_eq!(b.endpoint_type, EndpointKind::Pushover);
    assert_eq!(b.fields.len(), 3);
    b.handle_input(Key::Enter).unwrap();
    fill(&mut b, "tok");
    b.handle_input(Key::Tab).unwrap();
    fill(&mut b, "usr");
    assert_eq!(b.build_json(), Ok("{\"token\":\"tok\",\"user\":\"usr\"}".to_string()));
    b.handle_input(Key::Tab).unwrap();
    fill(&mut b, "phonex");
    b.handle_input(Key::Backspace).unwrap();
    assert_eq!(b.build_json(), Ok("{\"device\":\"phone\",\"token\":\"tok\",\"user\":\"usr\"}".to_string()));
    b.handle_input(Key::Tab).unwrap();
    fill(&mut b, "note");
    assert_eq!(b.get_note(), Some("note"));
    assert_eq!(b.handle_input(Key::Esc), Ok(Some(ConfigAction::Cancel)));
}

#[test]
fn test_non_empty_validator_empty() {
    let validator = NonEmptyValidator;
    let result = validator.validate("");
    assert!(result.is_err());
    assert_eq!(result.unwrap_err(), "Field cannot be empty");
}

#[test]
fn test_non_empty_validator_whitespace() {
    let validator = NonEmptyValidator;
    let result = validator.validate("   ");
    assert!(result.is_err());
}

#[test]
fn test_non_empty_validator_valid() {
    let validator = NonEmptyValidator;
    let result = validator.validate("test");
    assert!(result.is_ok());
    assert_eq!(result.unwrap(), None);
}

#[test]
fn test_url_format_validator_https() {
    assert!(UrlFormatValidator.validate("https://example.com").is_ok());
}

#[test]
fn test_url_format_validator_http() {
    assert!(UrlFormatValidator.validate("http://example.com").is_ok());
}

#[test]
fn test_url_format_validator_with_path() {
    assert!(UrlFormatValidator.validate("https://example.com/path/to/resource").is_ok());
}

#[test]
fn test_url_format_validator_with_query() {
    assert!(UrlFormatValidator.validate("https://example.com/api?key=value&foo=bar").is_ok());
}

#[test]
fn test_url_format_validator_invalid_scheme() {
    let result = UrlFormatValidator.validate("ftp://example.com");
    assert!(result.is_err());
    assert!(result.unwrap_err().contains("ftp://"));
}

#[test]
fn test_url_format_validator_malformed() {
    let result = UrlFormatValidator.validate("not a url at all");
    assert!(result.is_err());
    assert!(result.unwrap_err().contains("Invalid URL format"));
}

#[test]
fn test_url_format_validator_missing_scheme() {
    let result = UrlFormatValidator.validate("example.com");
    assert!(result.is_err());
    assert!(result.unwrap_err().contains("Invalid URL format"));
}

#[test]
fn url_verdict_messages() {
    assert_eq!(url_verdict(Ok("https".to_string())), Ok(None));
    assert_eq!(
        url_verdict(Ok("ftp".to_string())),
        Err("URL must use http:// or https:// (found: ftp://)".to_string())
    );
    assert_eq!(url_verdict(Err("bad".to_string())), Err("Invalid URL format: bad".to_string()));
}

#[test]
fn test_discord_invalid_url_format() {
    let result = webhook_format_check("https://example.com/webhook");
    assert!(result.is_err());
    assert!(result.unwrap_err().contains("Invalid Discord webhook URL format"));
    assert_eq!(webhook_format_check("https://discord.com/api/webhooks/123/abc"), Ok(()));
    assert_eq!(webhook_format_check("https://discordapp.com/api/webhooks/9"), Ok(()));
}

#[test]
fn config_builder_from_stored_settings() {
    let cfg = DiscordConfig { webhook_url: "https://discord.com/api/webhooks/7".to_string(), username: Some("Bot".to_string()) };
    let b = ConfigBuilder::from_discord(&cfg, Some("team".to_string()));
    assert!(!b.type_selection_mode);
    assert_eq!(b.fields[0].value, "https://discord.com/api/webhooks/7");
    assert_eq!(b.fields[1].value, "Bot");
    assert_eq!(b.get_note(), Some("team"));
    assert_eq!(
        b.build_json(),
        Ok("{\"username\":\"Bot\",\"webhook_url\":\"https://discord.com/api/webhooks/7\"}".to_string())
    );
    let p = PushoverConfig { token: "t".to_string(), user: "u".to_string(), device: None };
    let b = ConfigBuilder::from_pushover(&p, None);
    assert_eq!(b.fields.len(), 3);
    assert_eq!(b.fields[2].value, "");
    assert_eq!(b.get_note(), None);
}
