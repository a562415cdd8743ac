//! Payload rendering and the dispatcher's retry and commit behaviour.

use reddit_notifier::dispatch::{render_payload, Dispatcher, GatewayEvent};
use reddit_notifier::post::{Config, Post, Timestamp};
use reddit_notifier::store::SeenStore;

fn config() -> Config {
    Config {
        pushover_token: "t".to_string(),
        pushover_user: "u".to_string(),
        subreddit: "foo".to_string(),
    }
}

fn post(id: &str, title: &str, epoch: i64) -> Post {
    Post {
        id: id.to_string(),
        title: title.to_string(),
        created: Timestamp::Epoch(epoch),
    }
}

#[test]
fn render_decodes_html_entities() {
    let cfg = config();
    let p = post("a", "B&amp;B", 7);
    let pl = render_payload(&cfg, &p).unwrap();
    assert_eq!(pl.message, "B&B");
}

#[test]
fn render_falls_back_to_the_raw_title() {
    let cfg = config();
    let p = post("a", "&nosuchentity; stays", 7);
    let pl = render_payload(&cfg, &p).unwrap();
    assert_eq!(pl.message, "&nosuchentity; stays");
}

#[test]
fn render_builds_title_url_and_credentials() {
    let cfg = config();
    let p = post("t3_abc", "hello", 7);
    let pl = render_payload(&cfg, &p).unwrap();
    assert_eq!(pl.token, "t");
    assert_eq!(pl.user, "u");
    assert_eq!(pl.title, "New post on r/foo");
    assert_eq!(pl.url, "https://redd.it/abc");
    assert_eq!(pl.timestamp, 7);
}

#[test]
fn render_normalizes_iso8601_timestamps() {
    let cfg = config();
    let p = Post {
        id: "a".to_string(),
        title: "x".to_string(),
        created: Timestamp::Iso("2020-01-01T00:00:00Z".to_string()),
    };
    let pl = render_payload(&cfg, &p).unwrap();
    assert_eq!(pl.timestamp, 1577836800);
}

#[test]
fn render_rejects_an_unreadable_timestamp() {
    let cfg = config();
    let p = Post {
        id: "a".to_string(),
        title: "x".to_string(),
        created: Timestamp::Iso("not a date".to_string()),
    };
    assert!(render_payload(&cfg, &p).is_none());
}

#[test]
fn timestamp_normalize_passes_epoch_through() {
    assert_eq!(Timestamp::Epoch(200).normalize(), Some(200));
    assert_eq!(
        Timestamp::Iso("1970-01-01T00:02:00Z".to_string()).normalize(),
        Some(120)
    );
}

#[test]
fn two_timeouts_then_success_deliver_exactly_once() {
    let mut store = SeenStore::new_membership();
    let mut d = Dispatcher::new(config(), vec![post("a", "A", 1)]);

    // first attempt: timeout, the post stays current
    let first = d.next_send(&store).unwrap();
    assert_eq!(d.on_event(&mut store, GatewayEvent::TimedOut), false);
    assert_eq!(store.contains("a"), Ok(false));

    // second attempt: timeout again
    let second = d.next_send(&store).unwrap();
    assert_eq!(second.url, first.url);
    assert_eq!(d.on_event(&mut store, GatewayEvent::TimedOut), false);
    assert_eq!(store.contains("a"), Ok(false));

    // third attempt: accepted, committed exactly once
    let third = d.next_send(&store).unwrap();
    assert_eq!(third.url, first.url);
    assert_eq!(d.on_event(&mut store, GatewayEvent::Accepted), true);
    assert_eq!(store.contains("a"), Ok(true));
    assert!(d.next_send(&store).is_none());
}

#[test]
fn three_timeouts_abandon_the_post_unseen() {
    let mut store = SeenStore::new_membership();
    let mut d = Dispatcher::new(config(), vec![post("a", "A", 1)]);
    for _ in 0..3 {
        assert!(d.next_send(&store).is_some());
        assert_eq!(d.on_event(&mut store, GatewayEvent::TimedOut), false);
    }
    // attempts exhausted: the post is abandoned for this cycle, still unseen
    assert!(d.next_send(&store).is_none());
    assert_eq!(store.contains("a"), Ok(false));
}

#[test]
fn transport_error_short_circuits_with_no_retry() {
    let mut store = SeenStore::new_membership();
    let mut d = Dispatcher::new(config(), vec![post("a", "A", 1), post("b", "B", 2)]);
    assert!(d.next_send(&store).is_some());
    assert_eq!(d.on_event(&mut store, GatewayEvent::TransportFailed), false);
    // no retry of "a": the next offer is already "b", and "a" stays unseen
    let next = d.next_send(&store).unwrap();
    assert_eq!(next.url, "https://redd.it/b");
    assert_eq!(store.contains("a"), Ok(false));
}

#[test]
fn gateway_logical_failure_leaves_the_post_unseen() {
    let mut store = SeenStore::new_membership();
    let mut d = Dispatcher::new(config(), vec![post("a", "A", 1)]);
    assert!(d.next_send(&store).is_some());
    assert_eq!(d.on_event(&mut store, GatewayEvent::LogicalFailure), false);
    assert!(d.next_send(&store).is_none());
    assert_eq!(store.contains("a"), Ok(false));
}

#[test]
fn duplicate_id_in_one_batch_is_delivered_once() {
    let mut store = SeenStore::new_membership();
    // the same identifier arrives twice, as when two sources are merged
    let mut d = Dispatcher::new(config(), vec![post("a", "A", 1), post("a", "A", 1)]);
    assert!(d.next_send(&store).is_some());
    assert_eq!(d.on_event(&mut store, GatewayEvent::Accepted), true);
    // the second copy is skipped: the store is the deduplication authority
    assert!(d.next_send(&store).is_none());
}

#[test]
fn unreadable_timestamp_skips_only_that_post() {
    let mut store = SeenStore::new_membership();
    let bad = Post {
        id: "a".to_string(),
        title: "x".to_string(),
        created: Timestamp::Iso("garbage".to_string()),
    };
    let mut d = Dispatcher::new(config(), vec![bad, post("b", "B", 2)]);
    let offered = d.next_send(&store).unwrap();
    assert_eq!(offered.url, "https://redd.it/b");
    assert_eq!(d.on_event(&mut store, GatewayEvent::Accepted), true);
    assert!(d.next_send(&store).is_none());
    assert_eq!(store.contains("a"), Ok(false));
    assert_eq!(store.contains("b"), Ok(true));
}

#[test]
fn watermark_dispatch_commits_oldest_to_newest() {
    let mut store = SeenStore::new_watermark(None);
    let mut d = Dispatcher::new(
        config(),
        // oldest first, as the filter hands them over
        vec![post("10", "old", 1), post("11", "new", 2)],
    );
    assert_eq!(d.next_send(&store).unwrap().url, "https://redd.it/10");
    d.on_event(&mut store, GatewayEvent::Accepted);
    assert_eq!(store.watermark(), Some(36));
    assert_eq!(d.next_send(&store).unwrap().url, "https://redd.it/11");
    d.on_event(&mut store, GatewayEvent::Accepted);
    assert_eq!(store.watermark(), Some(37));
}

#[test]
fn full_cycle_scenario() {
    // config {token: "t", user: "u", subreddit: "foo"}; fetch returned, newest
    // first, b ("B&amp;B", ts 200) then a ("A", ts 100); nothing seen yet
    let mut store = SeenStore::new_membership();
    let batch = vec![post("b", "B&amp;B", 200), post("a", "A", 100)];
    let novel = reddit_notifier::filter::novel_posts(batch, &store);
    let mut d = Dispatcher::new(config(), novel);

    let first = d.next_send(&store).unwrap();
    assert_eq!(first.message, "A");
    assert_eq!(first.title, "New post on r/foo");
    assert_eq!(first.token, "t");
    assert_eq!(first.user, "u");
    assert_eq!(first.url, "https://redd.it/a");
    assert_eq!(first.timestamp, 100);
    assert_eq!(d.on_event(&mut store, GatewayEvent::Accepted), true);
    assert_eq!(store.contains("a"), Ok(true));

    let second = d.next_send(&store).unwrap();
    assert_eq!(second.message, "B&B");
    assert_eq!(second.url, "https://redd.it/b");
    assert_eq!(second.timestamp, 200);
    assert_eq!(d.on_event(&mut store, GatewayEvent::Accepted), true);
    assert_eq!(store.contains("b"), Ok(true));

    assert!(d.next_send(&store).is_none());
}
