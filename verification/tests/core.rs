//! Identifier parsing, seen-store behaviour, and the novelty filter.

use reddit_notifier::filter::{cycle_posts, novel_posts, take_new_posts, FetchError};
use reddit_notifier::id::{parse_id, strip_kind_prefixes, IdError};
use reddit_notifier::post::{Post, Timestamp};
use reddit_notifier::store::{watermark_from_text, SeenStore};

fn post(id: &str, title: &str, epoch: i64) -> Post {
    Post {
        id: id.to_string(),
        title: title.to_string(),
        created: Timestamp::Epoch(epoch),
    }
}

#[test]
fn parse_id_plain_base36() {
    assert_eq!(parse_id("zz"), Ok(1295));
    assert_eq!(parse_id("10"), Ok(36));
    assert_eq!(parse_id("0"), Ok(0));
}

#[test]
fn parse_id_strips_kind_prefix() {
    assert_eq!(parse_id("t3_10"), Ok(36));
    assert_eq!(parse_id("t3_t3_z"), Ok(35));
}

#[test]
fn parse_id_trims_whitespace() {
    assert_eq!(parse_id(" t3_z\n"), Ok(35));
    assert_eq!(parse_id("\tzz \r\n"), Ok(1295));
}

#[test]
fn parse_id_accepts_leading_plus() {
    assert_eq!(parse_id("+z"), Ok(35));
}

#[test]
fn parse_id_upper_and_lower_digits() {
    assert_eq!(parse_id("Z"), Ok(35));
    assert_eq!(parse_id("A0"), Ok(360));
}

#[test]
fn parse_id_largest_value() {
    assert_eq!(parse_id("3w5e11264sgsf"), Ok(u64::MAX));
}

#[test]
fn parse_id_rejects_bad_input() {
    assert_eq!(parse_id(""), Err(IdError));
    assert_eq!(parse_id("   "), Err(IdError));
    assert_eq!(parse_id("t3_"), Err(IdError));
    assert_eq!(parse_id("+"), Err(IdError));
    assert_eq!(parse_id("a!b"), Err(IdError));
    assert_eq!(parse_id("-0"), Err(IdError));
}

#[test]
fn parse_id_rejects_overflow() {
    assert_eq!(parse_id("zzzzzzzzzzzzz"), Err(IdError));
}

#[test]
fn strip_kind_prefixes_only_strips_prefix() {
    assert_eq!(strip_kind_prefixes("t3_abc"), "abc");
    assert_eq!(strip_kind_prefixes("t3_t3_abc"), "abc");
    assert_eq!(strip_kind_prefixes("abct3_"), "abct3_");
}

#[test]
fn membership_store_marks_and_checks() {
    let mut s = SeenStore::new_membership();
    assert_eq!(s.contains("a"), Ok(false));
    assert_eq!(s.mark_seen("a"), Ok(()));
    assert_eq!(s.contains("a"), Ok(true));
    assert_eq!(s.contains("b"), Ok(false));
    // marking twice is harmless
    assert_eq!(s.mark_seen("a"), Ok(()));
    assert_eq!(s.contains("a"), Ok(true));
}

#[test]
fn membership_store_accepts_unparsable_ids() {
    let mut s = SeenStore::new_membership();
    assert_eq!(s.mark_seen("not base36!"), Ok(()));
    assert_eq!(s.contains("not base36!"), Ok(true));
}

#[test]
fn watermark_store_orders_ids() {
    let s = SeenStore::new_watermark(Some(100));
    // "2s" is 100 in base 36: at the watermark, counts as seen
    assert_eq!(s.contains("2s"), Ok(true));
    // "2t" is 101: above the watermark
    assert_eq!(s.contains("2t"), Ok(false));
    assert_eq!(s.contains("1"), Ok(true));
}

#[test]
fn watermark_store_fails_closed_on_unparsable_id() {
    let mut s = SeenStore::new_watermark(Some(100));
    assert_eq!(s.contains("!!"), Err(IdError));
    assert_eq!(s.mark_seen("!!"), Err(IdError));
    // and the store is unchanged
    assert_eq!(s.watermark(), Some(100));
}

#[test]
fn watermark_never_moves_down() {
    let mut s = SeenStore::new_watermark(Some(100));
    assert_eq!(s.mark_seen("1"), Ok(()));
    assert_eq!(s.watermark(), Some(100));
    assert_eq!(s.mark_seen("2t"), Ok(()));
    assert_eq!(s.watermark(), Some(101));
}

#[test]
fn watermark_from_text_reads_persisted_id() {
    let s = watermark_from_text("t3_2s\n").unwrap();
    assert_eq!(s.watermark(), Some(100));
    assert!(watermark_from_text("oops!").is_err());
}

#[test]
fn cold_start_watermark_sees_nothing() {
    let s = SeenStore::new_watermark(None);
    assert_eq!(s.contains("zz"), Ok(false));
}

#[test]
fn restart_with_persisted_store_delivers_only_the_new_post() {
    // a persisted store holding {A, B} and a fresh batch {A, B, C}
    let mut s = SeenStore::new_membership();
    s.mark_seen("a").unwrap();
    s.mark_seen("b").unwrap();
    let batch = vec![post("c", "C", 300), post("b", "B", 200), post("a", "A", 100)];
    let novel = novel_posts(batch, &s);
    assert_eq!(novel.len(), 1);
    assert_eq!(novel[0].id, "c");
}

#[test]
fn watermark_batch_reduces_to_posts_above_it() {
    // watermark at "100" (1296); batch carries 95, 100, 105, 110, newest first
    let s = watermark_from_text("100").unwrap();
    let batch = vec![
        post("110", "d", 4),
        post("105", "c", 3),
        post("100", "b", 2),
        post("95", "a", 1),
    ];
    let novel = novel_posts(batch, &s);
    let ids: Vec<&str> = novel.iter().map(|p| p.id.as_str()).collect();
    assert_eq!(ids, vec!["105", "110"]);
}

#[test]
fn novel_posts_come_out_oldest_first() {
    let s = SeenStore::new_membership();
    let batch = vec![post("c", "C", 300), post("b", "B", 200), post("a", "A", 100)];
    let novel = novel_posts(batch, &s);
    let ids: Vec<&str> = novel.iter().map(|p| p.id.as_str()).collect();
    assert_eq!(ids, vec!["a", "b", "c"]);
}

#[test]
fn empty_batch_is_a_no_op_cycle() {
    let s = SeenStore::new_membership();
    let novel = novel_posts(Vec::new(), &s);
    assert!(novel.is_empty());
}

#[test]
fn fully_seen_batch_is_a_no_op_cycle() {
    let mut s = SeenStore::new_membership();
    s.mark_seen("a").unwrap();
    let novel = novel_posts(vec![post("a", "A", 1)], &s);
    assert!(novel.is_empty());
}

#[test]
fn take_new_posts_cuts_at_the_watermark() {
    let posts = vec![
        post("110", "d", 4),
        post("105", "c", 3),
        post("100", "b", 2),
        post("95", "a", 1),
    ];
    let kept = take_new_posts(posts, Some(1296)).unwrap();
    let ids: Vec<&str> = kept.iter().map(|p| p.id.as_str()).collect();
    assert_eq!(ids, vec!["110", "105"]);
}

#[test]
fn take_new_posts_without_watermark_keeps_all() {
    let posts = vec![post("b", "B", 2), post("a", "A", 1)];
    let kept = take_new_posts(posts, None).unwrap();
    assert_eq!(kept.len(), 2);
}

#[test]
fn take_new_posts_rejects_unparsable_id() {
    let posts = vec![post("!!", "bad", 1)];
    assert!(take_new_posts(posts, Some(10)).is_err());
}

#[test]
fn failed_fetch_skips_the_cycle() {
    let s = SeenStore::new_membership();
    let novel = cycle_posts(Err(FetchError), &s);
    assert!(novel.is_empty());
}
