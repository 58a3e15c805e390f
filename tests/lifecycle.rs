use ephemeral_chat::bucket_cleanup::{
    active_keys, extract_s3_key as bucket_key, extract_s3_key_from_any_url, should_delete, CleanupStats,
};
use ephemeral_chat::expiration::{extract_s3_key, plan_media_sweep, plan_sweep, MediaRow, MessageRow, SweepPass};

fn row(id: u128, expires_at: Option<i64>, media: Option<&str>) -> MessageRow {
    MessageRow {
        id,
        media_url: media.map(|m| m.to_string()),
        expires_at,
        deleted: false,
        view_once: false,
        viewed_unsaved: false,
    }
}

#[test]
fn s3_key_follows_the_host() {
    assert_eq!(
        extract_s3_key("https://media.s3.amazonaws.com/chat/a.jpg"),
        Some("chat/a.jpg".to_string())
    );
    assert_eq!(extract_s3_key("https://example.com/a.jpg"), None);
    assert_eq!(
        extract_s3_key("https://b.s3.amazonaws.com/x.s3.amazonaws.com/y"),
        Some("x".to_string())
    );
    assert_eq!(extract_s3_key("https://b.s3.amazonaws.com/"), Some(String::new()));
}

#[test]
fn bucket_key_strips_prefix_or_takes_path() {
    assert_eq!(bucket_key("https://bk.s3.amazonaws.com/s/1.png", "bk"), Some("s/1.png".to_string()));
    assert_eq!(bucket_key("https://cdn.r2.dev/s/2.png", "bk"), Some("s/2.png".to_string()));
    assert_eq!(bucket_key("no-slashes", "bk"), Some(String::new()));
}

#[test]
fn any_url_key_variants() {
    assert_eq!(
        extract_s3_key_from_any_url("https://bk.s3.us-east-1.amazonaws.com/a/b.jpg"),
        Some("a/b.jpg".to_string())
    );
    assert_eq!(extract_s3_key_from_any_url("https://pub-1.r2.dev/c.jpg"), Some("c.jpg".to_string()));
    assert_eq!(extract_s3_key_from_any_url("https://host/d/e.jpg"), Some("d/e.jpg".to_string()));
}

#[test]
fn expired_message_is_swept_after_one_cycle() {
    let sent = 1_000;
    let rows = vec![row(1, Some(sent + 5), None), row(2, None, None), row(3, Some(sent + 500), None)];
    assert!(plan_sweep(&rows, SweepPass::Expired, sent + 1).is_empty());
    let plan = plan_sweep(&rows, SweepPass::Expired, sent + 65);
    assert_eq!(plan.len(), 1);
    assert_eq!(plan[0].message_id, 1);
    assert_eq!(plan[0].media_key, None);
}

#[test]
fn sweep_takes_media_key_and_is_idempotent() {
    let mut rows = vec![row(9, Some(10), Some("https://m.s3.amazonaws.com/k/9.jpg"))];
    let plan = plan_sweep(&rows, SweepPass::Expired, 20);
    assert_eq!(plan.len(), 1);
    assert_eq!(plan[0].media_key, Some("k/9.jpg".to_string()));
    rows[0].deleted = true;
    assert!(plan_sweep(&rows, SweepPass::Expired, 20).is_empty());
}

#[test]
fn viewed_once_pass_respects_save() {
    let mut viewed = row(4, None, None);
    viewed.view_once = true;
    viewed.viewed_unsaved = true;
    let mut saved_by_viewer = row(5, None, None);
    saved_by_viewer.view_once = true;
    let mut unviewed = row(6, None, None);
    unviewed.view_once = true;
    let plan = plan_sweep(&vec![viewed, saved_by_viewer, unviewed], SweepPass::ViewedOnce, 0);
    assert_eq!(plan.len(), 1);
    assert_eq!(plan[0].message_id, 4);
}

#[test]
fn cleanup_decisions() {
    let expired = vec!["s/old.jpg".to_string()];
    let active = active_keys(&vec!["https://bk.s3.amazonaws.com/s/live.jpg".to_string()], "bk");
    assert_eq!(active, vec!["s/live.jpg".to_string()]);
    assert!(should_delete(&"s/old.jpg".to_string(), 0, &expired, &active));
    assert!(!should_delete(&"s/live.jpg".to_string(), 400, &expired, &active));
    assert!(should_delete(&"s/orphan.jpg".to_string(), 31, &expired, &active));
    assert!(!should_delete(&"s/orphan.jpg".to_string(), 30, &expired, &active));
}

#[test]
fn cleanup_stats_tally() {
    let mut stats = CleanupStats::scanned(4);
    stats.record_deletion(1024);
    stats.record_deletion(2048);
    assert_eq!(stats.files_scanned, 4);
    assert_eq!(stats.files_deleted, 2);
    assert_eq!(stats.bytes_freed, 3072);
}

#[test]
fn media_pass_deletes_image_then_thumbnail() {
    let rows = vec![
        MediaRow { id: 1, s3_key: "a.jpg".to_string(), thumbnail_s3_key: Some("a_t.jpg".to_string()), expires_at: Some(5) },
        MediaRow { id: 2, s3_key: "b.jpg".to_string(), thumbnail_s3_key: None, expires_at: Some(50) },
        MediaRow { id: 3, s3_key: "c.jpg".to_string(), thumbnail_s3_key: None, expires_at: None },
        MediaRow { id: 4, s3_key: "d.jpg".to_string(), thumbnail_s3_key: None, expires_at: Some(9) },
    ];
    let plan = plan_media_sweep(&rows, 10);
    assert_eq!(plan.len(), 2);
    assert_eq!(plan[0].media_id, 1);
    assert_eq!(plan[0].object_keys, vec!["a.jpg".to_string(), "a_t.jpg".to_string()]);
    assert_eq!(plan[1].media_id, 4);
    assert_eq!(plan[1].object_keys, vec!["d.jpg".to_string()]);
}
