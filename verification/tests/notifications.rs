use mantle::notifications::dnd::DndState;
use mantle::notifications::hints::{
    decode_bool_hint, decode_image_data, decode_str_hint, decode_urgency, HintValue,
};
use mantle::notifications::history::{history_entry_for, NotificationHistory, MAX_HISTORY};
use mantle::notifications::sanitize::sanitize_body;
use mantle::notifications::server::{
    capabilities, expiry_step, resolve_timeout, unix_now, ExpiryStep, NotifyError, NotifyRequest,
    ServerState, DEFAULT_TIMEOUT_LOW_MS, DEFAULT_TIMEOUT_NORMAL_MS, MAX_ACTIVE,
};
use mantle::notifications::types::{ClosedReason, Notification, NotificationEvent, Urgency};

fn dummy(id: u32) -> Notification {
    Notification {
        id,
        app_name: "test".into(),
        app_icon: "".into(),
        summary: format!("Summary {id}"),
        body: "".into(),
        actions: vec![],
        urgency: Urgency::Normal,
        category: None,
        desktop_entry: None,
        image: None,
        image_path: None,
        resident: false,
        transient: false,
        expire_timeout_ms: None,
        created_at: 0,
    }
}

fn request(replaces_id: u32, summary: &str) -> NotifyRequest {
    NotifyRequest {
        app_name: "app".to_string(),
        replaces_id,
        app_icon: String::new(),
        summary: summary.to_string(),
        body: "<b>hi</b>".to_string(),
        actions: vec!["default".to_string(), "Open".to_string()],
        hints: vec![("urgency".to_string(), HintValue::U8(2))],
        expire_timeout: -1,
    }
}

#[test]
fn resolve_timeout_zero_means_persistent() {
    assert_eq!(resolve_timeout(0, Urgency::Normal), None);
    assert_eq!(resolve_timeout(0, Urgency::Critical), None);
}

#[test]
fn resolve_timeout_negative_one_uses_urgency_defaults() {
    assert_eq!(resolve_timeout(-1, Urgency::Critical), None);
    assert_eq!(resolve_timeout(-1, Urgency::Normal), Some(DEFAULT_TIMEOUT_NORMAL_MS));
    assert_eq!(resolve_timeout(-1, Urgency::Low), Some(DEFAULT_TIMEOUT_LOW_MS));
}

#[test]
fn resolve_timeout_positive_value_is_passed_through() {
    assert_eq!(resolve_timeout(3000, Urgency::Normal), Some(3000));
    assert_eq!(resolve_timeout(1, Urgency::Critical), Some(1));
}

#[test]
fn resolve_timeout_negative_other_falls_back_to_normal() {
    assert_eq!(resolve_timeout(-5, Urgency::Low), Some(DEFAULT_TIMEOUT_NORMAL_MS));
}

#[test]
fn unix_now_is_nonzero() {
    assert!(unix_now() > 0);
}

#[test]
fn allows_fdo_subset() {
    let input = r#"<b>Bold</b> and <i>italic</i> and <a href="https://example.com">link</a>"#;
    let out = sanitize_body(input);
    assert!(out.contains("<b>Bold</b>"));
    assert!(out.contains("<i>italic</i>"));
    assert!(out.contains(r#"href="https://example.com""#));
}

#[test]
fn strips_script() {
    let out = sanitize_body("<script>alert(1)</script>hello");
    assert!(!out.contains("<script>"));
    assert!(out.contains("hello"));
}

#[test]
fn strips_unknown_tags() {
    let out = sanitize_body("<span class=\"x\">text</span>");
    assert!(!out.contains("<span"));
    assert!(out.contains("text"));
}

#[test]
fn empty_input() {
    assert_eq!(sanitize_body(""), "");
}

#[test]
fn starts_disabled() {
    let dnd = DndState::new();
    assert!(!dnd.is_enabled());
}

#[test]
fn enable_sets_state_and_emits_event() {
    let mut dnd = DndState::new();
    let event = dnd.set_enabled(true);
    assert!(dnd.is_enabled());
    assert!(matches!(event, NotificationEvent::DndChanged { enabled: true }));
}

#[test]
fn disable_sets_state_and_emits_event() {
    let mut dnd = DndState::new();
    let _ = dnd.set_enabled(true);
    let event = dnd.set_enabled(false);
    assert!(!dnd.is_enabled());
    assert!(matches!(event, NotificationEvent::DndChanged { enabled: false }));
}

#[test]
fn toggle_emits_each_change() {
    let mut dnd = DndState::new();
    let events = vec![dnd.set_enabled(true), dnd.set_enabled(false), dnd.set_enabled(true)];
    assert_eq!(events.len(), 3);
}

#[test]
fn push_adds_entry() {
    let mut h = NotificationHistory::new();
    h.push(dummy(1));
    assert_eq!(h.list().len(), 1);
    assert_eq!(h.list()[0].id, 1);
}

#[test]
fn push_replaces_existing_id() {
    let mut h = NotificationHistory::new();
    h.push(dummy(1));
    let mut updated = dummy(1);
    updated.summary = "Updated".into();
    h.push(updated);
    let list = h.list();
    assert_eq!(list.len(), 1);
    assert_eq!(list[0].summary, "Updated");
}

#[test]
fn push_inserts_at_front() {
    let mut h = NotificationHistory::new();
    h.push(dummy(1));
    h.push(dummy(2));
    assert_eq!(h.list()[0].id, 2);
}

#[test]
fn remove_deletes_entry() {
    let mut h = NotificationHistory::new();
    h.push(dummy(1));
    h.push(dummy(2));
    h.remove(1);
    let list = h.list();
    assert_eq!(list.len(), 1);
    assert_eq!(list[0].id, 2);
}

#[test]
fn remove_noop_for_unknown_id() {
    let mut h = NotificationHistory::new();
    h.push(dummy(1));
    h.remove(99);
    assert_eq!(h.list().len(), 1);
}

#[test]
fn clear_empties_list() {
    let mut h = NotificationHistory::new();
    h.push(dummy(1));
    h.push(dummy(2));
    h.clear();
    assert!(h.list().is_empty());
}

#[test]
fn truncates_at_max_history() {
    let mut h = NotificationHistory::new();
    for i in 0..=(MAX_HISTORY as u32 + 10) {
        h.push(dummy(i));
    }
    assert_eq!(h.list().len(), MAX_HISTORY);
}

#[test]
fn hints_are_decoded() {
    let hints = vec![
        ("urgency".to_string(), HintValue::U8(0)),
        ("category".to_string(), HintValue::Str("email".to_string())),
        ("resident".to_string(), HintValue::Bool(true)),
        ("transient".to_string(), HintValue::U8(1)),
    ];
    assert_eq!(decode_urgency(&hints), Urgency::Low);
    assert_eq!(decode_str_hint(&hints, "category").as_deref(), Some("email"));
    assert_eq!(decode_str_hint(&hints, "desktop-entry"), None);
    assert!(decode_bool_hint(&hints, "resident"));
    assert!(!decode_bool_hint(&hints, "transient"));
    assert_eq!(decode_urgency(&vec![("urgency".to_string(), HintValue::U8(9))]), Urgency::Normal);
}

fn image_hint(width: i32, height: i32, rowstride: i32, alpha: bool, channels: i32, bytes: Vec<u8>) -> Vec<(String, HintValue)> {
    vec![(
        "image-data".to_string(),
        HintValue::Structure(vec![
            HintValue::I32(width),
            HintValue::I32(height),
            HintValue::I32(rowstride),
            HintValue::Bool(alpha),
            HintValue::I32(8),
            HintValue::I32(channels),
            HintValue::Array(bytes.into_iter().map(HintValue::U8).collect()),
        ]),
    )]
}

#[test]
fn image_data_becomes_base64_png() {
    // 2x1 RGB with a padded row stride of 8 bytes.
    let hints = image_hint(2, 1, 8, false, 3, vec![255, 0, 0, 0, 255, 0, 9, 9]);
    let img = decode_image_data(&hints).unwrap();
    assert_eq!(img.width, 2);
    assert!(img.data_b64.starts_with("iVBORw0KGgo"));
}

#[test]
fn image_data_with_short_pixels_is_dropped() {
    let hints = image_hint(2, 2, 8, false, 3, vec![1, 2, 3, 4, 5, 6]);
    assert!(decode_image_data(&hints).is_none());
    let hints = image_hint(1, 1, 4, false, 4, vec![1, 2, 3, 4]);
    assert!(decode_image_data(&hints).is_none());
}

#[test]
fn notify_adds_then_replaces() {
    let mut s = ServerState::new();
    let (id, event) = s.notify_at(request(0, "first"), 100).unwrap();
    assert_eq!(id, 1);
    match event {
        NotificationEvent::Added(n) => {
            assert_eq!(n.summary, "first");
            assert_eq!(n.urgency, Urgency::Critical);
            assert_eq!(n.expire_timeout_ms, None);
            assert_eq!(n.body, "<b>hi</b>");
            assert_eq!(n.created_at, 100);
        }
        _ => panic!("expected Added"),
    }
    let (id2, event) = s.notify_at(request(1, "second"), 101).unwrap();
    assert_eq!(id2, 1);
    assert!(matches!(event, NotificationEvent::Replaced { id: 1, .. }));
    assert_eq!(s.active_list().len(), 1);
    let (id3, _) = s.notify_at(request(0, "third"), 102).unwrap();
    assert_eq!(id3, 2);
    assert!(s.is_active(2));
}

#[test]
fn notify_refuses_when_queue_full() {
    let mut s = ServerState::new();
    for _ in 0..MAX_ACTIVE {
        s.notify_at(request(0, "n"), 1).unwrap();
    }
    let err = s.notify_at(request(0, "overflow"), 1).unwrap_err();
    assert_eq!(err, NotifyError::QueueFull);
    assert_eq!(err.message(), "notification queue full");
    assert_eq!(s.active_list().len(), MAX_ACTIVE);
    assert!(s.notify_at(request(3, "replacement"), 1).is_ok());
}

#[test]
fn close_removes_once() {
    let mut s = ServerState::new();
    let (id, _) = s.notify_at(request(0, "x"), 1).unwrap();
    let e = s.close(id, ClosedReason::Dismissed).unwrap();
    assert!(matches!(e, NotificationEvent::Closed { id: 1, reason: ClosedReason::Dismissed }));
    assert!(s.close(id, ClosedReason::Dismissed).is_none());
    assert_eq!(ClosedReason::Expired.code(), 1);
    assert_eq!(ClosedReason::Undefined.code(), 4);
}

#[test]
fn expiry_pauses_and_counts_down() {
    let mut s = ServerState::new();
    s.pause_expiry(7);
    assert!(s.is_paused(7));
    s.resume_expiry(7);
    assert!(!s.is_paused(7));
    assert_eq!(expiry_step(0, false), ExpiryStep::Expire);
    assert_eq!(expiry_step(120, true), ExpiryStep::Sleep { millis: 50, remaining: 120 });
    assert_eq!(expiry_step(120, false), ExpiryStep::Sleep { millis: 50, remaining: 70 });
    assert_eq!(expiry_step(20, false), ExpiryStep::Sleep { millis: 20, remaining: 0 });
    assert_eq!(capabilities(), vec!["actions", "body", "body-markup", "icon-static", "persistence"]);
}

#[test]
fn history_from_entries_keeps_order() {
    let h = NotificationHistory::from_entries(vec![dummy(7), dummy(3)]);
    let ids: Vec<u32> = h.list().iter().map(|n| n.id).collect();
    assert_eq!(ids, vec![7, 3]);
}

#[test]
fn history_records_added_and_replaced_but_not_transient_or_closed() {
    let added = history_entry_for(&NotificationEvent::Added(dummy(1)));
    assert_eq!(added.map(|n| n.id), Some(1));
    let replaced =
        history_entry_for(&NotificationEvent::Replaced { id: 2, notification: dummy(2) });
    assert_eq!(replaced.map(|n| n.summary), Some("Summary 2".to_string()));
    let mut t = dummy(3);
    t.transient = true;
    assert!(history_entry_for(&NotificationEvent::Added(t)).is_none());
    assert!(history_entry_for(&NotificationEvent::Closed { id: 1, reason: ClosedReason::Expired })
        .is_none());
    assert!(history_entry_for(&NotificationEvent::DndChanged { enabled: true }).is_none());
}

#[test]
fn notify_stamps_and_stores() {
    let mut s = ServerState::new();
    let (id, ev) = s.notify(request(0, "hello")).unwrap();
    assert_eq!(id, 1);
    match ev {
        NotificationEvent::Added(n) => {
            assert_eq!(n.id, 1);
            assert_eq!(n.summary, "hello");
            assert!(n.created_at > 0);
        }
        other => panic!("unexpected event {other:?}"),
    }
    assert!(s.is_active(1));
    let (id2, ev2) = s.notify(request(1, "again")).unwrap();
    assert_eq!(id2, 1);
    assert!(matches!(ev2, NotificationEvent::Replaced { id: 1, .. }));
    assert_eq!(s.active_list().len(), 1);
}
