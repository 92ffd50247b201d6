use hachimi_core::gui::{
    close_plugin_window, drain_plugin_notifications, enqueue_plugin_notification, enqueue_theme_preview,
    is_keybind_capture_active, plugin_menu_icon_index, register_plugin_menu_icon, report_keybind_capture,
    request_notification, start_keybind_capture, take_keybind_capture, take_notification_requests,
    take_plugin_windows_to_close, take_theme_preview, GuiRequests, NotificationGuard, NotificationList,
    NotificationRequest,
};
use hachimi_core::sugoi::{translate_one_result, SugoiState, TranslateError, MAX_BATCH};

#[test]
fn notification_requests_come_out_in_order() {
    let mut q: GuiRequests<u8> = GuiRequests::new();
    request_notification(&mut q, NotificationRequest::TLRepoChanged);
    request_notification(&mut q, NotificationRequest::Custom("hi".to_string()));
    let got = take_notification_requests(&mut q);
    assert_eq!(got.len(), 2);
    assert!(matches!(got[0], NotificationRequest::TLRepoChanged));
    assert!(matches!(&got[1], NotificationRequest::Custom(s) if s == "hi"));
    assert!(take_notification_requests(&mut q).is_empty());
}

#[test]
fn theme_preview_keeps_the_latest() {
    let mut q: GuiRequests<u32> = GuiRequests::new();
    enqueue_theme_preview(&mut q, 1);
    enqueue_theme_preview(&mut q, 2);
    assert_eq!(take_theme_preview(&mut q), Some(2));
    assert_eq!(take_theme_preview(&mut q), None);
}

#[test]
fn plugin_icon_registration_refuses_empty_parts() {
    let mut q: GuiRequests<u8> = GuiRequests::new();
    assert!(!register_plugin_menu_icon(&mut q, String::new(), "u".into(), vec![1]));
    assert!(!register_plugin_menu_icon(&mut q, "l".into(), String::new(), vec![1]));
    assert!(!register_plugin_menu_icon(&mut q, "l".into(), "u".into(), vec![]));
    assert!(q.plugin_menu_icons.is_empty());
}

#[test]
fn plugin_icon_registration_replaces_by_label() {
    let mut q: GuiRequests<u8> = GuiRequests::new();
    assert!(register_plugin_menu_icon(&mut q, "a".into(), "u1".into(), vec![1]));
    assert!(register_plugin_menu_icon(&mut q, "b".into(), "u2".into(), vec![2]));
    assert!(register_plugin_menu_icon(&mut q, "a".into(), "u3".into(), vec![3, 4]));
    assert_eq!(q.plugin_menu_icons.len(), 2);
    let i = plugin_menu_icon_index(&q, "a").unwrap();
    assert_eq!(q.plugin_menu_icons[i].uri, "u3");
    assert_eq!(q.plugin_menu_icons[i].bytes, vec![3, 4]);
    assert_eq!(plugin_menu_icon_index(&q, "c"), None);
}

#[test]
fn plugin_messages_and_window_closes_drain() {
    let mut q: GuiRequests<u8> = GuiRequests::new();
    enqueue_plugin_notification(&mut q, "one".into());
    enqueue_plugin_notification(&mut q, "two".into());
    close_plugin_window(&mut q, 7);
    close_plugin_window(&mut q, -1);
    assert_eq!(drain_plugin_notifications(&mut q), vec!["one".to_string(), "two".to_string()]);
    assert!(drain_plugin_notifications(&mut q).is_empty());
    assert_eq!(take_plugin_windows_to_close(&mut q), vec![7, -1]);
    assert!(take_plugin_windows_to_close(&mut q).is_empty());
}

#[test]
fn keybind_capture_cycle() {
    let mut q: GuiRequests<u8> = GuiRequests::new();
    report_keybind_capture(&mut q, 1, "old".into());
    start_keybind_capture(&mut q);
    assert!(is_keybind_capture_active(&q));
    assert_eq!(q.keybind_captured, None);
    report_keybind_capture(&mut q, 0x41, "A".into());
    assert!(!is_keybind_capture_active(&q));
    assert_eq!(take_keybind_capture(&mut q), Some((0x41, "A".to_string())));
    assert_eq!(take_keybind_capture(&mut q), None);
}

#[test]
fn notification_ids_advance_and_wrap() {
    let mut list = NotificationList::new();
    list.show_notification("a");
    let id = list.show_persistent_notification("b");
    assert_eq!(id, 1);
    assert_eq!(list.items[0].id, 0);
    assert!(!list.items[0].persistent);
    assert!(list.items[1].persistent);
    list.next_id = u32::MAX;
    let last = list.show_persistent_notification("c");
    assert_eq!(last, u32::MAX);
    assert_eq!(list.next_id, 0);
}

#[test]
fn closing_a_notification_keeps_the_others() {
    let mut list = NotificationList::new();
    list.show_notification("a");
    list.show_notification("b");
    list.show_notification("c");
    let guard = NotificationGuard(1);
    list.close_notification(guard.0);
    let contents: Vec<&str> = list.items.iter().map(|n| n.content.as_str()).collect();
    assert_eq!(contents, vec!["a", "c"]);
    list.close_notification(42);
    assert_eq!(list.items.len(), 2);
}

#[test]
fn translation_requests_are_sent_once() {
    let mut st = SugoiState::new();
    assert!(st.translate_async("こんにちは".into()));
    assert!(!st.translate_async("こんにちは".into()));
    assert!(st.translate_async("さようなら".into()));
    assert_eq!(st.pending.len(), 2);
}

#[test]
fn known_translations_are_not_requested() {
    let mut st = SugoiState::new();
    st.remember("a".into(), "A".into());
    assert_eq!(st.get_cached("a"), Some("A".to_string()));
    assert_eq!(st.get_cached("b"), None);
    assert!(!st.translate_async("a".into()));
    st.remember("a".into(), "A2".into());
    assert_eq!(st.get_cached("a"), Some("A2".to_string()));
    assert_eq!(st.cache.len(), 1);
}

#[test]
fn finished_batch_pairs_answers_and_clears_pending() {
    let mut st = SugoiState::new();
    st.translate_async("x".into());
    st.translate_async("y".into());
    st.translate_async("z".into());
    let batch = vec!["x".to_string(), "y".to_string()];
    let pairs = st.finish_batch(&batch, Some(vec!["X".to_string(), "Y".to_string()]));
    assert_eq!(pairs, vec![("x".to_string(), "X".to_string()), ("y".to_string(), "Y".to_string())]);
    assert_eq!(st.pending.len(), 1);
    assert!(st.pending.contains("z"));
    assert!(st.translate_async("x".into()));
}

#[test]
fn failed_batch_only_clears_pending() {
    let mut st = SugoiState::new();
    st.translate_async("x".into());
    let pairs = st.finish_batch(&vec!["x".to_string()], None);
    assert!(pairs.is_empty());
    assert!(st.pending.is_empty());
}

#[test]
fn short_answer_pairs_what_it_can() {
    let mut st = SugoiState::new();
    st.translate_async("a".into());
    st.translate_async("b".into());
    let pairs = st.finish_batch(&vec!["a".to_string(), "b".to_string()], Some(vec!["A".to_string()]));
    assert_eq!(pairs, vec![("a".to_string(), "A".to_string())]);
    assert!(!st.pending.contains("a"));
    assert!(st.pending.contains("b"));
}

#[test]
fn single_translation_needs_exactly_one_answer() {
    assert_eq!(translate_one_result(vec!["t".to_string()]), Ok("t".to_string()));
    assert_eq!(translate_one_result(vec![]), Err(TranslateError::InvalidCount));
    assert_eq!(translate_one_result(vec!["a".to_string(), "b".to_string()]), Err(TranslateError::InvalidCount));
    assert_eq!(MAX_BATCH, 50);
}

use hachimi_core::gui::{main_axis_size, plugin_window_kept};
use hachimi_core::ui::GameUiToggle;

#[test]
fn plugin_windows_replaced_or_closed() {
    assert!(plugin_window_kept(None, &vec![1], &vec![2]));
    assert!(!plugin_window_kept(Some(1), &vec![1], &vec![]));
    assert!(!plugin_window_kept(Some(2), &vec![], &vec![2]));
    assert!(plugin_window_kept(Some(3), &vec![1], &vec![2]));
}

#[test]
fn overlay_scales_by_main_axis() {
    assert_eq!(main_axis_size(1920, 1080), 1080);
    assert_eq!(main_axis_size(1080, 1920), 1080);
    assert_eq!(main_axis_size(800, 800), 800);
}

#[test]
fn hiding_game_ui_and_showing_it_again() {
    let mut t = GameUiToggle::new();
    let objects = vec![(10, true), (11, false), (12, true)];
    assert_eq!(t.toggle_game_ui(&objects), vec![(10, false), (12, false)]);
    assert_eq!(t.disabled.len(), 2);
    assert!(t.disabled.contains(&10) && t.disabled.contains(&12));
    let now = vec![(10, false), (11, false), (12, false), (13, true)];
    assert_eq!(t.toggle_game_ui(&now), vec![(10, true), (12, true)]);
    assert!(t.disabled.is_empty());
}
