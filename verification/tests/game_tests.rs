use hachimi_core::audio::{caption_character_id, Category, SoundGroup};
use hachimi_core::live::{
    begin_live_drag, end_live_drag, loop_restart_allowed, reset_live_drag_state, seek_needs_pause, toggle_live_pause,
    DragAction, LiveDragState, LivePauseCommand,
};
use hachimi_core::race::{
    is_finished, is_start_dash_instance, playback_gated, player_horse_index, HorsePhase, LaneType, Motivation,
    PlaybackCommand, RaceSession,
};
use hachimi_core::ui::{set_best_fit_downscale, BgSeason, Status, TextTracker, TouchScreenKeyboardType};

#[test]
fn player_horse_falls_back_to_first() {
    assert_eq!(player_horse_index(3, 5), 3);
    assert_eq!(player_horse_index(5, 5), 0);
    assert_eq!(player_horse_index(-1, 5), 0);
}

#[test]
fn race_enum_values() {
    assert_eq!(HorsePhase::RunUp.value(), -1);
    assert_eq!(HorsePhase::from_value(4), Some(HorsePhase::Finished));
    assert_eq!(HorsePhase::from_value(5), None);
    assert_eq!(Motivation::Max.value(), 5);
    assert_eq!(Motivation::from_value(0), Some(Motivation::NoMotivation));
    assert_eq!(Motivation::from_value(-1), None);
    assert_eq!(LaneType::Oosoto.value(), 3);
    assert_eq!(LaneType::from_value(1), Some(LaneType::Naka));
    for v in -2..8 {
        if let Some(p) = HorsePhase::from_value(v) {
            assert_eq!(p.value(), v);
        }
    }
}

#[test]
fn player_flags_need_every_object() {
    assert!(is_start_dash_instance(true, true, Some(true)));
    assert!(!is_start_dash_instance(false, true, Some(true)));
    assert!(!is_start_dash_instance(true, false, Some(true)));
    assert!(!is_start_dash_instance(true, true, None));
    assert!(is_finished(true, true, Some(true)));
    assert!(!is_finished(true, true, Some(false)));
    assert!(playback_gated(false, true, false));
    assert!(!playback_gated(false, false, false));
}

#[test]
fn replay_toggle_decisions() {
    let mut s = RaceSession::new();
    assert_eq!(s.toggle_playback(true, false, false), None);
    s.on_race_init();
    assert!(s.is_race_active());
    assert_eq!(s.toggle_playback(true, false, false), Some(PlaybackCommand::Pause));
    assert_eq!(s.toggle_playback(true, false, true), Some(PlaybackCommand::Resume));
    assert_eq!(s.toggle_playback(true, true, true), None);
    assert_eq!(s.toggle_playback(false, false, true), None);
    s.on_race_release();
    assert!(!s.is_race_active());
}

#[test]
fn gate_numbers_read_after_write() {
    let mut s = RaceSession::new();
    assert_eq!(s.gate_no(0x1000), -1);
    s.record_gate_no(0x1000, 3);
    s.record_gate_no(0x2000, 1);
    assert_eq!(s.gate_no(0x1000), 2);
    assert_eq!(s.gate_no(0x2000), 0);
    s.record_gate_no(0x1000, 7);
    assert_eq!(s.gate_no(0x1000), 6);
    s.clear_gate_no_cache();
    assert_eq!(s.gate_no(0x1000), -1);
    s.on_pause_live(true);
    assert!(s.is_live_paused());
}

#[test]
fn live_pause_toggle() {
    assert_eq!(toggle_live_pause(Some(0)), Some(LivePauseCommand::Pause));
    assert_eq!(toggle_live_pause(Some(1)), Some(LivePauseCommand::Resume));
    assert_eq!(toggle_live_pause(Some(2)), None);
    assert_eq!(toggle_live_pause(None), None);
}

#[test]
fn drag_pauses_and_resumes_a_playing_concert() {
    let mut s = LiveDragState::new();
    assert_eq!(begin_live_drag(&mut s, true, false, true), DragAction::ViewController);
    assert!(s.in_progress);
    assert!(!seek_needs_pause(&s, false));
    assert_eq!(end_live_drag(&mut s, true, true), DragAction::ViewController);
    assert!(!s.in_progress);
    assert_eq!(begin_live_drag(&mut s, true, false, false), DragAction::Director);
    assert_eq!(end_live_drag(&mut s, true, false), DragAction::Director);
}

#[test]
fn drag_over_a_paused_concert_resumes_nothing() {
    let mut s = LiveDragState::new();
    assert_eq!(begin_live_drag(&mut s, true, true, true), DragAction::Nothing);
    assert_eq!(end_live_drag(&mut s, true, true), DragAction::Nothing);
    assert_eq!(begin_live_drag(&mut s, false, false, true), DragAction::Nothing);
    assert!(s.was_paused);
    reset_live_drag_state(&mut s);
    assert!(!s.was_paused && !s.in_progress);
    assert!(seek_needs_pause(&s, false));
    assert!(!seek_needs_pause(&s, true));
}

#[test]
fn loop_restart_cooldown() {
    let mut s = LiveDragState::new();
    assert!(!loop_restart_allowed(&mut s, 500));
    assert!(loop_restart_allowed(&mut s, 1000));
    assert_eq!(s.last_loop_restart_ms, 1000);
    assert!(!loop_restart_allowed(&mut s, 1999));
    assert!(loop_restart_allowed(&mut s, 2000));
    assert!(loop_restart_allowed(&mut s, 10));
}

#[test]
fn best_fit_sizes() {
    let r = set_best_fit_downscale(14);
    assert_eq!((r.min_size, r.max_size), (10, 14));
    let r = set_best_fit_downscale(8);
    assert_eq!((r.min_size, r.max_size), (8, 8));
}

#[test]
fn ui_enum_values() {
    assert_eq!(Status::from_value(0), Some(Status::Visible));
    assert_eq!(Status::from_value(3), Some(Status::LostFocus));
    assert_eq!(Status::from_value(4), None);
    assert_eq!(TouchScreenKeyboardType::OneTimeCode.value(), 12);
    assert_eq!(BgSeason::default(), BgSeason::NoSeason);
    assert_eq!(BgSeason::from_value(5), Some(BgSeason::CherryBlossom));
    assert!(BgSeason::Spring.is_before(BgSeason::Winter));
    assert!(!BgSeason::Winter.is_before(BgSeason::Spring));
    assert_eq!(Category::LIVE.value(), 4);
    assert_eq!(SoundGroup::from_value(2), Some(SoundGroup::Voice));
    assert_eq!(SoundGroup::from_value(3), None);
}

#[test]
fn tracked_texts_get_their_translations() {
    let mut t = TextTracker::new();
    t.track(1, "a".into());
    t.track(2, "b".into());
    t.track(1, "c".into());
    t.track(3, "b".into());
    assert_eq!(t.entries.len(), 3);
    let completed = vec![
        ("b".to_string(), "B".to_string()),
        ("c".to_string(), "C".to_string()),
        ("b".to_string(), "B2".to_string()),
    ];
    let mut got = t.apply_translations(&vec![], &completed);
    assert!(got.windows(2).all(|w| w[0].1 <= w[1].1));
    got.sort();
    assert_eq!(got, vec![(1, 1), (2, 0), (2, 2), (3, 0), (3, 2)]);
    let mut got = t.apply_translations(&vec![1, 3], &completed);
    got.sort();
    assert_eq!(got, vec![(2, 0), (2, 2)]);
    assert_eq!(t.entries.len(), 1);
}

#[test]
fn caption_character_from_cue_sheet() {
    assert_eq!(caption_character_id("snd_voi_story_100101"), Some(1001));
    assert_eq!(caption_character_id("100101"), Some(1001));
    assert_eq!(caption_character_id("snd_voi_12345"), None);
    assert_eq!(caption_character_id("abc_-12345"), Some(-123));
    assert_eq!(caption_character_id("abc_+12345"), Some(123));
    assert_eq!(caption_character_id("x_ab1234"), None);
    assert_eq!(caption_character_id("x_1234_"), None);
    assert_eq!(caption_character_id("x_a€€"), None);
}
