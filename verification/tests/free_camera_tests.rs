use hachimi_core::free_camera::{
    is_windows_key_bound, on_windows_key, wants_windows_input_capture, FreeCameraKeybinds,
    has_overlay_message, is_enabled, live_part_label, live_target_label, mode, run_command, scene, set_live_active,
    set_race_active, CameraCommand, CameraScene, FreeCameraConfig, FreeCameraMode, FreeCameraState,
    OVERLAY_LIFETIME_NANOS,
};

fn enabled_config() -> FreeCameraConfig {
    let mut c = FreeCameraConfig::default();
    c.enabled = true;
    c
}

#[test]
fn starts_detached_in_free_mode() {
    let s = FreeCameraState::new();
    assert_eq!(scene(&s), CameraScene::NoScene);
    assert_eq!(mode(&s), FreeCameraMode::Free);
    assert!(!is_enabled(&FreeCameraConfig::default()));
}

#[test]
fn labels_of_tables() {
    assert_eq!(live_target_label(0), "Place01");
    assert_eq!(live_target_label(-1), "Unknown");
    assert_eq!(live_target_label(1000), "Unknown");
    assert_eq!(live_part_label(-5), "Unknown");
}

#[test]
fn mode_cycle_returns_after_three_steps() {
    let c = enabled_config();
    let mut s = FreeCameraState::new();
    let start = mode(&s);
    run_command(&c, &mut s, CameraCommand::CycleMode);
    assert_eq!(mode(&s), FreeCameraMode::SelfieStick);
    run_command(&c, &mut s, CameraCommand::CycleMode);
    assert_eq!(mode(&s), FreeCameraMode::FirstPerson);
    run_command(&c, &mut s, CameraCommand::CycleMode);
    assert_eq!(mode(&s), start);
}

#[test]
fn race_target_wraps_after_last_gate() {
    let c = enabled_config();
    let mut s = FreeCameraState::new();
    assert!(set_race_active(&c, &mut s));
    assert_eq!(s.race_target_index, -1);
    run_command(&c, &mut s, CameraCommand::PreviousTarget);
    assert_eq!(s.race_target_index, -1);
    run_command(&c, &mut s, CameraCommand::NextTarget);
    assert_eq!(s.race_target_index, 0);
    s.race_target_index = 17;
    run_command(&c, &mut s, CameraCommand::NextTarget);
    assert_eq!(s.race_target_index, -1);
}

#[test]
fn attaching_twice_does_not_reset() {
    let c = enabled_config();
    let mut s = FreeCameraState::new();
    assert!(set_live_active(&c, &mut s));
    assert!(!set_live_active(&c, &mut s));
    let off = FreeCameraConfig::default();
    let mut t = FreeCameraState::new();
    assert!(!set_live_active(&off, &mut t));
    assert_eq!(scene(&t), CameraScene::NoScene);
}

#[test]
fn overlay_lifetime() {
    let c = enabled_config();
    assert!(has_overlay_message(&c, Some(0)));
    assert!(has_overlay_message(&c, Some(OVERLAY_LIFETIME_NANOS)));
    assert!(!has_overlay_message(&FreeCameraConfig::default(), Some(0)));
    assert!(!has_overlay_message(&c, None));
    assert!(!has_overlay_message(&c, Some(OVERLAY_LIFETIME_NANOS + 1)));
}

#[test]
fn live_target_step_round_trip() {
    let c = enabled_config();
    let mut s = FreeCameraState::new();
    set_live_active(&c, &mut s);
    run_command(&c, &mut s, CameraCommand::CycleMode);
    assert_eq!(mode(&s), FreeCameraMode::SelfieStick);
    let before = s.live_target_position_index;
    run_command(&c, &mut s, CameraCommand::NextTarget);
    assert_eq!(s.live_target_position_index, before + 1);
    run_command(&c, &mut s, CameraCommand::PreviousTarget);
    assert_eq!(s.live_target_position_index, before);
    run_command(&c, &mut s, CameraCommand::PreviousTarget);
    assert_eq!(s.live_target_position_index, 26);
    run_command(&c, &mut s, CameraCommand::NextTarget);
    assert_eq!(s.live_target_position_index, 0);
}

#[test]
fn live_part_step_round_trip() {
    let c = enabled_config();
    let mut s = FreeCameraState::new();
    set_live_active(&c, &mut s);
    run_command(&c, &mut s, CameraCommand::CycleMode);
    let before = s.live_target_part_index;
    run_command(&c, &mut s, CameraCommand::NextPart);
    run_command(&c, &mut s, CameraCommand::PreviousPart);
    assert_eq!(s.live_target_part_index, before);
}

#[test]
fn reset_twice_is_reset_once() {
    let mut c = enabled_config();
    c.mode = FreeCameraMode::FirstPerson;
    c.live_target_position_index = 5;
    c.race_target_index = 3;
    let mut s = FreeCameraState::new();
    s.reset_with_config(&c);
    let once = (s.mode, s.live_target_position_index, s.live_target_part_index, s.race_target_index);
    s.reset_with_config(&c);
    let twice = (s.mode, s.live_target_position_index, s.live_target_part_index, s.race_target_index);
    assert_eq!(once, twice);
    assert_eq!(once.0, FreeCameraMode::FirstPerson);
}

#[test]
fn held_key_wants_input_until_released() {
    let c = enabled_config();
    let mut s = FreeCameraState::new();
    set_race_active(&c, &mut s);
    let kb = FreeCameraKeybinds::default();
    assert!(!wants_windows_input_capture(&c, &s));
    on_windows_key(&c, &mut s, kb.move_forward, true, false);
    assert!(wants_windows_input_capture(&c, &s));
    on_windows_key(&c, &mut s, kb.move_forward, false, false);
    assert!(!wants_windows_input_capture(&c, &s));
}

#[test]
fn command_keys_are_bound_keys() {
    let c = enabled_config();
    let mut s = FreeCameraState::new();
    set_race_active(&c, &mut s);
    let kb = FreeCameraKeybinds::default();
    for vk in [kb.reset, kb.cycle_mode, kb.target_next, kb.move_forward] {
        assert!(is_windows_key_bound(&c, &s, vk));
    }
    assert!(!is_windows_key_bound(&c, &s, 0x07));
    let detached = FreeCameraState::new();
    assert!(!is_windows_key_bound(&c, &detached, kb.reset));
}

use hachimi_core::free_camera::{
    end_scene, is_live_first_person, is_live_head_selfie, is_live_selfie_stick, is_race_first_person,
    live_character_position_index, live_part, race_model_index, should_override_near_clip,
    should_remove_camera_effects,
};

#[test]
fn scene_and_mode_predicates() {
    let mut c = enabled_config();
    c.remove_camera_effects = true;
    let mut s = FreeCameraState::new();
    assert!(!should_override_near_clip(&c, &s));
    assert!(set_live_active(&c, &mut s));
    assert!(should_override_near_clip(&c, &s));
    assert!(should_remove_camera_effects(&c, &s));
    assert!(!is_live_first_person(&c, &s));
    run_command(&c, &mut s, CameraCommand::CycleMode);
    assert!(is_live_selfie_stick(&c, &s));
    assert_eq!(is_live_head_selfie(&c, &s), c.selfie_use_head_transform);
    run_command(&c, &mut s, CameraCommand::CycleMode);
    assert!(is_live_first_person(&c, &s));
    assert!(!is_race_first_person(&c, &s));
    assert_eq!(live_part(&s), 0);
    assert_eq!(live_character_position_index(&s), 0);
    assert_eq!(race_model_index(&s), 0);
    assert!(end_scene(&c, &mut s, CameraScene::Live));
    assert_eq!(scene(&s), CameraScene::NoScene);
    assert!(!should_override_near_clip(&c, &s));
}

#[test]
fn extreme_configured_race_target_is_kept_until_stepped() {
    let mut c = enabled_config();
    c.race_target_index = i32::MAX;
    let mut s = FreeCameraState::new();
    assert!(set_race_active(&c, &mut s));
    assert_eq!(s.race_target_index, i32::MAX);
    assert_eq!(race_model_index(&s), i32::MAX);
    assert!(end_scene(&c, &mut s, CameraScene::Race));
    c.race_target_index = i32::MIN;
    assert!(set_race_active(&c, &mut s));
    assert_eq!(s.race_target_index, i32::MIN);
    run_command(&c, &mut s, CameraCommand::NextTarget);
    assert_eq!(s.race_target_index, i32::MIN + 1);
}
