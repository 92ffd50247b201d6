//! Control state of the free camera.
//!
//! The camera itself lives in floating point space (positions, angles, field of view);
//! this module holds everything that is discrete: which scene the camera is attached to,
//! its mode, the chosen follow targets, key and button state, and which of the derived
//! camera quantities currently exist. Every event handler returns the actions the caller
//! has to carry out on the continuous part of the camera.

use vstd::prelude::*;
use vstd::arithmetic::power2::{pow2, lemma2_to64, lemma_pow2_unfold};

verus! {

/// Number of entries in the live position table.
pub const LIVE_POSITION_COUNT: i32 = 27;
/// Number of entries in the live body part table.
pub const LIVE_PART_COUNT: i32 = 22;
/// Highest race gate the camera can be pinned to (gates are numbered from zero).
pub const RACE_LAST_GATE: i32 = 17;
/// Time an overlay message stays on screen: fade in, hold and fade out, in nanoseconds.
pub const OVERLAY_LIFETIME_NANOS: u64 = 2_130_000_000;

/// Bits of the gamepad button word.
pub const DPAD_UP: u16 = 0x0001;
pub const DPAD_DOWN: u16 = 0x0002;
pub const DPAD_LEFT: u16 = 0x0004;
pub const DPAD_RIGHT: u16 = 0x0008;
pub const START: u16 = 0x0010;
pub const LEFT_SHOULDER: u16 = 0x0100;
pub const RIGHT_SHOULDER: u16 = 0x0200;
pub const BUTTON_SOUTH: u16 = 0x1000;
pub const BUTTON_EAST: u16 = 0x2000;
pub const BUTTON_WEST: u16 = 0x4000;
pub const BUTTON_NORTH: u16 = 0x8000;

#[derive(Clone, Copy, Debug, PartialEq, Eq, Structural)]
pub enum FreeCameraMode {
    Free,
    FirstPerson,
    SelfieStick,
}

impl Default for FreeCameraMode {
    fn default() -> (m: Self)
        ensures m == FreeCameraMode::Free,
    {
        FreeCameraMode::Free
    }
}

#[derive(Clone, Copy, Debug, PartialEq, Eq, Structural)]
pub enum CameraScene {
    NoScene,
    Live,
    Race,
}

impl Default for CameraScene {
    fn default() -> (s: Self)
        ensures s == CameraScene::NoScene,
    {
        CameraScene::NoScene
    }
}

#[derive(Clone, Copy, Debug, PartialEq, Eq, Structural)]
pub enum GamepadButton {
    A,
    B,
    X,
    Y,
    LeftBumper,
    RightBumper,
    DpadUp,
    DpadDown,
    DpadLeft,
    DpadRight,
    Start,
}

/// Virtual key codes bound to the camera controls.
#[derive(Clone, Copy, Debug, PartialEq, Eq, Structural)]
pub struct FreeCameraKeybinds {
    pub move_forward: u16,
    pub move_back: u16,
    pub move_left: u16,
    pub move_right: u16,
    pub move_down: u16,
    pub move_up: u16,
    pub look_up: u16,
    pub look_down: u16,
    pub look_left: u16,
    pub look_right: u16,
    pub fov_increase: u16,
    pub fov_decrease: u16,
    pub follow_offset_up: u16,
    pub follow_offset_down: u16,
    pub follow_offset_left: u16,
    pub follow_offset_right: u16,
    pub target_previous: u16,
    pub target_next: u16,
    pub part_previous: u16,
    pub part_next: u16,
    pub reset: u16,
    pub cycle_mode: u16,
    pub reverse: u16,
}

impl FreeCameraKeybinds {
    /// The factory bindings: WASD, Ctrl/Space, arrows, Q/E, IJKL, brackets, `;`/`'`, R, F, V.
    pub open spec fn spec_default() -> FreeCameraKeybinds {
        FreeCameraKeybinds {
            move_forward: 0x57,
            move_back: 0x53,
            move_left: 0x41,
            move_right: 0x44,
            move_down: 0xa2,
            move_up: 0x20,
            look_up: 0x26,
            look_down: 0x28,
            look_left: 0x25,
            look_right: 0x27,
            fov_increase: 0x51,
            fov_decrease: 0x45,
            follow_offset_up: 0x49,
            follow_offset_down: 0x4b,
            follow_offset_left: 0x4a,
            follow_offset_right: 0x4c,
            target_previous: 0xdb,
            target_next: 0xdd,
            part_previous: 0xba,
            part_next: 0xde,
            reset: 0x52,
            cycle_mode: 0x46,
            reverse: 0x56,
        }
    }

    /// Whether `vk` is bound to any camera control.
    pub open spec fn binds(self, vk: u16) -> bool {
        ||| vk == self.move_forward
        ||| vk == self.move_back
        ||| vk == self.move_left
        ||| vk == self.move_right
        ||| vk == self.move_down
        ||| vk == self.move_up
        ||| vk == self.look_up
        ||| vk == self.look_down
        ||| vk == self.look_left
        ||| vk == self.look_right
        ||| vk == self.fov_increase
        ||| vk == self.fov_decrease
        ||| vk == self.follow_offset_up
        ||| vk == self.follow_offset_down
        ||| vk == self.follow_offset_left
        ||| vk == self.follow_offset_right
        ||| vk == self.target_previous
        ||| vk == self.target_next
        ||| vk == self.part_previous
        ||| vk == self.part_next
        ||| vk == self.reset
        ||| vk == self.cycle_mode
        ||| vk == self.reverse
    }
}

impl Default for FreeCameraKeybinds {
    fn default() -> (kb: Self)
        ensures kb == FreeCameraKeybinds::spec_default(),
    {
        FreeCameraKeybinds {
            move_forward: 0x57,
            move_back: 0x53,
            move_left: 0x41,
            move_right: 0x44,
            move_down: 0xa2,
            move_up: 0x20,
            look_up: 0x26,
            look_down: 0x28,
            look_left: 0x25,
            look_right: 0x27,
            fov_increase: 0x51,
            fov_decrease: 0x45,
            follow_offset_up: 0x49,
            follow_offset_down: 0x4b,
            follow_offset_left: 0x4a,
            follow_offset_right: 0x4c,
            target_previous: 0xdb,
            target_next: 0xdd,
            part_previous: 0xba,
            part_next: 0xde,
            reset: 0x52,
            cycle_mode: 0x46,
            reverse: 0x56,
        }
    }
}

/// The switches and choices of the free camera settings.
#[derive(Clone, Copy, Debug, PartialEq, Eq, Structural)]
pub struct FreeCameraConfig {
    pub enabled: bool,
    pub remove_camera_effects: bool,
    pub live_disable_character_teleport: bool,
    pub live_force_all_characters_visible: bool,
    pub show_overlay: bool,
    pub selfie_use_head_transform: bool,
    pub mode: FreeCameraMode,
    pub live_target_position_index: i32,
    pub live_target_part_index: i32,
    pub race_target_index: i32,
    pub keybinds: FreeCameraKeybinds,
}

impl FreeCameraConfig {
    pub open spec fn spec_default() -> FreeCameraConfig {
        FreeCameraConfig {
            enabled: false,
            remove_camera_effects: true,
            live_disable_character_teleport: false,
            live_force_all_characters_visible: false,
            show_overlay: true,
            selfie_use_head_transform: false,
            mode: FreeCameraMode::Free,
            live_target_position_index: 0,
            live_target_part_index: 0,
            race_target_index: -1i32,
            keybinds: FreeCameraKeybinds::spec_default(),
        }
    }
}

impl Default for FreeCameraConfig {
    fn default() -> (c: Self)
        ensures c == FreeCameraConfig::spec_default(),
    {
        FreeCameraConfig {
            enabled: false,
            remove_camera_effects: true,
            live_disable_character_teleport: false,
            live_force_all_characters_visible: false,
            show_overlay: true,
            selfie_use_head_transform: false,
            mode: FreeCameraMode::Free,
            live_target_position_index: 0,
            live_target_part_index: 0,
            race_target_index: -1,
            keybinds: FreeCameraKeybinds::default(),
        }
    }
}

/// Which camera controls are held down.
#[derive(Clone, Copy, Debug, PartialEq, Eq, Structural)]
pub struct KeyState {
    pub forward: bool,
    pub back: bool,
    pub left: bool,
    pub right: bool,
    pub down: bool,
    pub up: bool,
    pub look_up: bool,
    pub look_down: bool,
    pub look_left: bool,
    pub look_right: bool,
    pub fov_increase: bool,
    pub fov_decrease: bool,
    pub follow_offset_up: bool,
    pub follow_offset_down: bool,
    pub follow_offset_left: bool,
    pub follow_offset_right: bool,
}

impl KeyState {
    pub open spec fn spec_released() -> KeyState {
        KeyState {
            forward: false,
            back: false,
            left: false,
            right: false,
            down: false,
            up: false,
            look_up: false,
            look_down: false,
            look_left: false,
            look_right: false,
            fov_increase: false,
            fov_decrease: false,
            follow_offset_up: false,
            follow_offset_down: false,
            follow_offset_left: false,
            follow_offset_right: false,
        }
    }

    /// Any control that moves, turns or zooms the camera is held.
    pub open spec fn any_held(self) -> bool {
        ||| self.forward
        ||| self.back
        ||| self.left
        ||| self.right
        ||| self.down
        ||| self.up
        ||| self.look_up
        ||| self.look_down
        ||| self.look_left
        ||| self.look_right
        ||| self.fov_increase
        ||| self.fov_decrease
        ||| self.follow_offset_up
        ||| self.follow_offset_down
        ||| self.follow_offset_left
        ||| self.follow_offset_right
    }

    /// Every control bound to `vk` takes the value `pressed`; the others keep theirs.
    pub open spec fn with_key(self, vk: u16, pressed: bool, kb: FreeCameraKeybinds) -> KeyState {
        KeyState {
            forward: if vk == kb.move_forward { pressed } else { self.forward },
            back: if vk == kb.move_back { pressed } else { self.back },
            left: if vk == kb.move_left { pressed } else { self.left },
            right: if vk == kb.move_right { pressed } else { self.right },
            down: if vk == kb.move_down { pressed } else { self.down },
            up: if vk == kb.move_up { pressed } else { self.up },
            look_up: if vk == kb.look_up { pressed } else { self.look_up },
            look_down: if vk == kb.look_down { pressed } else { self.look_down },
            look_left: if vk == kb.look_left { pressed } else { self.look_left },
            look_right: if vk == kb.look_right { pressed } else { self.look_right },
            fov_increase: if vk == kb.fov_increase { pressed } else { self.fov_increase },
            fov_decrease: if vk == kb.fov_decrease { pressed } else { self.fov_decrease },
            follow_offset_up: if vk == kb.follow_offset_up { pressed } else { self.follow_offset_up },
            follow_offset_down: if vk == kb.follow_offset_down {
                pressed
            } else {
                self.follow_offset_down
            },
            follow_offset_left: if vk == kb.follow_offset_left {
                pressed
            } else {
                self.follow_offset_left
            },
            follow_offset_right: if vk == kb.follow_offset_right {
                pressed
            } else {
                self.follow_offset_right
            },
        }
    }
}

impl Default for KeyState {
    fn default() -> (k: Self)
        ensures k == KeyState::spec_released(),
    {
        KeyState {
            forward: false,
            back: false,
            left: false,
            right: false,
            down: false,
            up: false,
            look_up: false,
            look_down: false,
            look_left: false,
            look_right: false,
            fov_increase: false,
            fov_decrease: false,
            follow_offset_up: false,
            follow_offset_down: false,
            follow_offset_left: false,
            follow_offset_right: false,
        }
    }
}

/// A message to flash on screen.
#[derive(Clone, Copy, Debug, PartialEq, Eq, Structural)]
pub enum OverlayRequest {
    /// The camera switched to this mode.
    Mode(FreeCameraMode),
    /// The race camera now follows this gate (`-1`: the automatic choice).
    RaceTarget(i32),
    /// The live camera now follows the position at this index of the position table.
    LiveTarget(i32),
    /// The live camera now aims at the body part at this index of the part table.
    LivePart(i32),
}

/// Which follow distances a "reverse" flips.
#[derive(Clone, Copy, Debug, PartialEq, Eq, Structural)]
pub enum ReverseKind {
    Nothing,
    Race,
    Live,
}

/// What the continuous part of the camera has to do after an event.
#[derive(Clone, Copy, Debug, PartialEq, Eq, Structural)]
pub struct CameraActions {
    /// All camera quantities were reset from the configuration.
    pub reset_all: bool,
    /// The camera of the current mode was reset.
    pub reset_mode_camera: bool,
    /// Follow distances to negate.
    pub reverse: ReverseKind,
    /// The overlay message to show, the last one requested.
    pub overlay: Option<OverlayRequest>,
}

impl CameraActions {
    pub open spec fn spec_none() -> CameraActions {
        CameraActions { reset_all: false, reset_mode_camera: false, reverse: ReverseKind::Nothing, overlay: None }
    }

    pub fn none() -> (a: CameraActions)
        ensures a == CameraActions::spec_none(),
    {
        CameraActions { reset_all: false, reset_mode_camera: false, reverse: ReverseKind::Nothing, overlay: None }
    }
}

/// The discrete state of the free camera.
#[derive(Clone, Copy, Debug)]
pub struct FreeCameraState {
    pub scene: CameraScene,
    pub mode: FreeCameraMode,
    pub live_target_position_index: i32,
    pub live_target_part_index: i32,
    pub race_target_index: i32,
    /// The camera carries an explicit rotation (first person) instead of a look-at point.
    pub has_camera_rotation: bool,
    pub has_live_follow_target: bool,
    pub has_live_follow_position_target: bool,
    pub live_follow_precise_target: bool,
    pub live_follow_timeline_updated: bool,
    pub has_live_head_part_target: bool,
    pub has_selfie_camera_offset: bool,
    pub has_selfie_look_offset: bool,
    pub has_selfie_head_pos: bool,
    pub has_selfie_head_forward: bool,
    pub has_selfie_last_head_pos: bool,
    pub has_selfie_stabilized_target: bool,
    pub race_target_seen: bool,
    pub key_state: KeyState,
    pub gamepad_lb: bool,
    pub gamepad_rb: bool,
    pub gamepad_last_buttons: u16,
    pub right_mouse_down: bool,
    pub last_mouse_pos: Option<(i32, i32)>,
    pub last_enabled: bool,
    pub last_config_mode: FreeCameraMode,
    pub last_overlay_mode: FreeCameraMode,
    /// A configuration reload was requested and not yet applied.
    pub reload_requested: bool,
}

// ---------------------------------------------------------------------------------------------
// Tables of live targets.

/// Name of entry `i` of the live position table.
pub open spec fn live_position_name(i: int) -> Seq<char> {
    if i == 0 { "Place01"@ }
    else if i == 1 { "Place02"@ }
    else if i == 2 { "Place03"@ }
    else if i == 3 { "Place04"@ }
    else if i == 4 { "Place05"@ }
    else if i == 5 { "Place06"@ }
    else if i == 6 { "Place07"@ }
    else if i == 7 { "Place08"@ }
    else if i == 8 { "Place09"@ }
    else if i == 9 { "Place10"@ }
    else if i == 10 { "Place11"@ }
    else if i == 11 { "Place12"@ }
    else if i == 12 { "Place13"@ }
    else if i == 13 { "Place14"@ }
    else if i == 14 { "Place15"@ }
    else if i == 15 { "Place16"@ }
    else if i == 16 { "Place17"@ }
    else if i == 17 { "Place18"@ }
    else if i == 18 { "Place19"@ }
    else if i == 19 { "Place20"@ }
    else if i == 20 { "Center"@ }
    else if i == 21 { "Left"@ }
    else if i == 22 { "Right"@ }
    else if i == 23 { "Side"@ }
    else if i == 24 { "Back"@ }
    else if i == 25 { "Other"@ }
    else { "All"@ }
}

/// Position flag of entry `i` of the live position table: entries 0 to 19 select one
/// place each, the rest select groups of places.
pub open spec fn live_position_flag_at(i: int) -> i32 {
    if 0 <= i < 20 { pow2(i as nat) as i32 }
    else if i == 20 { 0x1 }
    else if i == 21 { 0x2 }
    else if i == 22 { 0x4 }
    else if i == 23 { 0x6 }
    else if i == 24 { 0xffff8 }
    else if i == 25 { 0xffffe }
    else { 0xfffff }
}

/// Name of entry `i` of the live part table.
pub open spec fn live_part_name(i: int) -> Seq<char> {
    if i == 0 { "Face"@ }
    else if i == 1 { "Waist"@ }
    else if i == 2 { "LeftHandWrist"@ }
    else if i == 3 { "RightHandAttach"@ }
    else if i == 4 { "Chest"@ }
    else if i == 5 { "Foot"@ }
    else if i == 6 { "InitFaceHeight"@ }
    else if i == 7 { "InitWaistHeight"@ }
    else if i == 8 { "InitChestHeight"@ }
    else if i == 9 { "RightHandWrist"@ }
    else if i == 10 { "LeftHandAttach"@ }
    else if i == 11 { "ConstFaceHeight"@ }
    else if i == 12 { "ConstChestHeight"@ }
    else if i == 13 { "ConstWaistHeight"@ }
    else if i == 14 { "ConstFootHeight"@ }
    else if i == 15 { "Position"@ }
    else if i == 16 { "PositionWithoutOffset"@ }
    else if i == 17 { "InitialHeightFace"@ }
    else if i == 18 { "InitialHeightChest"@ }
    else if i == 19 { "InitialHeightWaist"@ }
    else if i == 20 { "StartFrameFace"@ }
    else { "Max"@ }
}

fn live_position_entry(i: usize) -> (r: (&'static str, i32))
    requires i < 27,
    ensures r.0@ == live_position_name(i as int), r.1 == live_position_flag_at(i as int),
{
    proof {
        lemma2_to64();
    }
    match i {
        0 => ("Place01", 0x1),
        1 => ("Place02", 0x2),
        2 => ("Place03", 0x4),
        3 => ("Place04", 0x8),
        4 => ("Place05", 0x10),
        5 => ("Place06", 0x20),
        6 => ("Place07", 0x40),
        7 => ("Place08", 0x80),
        8 => ("Place09", 0x100),
        9 => ("Place10", 0x200),
        10 => ("Place11", 0x400),
        11 => ("Place12", 0x800),
        12 => ("Place13", 0x1000),
        13 => ("Place14", 0x2000),
        14 => ("Place15", 0x4000),
        15 => ("Place16", 0x8000),
        16 => ("Place17", 0x10000),
        17 => ("Place18", 0x20000),
        18 => ("Place19", 0x40000),
        19 => ("Place20", 0x80000),
        20 => ("Center", 0x1),
        21 => ("Left", 0x2),
        22 => ("Right", 0x4),
        23 => ("Side", 0x6),
        24 => ("Back", 0xffff8),
        25 => ("Other", 0xffffe),
        _ => ("All", 0xfffff),
    }
}

fn live_part_entry_name(i: usize) -> (r: &'static str)
    requires i < 22,
    ensures r@ == live_part_name(i as int),
{
    match i {
        0 => "Face",
        1 => "Waist",
        2 => "LeftHandWrist",
        3 => "RightHandAttach",
        4 => "Chest",
        5 => "Foot",
        6 => "InitFaceHeight",
        7 => "InitWaistHeight",
        8 => "InitChestHeight",
        9 => "RightHandWrist",
        10 => "LeftHandAttach",
        11 => "ConstFaceHeight",
        12 => "ConstChestHeight",
        13 => "ConstWaistHeight",
        14 => "ConstFootHeight",
        15 => "Position",
        16 => "PositionWithoutOffset",
        17 => "InitialHeightFace",
        18 => "InitialHeightChest",
        19 => "InitialHeightWaist",
        20 => "StartFrameFace",
        _ => "Max",
    }
}

/// Label of a live position index; out of range indices read "Unknown".
pub fn live_target_label(index: i32) -> (s: String)
    ensures
        0 <= index < LIVE_POSITION_COUNT ==> s@ == live_position_name(index as int),
        !(0 <= index < LIVE_POSITION_COUNT) ==> s@ == "Unknown"@,
{
    if index >= 0 && index < LIVE_POSITION_COUNT {
        live_position_entry(index as usize).0.to_owned()
    } else {
        "Unknown".to_owned()
    }
}

/// Label of a live part index; out of range indices read "Unknown".
pub fn live_part_label(index: i32) -> (s: String)
    ensures
        0 <= index < LIVE_PART_COUNT ==> s@ == live_part_name(index as int),
        !(0 <= index < LIVE_PART_COUNT) ==> s@ == "Unknown"@,
{
    if index >= 0 && index < LIVE_PART_COUNT {
        live_part_entry_name(index as usize).to_owned()
    } else {
        "Unknown".to_owned()
    }
}

// ---------------------------------------------------------------------------------------------
// State and its transitions.

/// Index `i` moved by `delta` around a ring of `n` entries.
pub open spec fn ring_step(i: int, delta: int, n: int) -> int {
    (i + delta) % n
}

pub open spec fn clamp_index(v: i32, n: i32) -> i32 {
    if v < 0 { 0 } else if v > n - 1 { (n - 1) as i32 } else { v }
}

impl FreeCameraState {
    /// The live targets index their tables.
    pub open spec fn wf(self) -> bool {
        &&& 0 <= self.live_target_position_index < LIVE_POSITION_COUNT
        &&& 0 <= self.live_target_part_index < LIVE_PART_COUNT
    }

    /// The race gate can be stepped once in either direction without leaving `i32`.
    pub open spec fn race_target_steppable(self) -> bool {
        i32::MIN < self.race_target_index < i32::MAX
    }

    /// The state after every quantity is taken from `config` again (the scene is kept).
    pub open spec fn spec_reset(self, config: FreeCameraConfig) -> FreeCameraState {
        FreeCameraState {
            scene: self.scene,
            mode: config.mode,
            live_target_position_index: clamp_index(config.live_target_position_index, LIVE_POSITION_COUNT),
            live_target_part_index: clamp_index(config.live_target_part_index, LIVE_PART_COUNT),
            race_target_index: config.race_target_index,
            has_camera_rotation: false,
            has_live_follow_target: false,
            has_live_follow_position_target: false,
            live_follow_precise_target: false,
            live_follow_timeline_updated: false,
            has_live_head_part_target: false,
            has_selfie_camera_offset: false,
            has_selfie_look_offset: false,
            has_selfie_head_pos: false,
            has_selfie_head_forward: false,
            has_selfie_last_head_pos: false,
            has_selfie_stabilized_target: false,
            race_target_seen: false,
            key_state: KeyState::spec_released(),
            gamepad_lb: self.gamepad_lb,
            gamepad_rb: self.gamepad_rb,
            gamepad_last_buttons: self.gamepad_last_buttons,
            right_mouse_down: false,
            last_mouse_pos: None,
            last_enabled: self.last_enabled,
            last_config_mode: config.mode,
            last_overlay_mode: config.mode,
            reload_requested: self.reload_requested,
        }
    }

    /// The follow bookkeeping dropped when the mode or the followed position changes.
    pub open spec fn spec_drop_follow(self) -> FreeCameraState {
        FreeCameraState {
            has_live_follow_target: false,
            has_live_head_part_target: false,
            live_follow_precise_target: false,
            live_follow_timeline_updated: false,
            has_selfie_camera_offset: false,
            has_selfie_look_offset: false,
            has_selfie_last_head_pos: false,
            has_selfie_stabilized_target: false,
            ..self
        }
    }

    /// The follow bookkeeping dropped when the followed body part changes.
    pub open spec fn spec_drop_part_follow(self) -> FreeCameraState {
        FreeCameraState {
            has_live_follow_target: false,
            has_live_head_part_target: false,
            live_follow_precise_target: false,
            live_follow_timeline_updated: false,
            has_selfie_stabilized_target: false,
            ..self
        }
    }

    /// Resetting the camera of the current mode.
    pub open spec fn spec_reset_mode_camera(self) -> FreeCameraState {
        let base = FreeCameraState {
            has_camera_rotation: false,
            key_state: KeyState::spec_released(),
            right_mouse_down: false,
            last_mouse_pos: None,
            ..self
        };
        if self.mode == FreeCameraMode::SelfieStick {
            FreeCameraState {
                has_live_follow_target: false,
                has_live_follow_position_target: false,
                live_follow_precise_target: false,
                live_follow_timeline_updated: false,
                has_live_head_part_target: false,
                has_selfie_camera_offset: false,
                has_selfie_look_offset: false,
                has_selfie_head_pos: false,
                has_selfie_head_forward: false,
                has_selfie_last_head_pos: false,
                has_selfie_stabilized_target: false,
                ..base
            }
        } else {
            base
        }
    }

    /// The mode that follows `m` in the cycle free, selfie stick, first person.
    pub open spec fn next_mode(m: FreeCameraMode) -> FreeCameraMode {
        match m {
            FreeCameraMode::Free => FreeCameraMode::SelfieStick,
            FreeCameraMode::SelfieStick => FreeCameraMode::FirstPerson,
            FreeCameraMode::FirstPerson => FreeCameraMode::Free,
        }
    }

    pub open spec fn spec_cycle_mode(self) -> FreeCameraState {
        let m = Self::next_mode(self.mode);
        FreeCameraState { mode: m, has_camera_rotation: false, last_overlay_mode: m, ..self.spec_drop_follow() }
    }

    /// The live position target can be switched: live scene, selfie stick or first person.
    pub open spec fn live_target_switchable(self) -> bool {
        self.scene == CameraScene::Live && (self.mode == FreeCameraMode::SelfieStick
            || self.mode == FreeCameraMode::FirstPerson)
    }

    /// The live body part can be switched: outside races, selfie stick.
    pub open spec fn live_part_switchable(self) -> bool {
        self.scene != CameraScene::Race && self.mode == FreeCameraMode::SelfieStick
    }

    /// Moving the followed target by `delta` (`-1` or `1`).
    pub open spec fn spec_step_target(self, delta: int) -> FreeCameraState {
        if self.scene == CameraScene::Race {
            let r = self.race_target_index + delta;
            let r2 = if delta < 0 && r < -1 { -1 } else if delta > 0 && r > RACE_LAST_GATE { -1 } else { r };
            FreeCameraState { race_target_index: r2 as i32, ..self }
        } else if self.live_target_switchable() {
            FreeCameraState {
                live_target_position_index: ring_step(
                    self.live_target_position_index as int,
                    delta,
                    LIVE_POSITION_COUNT as int,
                ) as i32,
                ..self.spec_drop_follow()
            }
        } else {
            self
        }
    }

    /// The overlay that moving the target by `delta` shows, when it shows one.
    pub open spec fn spec_step_target_overlay(self, delta: int) -> Option<OverlayRequest> {
        let after = self.spec_step_target(delta);
        if self.scene == CameraScene::Race {
            if after.race_target_index != self.race_target_index {
                Some(OverlayRequest::RaceTarget(after.race_target_index))
            } else {
                None
            }
        } else if self.live_target_switchable() {
            Some(OverlayRequest::LiveTarget(after.live_target_position_index))
        } else {
            None
        }
    }

    pub open spec fn spec_step_part(self, delta: int) -> FreeCameraState {
        if self.live_part_switchable() {
            FreeCameraState {
                live_target_part_index: ring_step(
                    self.live_target_part_index as int,
                    delta,
                    LIVE_PART_COUNT as int,
                ) as i32,
                ..self.spec_drop_part_follow()
            }
        } else {
            self
        }
    }

    pub open spec fn spec_step_part_overlay(self, delta: int) -> Option<OverlayRequest> {
        if self.live_part_switchable() {
            Some(OverlayRequest::LivePart(self.spec_step_part(delta).live_target_part_index))
        } else {
            None
        }
    }

    pub open spec fn spec_reverse_kind(self) -> ReverseKind {
        if self.scene == CameraScene::Race {
            ReverseKind::Race
        } else if self.scene == CameraScene::Live && self.mode == FreeCameraMode::SelfieStick {
            ReverseKind::Live
        } else {
            ReverseKind::Nothing
        }
    }

    /// The camera state at start-up: the factory configuration, outside any scene.
    pub open spec fn spec_initial() -> FreeCameraState {
        let config = FreeCameraConfig::spec_default();
        FreeCameraState {
            scene: CameraScene::NoScene,
            mode: config.mode,
            live_target_position_index: 0,
            live_target_part_index: 0,
            race_target_index: -1i32,
            has_camera_rotation: false,
            has_live_follow_target: false,
            has_live_follow_position_target: false,
            live_follow_precise_target: false,
            live_follow_timeline_updated: false,
            has_live_head_part_target: false,
            has_selfie_camera_offset: false,
            has_selfie_look_offset: false,
            has_selfie_head_pos: false,
            has_selfie_head_forward: false,
            has_selfie_last_head_pos: false,
            has_selfie_stabilized_target: false,
            race_target_seen: false,
            key_state: KeyState::spec_released(),
            gamepad_lb: false,
            gamepad_rb: false,
            gamepad_last_buttons: 0,
            right_mouse_down: false,
            last_mouse_pos: None,
            last_enabled: false,
            last_config_mode: config.mode,
            last_overlay_mode: config.mode,
            reload_requested: false,
        }
    }

    pub fn new() -> (s: FreeCameraState)
        ensures s == FreeCameraState::spec_initial(), s.wf(),
    {
        let config = FreeCameraConfig::default();
        let mut state = FreeCameraState {
            scene: CameraScene::NoScene,
            mode: config.mode,
            live_target_position_index: 0,
            live_target_part_index: 0,
            race_target_index: -1,
            has_camera_rotation: false,
            has_live_follow_target: false,
            has_live_follow_position_target: false,
            live_follow_precise_target: false,
            live_follow_timeline_updated: false,
            has_live_head_part_target: false,
            has_selfie_camera_offset: false,
            has_selfie_look_offset: false,
            has_selfie_head_pos: false,
            has_selfie_head_forward: false,
            has_selfie_last_head_pos: false,
            has_selfie_stabilized_target: false,
            race_target_seen: false,
            key_state: KeyState::default(),
            gamepad_lb: false,
            gamepad_rb: false,
            gamepad_last_buttons: 0,
            right_mouse_down: false,
            last_mouse_pos: None,
            last_enabled: false,
            last_config_mode: config.mode,
            last_overlay_mode: config.mode,
            reload_requested: false,
        };
        state.reset_with_config(&config);
        state
    }

    /// Takes every quantity from `config` again.
    pub fn reset_with_config(&mut self, config: &FreeCameraConfig)
        ensures *final(self) == old(self).spec_reset(*config), final(self).wf(),
    {
        *self = FreeCameraState {
            scene: self.scene,
            mode: config.mode,
            live_target_position_index: clamp(config.live_target_position_index, 0, LIVE_POSITION_COUNT - 1),
            live_target_part_index: clamp(config.live_target_part_index, 0, LIVE_PART_COUNT - 1),
            race_target_index: config.race_target_index,
            has_camera_rotation: false,
            has_live_follow_target: false,
            has_live_follow_position_target: false,
            live_follow_precise_target: false,
            live_follow_timeline_updated: false,
            has_live_head_part_target: false,
            has_selfie_camera_offset: false,
            has_selfie_look_offset: false,
            has_selfie_head_pos: false,
            has_selfie_head_forward: false,
            has_selfie_last_head_pos: false,
            has_selfie_stabilized_target: false,
            race_target_seen: false,
            key_state: KeyState::default(),
            gamepad_lb: self.gamepad_lb,
            gamepad_rb: self.gamepad_rb,
            gamepad_last_buttons: self.gamepad_last_buttons,
            right_mouse_down: false,
            last_mouse_pos: None,
            last_enabled: self.last_enabled,
            last_config_mode: config.mode,
            last_overlay_mode: config.mode,
            reload_requested: self.reload_requested,
        };
    }

    /// A copy of `self` taken from `config` again.
    fn reset_copy(self, config: &FreeCameraConfig) -> (r: FreeCameraState)
        ensures r == self.spec_reset(*config), r.wf(),
    {
        let mut r = self;
        r.reset_with_config(config);
        r
    }

    fn reset_current_mode_camera(&mut self)
        ensures *final(self) == old(self).spec_reset_mode_camera(),
    {
        let base = FreeCameraState {
            has_camera_rotation: false,
            key_state: KeyState::default(),
            right_mouse_down: false,
            last_mouse_pos: None,
            ..*self
        };
        *self = match self.mode {
            FreeCameraMode::SelfieStick => FreeCameraState {
                has_live_follow_target: false,
                has_live_follow_position_target: false,
                live_follow_precise_target: false,
                live_follow_timeline_updated: false,
                has_live_head_part_target: false,
                has_selfie_camera_offset: false,
                has_selfie_look_offset: false,
                has_selfie_head_pos: false,
                has_selfie_head_forward: false,
                has_selfie_last_head_pos: false,
                has_selfie_stabilized_target: false,
                ..base
            },
            _ => base,
        };
    }

    /// Attaches the camera to `scene`; a change of scene resets it from `config`.
    /// Returns whether it was reset.
    pub fn set_scene(&mut self, scene: CameraScene, config: &FreeCameraConfig) -> (reset: bool)
        ensures
            reset == (old(self).scene != scene),
            reset ==> *final(self) == (FreeCameraState { scene, ..*old(self) }).spec_reset(*config),
            !reset ==> *final(self) == *old(self),
    {
        if self.scene != scene {
            self.scene = scene;
            self.reset_with_config(config);
            true
        } else {
            false
        }
    }

    fn drop_follow(&mut self)
        ensures *final(self) == old(self).spec_drop_follow(),
    {
        *self = FreeCameraState {
            has_live_follow_target: false,
            has_live_head_part_target: false,
            live_follow_precise_target: false,
            live_follow_timeline_updated: false,
            has_selfie_camera_offset: false,
            has_selfie_look_offset: false,
            has_selfie_last_head_pos: false,
            has_selfie_stabilized_target: false,
            ..*self
        };
    }

    fn cycle_mode(&mut self, config: &FreeCameraConfig) -> (overlay: Option<OverlayRequest>)
        ensures
            *final(self) == old(self).spec_cycle_mode(),
            overlay == (if config.show_overlay {
                Some(OverlayRequest::Mode(Self::next_mode(old(self).mode)))
            } else {
                None
            }),
    {
        self.mode = match self.mode {
            FreeCameraMode::Free => FreeCameraMode::SelfieStick,
            FreeCameraMode::SelfieStick => FreeCameraMode::FirstPerson,
            FreeCameraMode::FirstPerson => FreeCameraMode::Free,
        };
        self.has_camera_rotation = false;
        self.drop_follow();
        self.last_overlay_mode = self.mode;
        if config.show_overlay {
            Some(OverlayRequest::Mode(self.mode))
        } else {
            None
        }
    }

    fn previous_target(&mut self, config: &FreeCameraConfig) -> (overlay: Option<OverlayRequest>)
        requires
            old(self).wf(),
            old(self).scene == CameraScene::Race ==> old(self).race_target_index > i32::MIN,
        ensures
            *final(self) == old(self).spec_step_target(-1),
            final(self).wf(),
            overlay == (if config.show_overlay { old(self).spec_step_target_overlay(-1) } else { None }),
    {
        if self.scene == CameraScene::Race {
            let stepped = self.race_target_index - 1;
            let r = if stepped < -1 { -1 } else { stepped };
            let changed = r != self.race_target_index;
            *self = FreeCameraState { race_target_index: r, ..*self };
            if changed && config.show_overlay {
                Some(OverlayRequest::RaceTarget(r))
            } else {
                None
            }
        } else if self.scene == CameraScene::Live && (self.mode == FreeCameraMode::SelfieStick
            || self.mode == FreeCameraMode::FirstPerson) {
            let i = self.live_target_position_index;
            let next = if i == 0 { LIVE_POSITION_COUNT - 1 } else { i - 1 };
            assert(next as int == ring_step(i as int, -1, LIVE_POSITION_COUNT as int));
            self.drop_follow();
            self.live_target_position_index = next;
            if config.show_overlay {
                Some(OverlayRequest::LiveTarget(next))
            } else {
                None
            }
        } else {
            None
        }
    }

    fn next_target(&mut self, config: &FreeCameraConfig) -> (overlay: Option<OverlayRequest>)
        requires
            old(self).wf(),
            old(self).scene == CameraScene::Race ==> old(self).race_target_index < i32::MAX,
        ensures
            *final(self) == old(self).spec_step_target(1),
            final(self).wf(),
            overlay == (if config.show_overlay { old(self).spec_step_target_overlay(1) } else { None }),
    {
        if self.scene == CameraScene::Race {
            let stepped = self.race_target_index + 1;
            let r = if stepped > RACE_LAST_GATE { -1 } else { stepped };
            let changed = r != self.race_target_index;
            *self = FreeCameraState { race_target_index: r, ..*self };
            if changed && config.show_overlay {
                Some(OverlayRequest::RaceTarget(r))
            } else {
                None
            }
        } else if self.scene == CameraScene::Live && (self.mode == FreeCameraMode::SelfieStick
            || self.mode == FreeCameraMode::FirstPerson) {
            let i = self.live_target_position_index;
            let next = if i == LIVE_POSITION_COUNT - 1 { 0 } else { i + 1 };
            assert(next as int == ring_step(i as int, 1, LIVE_POSITION_COUNT as int));
            self.drop_follow();
            self.live_target_position_index = next;
            if config.show_overlay {
                Some(OverlayRequest::LiveTarget(next))
            } else {
                None
            }
        } else {
            None
        }
    }

    fn previous_live_part(&mut self, config: &FreeCameraConfig) -> (overlay: Option<OverlayRequest>)
        requires old(self).wf(),
        ensures
            *final(self) == old(self).spec_step_part(-1),
            final(self).wf(),
            overlay == (if config.show_overlay { old(self).spec_step_part_overlay(-1) } else { None }),
    {
        if self.scene != CameraScene::Race && self.mode == FreeCameraMode::SelfieStick {
            let i = self.live_target_part_index;
            let next = if i == 0 { LIVE_PART_COUNT - 1 } else { i - 1 };
            assert(next as int == ring_step(i as int, -1, LIVE_PART_COUNT as int));
            *self = FreeCameraState {
                live_target_part_index: next,
                has_live_follow_target: false,
                has_live_head_part_target: false,
                live_follow_precise_target: false,
                live_follow_timeline_updated: false,
                has_selfie_stabilized_target: false,
                ..*self
            };
            if config.show_overlay {
                Some(OverlayRequest::LivePart(next))
            } else {
                None
            }
        } else {
            None
        }
    }

    fn next_live_part(&mut self, config: &FreeCameraConfig) -> (overlay: Option<OverlayRequest>)
        requires old(self).wf(),
        ensures
            *final(self) == old(self).spec_step_part(1),
            final(self).wf(),
            overlay == (if config.show_overlay { old(self).spec_step_part_overlay(1) } else { None }),
    {
        if self.scene != CameraScene::Race && self.mode == FreeCameraMode::SelfieStick {
            let i = self.live_target_part_index;
            let next = if i == LIVE_PART_COUNT - 1 { 0 } else { i + 1 };
            assert(next as int == ring_step(i as int, 1, LIVE_PART_COUNT as int));
            *self = FreeCameraState {
                live_target_part_index: next,
                has_live_follow_target: false,
                has_live_head_part_target: false,
                live_follow_precise_target: false,
                live_follow_timeline_updated: false,
                has_selfie_stabilized_target: false,
                ..*self
            };
            if config.show_overlay {
                Some(OverlayRequest::LivePart(next))
            } else {
                None
            }
        } else {
            None
        }
    }
}

fn clamp(v: i32, lo: i32, hi: i32) -> (r: i32)
    requires lo <= hi,
    ensures r == (if v < lo { lo } else if v > hi { hi } else { v }),
{
    if v < lo { lo } else if v > hi { hi } else { v }
}

} // verus!

verus! {

// ---------------------------------------------------------------------------------------------
// Queries.

/// Requests that the next tick takes the configuration again.
pub fn reload_runtime_config(state: &mut FreeCameraState)
    ensures *final(state) == (FreeCameraState { reload_requested: true, ..*old(state) }),
{
    state.reload_requested = true;
}

pub fn is_enabled(config: &FreeCameraConfig) -> (r: bool)
    ensures r == config.enabled,
{
    config.enabled
}

pub open spec fn spec_capture_active(config: FreeCameraConfig, state: FreeCameraState) -> bool {
    config.enabled && (state.scene == CameraScene::Live || state.scene == CameraScene::Race)
}

/// The camera takes game input: it is enabled and attached to a live or a race.
pub fn is_game_input_capture_active(config: &FreeCameraConfig, state: &FreeCameraState) -> (r: bool)
    ensures r == spec_capture_active(*config, *state),
{
    config.enabled && (state.scene == CameraScene::Live || state.scene == CameraScene::Race)
}

/// Whether an overlay message is on screen, given how long ago it was set (if any).
pub fn has_overlay_message(config: &FreeCameraConfig, age_nanos: Option<u64>) -> (r: bool)
    ensures
        r == (config.enabled && config.show_overlay && age_nanos is Some
            && age_nanos->0 <= OVERLAY_LIFETIME_NANOS),
{
    if !config.enabled || !config.show_overlay {
        return false;
    }
    match age_nanos {
        Some(age) => age <= OVERLAY_LIFETIME_NANOS,
        None => false,
    }
}

pub fn scene(state: &FreeCameraState) -> (s: CameraScene)
    ensures s == state.scene,
{
    state.scene
}

pub fn is_scene_enabled(config: &FreeCameraConfig, state: &FreeCameraState, scene: CameraScene) -> (r: bool)
    ensures r == (config.enabled && state.scene == scene),
{
    config.enabled && state.scene == scene
}

/// The game's camera clip planes are overridden while the camera drives a live or a race.
pub fn should_override_near_clip(config: &FreeCameraConfig, state: &FreeCameraState) -> (r: bool)
    ensures r == spec_capture_active(*config, *state),
{
    is_scene_enabled(config, state, CameraScene::Live) || is_scene_enabled(config, state, CameraScene::Race)
}

pub fn mode(state: &FreeCameraState) -> (m: FreeCameraMode)
    ensures m == state.mode,
{
    state.mode
}

pub fn is_live_selfie_stick(config: &FreeCameraConfig, state: &FreeCameraState) -> (r: bool)
    ensures r == (config.enabled && state.scene == CameraScene::Live && state.mode == FreeCameraMode::SelfieStick),
{
    config.enabled && state.scene == CameraScene::Live && state.mode == FreeCameraMode::SelfieStick
}

pub fn is_live_first_person(config: &FreeCameraConfig, state: &FreeCameraState) -> (r: bool)
    ensures r == (config.enabled && state.scene == CameraScene::Live && state.mode == FreeCameraMode::FirstPerson),
{
    config.enabled && state.scene == CameraScene::Live && state.mode == FreeCameraMode::FirstPerson
}

pub fn is_race_first_person(config: &FreeCameraConfig, state: &FreeCameraState) -> (r: bool)
    ensures r == (config.enabled && state.scene == CameraScene::Race && state.mode == FreeCameraMode::FirstPerson),
{
    config.enabled && state.scene == CameraScene::Race && state.mode == FreeCameraMode::FirstPerson
}

pub fn is_live_head_selfie(config: &FreeCameraConfig, state: &FreeCameraState) -> (r: bool)
    ensures
        r == (config.enabled && config.selfie_use_head_transform && state.scene == CameraScene::Live
            && state.mode == FreeCameraMode::SelfieStick),
{
    config.enabled && config.selfie_use_head_transform && state.scene == CameraScene::Live
        && state.mode == FreeCameraMode::SelfieStick
}

pub fn is_race_head_selfie(config: &FreeCameraConfig, state: &FreeCameraState) -> (r: bool)
    ensures
        r == (config.enabled && config.selfie_use_head_transform && state.scene == CameraScene::Race
            && state.mode == FreeCameraMode::SelfieStick),
{
    config.enabled && config.selfie_use_head_transform && state.scene == CameraScene::Race
        && state.mode == FreeCameraMode::SelfieStick
}

pub fn should_remove_camera_effects(config: &FreeCameraConfig, state: &FreeCameraState) -> (r: bool)
    ensures r == (config.enabled && config.remove_camera_effects && state.scene == CameraScene::Live),
{
    config.enabled && config.remove_camera_effects && state.scene == CameraScene::Live
}

pub fn should_disable_live_character_teleport(config: &FreeCameraConfig, state: &FreeCameraState) -> (r: bool)
    ensures r == (config.enabled && config.live_disable_character_teleport && state.scene == CameraScene::Live),
{
    config.enabled && config.live_disable_character_teleport && state.scene == CameraScene::Live
}

pub fn should_force_live_characters_visible(config: &FreeCameraConfig, state: &FreeCameraState) -> (r: bool)
    ensures
        r == (config.enabled && config.live_force_all_characters_visible && state.scene == CameraScene::Live),
{
    config.enabled && config.live_force_all_characters_visible && state.scene == CameraScene::Live
}

/// Flag of the followed live position.
pub fn live_position_flag(state: &FreeCameraState) -> (f: i32)
    requires state.wf(),
    ensures f == live_position_flag_at(state.live_target_position_index as int),
{
    live_position_entry(state.live_target_position_index as usize).1
}

pub fn live_position_index(state: &FreeCameraState) -> (i: i32)
    ensures i == state.live_target_position_index,
{
    state.live_target_position_index
}

/// The character slot of a one-place flag `2^k`: `k`, skipping slots 18 and 19.
pub open spec fn character_slot_of_flag(flag: i32) -> i32 {
    if exists|k: nat| k < 31 && pow2(k) == flag {
        let k = choose|k: nat| k < 31 && pow2(k) == flag;
        if k >= 18 { (k + 2) as i32 } else { k as i32 }
    } else {
        0
    }
}

/// The character slot the followed live position selects: the place of a one-place flag,
/// 0 for a flag that selects a group.
pub fn live_character_position_index(state: &FreeCameraState) -> (i: i32)
    requires state.wf(),
    ensures i == character_slot_of_flag(live_position_flag_at(state.live_target_position_index as int)),
{
    let flag = live_position_entry(state.live_target_position_index as usize).1;
    match single_bit_position(flag) {
        Some(k) => if k >= 18 { k as i32 + 2 } else { k as i32 },
        None => 0,
    }
}

/// The exponent `k < 31` with `flag == 2^k`, if there is one.
fn single_bit_position(flag: i32) -> (r: Option<u32>)
    ensures
        r is Some ==> r->0 < 31 && pow2(r->0 as nat) == flag
            && r->0 as nat == (choose|k: nat| k < 31 && pow2(k) == flag),
        r is None ==> !(exists|k: nat| k < 31 && pow2(k) == flag),
{
    let mut k: u32 = 0;
    let mut p: i32 = 1;
    proof {
        lemma2_to64();
    }
    while k < 31
        invariant
            k <= 31,
            pow2(30) == 0x40000000,
            k < 31 ==> p as int == pow2(k as nat),
            forall|j: nat| j < k ==> pow2(j) != flag,
        decreases 31 - k,
    {
        if flag == p {
            proof {
                let kk = k as nat;
                assert(kk < 31 && pow2(kk) == flag);
                let c = choose|c: nat| c < 31 && pow2(c) == flag;
                if c < kk {
                    assert(pow2(c) != flag);
                } else if kk < c {
                    vstd::arithmetic::power2::lemma_pow2_strictly_increases(kk, c);
                }
            }
            return Some(k);
        }
        if k < 30 {
            proof {
                lemma_pow2_unfold((k + 1) as nat);
                if k + 1 < 30 {
                    vstd::arithmetic::power2::lemma_pow2_strictly_increases((k + 1) as nat, 30);
                }
            }
            p = p * 2;
        }
        k = k + 1;
    }
    None

}

/// Value of the followed live body part.
pub fn live_part(state: &FreeCameraState) -> (p: i32)
    requires state.wf(),
    ensures p == state.live_target_part_index,
{
    state.live_target_part_index
}

/// Model of the followed race gate: the automatic choice (`-1`) follows the first model.
pub fn race_model_index(state: &FreeCameraState) -> (i: i32)
    ensures i == (if state.race_target_index < 0 { 0 } else { state.race_target_index }),
{
    if state.race_target_index < 0 { 0 } else { state.race_target_index }
}

/// On Windows, whether the camera holds an input that moves or turns it (held keys or the
/// right mouse button), so that the window's input goes to the camera. This is the Windows
/// answer only: elsewhere the camera never captures the window's input.
pub fn wants_windows_input_capture(config: &FreeCameraConfig, state: &FreeCameraState) -> (r: bool)
    ensures r == (config.enabled && (state.right_mouse_down || state.key_state.any_held())),
{
    if !config.enabled {
        return false;
    }
    let k = &state.key_state;
    state.right_mouse_down || k.forward || k.back || k.left || k.right || k.down || k.up
        || k.look_up || k.look_down || k.look_left || k.look_right || k.fov_increase
        || k.fov_decrease || k.follow_offset_up || k.follow_offset_down || k.follow_offset_left
        || k.follow_offset_right
}

/// Whether `vk` is bound to a camera control while the camera takes game input.
pub fn is_windows_key_bound(config: &FreeCameraConfig, state: &FreeCameraState, vk: u16) -> (r: bool)
    ensures r == (spec_capture_active(*config, *state) && config.keybinds.binds(vk)),
{
    if !is_game_input_capture_active(config, state) {
        return false;
    }
    let kb = &config.keybinds;
    vk == kb.move_forward || vk == kb.move_back || vk == kb.move_left || vk == kb.move_right
        || vk == kb.move_down || vk == kb.move_up || vk == kb.look_up || vk == kb.look_down
        || vk == kb.look_left || vk == kb.look_right || vk == kb.fov_increase
        || vk == kb.fov_decrease || vk == kb.follow_offset_up || vk == kb.follow_offset_down
        || vk == kb.follow_offset_left || vk == kb.follow_offset_right
        || vk == kb.target_previous || vk == kb.target_next || vk == kb.part_previous
        || vk == kb.part_next || vk == kb.reset || vk == kb.cycle_mode || vk == kb.reverse
}

} // verus!

verus! {

// ---------------------------------------------------------------------------------------------
// Scene control.

/// Attaches the enabled camera to a live; returns whether the camera was reset.
pub fn set_live_active(config: &FreeCameraConfig, state: &mut FreeCameraState) -> (reset: bool)
    ensures
        !config.enabled ==> !reset && *final(state) == *old(state),
        config.enabled ==> reset == (old(state).scene != CameraScene::Live),
        config.enabled && reset ==> *final(state)
            == (FreeCameraState { scene: CameraScene::Live, ..*old(state) }).spec_reset(*config),
        config.enabled && !reset ==> *final(state) == *old(state),
{
    if !config.enabled {
        return false;
    }
    state.set_scene(CameraScene::Live, config)
}

/// Attaches the enabled camera to a race; returns whether the camera was reset.
pub fn set_race_active(config: &FreeCameraConfig, state: &mut FreeCameraState) -> (reset: bool)
    ensures
        !config.enabled ==> !reset && *final(state) == *old(state),
        config.enabled ==> reset == (old(state).scene != CameraScene::Race),
        config.enabled && reset ==> *final(state)
            == (FreeCameraState { scene: CameraScene::Race, ..*old(state) }).spec_reset(*config),
        config.enabled && !reset ==> *final(state) == *old(state),
{
    if !config.enabled {
        return false;
    }
    state.set_scene(CameraScene::Race, config)
}

/// Detaches the camera from `scene` if it is attached to it; returns whether it was reset.
pub fn end_scene(config: &FreeCameraConfig, state: &mut FreeCameraState, scene: CameraScene) -> (reset: bool)
    ensures
        reset == (old(state).scene == scene),
        reset ==> *final(state)
            == (FreeCameraState { scene: CameraScene::NoScene, ..*old(state) }).spec_reset(*config),
        !reset ==> *final(state) == *old(state),
{
    if state.scene == scene {
        state.scene = CameraScene::NoScene;
        state.reset_with_config(config);
        true
    } else {
        false
    }
}

/// A new frame of the live director begins: the timeline has not placed the target yet.
pub fn begin_live_director_update(state: &mut FreeCameraState)
    ensures *final(state) == (FreeCameraState { live_follow_timeline_updated: false, ..*old(state) }),
{
    state.live_follow_timeline_updated = false;
}

// ---------------------------------------------------------------------------------------------
// Follow targets.

impl FreeCameraState {
    /// The follow camera was placed: the stabilized target and the follow target exist and
    /// the camera looks at a point.
    pub open spec fn spec_follow_camera(self) -> FreeCameraState {
        FreeCameraState {
            has_selfie_stabilized_target: true,
            has_live_follow_target: true,
            has_camera_rotation: false,
            ..self
        }
    }

    pub open spec fn live_selfie(self) -> bool {
        self.scene == CameraScene::Live && self.mode == FreeCameraMode::SelfieStick
    }
}

/// The timeline placed the live follow target; returns whether the follow camera is placed.
pub fn update_live_follow_target(config: &FreeCameraConfig, state: &mut FreeCameraState) -> (apply: bool)
    ensures
        apply == config.enabled,
        !apply ==> *final(state) == *old(state),
        apply ==> *final(state) == (FreeCameraState {
            live_follow_precise_target: true,
            live_follow_timeline_updated: true,
            ..*old(state)
        }).spec_follow_camera(),
{
    if !config.enabled {
        return false;
    }
    *state = FreeCameraState {
        live_follow_precise_target: true,
        live_follow_timeline_updated: true,
        has_selfie_stabilized_target: true,
        has_live_follow_target: true,
        has_camera_rotation: false,
        ..*state
    };
    true
}

/// The timeline placed the followed position of a live selfie; returns whether the follow
/// camera is placed.
pub fn update_live_follow_position_target(config: &FreeCameraConfig, state: &mut FreeCameraState) -> (apply: bool)
    ensures
        apply == (config.enabled && old(state).live_selfie()),
        !apply ==> *final(state) == *old(state),
        apply ==> *final(state) == (FreeCameraState {
            has_live_follow_position_target: true,
            live_follow_precise_target: true,
            live_follow_timeline_updated: true,
            has_selfie_last_head_pos: old(state).has_selfie_head_pos,
            ..*old(state)
        }).spec_follow_camera(),
{
    if !config.enabled || state.scene != CameraScene::Live || state.mode != FreeCameraMode::SelfieStick {
        return false;
    }
    *state = FreeCameraState {
        has_live_follow_position_target: true,
        live_follow_precise_target: true,
        live_follow_timeline_updated: true,
        has_selfie_last_head_pos: state.has_selfie_head_pos,
        has_selfie_stabilized_target: true,
        has_live_follow_target: true,
        has_camera_rotation: false,
        ..*state
    };
    true
}

/// A paused live re-places the selfie camera around the last follow target; returns
/// whether it does.
pub fn refresh_paused_live_camera(config: &FreeCameraConfig, state: &mut FreeCameraState) -> (apply: bool)
    ensures
        apply == (config.enabled && !config.selfie_use_head_transform && old(state).live_selfie()
            && old(state).has_live_follow_target),
        !apply ==> *final(state) == *old(state),
        apply ==> *final(state) == (FreeCameraState { has_camera_rotation: false, ..*old(state) }),
{
    if !config.enabled || config.selfie_use_head_transform {
        return false;
    }
    if state.scene != CameraScene::Live || state.mode != FreeCameraMode::SelfieStick {
        return false;
    }
    if !state.has_live_follow_target {
        return false;
    }
    state.has_camera_rotation = false;
    true
}

/// The head transform reported the followed body part; returns whether it is recorded.
pub fn update_live_head_part_target(config: &FreeCameraConfig, state: &mut FreeCameraState) -> (apply: bool)
    ensures
        apply == (config.enabled && config.selfie_use_head_transform && old(state).live_selfie()),
        !apply ==> *final(state) == *old(state),
        apply ==> *final(state) == (FreeCameraState { has_live_head_part_target: true, ..*old(state) }),
{
    if !config.enabled || !config.selfie_use_head_transform {
        return false;
    }
    if state.scene == CameraScene::Live && state.mode == FreeCameraMode::SelfieStick {
        state.has_live_head_part_target = true;
        true
    } else {
        false
    }
}

/// How the live director frame places the selfie camera.
#[derive(Clone, Copy, Debug, PartialEq, Eq, Structural)]
pub enum DirectorFollow {
    /// Nothing to do.
    Skipped,
    /// Only the head position and direction were recorded.
    HeadRecorded,
    /// Place the follow camera. The target is the character root (`from_root`) or the
    /// body part near the head; `stored_target` says the stored position target is used
    /// instead, and `shift_by_head` that it moves with the head since the last frame.
    Follow { from_root: bool, stored_target: bool, shift_by_head: bool },
}

#[derive(Clone, Copy, Debug, PartialEq, Eq, Structural)]
pub struct DirectorFollowUpdate {
    pub reset: bool,
    pub follow: DirectorFollow,
}

/// Body parts whose anchor is the character root rather than a point near the head.
pub open spec fn part_follows_root(part_index: i32) -> bool {
    part_index == 0xf || part_index == 0x10
}

/// The live director reported the followed character for a frame.
pub fn update_live_director_follow_target(config: &FreeCameraConfig, state: &mut FreeCameraState) -> (u: DirectorFollowUpdate)
    requires old(state).wf(),
    ensures
        final(state).wf(),
        !config.enabled || config.selfie_use_head_transform ==> *final(state) == *old(state)
            && u == (DirectorFollowUpdate { reset: false, follow: DirectorFollow::Skipped }),
        config.enabled && !config.selfie_use_head_transform ==> ({
            let reset = old(state).scene != CameraScene::Live;
            let s1 = if reset {
                (FreeCameraState { scene: CameraScene::Live, ..*old(state) }).spec_reset(*config)
            } else {
                *old(state)
            };
            let s2 = FreeCameraState { has_selfie_head_pos: true, has_selfie_head_forward: true, ..s1 };
            &&& u.reset == reset
            &&& s1.mode != FreeCameraMode::SelfieStick ==> u.follow == DirectorFollow::Skipped
                && *final(state) == s1
            &&& s1.mode == FreeCameraMode::SelfieStick && s1.live_follow_timeline_updated ==>
                u.follow == DirectorFollow::HeadRecorded
                && *final(state) == (FreeCameraState { has_selfie_last_head_pos: true, ..s2 })
            &&& s1.mode == FreeCameraMode::SelfieStick && !s1.live_follow_timeline_updated
                && s1.live_follow_precise_target ==>
                u.follow == (DirectorFollow::Follow {
                    from_root: part_follows_root(s1.live_target_part_index),
                    stored_target: s1.has_live_follow_position_target,
                    shift_by_head: s1.has_selfie_last_head_pos,
                })
                && *final(state) == (FreeCameraState {
                    has_live_follow_position_target: s1.has_live_follow_position_target
                        || s1.has_selfie_last_head_pos,
                    has_selfie_last_head_pos: true,
                    ..s2
                }).spec_follow_camera()
            &&& s1.mode == FreeCameraMode::SelfieStick && !s1.live_follow_timeline_updated
                && !s1.live_follow_precise_target ==>
                u.follow == (DirectorFollow::Follow {
                    from_root: part_follows_root(s1.live_target_part_index),
                    stored_target: false,
                    shift_by_head: false,
                })
                && *final(state) == (FreeCameraState {
                    has_live_follow_position_target: true,
                    has_selfie_last_head_pos: true,
                    ..s2
                }).spec_follow_camera()
        }),
{
    if !config.enabled || config.selfie_use_head_transform {
        return DirectorFollowUpdate { reset: false, follow: DirectorFollow::Skipped };
    }
    let reset = state.set_scene(CameraScene::Live, config);
    let follow = director_follow_attached(state);
    DirectorFollowUpdate { reset, follow }

}

/// The part of a director frame after the camera is attached to the live.
fn director_follow_attached(state: &mut FreeCameraState) -> (follow: DirectorFollow)
    requires old(state).wf(),
    ensures
        final(state).wf(),
        ({
            let s1 = *old(state);
            let s2 = FreeCameraState { has_selfie_head_pos: true, has_selfie_head_forward: true, ..s1 };
            &&& s1.mode != FreeCameraMode::SelfieStick ==> follow == DirectorFollow::Skipped
                && *final(state) == s1
            &&& s1.mode == FreeCameraMode::SelfieStick && s1.live_follow_timeline_updated ==>
                follow == DirectorFollow::HeadRecorded
                && *final(state) == (FreeCameraState { has_selfie_last_head_pos: true, ..s2 })
            &&& s1.mode == FreeCameraMode::SelfieStick && !s1.live_follow_timeline_updated
                && s1.live_follow_precise_target ==>
                follow == (DirectorFollow::Follow {
                    from_root: part_follows_root(s1.live_target_part_index),
                    stored_target: s1.has_live_follow_position_target,
                    shift_by_head: s1.has_selfie_last_head_pos,
                })
                && *final(state) == (FreeCameraState {
                    has_live_follow_position_target: s1.has_live_follow_position_target
                        || s1.has_selfie_last_head_pos,
                    has_selfie_last_head_pos: true,
                    ..s2
                }).spec_follow_camera()
            &&& s1.mode == FreeCameraMode::SelfieStick && !s1.live_follow_timeline_updated
                && !s1.live_follow_precise_target ==>
                follow == (DirectorFollow::Follow {
                    from_root: part_follows_root(s1.live_target_part_index),
                    stored_target: false,
                    shift_by_head: false,
                })
                && *final(state) == (FreeCameraState {
                    has_live_follow_position_target: true,
                    has_selfie_last_head_pos: true,
                    ..s2
                }).spec_follow_camera()
        }),
{
    if state.mode != FreeCameraMode::SelfieStick {
        return DirectorFollow::Skipped;
    }
    if state.live_follow_timeline_updated {
        *state = FreeCameraState {
            has_selfie_head_pos: true,
            has_selfie_head_forward: true,
            has_selfie_last_head_pos: true,
            ..*state
        };
        return DirectorFollow::HeadRecorded;
    }
    let part = state.live_target_part_index;
    let from_root = part == 0xf || part == 0x10;
    if state.live_follow_precise_target {
        let stored_target = state.has_live_follow_position_target;
        let shift_by_head = state.has_selfie_last_head_pos;
        *state = FreeCameraState {
            has_selfie_head_pos: true,
            has_selfie_head_forward: true,
            has_live_follow_position_target: stored_target || shift_by_head,
            has_selfie_last_head_pos: true,
            has_selfie_stabilized_target: true,
            has_live_follow_target: true,
            has_camera_rotation: false,
            ..*state
        };
        return DirectorFollow::Follow { from_root, stored_target, shift_by_head };
    }
    *state = FreeCameraState {
        has_selfie_head_pos: true,
        has_selfie_head_forward: true,
        has_live_follow_position_target: true,
        has_selfie_last_head_pos: true,
        has_selfie_stabilized_target: true,
        has_live_follow_target: true,
        has_camera_rotation: false,
        ..*state
    };
    DirectorFollow::Follow { from_root, stored_target: false, shift_by_head: false }
}

/// Result of a scene-bound camera update: whether the scene change reset the camera and
/// whether the continuous update applies.
#[derive(Clone, Copy, Debug, PartialEq, Eq, Structural)]
pub struct SceneUpdate {
    pub reset: bool,
    pub apply: bool,
}

/// The state after attaching to `scene` (resetting on a change).
pub open spec fn spec_attach(state: FreeCameraState, scene: CameraScene, config: FreeCameraConfig) -> FreeCameraState {
    if state.scene != scene {
        (FreeCameraState { scene, ..state }).spec_reset(config)
    } else {
        state
    }
}

/// The head of the followed live character moved (head-transform selfie).
pub fn update_live_head_follow(config: &FreeCameraConfig, state: &mut FreeCameraState) -> (u: SceneUpdate)
    ensures
        !(config.enabled && config.selfie_use_head_transform) ==> *final(state) == *old(state)
            && u == (SceneUpdate { reset: false, apply: false }),
        config.enabled && config.selfie_use_head_transform ==> ({
            let s1 = spec_attach(*old(state), CameraScene::Live, *config);
            &&& u.reset == (old(state).scene != CameraScene::Live)
            &&& u.apply == (s1.mode == FreeCameraMode::SelfieStick)
            &&& *final(state) == if u.apply { FreeCameraState { has_camera_rotation: false, ..s1 } } else { s1 }
        }),
{
    if !config.enabled || !config.selfie_use_head_transform {
        return SceneUpdate { reset: false, apply: false };
    }
    let reset = state.set_scene(CameraScene::Live, config);
    if state.mode != FreeCameraMode::SelfieStick {
        return SceneUpdate { reset, apply: false };
    }
    state.has_camera_rotation = false;
    SceneUpdate { reset, apply: true }
}

/// A first-person frame: the camera takes the head's position and rotation.
pub fn update_first_person(config: &FreeCameraConfig, state: &mut FreeCameraState, scene: CameraScene) -> (u: SceneUpdate)
    ensures
        !config.enabled ==> *final(state) == *old(state) && u == (SceneUpdate { reset: false, apply: false }),
        config.enabled ==> ({
            let s1 = spec_attach(*old(state), scene, *config);
            &&& u.reset == (old(state).scene != scene)
            &&& u.apply == (s1.mode == FreeCameraMode::FirstPerson)
            &&& *final(state) == if u.apply { FreeCameraState { has_camera_rotation: true, ..s1 } } else { s1 }
        }),
{
    if !config.enabled {
        return SceneUpdate { reset: false, apply: false };
    }
    let reset = state.set_scene(scene, config);
    if state.mode != FreeCameraMode::FirstPerson {
        return SceneUpdate { reset, apply: false };
    }
    state.has_camera_rotation = true;
    SceneUpdate { reset, apply: true }
}

/// The head of the followed race horse moved (head-transform selfie).
pub fn update_race_head_follow(config: &FreeCameraConfig, state: &mut FreeCameraState) -> (u: SceneUpdate)
    ensures
        !(config.enabled && config.selfie_use_head_transform) ==> *final(state) == *old(state)
            && u == (SceneUpdate { reset: false, apply: false }),
        config.enabled && config.selfie_use_head_transform ==> ({
            let s1 = spec_attach(*old(state), CameraScene::Race, *config);
            &&& u.reset == (old(state).scene != CameraScene::Race)
            &&& u.apply == (s1.mode == FreeCameraMode::SelfieStick)
            &&& *final(state) == if u.apply { FreeCameraState { has_camera_rotation: false, ..s1 } } else { s1 }
        }),
{
    if !config.enabled || !config.selfie_use_head_transform {
        return SceneUpdate { reset: false, apply: false };
    }
    let reset = state.set_scene(CameraScene::Race, config);
    if state.mode != FreeCameraMode::SelfieStick {
        return SceneUpdate { reset, apply: false };
    }
    state.has_camera_rotation = false;
    SceneUpdate { reset, apply: true }
}

/// Where the previous race target position comes from after a new report.
#[derive(Clone, Copy, Debug, PartialEq, Eq, Structural)]
pub enum RaceTargetLast {
    /// The previous target becomes the last one (the horse moved on the track plane).
    FromPrevious,
    /// First report: the new target is also the last one.
    FromNew,
    /// Unchanged.
    Keep,
}

#[derive(Clone, Copy, Debug, PartialEq, Eq, Structural)]
pub struct RaceTargetUpdate {
    /// The report concerns the followed horse and was recorded.
    pub applied: bool,
    pub last: RaceTargetLast,
    /// The selfie follow camera is placed behind the target.
    pub follow: bool,
}

/// Follow the race target with the selfie stick (without the head transform).
pub open spec fn race_follow_mode(config: FreeCameraConfig, state: FreeCameraState) -> bool {
    state.mode == FreeCameraMode::SelfieStick && !config.selfie_use_head_transform
}

/// A horse reported its position; `moved` says it moved on the track plane since the
/// last recorded target.
pub fn update_race_target(config: &FreeCameraConfig, state: &mut FreeCameraState, index: i32, moved: bool) -> (u: RaceTargetUpdate)
    ensures
        u.applied == (config.enabled && (old(state).race_target_index < 0 || old(state).race_target_index == index)),
        !u.applied ==> *final(state) == *old(state) && !u.follow && u.last == RaceTargetLast::Keep,
        u.applied ==> {
            &&& u.last == if old(state).race_target_seen && moved {
                RaceTargetLast::FromPrevious
            } else if !old(state).race_target_seen {
                RaceTargetLast::FromNew
            } else {
                RaceTargetLast::Keep
            }
            &&& u.follow == race_follow_mode(*config, *old(state))
            &&& *final(state) == if u.follow {
                FreeCameraState { race_target_seen: true, has_camera_rotation: false, ..*old(state) }
            } else {
                FreeCameraState { race_target_seen: true, ..*old(state) }
            }
        },
{
    if !config.enabled {
        return RaceTargetUpdate { applied: false, last: RaceTargetLast::Keep, follow: false };
    }
    if state.race_target_index >= 0 && state.race_target_index != index {
        return RaceTargetUpdate { applied: false, last: RaceTargetLast::Keep, follow: false };
    }
    let last = if state.race_target_seen && moved {
        RaceTargetLast::FromPrevious
    } else if !state.race_target_seen {
        RaceTargetLast::FromNew
    } else {
        RaceTargetLast::Keep
    };
    let follow = state.mode == FreeCameraMode::SelfieStick && !config.selfie_use_head_transform;
    *state = if follow {
        FreeCameraState { race_target_seen: true, has_camera_rotation: false, ..*state }
    } else {
        FreeCameraState { race_target_seen: true, ..*state }
    };
    RaceTargetUpdate { applied: true, last, follow }
}

/// The race camera position is read; returns whether the selfie follow camera is placed
/// first (it needs a recorded target).
pub fn race_camera_pos(config: &FreeCameraConfig, state: &mut FreeCameraState) -> (follow: bool)
    ensures
        follow == (race_follow_mode(*config, *old(state)) && old(state).race_target_seen),
        follow ==> *final(state) == (FreeCameraState { has_camera_rotation: false, ..*old(state) }),
        !follow ==> *final(state) == *old(state),
{
    if state.mode == FreeCameraMode::SelfieStick && !config.selfie_use_head_transform && state.race_target_seen {
        state.has_camera_rotation = false;
        true
    } else {
        false
    }
}

} // verus!

verus! {

// ---------------------------------------------------------------------------------------------
// Commands, keys, mouse and gamepad.

/// A discrete camera command bound to a key or a gamepad button.
#[derive(Clone, Copy, Debug, PartialEq, Eq, Structural)]
pub enum CameraCommand {
    Reset,
    CycleMode,
    Reverse,
    PreviousTarget,
    NextTarget,
    PreviousPart,
    NextPart,
}

#[verifier::opaque]
pub open spec fn spec_command_state(s: FreeCameraState, cmd: CameraCommand) -> FreeCameraState {
    match cmd {
        CameraCommand::Reset => s.spec_reset_mode_camera(),
        CameraCommand::CycleMode => s.spec_cycle_mode(),
        CameraCommand::Reverse => s,
        CameraCommand::PreviousTarget => s.spec_step_target(-1),
        CameraCommand::NextTarget => s.spec_step_target(1),
        CameraCommand::PreviousPart => s.spec_step_part(-1),
        CameraCommand::NextPart => s.spec_step_part(1),
    }
}

#[verifier::opaque]
pub open spec fn spec_command_actions(s: FreeCameraState, config: FreeCameraConfig, cmd: CameraCommand) -> CameraActions {
    let overlay = match cmd {
        CameraCommand::CycleMode => Some(OverlayRequest::Mode(FreeCameraState::next_mode(s.mode))),
        CameraCommand::PreviousTarget => s.spec_step_target_overlay(-1),
        CameraCommand::NextTarget => s.spec_step_target_overlay(1),
        CameraCommand::PreviousPart => s.spec_step_part_overlay(-1),
        CameraCommand::NextPart => s.spec_step_part_overlay(1),
        _ => None,
    };
    CameraActions {
        reset_all: false,
        reset_mode_camera: cmd == CameraCommand::Reset,
        reverse: if cmd == CameraCommand::Reverse { s.spec_reverse_kind() } else { ReverseKind::Nothing },
        overlay: if config.show_overlay { overlay } else { None },
    }
}

/// Actions `a` followed by actions `b`: flags accumulate, later requests win.
pub open spec fn merge_actions(a: CameraActions, b: CameraActions) -> CameraActions {
    CameraActions {
        reset_all: a.reset_all || b.reset_all,
        reset_mode_camera: a.reset_mode_camera || b.reset_mode_camera,
        reverse: if b.reverse != ReverseKind::Nothing { b.reverse } else { a.reverse },
        overlay: if b.overlay is Some { b.overlay } else { a.overlay },
    }
}

fn merge(a: CameraActions, b: CameraActions) -> (m: CameraActions)
    ensures m == merge_actions(a, b),
{
    CameraActions {
        reset_all: a.reset_all || b.reset_all,
        reset_mode_camera: a.reset_mode_camera || b.reset_mode_camera,
        reverse: if b.reverse != ReverseKind::Nothing { b.reverse } else { a.reverse },
        overlay: if b.overlay.is_some() { b.overlay } else { a.overlay },
    }
}

/// Running `cmd` keeps the race target within `i32`: in a race, stepping back needs a
/// target above `i32::MIN` and stepping on one below `i32::MAX`.
pub open spec fn command_steps_safely(s: FreeCameraState, cmd: CameraCommand) -> bool {
    s.scene == CameraScene::Race ==> match cmd {
        CameraCommand::PreviousTarget => s.race_target_index > i32::MIN,
        CameraCommand::NextTarget => s.race_target_index < i32::MAX,
        _ => true,
    }
}

/// Runs one camera command.
pub fn run_command(config: &FreeCameraConfig, state: &mut FreeCameraState, cmd: CameraCommand) -> (a: CameraActions)
    requires
        old(state).wf(),
        command_steps_safely(*old(state), cmd),
    ensures
        final(state).wf(),
        final(state).scene == old(state).scene,
        old(state).race_target_steppable() ==> final(state).race_target_steppable(),
        *final(state) == spec_command_state(*old(state), cmd),
        a == spec_command_actions(*old(state), *config, cmd),
{
    reveal(spec_command_state);
    reveal(spec_command_actions);
    match cmd {
        CameraCommand::Reset => {
            state.reset_current_mode_camera();
            CameraActions { reset_all: false, reset_mode_camera: true, reverse: ReverseKind::Nothing, overlay: None }
        },
        CameraCommand::CycleMode => {
            let overlay = state.cycle_mode(config);
            CameraActions { reset_all: false, reset_mode_camera: false, reverse: ReverseKind::Nothing, overlay }
        },
        CameraCommand::Reverse => {
            let reverse = if state.scene == CameraScene::Race {
                ReverseKind::Race
            } else if state.scene == CameraScene::Live && state.mode == FreeCameraMode::SelfieStick {
                ReverseKind::Live
            } else {
                ReverseKind::Nothing
            };
            CameraActions { reset_all: false, reset_mode_camera: false, reverse, overlay: None }
        },
        CameraCommand::PreviousTarget => {
            let overlay = state.previous_target(config);
            CameraActions { reset_all: false, reset_mode_camera: false, reverse: ReverseKind::Nothing, overlay }
        },
        CameraCommand::NextTarget => {
            let overlay = state.next_target(config);
            CameraActions { reset_all: false, reset_mode_camera: false, reverse: ReverseKind::Nothing, overlay }
        },
        CameraCommand::PreviousPart => {
            let overlay = state.previous_live_part(config);
            CameraActions { reset_all: false, reset_mode_camera: false, reverse: ReverseKind::Nothing, overlay }
        },
        CameraCommand::NextPart => {
            let overlay = state.next_live_part(config);
            CameraActions { reset_all: false, reset_mode_camera: false, reverse: ReverseKind::Nothing, overlay }
        },
    }
}

/// The command a key press triggers (the first matching binding in the order reset,
/// cycle mode, reverse, previous/next target, previous/next part).
pub open spec fn key_command(kb: FreeCameraKeybinds, vk: u16) -> Option<CameraCommand> {
    if vk == kb.reset { Some(CameraCommand::Reset) }
    else if vk == kb.cycle_mode { Some(CameraCommand::CycleMode) }
    else if vk == kb.reverse { Some(CameraCommand::Reverse) }
    else if vk == kb.target_previous { Some(CameraCommand::PreviousTarget) }
    else if vk == kb.target_next { Some(CameraCommand::NextTarget) }
    else if vk == kb.part_previous { Some(CameraCommand::PreviousPart) }
    else if vk == kb.part_next { Some(CameraCommand::NextPart) }
    else { None }
}

/// The command that a fresh press of key `vk` runs, if any.
pub fn key_command_of(kb: &FreeCameraKeybinds, vk: u16) -> (c: Option<CameraCommand>)
    ensures c == key_command(*kb, vk),
{
    if vk == kb.reset { Some(CameraCommand::Reset) }
    else if vk == kb.cycle_mode { Some(CameraCommand::CycleMode) }
    else if vk == kb.reverse { Some(CameraCommand::Reverse) }
    else if vk == kb.target_previous { Some(CameraCommand::PreviousTarget) }
    else if vk == kb.target_next { Some(CameraCommand::NextTarget) }
    else if vk == kb.part_previous { Some(CameraCommand::PreviousPart) }
    else if vk == kb.part_next { Some(CameraCommand::NextPart) }
    else { None }
}

/// Every control bound to `vk` takes the value `pressed`.
pub fn set_key_flag(key_state: &mut KeyState, vk: u16, pressed: bool, kb: &FreeCameraKeybinds)
    ensures *final(key_state) == old(key_state).with_key(vk, pressed, *kb),
{
    let k = *key_state;
    *key_state = KeyState {
        forward: if vk == kb.move_forward { pressed } else { k.forward },
        back: if vk == kb.move_back { pressed } else { k.back },
        left: if vk == kb.move_left { pressed } else { k.left },
        right: if vk == kb.move_right { pressed } else { k.right },
        down: if vk == kb.move_down { pressed } else { k.down },
        up: if vk == kb.move_up { pressed } else { k.up },
        look_up: if vk == kb.look_up { pressed } else { k.look_up },
        look_down: if vk == kb.look_down { pressed } else { k.look_down },
        look_left: if vk == kb.look_left { pressed } else { k.look_left },
        look_right: if vk == kb.look_right { pressed } else { k.look_right },
        fov_increase: if vk == kb.fov_increase { pressed } else { k.fov_increase },
        fov_decrease: if vk == kb.fov_decrease { pressed } else { k.fov_decrease },
        follow_offset_up: if vk == kb.follow_offset_up { pressed } else { k.follow_offset_up },
        follow_offset_down: if vk == kb.follow_offset_down { pressed } else { k.follow_offset_down },
        follow_offset_left: if vk == kb.follow_offset_left { pressed } else { k.follow_offset_left },
        follow_offset_right: if vk == kb.follow_offset_right { pressed } else { k.follow_offset_right },
    };
}

/// The command a key event runs: a fresh press (not a repeat) of a command key.
pub open spec fn key_event_command(kb: FreeCameraKeybinds, vk: u16, pressed: bool, repeat: bool) -> Option<CameraCommand> {
    if pressed && !repeat { key_command(kb, vk) } else { None }
}

/// The camera state after a key event.
#[verifier::opaque]
pub open spec fn spec_key_state(s: FreeCameraState, config: FreeCameraConfig, vk: u16, pressed: bool, repeat: bool) -> FreeCameraState {
    if !spec_capture_active(config, s) {
        s
    } else {
        let s1 = FreeCameraState { key_state: s.key_state.with_key(vk, pressed, config.keybinds), ..s };
        match key_event_command(config.keybinds, vk, pressed, repeat) {
            Some(cmd) => spec_command_state(s1, cmd),
            None => s1,
        }
    }
}

/// The actions of a key event.
#[verifier::opaque]
pub open spec fn spec_key_actions(s: FreeCameraState, config: FreeCameraConfig, vk: u16, pressed: bool, repeat: bool) -> CameraActions {
    let s1 = FreeCameraState { key_state: s.key_state.with_key(vk, pressed, config.keybinds), ..s };
    if !spec_capture_active(config, s) {
        CameraActions::spec_none()
    } else {
        match key_event_command(config.keybinds, vk, pressed, repeat) {
            Some(cmd) => spec_command_actions(s1, config, cmd),
            None => CameraActions::spec_none(),
        }
    }
}

/// A key event while the camera takes game input: held controls are updated, and a fresh
/// press of a command key runs its command.
pub fn on_windows_key(config: &FreeCameraConfig, state: &mut FreeCameraState, vk: u16, pressed: bool, repeat: bool) -> (a: CameraActions)
    requires
        old(state).wf(),
        spec_capture_active(*config, *old(state)) && pressed && !repeat && key_command(config.keybinds, vk) is Some
            ==> command_steps_safely(*old(state), key_command(config.keybinds, vk)->0),
    ensures
        final(state).wf(),
        *final(state) == spec_key_state(*old(state), *config, vk, pressed, repeat),
        a == spec_key_actions(*old(state), *config, vk, pressed, repeat),
{
    reveal(spec_key_state);
    reveal(spec_key_actions);
    if !is_game_input_capture_active(config, state) {
        CameraActions::none()
    } else {
        let mut keys = state.key_state;
        set_key_flag(&mut keys, vk, pressed, &config.keybinds);
        *state = FreeCameraState { key_state: keys, ..*state };
        let cmd = if pressed && !repeat { key_command_of(&config.keybinds, vk) } else { None };
        run_optional_command(config, state, cmd)
    }
}

fn run_optional_command(config: &FreeCameraConfig, state: &mut FreeCameraState, cmd: Option<CameraCommand>) -> (a: CameraActions)
    requires
        old(state).wf(),
        cmd is Some ==> command_steps_safely(*old(state), cmd->0),
    ensures
        final(state).wf(),
        cmd is Some ==> *final(state) == spec_command_state(*old(state), cmd->0)
            && a == spec_command_actions(*old(state), *config, cmd->0),
        cmd is None ==> *final(state) == *old(state) && a == CameraActions::spec_none(),
{
    match cmd {
        Some(c) => run_command(config, state, c),
        None => CameraActions::none(),
    }
}

/// The right mouse button changed while the camera takes game input.
pub fn on_mouse_button(config: &FreeCameraConfig, state: &mut FreeCameraState, right_down: bool)
    ensures
        spec_capture_active(*config, *old(state)) ==> *final(state)
            == (FreeCameraState { right_mouse_down: right_down, last_mouse_pos: None, ..*old(state) }),
        !spec_capture_active(*config, *old(state)) ==> *final(state) == *old(state),
{
    if !is_game_input_capture_active(config, state) {
        return;
    }
    state.right_mouse_down = right_down;
    state.last_mouse_pos = None;
}

/// The mouse moved to `(x, y)`. While the right button is held, returns the movement
/// since the last position (which turns the camera).
pub fn on_mouse_move(config: &FreeCameraConfig, state: &mut FreeCameraState, x: i32, y: i32) -> (delta: Option<(i64, i64)>)
    ensures
        !config.enabled ==> *final(state) == *old(state) && delta is None,
        config.enabled ==> *final(state) == (FreeCameraState { last_mouse_pos: Some((x, y)), ..*old(state) }),
        config.enabled ==> match (if old(state).right_mouse_down { old(state).last_mouse_pos } else { None }) {
            Some((lx, ly)) => delta == Some(((x - lx) as i64, (y - ly) as i64)),
            None => delta is None,
        },
{
    if !config.enabled {
        return None;
    }
    let last = state.last_mouse_pos;
    state.last_mouse_pos = Some((x, y));
    if !state.right_mouse_down {
        return None;
    }
    match last {
        Some((lx, ly)) => Some((x as i64 - lx as i64, y as i64 - ly as i64)),
        None => None,
    }
}

/// The mouse wheel turned while the camera takes game input: `Some(true)` widens the
/// field of view (wheel up), `Some(false)` narrows it.
pub fn on_mouse_wheel(config: &FreeCameraConfig, state: &FreeCameraState, delta: i16) -> (widen: Option<bool>)
    ensures
        widen == if spec_capture_active(*config, *state) { Some(delta > 0) } else { None },
{
    if !is_game_input_capture_active(config, state) {
        return None;
    }
    Some(delta > 0)
}

/// The command a gamepad button triggers; the bumpers are held controls.
pub open spec fn button_command(b: GamepadButton) -> Option<CameraCommand> {
    match b {
        GamepadButton::A => Some(CameraCommand::NextTarget),
        GamepadButton::B => Some(CameraCommand::PreviousTarget),
        GamepadButton::X => Some(CameraCommand::CycleMode),
        GamepadButton::Y => Some(CameraCommand::Reset),
        GamepadButton::DpadLeft => Some(CameraCommand::PreviousTarget),
        GamepadButton::DpadRight => Some(CameraCommand::NextTarget),
        GamepadButton::DpadUp => Some(CameraCommand::NextPart),
        GamepadButton::DpadDown => Some(CameraCommand::PreviousPart),
        GamepadButton::Start => Some(CameraCommand::Reverse),
        _ => None,
    }
}

/// The command that pressing gamepad button `b` runs, if any.
pub fn button_command_of(b: GamepadButton) -> (c: Option<CameraCommand>)
    ensures c == button_command(b),
{
    match b {
        GamepadButton::A => Some(CameraCommand::NextTarget),
        GamepadButton::B => Some(CameraCommand::PreviousTarget),
        GamepadButton::X => Some(CameraCommand::CycleMode),
        GamepadButton::Y => Some(CameraCommand::Reset),
        GamepadButton::DpadLeft => Some(CameraCommand::PreviousTarget),
        GamepadButton::DpadRight => Some(CameraCommand::NextTarget),
        GamepadButton::DpadUp => Some(CameraCommand::NextPart),
        GamepadButton::DpadDown => Some(CameraCommand::PreviousPart),
        GamepadButton::Start => Some(CameraCommand::Reverse),
        _ => None,
    }
}

/// A gamepad button changed while the camera is enabled: the bumpers are held controls,
/// the other buttons run their command when pressed.
fn press_command_button(config: &FreeCameraConfig, state: &mut FreeCameraState, button: GamepadButton) -> (a: CameraActions)
    requires
        old(state).wf(),
        button != GamepadButton::LeftBumper,
        button != GamepadButton::RightBumper,
        button_command(button) is Some ==> command_steps_safely(*old(state), button_command(button)->0),
    ensures
        final(state).wf(),
        final(state).scene == old(state).scene,
        old(state).race_target_steppable() ==> final(state).race_target_steppable(),
        *final(state) == spec_command_state(*old(state), button_command(button)->0),
        a == spec_command_actions(*old(state), *config, button_command(button)->0),
{
    match button_command_of(button) {
        Some(cmd) => run_command(config, state, cmd),
        None => CameraActions::none(),
    }
}

/// The camera state after a gamepad button event.
#[verifier::opaque]
pub open spec fn spec_gamepad_state(s: FreeCameraState, config: FreeCameraConfig, button: GamepadButton, pressed: bool) -> FreeCameraState {
    if !config.enabled {
        s
    } else if button == GamepadButton::LeftBumper {
        FreeCameraState { gamepad_lb: pressed, ..s }
    } else if button == GamepadButton::RightBumper {
        FreeCameraState { gamepad_rb: pressed, ..s }
    } else if pressed {
        spec_command_state(s, button_command(button)->0)
    } else {
        s
    }
}

/// The actions of a gamepad button event.
#[verifier::opaque]
pub open spec fn spec_gamepad_actions(s: FreeCameraState, config: FreeCameraConfig, button: GamepadButton, pressed: bool) -> CameraActions {
    if config.enabled && button != GamepadButton::LeftBumper && button != GamepadButton::RightBumper && pressed {
        spec_command_actions(s, config, button_command(button)->0)
    } else {
        CameraActions::spec_none()
    }
}

/// A gamepad button changed while the camera is enabled: the bumpers are held controls,
/// the other buttons run their command when pressed.
pub fn on_gamepad_button(config: &FreeCameraConfig, state: &mut FreeCameraState, button: GamepadButton, pressed: bool) -> (a: CameraActions)
    requires
        old(state).wf(),
        config.enabled && pressed && button_command(button) is Some
            ==> command_steps_safely(*old(state), button_command(button)->0),
    ensures
        final(state).wf(),
        *final(state) == spec_gamepad_state(*old(state), *config, button, pressed),
        a == spec_gamepad_actions(*old(state), *config, button, pressed),
{
    reveal(spec_gamepad_state);
    reveal(spec_gamepad_actions);
    if !config.enabled {
        CameraActions::none()
    } else if button == GamepadButton::LeftBumper || button == GamepadButton::RightBumper {
        set_bumper(state, button, pressed);
        CameraActions::none()
    } else if pressed {
        press_command_button(config, state, button)
    } else {
        CameraActions::none()
    }
}

fn set_bumper(state: &mut FreeCameraState, button: GamepadButton, pressed: bool)
    requires button == GamepadButton::LeftBumper || button == GamepadButton::RightBumper,
    ensures
        button == GamepadButton::LeftBumper ==> *final(state) == (FreeCameraState { gamepad_lb: pressed, ..*old(state) }),
        button == GamepadButton::RightBumper ==> *final(state) == (FreeCameraState { gamepad_rb: pressed, ..*old(state) }),
{
    if button == GamepadButton::LeftBumper {
        state.gamepad_lb = pressed;
    } else {
        state.gamepad_rb = pressed;
    }
}

} // verus!

verus! {

// ---------------------------------------------------------------------------------------------
// Gamepad polling and the per-frame tick.

/// The buttons newly pressed in `pressed`, in the order their commands run.
pub open spec fn pressed_buttons(pressed: u16) -> Seq<GamepadButton> {
    let s0 = Seq::<GamepadButton>::empty();
    let s1 = if pressed & BUTTON_SOUTH != 0 { s0.push(GamepadButton::A) } else { s0 };
    let s2 = if pressed & BUTTON_EAST != 0 { s1.push(GamepadButton::B) } else { s1 };
    let s3 = if pressed & BUTTON_WEST != 0 { s2.push(GamepadButton::X) } else { s2 };
    let s4 = if pressed & BUTTON_NORTH != 0 { s3.push(GamepadButton::Y) } else { s3 };
    let s5 = if pressed & DPAD_UP != 0 { s4.push(GamepadButton::DpadUp) } else { s4 };
    let s6 = if pressed & DPAD_DOWN != 0 { s5.push(GamepadButton::DpadDown) } else { s5 };
    let s7 = if pressed & DPAD_LEFT != 0 { s6.push(GamepadButton::DpadLeft) } else { s6 };
    let s8 = if pressed & DPAD_RIGHT != 0 { s7.push(GamepadButton::DpadRight) } else { s7 };
    if pressed & START != 0 { s8.push(GamepadButton::Start) } else { s8 }
}

/// Running the commands of `bs` one after the other.
pub open spec fn spec_run_buttons(s: FreeCameraState, config: FreeCameraConfig, bs: Seq<GamepadButton>) -> (FreeCameraState, CameraActions)
    decreases bs.len(),
{
    if bs.len() == 0 {
        (s, CameraActions::spec_none())
    } else {
        let prev = spec_run_buttons(s, config, bs.drop_last());
        let cmd = button_command(bs.last())->0;
        (spec_command_state(prev.0, cmd), merge_actions(prev.1, spec_command_actions(prev.0, config, cmd)))
    }
}

fn pressed_buttons_of(pressed: u16) -> (v: Vec<GamepadButton>)
    ensures v@ == pressed_buttons(pressed),
{
    let mut v: Vec<GamepadButton> = Vec::new();
    if pressed & BUTTON_SOUTH != 0 { v.push(GamepadButton::A); }
    if pressed & BUTTON_EAST != 0 { v.push(GamepadButton::B); }
    if pressed & BUTTON_WEST != 0 { v.push(GamepadButton::X); }
    if pressed & BUTTON_NORTH != 0 { v.push(GamepadButton::Y); }
    if pressed & DPAD_UP != 0 { v.push(GamepadButton::DpadUp); }
    if pressed & DPAD_DOWN != 0 { v.push(GamepadButton::DpadDown); }
    if pressed & DPAD_LEFT != 0 { v.push(GamepadButton::DpadLeft); }
    if pressed & DPAD_RIGHT != 0 { v.push(GamepadButton::DpadRight); }
    if pressed & START != 0 { v.push(GamepadButton::Start); }
    v
}

pub open spec fn is_command_button(b: GamepadButton) -> bool {
    b != GamepadButton::LeftBumper && b != GamepadButton::RightBumper
}

/// Reads the gamepad button word (`None`: no gamepad). The shoulder buttons are held
/// controls; every other button pressed since the last poll runs its command.
pub fn poll_gamepad(config: &FreeCameraConfig, state: &mut FreeCameraState, buttons: Option<u16>) -> (a: CameraActions)
    requires
        old(state).wf(),
        old(state).scene == CameraScene::Race ==> old(state).race_target_steppable(),
    ensures
        final(state).wf(),
        buttons is None ==> a == CameraActions::spec_none() && *final(state) == (FreeCameraState {
            gamepad_lb: false,
            gamepad_rb: false,
            gamepad_last_buttons: 0,
            ..*old(state)
        }),
        buttons is Some ==> ({
            let b = buttons->0;
            let s1 = FreeCameraState {
                gamepad_lb: b & LEFT_SHOULDER != 0,
                gamepad_rb: b & RIGHT_SHOULDER != 0,
                gamepad_last_buttons: b,
                ..*old(state)
            };
            let r = spec_run_buttons(s1, *config, pressed_buttons(b & !old(state).gamepad_last_buttons));
            *final(state) == r.0 && a == r.1
        }),
{
    let b = match buttons {
        Some(b) => b,
        None => {
            *state = FreeCameraState { gamepad_lb: false, gamepad_rb: false, gamepad_last_buttons: 0, ..*state };
            return CameraActions::none();
        },
    };
    let pressed = b & !state.gamepad_last_buttons;
    *state = FreeCameraState {
        gamepad_lb: b & LEFT_SHOULDER != 0,
        gamepad_rb: b & RIGHT_SHOULDER != 0,
        gamepad_last_buttons: b,
        ..*state
    };
    let ghost s1 = *state;
    let list = pressed_buttons_of(pressed);
    proof {
        assert forall|i: int| 0 <= i < list@.len() implies #[trigger] is_command_button(list@[i]) by {
        }
    }
    let mut actions = CameraActions::none();
    let mut i: usize = 0;
    while i < list.len()
        invariant
            i <= list@.len(),
            state.wf(),
            state.scene == s1.scene,
            s1.scene == CameraScene::Race ==> state.race_target_steppable(),
            forall|k: int| 0 <= k < list@.len() ==> #[trigger] is_command_button(list@[k]),
            (*state, actions) == spec_run_buttons(s1, *config, list@.take(i as int)),
        decreases list@.len() - i,
    {
        proof {
            assert(list@.take(i as int + 1).drop_last() == list@.take(i as int));
            assert(list@.take(i as int + 1).last() == list@[i as int]);
        }
        let button = list[i];
        assert(is_command_button(list@[i as int]));
        let step = press_command_button(config, state, button);
        actions = merge(actions, step);
        i = i + 1;
    }
    proof {
        assert(list@.take(list@.len() as int) == list@);
    }
    actions
}

/// What the continuous camera does after a tick.
#[derive(Clone, Copy, Debug, PartialEq, Eq, Structural)]
pub struct TickOutcome {
    /// The camera was reset from the configuration.
    pub reset: bool,
    /// The overlay message to show.
    pub overlay: Option<OverlayRequest>,
    /// The camera drives a scene this frame: gamepad and held inputs are applied.
    pub active: bool,
}

/// The camera is reset on a tick: a reload was requested, the camera was just enabled,
/// or the configured mode changed.
pub open spec fn tick_resets(config: FreeCameraConfig, s: FreeCameraState) -> bool {
    s.reload_requested || (config.enabled && !s.last_enabled) || config.mode != s.last_config_mode
}

/// The camera state after a tick, before the overlay bookkeeping.
pub open spec fn spec_tick_base(config: FreeCameraConfig, s: FreeCameraState) -> FreeCameraState {
    if tick_resets(config, s) {
        FreeCameraState { last_enabled: config.enabled, ..(FreeCameraState { reload_requested: false, ..s }).spec_reset(config) }
    } else {
        FreeCameraState { last_enabled: config.enabled, reload_requested: false, ..s }
    }
}

/// The camera drives a scene after the tick.
pub open spec fn spec_tick_active(config: FreeCameraConfig, s: FreeCameraState) -> bool {
    let b = spec_tick_base(config, s);
    config.enabled && (b.scene == CameraScene::Live || b.scene == CameraScene::Race)
}

/// A race camera whose mode changed announces the new mode.
pub open spec fn spec_tick_announce(config: FreeCameraConfig, s: FreeCameraState) -> bool {
    let b = spec_tick_base(config, s);
    spec_tick_active(config, s) && b.scene == CameraScene::Race && b.mode != b.last_overlay_mode
}

/// The camera state after a tick.
#[verifier::opaque]
pub open spec fn spec_tick_state(config: FreeCameraConfig, s: FreeCameraState) -> FreeCameraState {
    let b = spec_tick_base(config, s);
    if spec_tick_announce(config, s) { FreeCameraState { last_overlay_mode: b.mode, ..b } } else { b }
}

/// The outcome of a tick.
#[verifier::opaque]
pub open spec fn spec_tick_outcome(config: FreeCameraConfig, s: FreeCameraState) -> TickOutcome {
    let b = spec_tick_base(config, s);
    TickOutcome {
        reset: tick_resets(config, s),
        overlay: if spec_tick_announce(config, s) && config.show_overlay {
            Some(OverlayRequest::Mode(b.mode))
        } else {
            None
        },
        active: spec_tick_active(config, s),
    }
}

/// The per-frame step of the camera.
pub fn tick(config: &FreeCameraConfig, state: &mut FreeCameraState) -> (t: TickOutcome)
    requires old(state).wf(),
    ensures
        final(state).wf(),
        *final(state) == spec_tick_state(*config, *old(state)),
        t == spec_tick_outcome(*config, *old(state)),
{
    reveal(spec_tick_state);
    reveal(spec_tick_outcome);
    let reset = tick_base(config, state);
    let active = config.enabled && (state.scene == CameraScene::Live || state.scene == CameraScene::Race);
    let announce = active && state.scene == CameraScene::Race && state.mode != state.last_overlay_mode;
    let mode = state.mode;
    if announce {
        *state = FreeCameraState { last_overlay_mode: mode, ..*state };
    }
    let overlay = if announce && config.show_overlay { Some(OverlayRequest::Mode(mode)) } else { None };
    TickOutcome { reset, overlay, active }
}

fn tick_resets_now(config: &FreeCameraConfig, state: &FreeCameraState) -> (r: bool)
    ensures r == tick_resets(*config, *state),
{
    state.reload_requested || (config.enabled && !state.last_enabled) || config.mode != state.last_config_mode
}

fn tick_base(config: &FreeCameraConfig, state: &mut FreeCameraState) -> (reset: bool)
    requires old(state).wf(),
    ensures
        final(state).wf(),
        reset == tick_resets(*config, *old(state)),
        *final(state) == spec_tick_base(*config, *old(state)),
{
    let reset = tick_resets_now(config, state);
    if reset {
        tick_reset_step(config, state);
    } else {
        tick_keep_step(config, state);
    }
    reset
}

fn tick_reset_step(config: &FreeCameraConfig, state: &mut FreeCameraState)
    requires old(state).wf(), tick_resets(*config, *old(state)),
    ensures final(state).wf(), *final(state) == spec_tick_base(*config, *old(state)),
{
    let cleared = FreeCameraState { reload_requested: false, ..*state };
    let next = cleared.reset_copy(config);
    *state = FreeCameraState { last_enabled: config.enabled, ..next };
}

fn tick_keep_step(config: &FreeCameraConfig, state: &mut FreeCameraState)
    requires old(state).wf(), !tick_resets(*config, *old(state)),
    ensures final(state).wf(), *final(state) == spec_tick_base(*config, *old(state)),
{
    *state = FreeCameraState { last_enabled: config.enabled, reload_requested: false, ..*state };
}

} // verus!

verus! {

// ---------------------------------------------------------------------------------------------
// Laws.

/// Stepping the followed live position forward and then back returns to the same position.
pub proof fn law_live_target_round_trip(s: FreeCameraState)
    requires s.wf(), s.live_target_switchable(),
    ensures
        s.spec_step_target(1).spec_step_target(-1).live_target_position_index == s.live_target_position_index,
        s.spec_step_target(-1).spec_step_target(1).live_target_position_index == s.live_target_position_index,
{
}

/// Stepping the followed body part forward and then back returns to the same part.
pub proof fn law_live_part_round_trip(s: FreeCameraState)
    requires s.wf(), s.live_part_switchable(),
    ensures
        s.spec_step_part(1).spec_step_part(-1).live_target_part_index == s.live_target_part_index,
        s.spec_step_part(-1).spec_step_part(1).live_target_part_index == s.live_target_part_index,
{
}

/// Cycling the mode three times comes back to the starting mode.
pub proof fn law_mode_cycle_period(s: FreeCameraState)
    ensures s.spec_cycle_mode().spec_cycle_mode().spec_cycle_mode().mode == s.mode,
{
}

/// A race target between the automatic choice and the last gate stays there when stepped.
pub proof fn law_race_target_stays_in_gates(s: FreeCameraState, delta: int)
    requires
        s.scene == CameraScene::Race,
        -1 <= s.race_target_index <= RACE_LAST_GATE,
        delta == 1 || delta == -1,
    ensures
        -1 <= s.spec_step_target(delta).race_target_index <= RACE_LAST_GATE,
{
}

/// Stepping the race target forward from the last gate wraps to the automatic choice,
/// and stepping back from the automatic choice stays there.
pub proof fn law_race_target_wraps(s: FreeCameraState)
    requires s.scene == CameraScene::Race,
    ensures
        s.race_target_index == RACE_LAST_GATE ==> s.spec_step_target(1).race_target_index == -1,
        s.race_target_index == -1 ==> s.spec_step_target(-1).race_target_index == -1,
{
}

/// Taking the configuration twice is the same as taking it once.
pub proof fn law_reset_idempotent(s: FreeCameraState, config: FreeCameraConfig)
    ensures s.spec_reset(config).spec_reset(config) == s.spec_reset(config),
{
}

/// A reset state is well formed, whatever the configured indices.
pub proof fn law_reset_wf(s: FreeCameraState, config: FreeCameraConfig)
    ensures s.spec_reset(config).wf(),
{
}

/// Pressing a key bound to a movement control makes the camera want the input, and
/// releasing it again restores the held controls to what they were for that control.
pub proof fn law_key_press_release(ks: KeyState, kb: FreeCameraKeybinds, vk: u16)
    requires vk == kb.move_forward,
    ensures
        ks.with_key(vk, true, kb).any_held(),
        ks.with_key(vk, true, kb).with_key(vk, false, kb) == ks.with_key(vk, false, kb),
{
}

/// A key press runs a command exactly when the key is bound to one; the only bound keys
/// that run none are the held controls.
pub proof fn law_command_keys_are_bound(kb: FreeCameraKeybinds, vk: u16)
    ensures key_command(kb, vk) is Some ==> kb.binds(vk),
{
}

/// Which command a fresh key press runs: the first of reset, cycle mode, reverse, previous
/// target, next target, previous part and next part whose key it is; a key bound to none of
/// these runs nothing.
pub proof fn law_key_commands(kb: FreeCameraKeybinds, vk: u16)
    ensures
        vk == kb.reset ==> key_command(kb, vk) == Some(CameraCommand::Reset),
        vk != kb.reset && vk == kb.cycle_mode ==> key_command(kb, vk) == Some(CameraCommand::CycleMode),
        vk != kb.reset && vk != kb.cycle_mode && vk == kb.reverse
            ==> key_command(kb, vk) == Some(CameraCommand::Reverse),
        vk != kb.reset && vk != kb.cycle_mode && vk != kb.reverse && vk == kb.target_previous
            ==> key_command(kb, vk) == Some(CameraCommand::PreviousTarget),
        vk != kb.reset && vk != kb.cycle_mode && vk != kb.reverse && vk != kb.target_previous
            && vk == kb.target_next ==> key_command(kb, vk) == Some(CameraCommand::NextTarget),
        vk != kb.reset && vk != kb.cycle_mode && vk != kb.reverse && vk != kb.target_previous
            && vk != kb.target_next && vk == kb.part_previous
            ==> key_command(kb, vk) == Some(CameraCommand::PreviousPart),
        vk != kb.reset && vk != kb.cycle_mode && vk != kb.reverse && vk != kb.target_previous
            && vk != kb.target_next && vk != kb.part_previous && vk == kb.part_next
            ==> key_command(kb, vk) == Some(CameraCommand::NextPart),
        key_command(kb, vk) is None <==> (vk != kb.reset && vk != kb.cycle_mode && vk != kb.reverse
            && vk != kb.target_previous && vk != kb.target_next && vk != kb.part_previous
            && vk != kb.part_next),
{
}

/// In a race, the next-target command moves the followed gate one on (the last gate wraps
/// to the automatic choice) and the previous-target command one back (never below the
/// automatic choice); in a live with a selfie stick or first person, they step through the
/// positions; a command leaves the scene and the mode alone, and only the target commands
/// move the race target.
pub proof fn law_target_commands(s: FreeCameraState)
    ensures
        s.scene == CameraScene::Race && -1 <= s.race_target_index < RACE_LAST_GATE
            ==> spec_command_state(s, CameraCommand::NextTarget).race_target_index == s.race_target_index + 1,
        s.scene == CameraScene::Race && s.race_target_index == RACE_LAST_GATE
            ==> spec_command_state(s, CameraCommand::NextTarget).race_target_index == -1,
        s.scene == CameraScene::Race && 0 <= s.race_target_index <= RACE_LAST_GATE
            ==> spec_command_state(s, CameraCommand::PreviousTarget).race_target_index == s.race_target_index - 1,
        s.scene == CameraScene::Race && s.race_target_index == -1
            ==> spec_command_state(s, CameraCommand::PreviousTarget).race_target_index == -1,
        s.live_target_switchable() && s.wf() && s.live_target_position_index + 1 < LIVE_POSITION_COUNT
            ==> spec_command_state(s, CameraCommand::NextTarget).live_target_position_index
                == s.live_target_position_index + 1,
        s.live_target_switchable() && s.wf() && s.live_target_position_index > 0
            ==> spec_command_state(s, CameraCommand::PreviousTarget).live_target_position_index
                == s.live_target_position_index - 1,
        forall|c: CameraCommand| #[trigger] spec_command_state(s, c).scene == s.scene,
        forall|c: CameraCommand| c != CameraCommand::NextTarget && c != CameraCommand::PreviousTarget
            ==> #[trigger] spec_command_state(s, c).race_target_index == s.race_target_index,
        spec_command_state(s, CameraCommand::CycleMode).mode != s.mode,
        forall|c: CameraCommand| c != CameraCommand::CycleMode ==> #[trigger] spec_command_state(s, c).mode == s.mode,
{
    reveal(spec_command_state);
}

/// In a race under the camera, pressing the next-target key moves the followed race target
/// forward by one and pressing the previous-target key moves it back by one; held-down
/// repeats and key releases leave that target alone.
pub proof fn law_target_keys_step_race(s: FreeCameraState, config: FreeCameraConfig, vk: u16)
    requires
        config.enabled,
        s.scene == CameraScene::Race,
        0 <= s.race_target_index < RACE_LAST_GATE,
    ensures
        key_command(config.keybinds, vk) == Some(CameraCommand::NextTarget)
            ==> spec_key_state(s, config, vk, true, false).race_target_index == s.race_target_index + 1,
        key_command(config.keybinds, vk) == Some(CameraCommand::PreviousTarget)
            ==> spec_key_state(s, config, vk, true, false).race_target_index == s.race_target_index - 1,
        spec_key_state(s, config, vk, true, true).race_target_index == s.race_target_index,
        spec_key_state(s, config, vk, false, false).race_target_index == s.race_target_index,
{
    reveal(spec_key_state);
    reveal(spec_command_state);
}

/// What the gamepad's buttons do to the race gate when pressed in a race the camera drives:
/// A and right step it one on, B and left one back; the other buttons leave it.
pub proof fn law_gamepad_target_buttons(s: FreeCameraState, config: FreeCameraConfig, b: GamepadButton)
    requires
        config.enabled,
        s.scene == CameraScene::Race,
        0 <= s.race_target_index < RACE_LAST_GATE,
    ensures
        (b == GamepadButton::A || b == GamepadButton::DpadRight)
            ==> spec_gamepad_state(s, config, b, true).race_target_index == s.race_target_index + 1,
        (b == GamepadButton::B || b == GamepadButton::DpadLeft)
            ==> spec_gamepad_state(s, config, b, true).race_target_index == s.race_target_index - 1,
        !(b == GamepadButton::A || b == GamepadButton::DpadRight || b == GamepadButton::B
            || b == GamepadButton::DpadLeft)
            ==> spec_gamepad_state(s, config, b, true).race_target_index == s.race_target_index,
        b == GamepadButton::X ==> spec_gamepad_state(s, config, b, true).mode != s.mode,
{
    reveal(spec_gamepad_state);
    reveal(spec_command_state);
}

} // verus!
