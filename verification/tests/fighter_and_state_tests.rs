use pf_engine::fighter::{Action, Fighter, HitboxType};
use pf_engine::state::{Flow, Input, Key, NumberInput, State};

fn keys(pressed: Vec<Key>) -> Input {
    Input { pressed, shift_held: false }
}

#[test]
fn base_fighter_template() {
    let f = Fighter::base();
    assert_eq!(f.name, "Base Fighter");
    assert_eq!(f.name_short, "BF");
    assert_eq!(f.css_action, Action::Idle);
    assert_eq!(f.air_jumps, 1);
    assert_eq!(f.weight, 80);
    assert_eq!(f.gravity, -13);
    assert_eq!(f.terminal_vel, -200);
    assert_eq!(f.shield_size, 1500);
    assert_eq!(f.action_defs.len(), 47);
    assert!(f.shield.is_none());
    assert!(f.power_shield.is_none());
    for def in &f.action_defs {
        assert_eq!(def.iasa, 0);
        assert_eq!(def.frames.len(), 2);
        for frame in &def.frames {
            assert_eq!(frame.colboxes.len(), 2);
            assert!(matches!(frame.colboxes[0].role, HitboxType::Hurt(_)));
            assert_eq!(frame.colboxes[0].radius, 540);
            match frame.colboxes[1].role {
                HitboxType::Hit(h) => {
                    assert_eq!(h.damage, 13);
                    assert_eq!(h.bkb, 50);
                    assert_eq!(h.kbg, 70);
                    assert_eq!(h.angle, 40);
                    assert_eq!(h.clang, 3);
                },
                _ => panic!("second base shape must be a hitbox"),
            }
            assert_eq!(frame.colboxes[1].radius, 100);
            assert_eq!(frame.ecb_w, 350);
            assert_eq!(frame.ecb_h, 1200);
            assert_eq!(frame.ecb_y, 600);
        }
    }
}

#[test]
fn number_input_accumulates_digits() {
    let mut n = NumberInput::new();
    n.input(4);
    n.input(2);
    assert_eq!(n.value, 42);
    n.input(7);
    assert_eq!(n.value, 427);
}

#[test]
fn number_input_saturates() {
    let mut n = NumberInput { value: u64::MAX / 10 + 1, negative: false };
    n.input(9);
    assert_eq!(n.value, u64::MAX);
    let mut m = NumberInput { value: u64::MAX, negative: false };
    m.input(0);
    assert_eq!(m.value, u64::MAX);
}

#[test]
fn number_input_signs_reset_value() {
    let mut n = NumberInput::new();
    n.input(5);
    n.negative();
    assert_eq!(n.value, 0);
    assert!(n.negative);
    n.input(3);
    n.positive();
    assert_eq!(n.value, 0);
    assert!(!n.negative);
}

#[test]
fn pop_stick_clamps_and_ignores_stale_sign() {
    let mut n = NumberInput::new();
    n.negative();
    n.input(5);
    // the staged sign is cleared before it is consulted, so the result
    // stays positive
    assert_eq!(n.pop_stick(), 5);
    assert_eq!(n.value, 0);
    assert!(!n.negative);
    let mut big = NumberInput { value: 300, negative: false };
    assert_eq!(big.pop_stick(), 127);
}

#[test]
fn pop_trigger_clamps_to_byte() {
    let mut n = NumberInput { value: 300, negative: false };
    assert_eq!(n.pop_trigger(), 255);
    assert_eq!(n.value, 0);
    let mut m = NumberInput { value: 200, negative: false };
    assert_eq!(m.pop_trigger(), 200);
}

#[test]
fn pop_frames_defaults_to_one() {
    let mut n = NumberInput::new();
    assert_eq!(n.pop_frames(), 1);
    n.input(1);
    n.input(2);
    assert_eq!(n.pop_frames(), 12);
    assert_eq!(n.value, 0);
}

#[test]
fn update_toggles_display_flags() {
    let mut s = State::new();
    s.update(&keys(vec![Key::Q, Key::E]));
    assert!(s.display_all_controllers);
    assert!(!s.use_aspect_ratio);
    assert!(s.display_analog_as_float);
    assert!(s.touchtype);
    s.update(&keys(vec![Key::Q, Key::W, Key::R]));
    assert!(!s.display_all_controllers);
    assert!(s.use_aspect_ratio);
    assert!(!s.touchtype);
}

#[test]
fn update_selects_only_existing_controllers() {
    let mut s = State::new();
    s.update(&keys(vec![Key::F2]));
    assert_eq!(s.current_controller, 0);
    s.update(&keys(vec![Key::RBracket]));
    assert_eq!(s.controllers.len(), 2);
    s.update(&keys(vec![Key::F2]));
    assert_eq!(s.current_controller, 1);
    s.update(&keys(vec![Key::F1]));
    assert_eq!(s.current_controller, 0);
}

#[test]
fn update_keeps_at_least_one_controller() {
    let mut s = State::new();
    s.update(&keys(vec![Key::LBracket]));
    assert_eq!(s.controllers.len(), 1);
    s.update(&keys(vec![Key::RBracket]));
    s.update(&keys(vec![Key::LBracket]));
    assert_eq!(s.controllers.len(), 1);
}

#[test]
fn update_steps_typed_frame_count() {
    let mut s = State::new();
    s.update(&keys(vec![Key::Key1]));
    s.update(&keys(vec![Key::Key2]));
    s.update(&keys(vec![Key::Space]));
    assert_eq!(s.flow, Flow::StepFrames(12));
    assert_eq!(s.number.value, 0);
    s.update(&keys(vec![Key::Z]));
    assert_eq!(s.flow, Flow::RewindFrames(1));
    s.update(&keys(vec![Key::Return]));
    assert_eq!(s.flow, Flow::Play);
    s.update(&keys(vec![Key::Return]));
    assert_eq!(s.flow, Flow::Stop);
}

#[test]
fn update_maps_keys_onto_selected_controller() {
    let mut s = State::new();
    s.update(&keys(vec![Key::A, Key::Up]));
    assert!(s.controllers[0].a.pressed);
    assert!(!s.controllers[0].a.held);
    assert!(s.controllers[0].up.pressed);
    let mut held = State::new();
    held.update(&Input { pressed: vec![Key::A], shift_held: true });
    assert!(!held.controllers[0].a.pressed);
    assert!(held.controllers[0].a.held);
}

#[test]
fn update_feeds_typed_number_into_stick() {
    let mut s = State::new();
    s.update(&keys(vec![Key::Key4]));
    s.update(&keys(vec![Key::Key2]));
    s.update(&keys(vec![Key::Y]));
    assert_eq!(s.controllers[0].stick_x.value, 42);
    assert!(!s.controllers[0].stick_x.held);
    assert_eq!(s.number.value, 0);
}

#[test]
fn fresh_state_starts_stopped_with_one_controller() {
    let s = State::new();
    assert_eq!(s.controllers.len(), 1);
    assert_eq!(s.current_controller, 0);
    assert!(!s.display_all_controllers);
    assert!(!s.use_aspect_ratio);
    assert!(!s.display_analog_as_float);
    assert!(s.touchtype);
    assert_eq!(s.flow, Flow::Stop);
    assert_eq!(s.number.value, 0);
    assert!(!s.number.negative);
}
