use shader_toy::input::{InputEvent, InputManager, ScrollPhase};

fn plus(a: u32, b: u32) -> u32 {
    (f32::from_bits(a) + f32::from_bits(b)).to_bits()
}

#[test]
fn default_accumulator_is_all_zero() {
    let m = InputManager::default();
    assert_eq!(
        m,
        InputManager { delta_x: 0, delta_y: 0, x: 0, y: 0, wx: 0, wy: 0, sensitivity: 0 }
    );
    assert_eq!(f64::from_bits(m.x), 0.0);
}

#[test]
fn pointer_position_is_replaced() {
    let mut m = InputManager::default();
    m.process_events(InputEvent::CursorMoved { x: 100.0f64.to_bits(), y: 200.0f64.to_bits() }, &plus);
    m.process_events(InputEvent::CursorMoved { x: 12.5f64.to_bits(), y: 7.0f64.to_bits() }, &plus);
    assert_eq!(
        m,
        InputManager { x: 12.5f64.to_bits(), y: 7.0f64.to_bits(), ..InputManager::default() }
    );
}

#[test]
fn motion_replaces_the_last_deltas() {
    let mut m = InputManager::default();
    m.process_events(InputEvent::MouseMotion { delta_x: 1.0f32.to_bits(), delta_y: 2.0f32.to_bits() }, &plus);
    m.process_events(InputEvent::MouseMotion { delta_x: 3.0f32.to_bits(), delta_y: (-4.0f32).to_bits() }, &plus);
    assert_eq!(
        m,
        InputManager {
            delta_x: 3.0f32.to_bits(),
            delta_y: (-4.0f32).to_bits(),
            ..InputManager::default()
        }
    );
}

#[test]
fn wheel_turns_add_up() {
    let mut m = InputManager::default();
    let turns = [(1.0f32, -1.0f32, ScrollPhase::Started), (0.5, -2.0, ScrollPhase::Moved), (2.0, 0.25, ScrollPhase::Cancelled)];
    for (dx, dy, phase) in turns {
        m.process_events(
            InputEvent::MouseWheel { delta_x: dx.to_bits(), delta_y: dy.to_bits(), phase },
            &plus,
        );
    }
    assert_eq!(f32::from_bits(m.wx), 3.5);
    assert_eq!(f32::from_bits(m.wy), -2.75);
    assert_eq!(m, InputManager { wx: m.wx, wy: m.wy, ..InputManager::default() });
}

#[test]
fn wheel_turn_of_an_ended_gesture_is_passed_over() {
    let mut m = InputManager::default();
    m.process_events(
        InputEvent::MouseWheel {
            delta_x: 1.0f32.to_bits(),
            delta_y: 1.0f32.to_bits(),
            phase: ScrollPhase::Moved,
        },
        &plus,
    );
    let before = m;
    m.process_events(
        InputEvent::MouseWheel {
            delta_x: 9.0f32.to_bits(),
            delta_y: 9.0f32.to_bits(),
            phase: ScrollPhase::Ended,
        },
        &plus,
    );
    assert_eq!(m, before);
}

#[test]
fn other_events_change_nothing() {
    let mut m = InputManager { delta_x: 1, delta_y: 2, x: 3, y: 4, wx: 5, wy: 6, sensitivity: 7 };
    m.process_events(InputEvent::Other, &plus);
    assert_eq!(m, InputManager { delta_x: 1, delta_y: 2, x: 3, y: 4, wx: 5, wy: 6, sensitivity: 7 });
}
