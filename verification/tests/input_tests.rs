use sprite_engine::{Action, InputManager, Key};

fn action_of(m: &InputManager, key: Key) -> Option<Action> {
    m.read_events()
        .iter()
        .find(|e| e.0 == key)
        .map(|e| e.1)
}

#[test]
fn pressed_key_becomes_held_next_frame() {
    let mut m = InputManager::new();
    m.process_event(Key::A, Action::Pressed);
    assert_eq!(action_of(&m, Key::A), Some(Action::Pressed));
    m.begin_frame();
    assert_eq!(action_of(&m, Key::A), Some(Action::Held));
    m.begin_frame();
    assert_eq!(action_of(&m, Key::A), Some(Action::Held));
}

#[test]
fn released_key_leaves_the_table_next_frame() {
    let mut m = InputManager::new();
    m.process_event(Key::Space, Action::Pressed);
    m.begin_frame();
    m.process_event(Key::Space, Action::Released);
    assert_eq!(action_of(&m, Key::Space), Some(Action::Released));
    m.begin_frame();
    assert_eq!(action_of(&m, Key::Space), None);
}

#[test]
fn unknown_keys_and_idle_actions_are_ignored() {
    let mut m = InputManager::new();
    m.process_event(Key::Unknown, Action::Pressed);
    m.process_event(Key::B, Action::Idle);
    assert_eq!(m.read_events().len(), 0);
}

#[test]
fn later_event_for_same_key_replaces_earlier() {
    let mut m = InputManager::new();
    m.process_event(Key::Escape, Action::Pressed);
    m.process_event(Key::Escape, Action::Released);
    assert_eq!(action_of(&m, Key::Escape), Some(Action::Released));
    assert_eq!(m.read_events().len(), 1);
}

#[test]
fn independent_keys_keep_independent_states() {
    let mut m = InputManager::new();
    m.process_event(Key::W, Action::Pressed);
    m.process_event(Key::S, Action::Pressed);
    m.begin_frame();
    m.process_event(Key::S, Action::Released);
    assert_eq!(action_of(&m, Key::W), Some(Action::Held));
    assert_eq!(action_of(&m, Key::S), Some(Action::Released));
    m.begin_frame();
    assert_eq!(action_of(&m, Key::W), Some(Action::Held));
    assert_eq!(action_of(&m, Key::S), None);
}
