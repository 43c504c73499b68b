use ratatui::style::Color;
use ruensh::easing::Easing;
use ruensh::interpolate::Scalar;
use ruensh::presets::TransitionPresets;
use ruensh::registry::{AnyTransition, TransitionManager};
use ruensh::transition::{Transition, TransitionState};

fn once(duration: u64) -> AnyTransition {
    AnyTransition::Cell(
        Transition::from_to(duration, 0u16, 100u16, Easing::Linear).unwrap().with_loop(Some(1)),
    )
}

fn forever(duration: u64) -> AnyTransition {
    AnyTransition::Offset(Transition::from_to(duration, 0i16, 100i16, Easing::Linear).unwrap())
}

#[test]
fn a_new_registry_is_empty() {
    let m = TransitionManager::new();
    assert_eq!(m.len(), 0);
    assert!(!m.contains("fade"));
    assert_eq!(m.state_of("fade"), None);
}

#[test]
fn add_starts_the_transition() {
    let mut m = TransitionManager::new();
    m.add("fade", once(100), 5);
    assert_eq!(m.len(), 1);
    assert!(m.contains("fade"));
    assert!(!m.contains("fad"));
    assert_eq!(m.state_of("fade"), Some(TransitionState::Running));
}

#[test]
fn add_under_a_used_name_replaces_the_entry() {
    let mut m = TransitionManager::new();
    m.add("a", once(100), 0);
    m.add("b", once(1_000), 0);
    m.add("a", forever(100), 0);
    assert_eq!(m.len(), 2);
    m.update_all(100);
    assert_eq!(m.state_of("a"), Some(TransitionState::Running));
    assert_eq!(m.state_of("b"), Some(TransitionState::Running));
    m.update_all(1_000);
    assert_eq!(m.len(), 1);
    assert!(m.contains("a"));
    assert!(!m.contains("b"));
}

#[test]
fn update_all_drops_what_has_completed() {
    let mut m = TransitionManager::new();
    m.add("short", once(100), 0);
    m.add("long", once(300), 0);
    m.add("endless", forever(100), 0);
    m.update_all(99);
    assert_eq!(m.len(), 3);
    m.update_all(100);
    assert_eq!(m.len(), 2);
    assert!(!m.contains("short"));
    assert!(m.contains("long"));
    assert!(m.contains("endless"));
    m.update_all(300);
    assert_eq!(m.len(), 1);
    assert!(m.contains("endless"));
    let mut now: u64 = 300;
    for _ in 0..30 {
        now += 100;
        m.update_all(now);
        assert_eq!(m.state_of("endless"), Some(TransitionState::Running));
    }
}

#[test]
fn a_reset_entry_stays_until_cleared() {
    let mut m = TransitionManager::new();
    m.add("a", once(100), 0);
    m.add("b", once(100), 0);
    m.reset("a");
    assert_eq!(m.state_of("a"), Some(TransitionState::Idle));
    assert_eq!(m.state_of("b"), Some(TransitionState::Running));
    m.update_all(500);
    assert_eq!(m.len(), 1);
    assert_eq!(m.state_of("a"), Some(TransitionState::Idle));
    m.reset("missing");
    assert_eq!(m.len(), 1);
    m.clear();
    assert_eq!(m.len(), 0);
    assert!(!m.contains("a"));
}

#[test]
fn entries_of_every_value_type() {
    let mut m = TransitionManager::new();
    m.add("fade", AnyTransition::Scalar(TransitionPresets::fade_in(100).unwrap()), 0);
    m.add("shake", AnyTransition::Offset(TransitionPresets::shake_horizontal(200, 4).unwrap()), 0);
    m.add("cell", once(300), 0);
    m.add(
        "shift",
        AnyTransition::Color(
            TransitionPresets::color_shift(400, Color::Rgb(0, 0, 0), Color::Rgb(9, 9, 9)).unwrap(),
        ),
        0,
    );
    m.add(
        "move",
        AnyTransition::Position(
            Transition::from_to(500, (0u16, 0u16), (8u16, 4u16), Easing::Linear)
                .unwrap()
                .with_loop(Some(1)),
        ),
        0,
    );
    m.add(
        "pulse",
        AnyTransition::Scalar(
            TransitionPresets::pulse(100, Scalar::new(1), Scalar::new(2)).unwrap(),
        ),
        0,
    );
    assert_eq!(m.len(), 6);
    m.update_all(100);
    assert_eq!(m.len(), 5);
    m.update_all(200);
    assert_eq!(m.len(), 4);
    m.update_all(300);
    assert_eq!(m.len(), 3);
    m.update_all(400);
    assert_eq!(m.len(), 2);
    m.update_all(500);
    assert_eq!(m.len(), 1);
    assert!(m.contains("pulse"));
}

#[test]
fn any_transition_forwards_to_its_transition() {
    let mut t = once(100);
    assert!(t.has_keyframes());
    assert_eq!(t.state(), TransitionState::Idle);
    t.start(0);
    assert_eq!(t.state(), TransitionState::Running);
    assert!(t.update(50));
    assert!(!t.update(100));
    assert_eq!(t.state(), TransitionState::Complete);
    t.reset();
    assert_eq!(t.state(), TransitionState::Idle);
    let empty = AnyTransition::Cell(Transition::new(5, Vec::new()).unwrap());
    assert!(!empty.has_keyframes());
}
