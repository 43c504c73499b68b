use ratatui::layout::Rect;
use ruensh::events::{Event, KeyCode, MouseInput, MouseKind};
use ruensh::modal::{
    add_capped, button_area, button_text, button_width, message_area, modal_area, ButtonFocus,
    Modal, ModalMessage, ModalState,
};
use ruensh::state::Action;
use ruensh::style::Theme;

fn mouse(kind: MouseKind, column: u16, row: u16) -> Event {
    Event::Mouse(MouseInput { kind, column, row })
}

#[test]
fn a_new_modal_is_hidden() {
    let m = Modal::new("Really?");
    assert_eq!(m.state(), ModalState::Hidden);
    assert!(!m.is_visible());
    assert_eq!(m.focused_button(), ButtonFocus::Primary);
    assert_eq!(m.title_text(), "Confirm");
    assert_eq!(m.content_text(), "Really?");
    assert_eq!(m.primary_label(), "Confirm");
    assert_eq!(m.secondary_label(), "Cancel");
    assert_eq!(m.animation_frame(), 0);
    assert_eq!(m.last_mouse(), (0, 0));
    assert_eq!(m.current_theme().primary, Theme::dark().primary);
}

#[test]
fn builders_set_texts_and_theme() {
    let m = Modal::new("x")
        .title("Delete")
        .primary_button("Yes")
        .secondary_button("No")
        .theme(Theme::light());
    assert_eq!(m.title_text(), "Delete");
    assert_eq!(m.primary_label(), "Yes");
    assert_eq!(m.secondary_label(), "No");
    assert_eq!(m.content_text(), "x");
    assert_eq!(m.current_theme().background, Theme::light().background);
}

#[test]
fn a_modal_appears_in_ten_frames() {
    let mut m = Modal::new("x");
    m.show();
    assert_eq!(m.state(), ModalState::Appearing);
    assert!(m.is_visible());
    for frame in 1..10 {
        m.update_animation();
        assert_eq!(m.animation_frame(), frame);
        assert_eq!(m.state(), ModalState::Appearing);
    }
    m.update_animation();
    assert_eq!(m.animation_frame(), 10);
    assert_eq!(m.state(), ModalState::Visible);
    m.update_animation();
    assert_eq!(m.animation_frame(), 10);
    assert_eq!(m.state(), ModalState::Visible);
}

#[test]
fn a_modal_disappears_in_ten_frames() {
    let mut m = Modal::new("x");
    m.show();
    for _ in 0..10 {
        m.update_animation();
    }
    m.close();
    assert_eq!(m.state(), ModalState::Disappearing);
    assert_eq!(m.animation_frame(), 0);
    assert!(!m.is_visible());
    for _ in 0..9 {
        m.update_animation();
        assert_eq!(m.state(), ModalState::Disappearing);
    }
    m.update_animation();
    assert_eq!(m.state(), ModalState::Hidden);
    m.update_animation();
    assert_eq!(m.state(), ModalState::Hidden);
    assert_eq!(m.animation_frame(), 10);
}

#[test]
fn the_backdrop_is_dark_for_the_visible_half() {
    let mut m = Modal::new("x");
    assert!(!m.backdrop_is_dark());
    m.show();
    for frame in 1..=10u8 {
        m.update_animation();
        assert_eq!(m.backdrop_is_dark(), frame > 5);
    }
    assert!(m.backdrop_is_dark());
    m.close();
    assert!(m.backdrop_is_dark());
    for frame in 1..=10u8 {
        m.update_animation();
        assert_eq!(m.backdrop_is_dark(), frame < 5);
    }
}

#[test]
fn messages_ask_for_actions() {
    let mut m = Modal::new("x");
    m.show();
    assert_eq!(m.update(ModalMessage::PrimaryButton), Some(Action::Confirm));
    assert_eq!(m.state(), ModalState::Disappearing);
    m.show();
    assert_eq!(m.update(ModalMessage::SecondaryButton), Some(Action::Cancel));
    assert_eq!(m.state(), ModalState::Disappearing);
    m.show();
    assert_eq!(m.update(ModalMessage::Dismiss), Some(Action::Cancel));
    assert_eq!(m.state(), ModalState::Disappearing);
    m.show();
    assert_eq!(m.update(ModalMessage::HoverSecondary), None);
    assert_eq!(m.focused_button(), ButtonFocus::Secondary);
    assert_eq!(m.state(), ModalState::Appearing);
    assert_eq!(m.update(ModalMessage::NoHover), None);
    assert_eq!(m.focused_button(), ButtonFocus::Primary);
    assert_eq!(m.update(ModalMessage::HoverSecondary), None);
    assert_eq!(m.update(ModalMessage::HoverPrimary), None);
    assert_eq!(m.focused_button(), ButtonFocus::Primary);
}

#[test]
fn keys_confirm_dismiss_and_move_the_focus() {
    let mut m = Modal::new("x");
    assert_eq!(m.handle_event(&Event::Key(KeyCode::Enter)), Some(ModalMessage::PrimaryButton));
    assert_eq!(m.handle_event(&Event::Key(KeyCode::Tab)), None);
    assert_eq!(m.focused_button(), ButtonFocus::Secondary);
    assert_eq!(m.handle_event(&Event::Key(KeyCode::Enter)), Some(ModalMessage::SecondaryButton));
    assert_eq!(m.handle_event(&Event::Key(KeyCode::Right)), None);
    assert_eq!(m.focused_button(), ButtonFocus::Primary);
    assert_eq!(m.handle_event(&Event::Key(KeyCode::BackTab)), None);
    assert_eq!(m.focused_button(), ButtonFocus::Secondary);
    assert_eq!(m.handle_event(&Event::Key(KeyCode::Left)), None);
    assert_eq!(m.focused_button(), ButtonFocus::Primary);
    assert_eq!(m.handle_event(&Event::Key(KeyCode::Esc)), Some(ModalMessage::Dismiss));
    assert_eq!(m.handle_event(&Event::Key(KeyCode::Char('y'))), Some(ModalMessage::PrimaryButton));
    assert_eq!(m.handle_event(&Event::Key(KeyCode::Char('Y'))), Some(ModalMessage::PrimaryButton));
    assert_eq!(m.handle_event(&Event::Key(KeyCode::Char('n'))), Some(ModalMessage::SecondaryButton));
    assert_eq!(m.handle_event(&Event::Key(KeyCode::Char('N'))), Some(ModalMessage::SecondaryButton));
    assert_eq!(m.handle_event(&Event::Key(KeyCode::Char('q'))), None);
    assert_eq!(m.handle_event(&Event::Key(KeyCode::Up)), None);
    assert_eq!(m.handle_event(&Event::Key(KeyCode::Other)), None);
    assert_eq!(m.handle_event(&Event::Tick), None);
    assert_eq!(m.handle_event(&Event::Resize(10, 10)), None);
    assert_eq!(m.focused_button(), ButtonFocus::Primary);
    assert_eq!(m.state(), ModalState::Hidden);
}

#[test]
fn the_mouse_hits_the_buttons_on_their_line() {
    let mut m = Modal::new("x");
    assert!(m.is_on_primary(14, 15));
    assert!(m.is_on_primary(24, 15));
    assert!(!m.is_on_primary(25, 15));
    assert!(!m.is_on_primary(13, 15));
    assert!(!m.is_on_primary(14, 14));
    assert!(m.is_on_secondary(29, 15));
    assert!(m.is_on_secondary(38, 15));
    assert!(!m.is_on_secondary(39, 15));
    assert!(!m.is_on_secondary(28, 15));
    assert!(!m.is_on_secondary(29, 16));

    assert_eq!(m.handle_event(&mouse(MouseKind::Down, 14, 15)), Some(ModalMessage::PrimaryButton));
    assert_eq!(m.last_mouse(), (14, 15));
    assert_eq!(m.handle_event(&mouse(MouseKind::Up, 30, 15)), Some(ModalMessage::SecondaryButton));
    assert_eq!(m.handle_event(&mouse(MouseKind::Down, 26, 15)), None);
    assert_eq!(m.handle_event(&mouse(MouseKind::Moved, 20, 15)), Some(ModalMessage::HoverPrimary));
    assert_eq!(m.handle_event(&mouse(MouseKind::Moved, 35, 15)), Some(ModalMessage::HoverSecondary));
    assert_eq!(m.handle_event(&mouse(MouseKind::Moved, 35, 3)), Some(ModalMessage::NoHover));
    assert_eq!(m.handle_event(&mouse(MouseKind::Other, 14, 15)), None);
    assert_eq!(m.last_mouse(), (14, 15));
    assert_eq!(m.focused_button(), ButtonFocus::Primary);
}

#[test]
fn longer_labels_move_the_secondary_button() {
    let m = Modal::new("x").primary_button("OK").secondary_button("Abbrechen");
    assert!(m.is_on_primary(19, 15));
    assert!(!m.is_on_primary(20, 15));
    assert!(m.is_on_secondary(24, 15));
    assert!(m.is_on_secondary(36, 15));
    assert!(!m.is_on_secondary(37, 15));
}

#[test]
fn the_mouse_is_remembered_for_hover_tests() {
    let mut m = Modal::new("x");
    let line = Rect { x: 10, y: 7, width: 40, height: 1 };
    m.handle_event(&mouse(MouseKind::Moved, 12, 7));
    assert!(m.is_mouse_over_primary(line));
    assert!(!m.is_mouse_over_secondary(line));
    m.handle_event(&mouse(MouseKind::Moved, 21, 7));
    assert!(m.is_mouse_over_secondary(line));
    m.handle_event(&mouse(MouseKind::Moved, 28, 7));
    assert!(m.is_mouse_over_secondary(line));
    m.handle_event(&mouse(MouseKind::Moved, 29, 7));
    assert!(!m.is_mouse_over_secondary(line));
    m.handle_event(&mouse(MouseKind::Moved, 50, 7));
    assert!(!m.is_mouse_over_primary(line));
    m.handle_event(&mouse(MouseKind::Moved, 12, 8));
    assert!(!m.is_mouse_over_primary(line));
}

#[test]
fn the_modal_sits_in_the_middle() {
    let area = Rect { x: 0, y: 0, width: 80, height: 24 };
    assert_eq!(modal_area(area), Rect { x: 10, y: 5, width: 60, height: 14 });
    let small = Rect { x: 3, y: 2, width: 20, height: 8 };
    assert_eq!(modal_area(small), Rect { x: 5, y: 3, width: 16, height: 6 });
    let tiny = Rect { x: 0, y: 0, width: 3, height: 1 };
    assert_eq!(modal_area(tiny), Rect { x: 1, y: 0, width: 0, height: 0 });
    let far = Rect { x: u16::MAX, y: u16::MAX, width: 80, height: 24 };
    assert_eq!(modal_area(far), Rect { x: u16::MAX, y: u16::MAX, width: 60, height: 14 });
}

#[test]
fn the_inside_is_shared_by_message_and_buttons() {
    let inner = Rect { x: 11, y: 6, width: 58, height: 12 };
    assert_eq!(message_area(inner), Rect { x: 11, y: 6, width: 58, height: 6 });
    assert_eq!(button_area(inner), Rect { x: 11, y: 13, width: 58, height: 1 });
    let low = Rect { x: 1, y: 1, width: 10, height: 5 };
    assert_eq!(message_area(low), Rect { x: 1, y: 1, width: 10, height: 2 });
    assert_eq!(button_area(low), Rect { x: 1, y: 4, width: 10, height: 1 });
}

#[test]
fn the_buttons_stand_side_by_side() {
    let m = Modal::new("x");
    let line = Rect { x: 11, y: 13, width: 58, height: 1 };
    assert_eq!(m.primary_button_area(line), Rect { x: 13, y: 13, width: 11, height: 1 });
    assert_eq!(m.secondary_button_area(line), Rect { x: 27, y: 13, width: 10, height: 1 });
}

#[test]
fn button_texts_and_widths() {
    assert_eq!(button_text("Yes", true), " Yes ");
    assert_eq!(button_text("Yes", false), "[ Yes ]");
    assert_eq!(button_text("", false), "[  ]");
    assert_eq!(button_width("Yes", 4), 7);
    assert_eq!(button_width("é", 4), 6);
    assert_eq!(button_width("", 0), 0);
    let long = "x".repeat(70_000);
    assert_eq!(button_width(&long, 4), u16::MAX);
    assert_eq!(add_capped(1, 2), 3);
    assert_eq!(add_capped(u16::MAX, 1), u16::MAX);
    assert_eq!(add_capped(65_000, 535), u16::MAX);
}
