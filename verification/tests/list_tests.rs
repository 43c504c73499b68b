use ruensh::events::{Event, KeyCode, MouseInput, MouseKind};
use ruensh::layout::{Constraint, Layout};
use ruensh::list::{List, ListMessage};
use ruensh::state::Action;
use ruensh::style::Theme;

fn fruits() -> List {
    List::new(vec![String::from("apple"), String::from("pear"), String::from("plum")])
}

#[test]
fn a_new_list_selects_the_first_item() {
    let l = fruits();
    assert_eq!(l.selected(), 0);
    assert_eq!(l.selected_item(), Some("apple"));
    assert_eq!(l.len(), 3);
    assert_eq!(l.title_text(), "List");
    let l = l.title("Fruit").theme(Theme::light());
    assert_eq!(l.title_text(), "Fruit");
    assert_eq!(l.current_theme().text, Theme::light().text);
}

#[test]
fn an_empty_list_has_no_selected_item() {
    let mut l = List::new(Vec::new());
    assert_eq!(l.selected(), 0);
    assert_eq!(l.selected_item(), None);
    assert_eq!(l.update(ListMessage::Down), None);
    assert_eq!(l.selected(), 0);
    assert_eq!(l.update(ListMessage::Up), None);
    assert_eq!(l.selected(), 0);
    assert_eq!(l.update(ListMessage::Select(0)), None);
    assert_eq!(l.selected(), 0);
    assert_eq!(l.item_line(0), None);
}

#[test]
fn the_selection_moves_within_the_list() {
    let mut l = fruits();
    assert_eq!(l.update(ListMessage::Up), None);
    assert_eq!(l.selected(), 0);
    assert_eq!(l.update(ListMessage::Down), None);
    assert_eq!(l.selected(), 1);
    assert_eq!(l.selected_item(), Some("pear"));
    assert_eq!(l.update(ListMessage::Down), None);
    assert_eq!(l.update(ListMessage::Down), None);
    assert_eq!(l.selected(), 2);
    assert_eq!(l.update(ListMessage::Up), None);
    assert_eq!(l.selected(), 1);
}

#[test]
fn a_selection_by_index_needs_an_item_there() {
    let mut l = fruits();
    assert_eq!(l.update(ListMessage::Select(2)), None);
    assert_eq!(l.selected(), 2);
    assert_eq!(l.update(ListMessage::Select(3)), None);
    assert_eq!(l.selected(), 2);
    assert_eq!(l.update(ListMessage::Select(0)), None);
    assert_eq!(l.selected(), 0);
}

#[test]
fn confirm_asks_for_the_action() {
    let mut l = fruits();
    l.update(ListMessage::Down);
    assert_eq!(l.update(ListMessage::Confirm), Some(Action::Confirm));
    assert_eq!(l.selected(), 1);
}

#[test]
fn keys_become_list_messages() {
    let mut l = fruits();
    assert_eq!(l.handle_event(&Event::Key(KeyCode::Up)), Some(ListMessage::Up));
    assert_eq!(l.handle_event(&Event::Key(KeyCode::Char('k'))), Some(ListMessage::Up));
    assert_eq!(l.handle_event(&Event::Key(KeyCode::Down)), Some(ListMessage::Down));
    assert_eq!(l.handle_event(&Event::Key(KeyCode::Char('j'))), Some(ListMessage::Down));
    assert_eq!(l.handle_event(&Event::Key(KeyCode::Enter)), Some(ListMessage::Confirm));
    assert_eq!(l.handle_event(&Event::Key(KeyCode::Char('J'))), None);
    assert_eq!(l.handle_event(&Event::Key(KeyCode::Esc)), None);
    assert_eq!(l.handle_event(&Event::Tick), None);
    assert_eq!(l.handle_event(&Event::Resize(1, 1)), None);
    let click = Event::Mouse(MouseInput { kind: MouseKind::Down, column: 1, row: 1 });
    assert_eq!(l.handle_event(&click), None);
    assert_eq!(l.selected(), 0);
}

#[test]
fn the_selected_line_is_marked() {
    let mut l = fruits();
    l.update(ListMessage::Down);
    assert_eq!(l.item_line(0), Some(String::from("  apple")));
    assert_eq!(l.item_line(1), Some(String::from("▸ pear")));
    assert_eq!(l.item_line(2), Some(String::from("  plum")));
    assert_eq!(l.item_line(3), None);
}

#[test]
fn layouts_keep_their_constraints() {
    let v = Layout::vertical(vec![Constraint::Length(3), Constraint::Min(0)]);
    assert_eq!(v.direction(), ratatui::layout::Direction::Vertical);
    assert_eq!(v.margin(), (0, 0));
    assert_eq!(v.len(), 2);
    assert_eq!(v.constraint(0), Some(Constraint::Length(3)));
    assert_eq!(v.constraint(1), Some(Constraint::Min(0)));
    assert_eq!(v.constraint(2), None);
    let h = Layout::horizontal(vec![
        Constraint::Percentage(30),
        Constraint::Ratio(1, 3),
        Constraint::Max(9),
    ])
    .with_margin(1, 2);
    assert_eq!(h.direction(), ratatui::layout::Direction::Horizontal);
    assert_eq!(h.margin(), (1, 2));
    assert_eq!(h.len(), 3);
    assert_eq!(h.constraint(1), Some(Constraint::Ratio(1, 3)));
}
