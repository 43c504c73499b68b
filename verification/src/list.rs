//! A list of items with a selection: its state and its reactions to events.

use vstd::prelude::*;
use crate::events::{Event, KeyCode};
use crate::state::Action;
use crate::style::Theme;

verus! {

/// What a list is told to do.
#[derive(Debug, Clone, Copy, PartialEq, Eq, Structural)]
pub enum ListMessage {
    Select(usize),
    Up,
    Down,
    Confirm,
}

/// A list of items, one of which is selected.
pub struct List {
    items: Vec<String>,
    selected: usize,
    title: String,
    theme: Theme,
}

/// What a list holds, as plain values.
pub struct ListView {
    pub items: Seq<Seq<char>>,
    pub selected: usize,
    pub title: Seq<char>,
    pub theme: Theme,
}

impl ListView {
    /// The selection after a message: up and down move it by one within
    /// the list, and a selection by index takes effect where the list has
    /// an item there.
    pub open spec fn selected_after(self, msg: ListMessage) -> usize {
        match msg {
            ListMessage::Up => if self.selected > 0 {
                (self.selected - 1) as usize
            } else {
                self.selected
            },
            ListMessage::Down => if self.selected + 1 < self.items.len() {
                (self.selected + 1) as usize
            } else {
                self.selected
            },
            ListMessage::Select(index) => if index < self.items.len() {
                index
            } else {
                self.selected
            },
            ListMessage::Confirm => self.selected,
        }
    }

    /// The line of the item at `index`: marked where it is the selected one,
    /// indented else.
    pub open spec fn line(self, index: int) -> Seq<char> {
        if index == self.selected {
            "▸ "@ + self.items[index]
        } else {
            "  "@ + self.items[index]
        }
    }
}

/// The action that a message asks of the application.
pub open spec fn list_action(msg: ListMessage) -> Option<Action> {
    match msg {
        ListMessage::Confirm => Some(Action::Confirm),
        _ => None,
    }
}

/// The message that an event gives rise to: the arrow keys and `k`, `j`
/// move the selection, and the enter key confirms.
pub open spec fn list_message(event: Event) -> Option<ListMessage> {
    match event {
        Event::Key(code) => match code {
            KeyCode::Up => Some(ListMessage::Up),
            KeyCode::Down => Some(ListMessage::Down),
            KeyCode::Enter => Some(ListMessage::Confirm),
            KeyCode::Char(c) => if c == 'k' {
                Some(ListMessage::Up)
            } else if c == 'j' {
                Some(ListMessage::Down)
            } else {
                None
            },
            _ => None,
        },
        _ => None,
    }
}

impl View for List {
    type V = ListView;

    closed spec fn view(&self) -> ListView {
        ListView {
            items: Seq::new(self.items@.len(), |i: int| self.items@[i]@),
            selected: self.selected,
            title: self.title@,
            theme: self.theme,
        }
    }
}

impl List {
    /// A list of those items, titled "List", in the standard theme, with the
    /// first item selected.
    pub fn new(items: Vec<String>) -> (r: Self)
        ensures
            r@ == (ListView {
                items: Seq::new(items@.len(), |i: int| items@[i]@),
                selected: 0,
                title: "List"@,
                theme: Theme::dark_spec(),
            }),
    {
        List { items, selected: 0, title: "List".to_owned(), theme: Theme::dark() }
    }

    /// The same list with another title.
    pub fn title(self, title: &str) -> (r: Self)
        ensures
            r@ == (ListView { title: title@, ..self@ }),
    {
        List { title: title.to_owned(), ..self }
    }

    /// The same list with another theme.
    pub fn theme(self, theme: Theme) -> (r: Self)
        ensures
            r@ == (ListView { theme: theme, ..self@ }),
    {
        List { theme, ..self }
    }

    /// The index of the selected item.
    pub fn selected(&self) -> (r: usize)
        ensures
            r == self@.selected,
    {
        self.selected
    }

    /// The selected item, if the list has one at the selected index.
    pub fn selected_item(&self) -> (r: Option<&str>)
        ensures
            match r {
                Some(item) => self@.selected < self@.items.len() && item@
                    == self@.items[self@.selected as int],
                None => self@.selected >= self@.items.len(),
            },
    {
        if self.selected < self.items.len() {
            Some(self.items[self.selected].as_str())
        } else {
            None
        }
    }

    /// The number of items.
    pub fn len(&self) -> (r: usize)
        ensures
            r == self@.items.len(),
    {
        self.items.len()
    }

    /// The title.
    pub fn title_text(&self) -> (r: &str)
        ensures
            r@ == self@.title,
    {
        self.title.as_str()
    }

    /// The theme.
    pub fn current_theme(&self) -> (r: Theme)
        ensures
            r == self@.theme,
    {
        self.theme
    }

    /// The line to draw for the item at `index`, if there is one.
    pub fn item_line(&self, index: usize) -> (r: Option<String>)
        ensures
            match r {
                Some(line) => index < self@.items.len() && line@ == self@.line(index as int),
                None => index >= self@.items.len(),
            },
    {
        if index >= self.items.len() {
            return None;
        }
        let mut line: String = if index == self.selected {
            "▸ ".to_owned()
        } else {
            "  ".to_owned()
        };
        line.append(self.items[index].as_str());
        Some(line)
    }

    /// Moves the selection up by one, if it is not at the top.
    fn move_up(&mut self)
        ensures
            final(self)@ == (ListView {
                selected: old(self)@.selected_after(ListMessage::Up),
                ..old(self)@
            }),
    {
        if self.selected > 0 {
            self.selected = self.selected - 1;
        }
    }

    /// Moves the selection down by one, if it is not at the bottom.
    fn move_down(&mut self)
        ensures
            final(self)@ == (ListView {
                selected: old(self)@.selected_after(ListMessage::Down),
                ..old(self)@
            }),
    {
        if self.items.len() > 0 && self.selected < self.items.len() - 1 {
            self.selected = self.selected + 1;
        }
    }

    /// Applies a message and returns the action that it asks of the
    /// application.
    pub fn update(&mut self, msg: ListMessage) -> (r: Option<Action>)
        ensures
            final(self)@ == (ListView { selected: old(self)@.selected_after(msg), ..old(self)@ }),
            r == list_action(msg),
    {
        match msg {
            ListMessage::Up => {
                self.move_up();
                None
            },
            ListMessage::Down => {
                self.move_down();
                None
            },
            ListMessage::Select(index) => {
                if index < self.items.len() {
                    self.selected = index;
                }
                None
            },
            ListMessage::Confirm => Some(Action::Confirm),
        }
    }

    /// The message that an event gives rise to. The list itself does not
    /// change.
    pub fn handle_event(&mut self, event: &Event) -> (r: Option<ListMessage>)
        ensures
            final(self)@ == old(self)@,
            r == list_message(*event),
    {
        match *event {
            Event::Key(code) => match code {
                KeyCode::Up => Some(ListMessage::Up),
                KeyCode::Down => Some(ListMessage::Down),
                KeyCode::Enter => Some(ListMessage::Confirm),
                KeyCode::Char(c) => {
                    if c == 'k' {
                        Some(ListMessage::Up)
                    } else if c == 'j' {
                        Some(ListMessage::Down)
                    } else {
                        None
                    }
                },
                _ => None,
            },
            _ => None,
        }
    }
}

} // verus!
