//! A modal dialog with two buttons: its state and its reactions to events.
//! Drawing it is left to the caller, who gets the areas to draw into.

use vstd::prelude::*;
use vstd::utf8::encode_utf8;
use ratatui::layout::Rect;
use crate::events::{Event, KeyCode, MouseInput, MouseKind};
use crate::state::Action;
use crate::style::Theme;

verus! {

/// Declares `ratatui::layout::Rect`, a structure of four public numbers
/// (`x`, `y`, `width`, `height`), so that verified code can build it and
/// read its fields. Nothing is claimed beyond the definition of the type.
#[verifier::external_type_specification]
pub struct ExRect(Rect);

/// What a modal is told to do.
#[derive(Debug, Clone, Copy, PartialEq, Eq, Structural)]
pub enum ModalMessage {
    PrimaryButton,
    SecondaryButton,
    Dismiss,
    HoverPrimary,
    HoverSecondary,
    NoHover,
}

/// Which button has the focus.
#[derive(Debug, Clone, Copy, PartialEq, Eq, Structural)]
pub enum ButtonFocus {
    Primary,
    Secondary,
    Neither,
}

/// Where a modal stands between hidden and visible.
#[derive(Debug, Clone, Copy, PartialEq, Eq, Structural)]
pub enum ModalState {
    Hidden,
    Appearing,
    Visible,
    Disappearing,
}

/// The number of animation frames that a modal takes to appear or to
/// disappear.
pub const ANIMATION_FRAMES: u8 = 10;

/// The line of the buttons of a modal on a screen of 80 by 24 cells.
pub const BUTTON_ROW: u16 = 15;

/// The column at which the primary button starts on such a screen.
pub const PRIMARY_START: u16 = 14;

/// A modal dialog.
pub struct Modal {
    title: String,
    content: String,
    primary_label: String,
    secondary_label: String,
    theme: Theme,
    focused_button: ButtonFocus,
    modal_state: ModalState,
    animation_frame: u8,
    last_mouse_x: u16,
    last_mouse_y: u16,
}

/// What a modal holds, as plain values.
pub struct ModalView {
    pub title: Seq<char>,
    pub content: Seq<char>,
    pub primary_label: Seq<char>,
    pub secondary_label: Seq<char>,
    pub theme: Theme,
    pub focused_button: ButtonFocus,
    pub modal_state: ModalState,
    pub animation_frame: u8,
    pub last_mouse_x: u16,
    pub last_mouse_y: u16,
}

/// The width of a label in cells: one per byte of its encoding, as the
/// length of a string counts them.
pub open spec fn label_width(label: Seq<char>) -> int {
    (encode_utf8(label).len() as usize) as int
}

/// The focus after a step forward: from the primary button to the secondary
/// and back; without focus, to the primary.
pub open spec fn focus_forward(focus: ButtonFocus) -> ButtonFocus {
    match focus {
        ButtonFocus::Primary => ButtonFocus::Secondary,
        ButtonFocus::Secondary => ButtonFocus::Primary,
        ButtonFocus::Neither => ButtonFocus::Primary,
    }
}

/// The focus after a step backward: from the primary button to the secondary
/// and back; without focus, to the secondary.
pub open spec fn focus_backward(focus: ButtonFocus) -> ButtonFocus {
    match focus {
        ButtonFocus::Primary => ButtonFocus::Secondary,
        ButtonFocus::Secondary => ButtonFocus::Primary,
        ButtonFocus::Neither => ButtonFocus::Secondary,
    }
}

impl ModalView {
    /// The column behind the primary button.
    pub open spec fn primary_end(self) -> int {
        PRIMARY_START + label_width(self.primary_label) + 4
    }

    /// The column at which the secondary button starts.
    pub open spec fn secondary_start(self) -> int {
        self.primary_end() + 4
    }

    /// The column behind the secondary button.
    pub open spec fn secondary_end(self) -> int {
        self.secondary_start() + label_width(self.secondary_label) + 4
    }

    /// Whether a cell lies on the primary button.
    pub open spec fn on_primary(self, column: u16, row: u16) -> bool {
        PRIMARY_START <= column < self.primary_end() && row == BUTTON_ROW
    }

    /// Whether a cell lies on the secondary button.
    pub open spec fn on_secondary(self, column: u16, row: u16) -> bool {
        self.secondary_start() <= column < self.secondary_end() && row == BUTTON_ROW
    }

    /// The message that a key gives rise to.
    pub open spec fn key_message(self, code: KeyCode) -> Option<ModalMessage> {
        match code {
            KeyCode::Enter => match self.focused_button {
                ButtonFocus::Primary => Some(ModalMessage::PrimaryButton),
                ButtonFocus::Secondary => Some(ModalMessage::SecondaryButton),
                ButtonFocus::Neither => None,
            },
            KeyCode::Esc => Some(ModalMessage::Dismiss),
            KeyCode::Char(c) => if c == 'y' || c == 'Y' {
                Some(ModalMessage::PrimaryButton)
            } else if c == 'n' || c == 'N' {
                Some(ModalMessage::SecondaryButton)
            } else {
                None
            },
            _ => None,
        }
    }

    /// The message that a mouse event gives rise to: a press or a release on
    /// a button is that button, and every movement tells over which button
    /// the mouse is, or that it is over none.
    pub open spec fn mouse_message(self, mouse: MouseInput) -> Option<ModalMessage> {
        match mouse.kind {
            MouseKind::Down | MouseKind::Up => if self.on_primary(mouse.column, mouse.row) {
                Some(ModalMessage::PrimaryButton)
            } else if self.on_secondary(mouse.column, mouse.row) {
                Some(ModalMessage::SecondaryButton)
            } else {
                None
            },
            MouseKind::Moved => if self.on_primary(mouse.column, mouse.row) {
                Some(ModalMessage::HoverPrimary)
            } else if self.on_secondary(mouse.column, mouse.row) {
                Some(ModalMessage::HoverSecondary)
            } else {
                Some(ModalMessage::NoHover)
            },
            MouseKind::Other => None,
        }
    }

    /// The message that an event gives rise to.
    pub open spec fn message(self, event: Event) -> Option<ModalMessage> {
        match event {
            Event::Key(code) => self.key_message(code),
            Event::Mouse(mouse) => self.mouse_message(mouse),
            _ => None,
        }
    }

    /// The modal after an event: the keys that move the focus move it, and a
    /// mouse event leaves its cell behind.
    pub open spec fn after_event(self, event: Event) -> ModalView {
        match event {
            Event::Key(code) => match code {
                KeyCode::Tab | KeyCode::Right => ModalView {
                    focused_button: focus_forward(self.focused_button),
                    ..self
                },
                KeyCode::BackTab | KeyCode::Left => ModalView {
                    focused_button: focus_backward(self.focused_button),
                    ..self
                },
                _ => self,
            },
            Event::Mouse(mouse) => ModalView {
                last_mouse_x: mouse.column,
                last_mouse_y: mouse.row,
                ..self
            },
            _ => self,
        }
    }

    /// The modal as it begins to disappear.
    pub open spec fn hiding(self) -> ModalView {
        ModalView { modal_state: ModalState::Disappearing, animation_frame: 0, ..self }
    }

    /// The modal as it begins to appear.
    pub open spec fn showing(self) -> ModalView {
        ModalView { modal_state: ModalState::Appearing, animation_frame: 0, ..self }
    }

    /// The modal after a message: the buttons and a dismissal close it, and
    /// the hover messages move the focus. Without hover the focus is on the
    /// primary button.
    pub open spec fn after_message(self, msg: ModalMessage) -> ModalView {
        match msg {
            ModalMessage::PrimaryButton | ModalMessage::SecondaryButton | ModalMessage::Dismiss =>
                self.hiding(),
            ModalMessage::HoverPrimary | ModalMessage::NoHover => ModalView {
                focused_button: ButtonFocus::Primary,
                ..self
            },
            ModalMessage::HoverSecondary => ModalView {
                focused_button: ButtonFocus::Secondary,
                ..self
            },
        }
    }

    /// The frame counter after one more frame; it stops at its greatest
    /// value.
    pub open spec fn next_frame(self) -> u8 {
        if self.animation_frame < u8::MAX {
            (self.animation_frame + 1) as u8
        } else {
            u8::MAX
        }
    }

    /// The modal after one frame of animation: while it appears or
    /// disappears the frame counter goes up, and at the last frame the modal
    /// is visible or hidden.
    pub open spec fn after_frame(self) -> ModalView {
        match self.modal_state {
            ModalState::Appearing => ModalView {
                animation_frame: self.next_frame(),
                modal_state: if self.next_frame() >= ANIMATION_FRAMES {
                    ModalState::Visible
                } else {
                    ModalState::Appearing
                },
                ..self
            },
            ModalState::Disappearing => ModalView {
                animation_frame: self.next_frame(),
                modal_state: if self.next_frame() >= ANIMATION_FRAMES {
                    ModalState::Hidden
                } else {
                    ModalState::Disappearing
                },
                ..self
            },
            _ => self,
        }
    }
}

/// The action that a message asks of the application.
pub open spec fn action_of(msg: ModalMessage) -> Option<Action> {
    match msg {
        ModalMessage::PrimaryButton => Some(Action::Confirm),
        ModalMessage::SecondaryButton | ModalMessage::Dismiss => Some(Action::Cancel),
        _ => None,
    }
}

impl View for Modal {
    type V = ModalView;

    closed spec fn view(&self) -> ModalView {
        ModalView {
            title: self.title@,
            content: self.content@,
            primary_label: self.primary_label@,
            secondary_label: self.secondary_label@,
            theme: self.theme,
            focused_button: self.focused_button,
            modal_state: self.modal_state,
            animation_frame: self.animation_frame,
            last_mouse_x: self.last_mouse_x,
            last_mouse_y: self.last_mouse_y,
        }
    }
}

impl Modal {
    /// A hidden modal with that content, titled "Confirm", with the buttons
    /// "Confirm" and "Cancel", the standard theme and the focus on the
    /// primary button.
    pub fn new(content: &str) -> (r: Self)
        ensures
            r@ == (ModalView {
                title: "Confirm"@,
                content: content@,
                primary_label: "Confirm"@,
                secondary_label: "Cancel"@,
                theme: r@.theme,
                focused_button: ButtonFocus::Primary,
                modal_state: ModalState::Hidden,
                animation_frame: 0,
                last_mouse_x: 0,
                last_mouse_y: 0,
            }),
            r@.theme == Theme::dark_spec(),
    {
        Modal {
            title: "Confirm".to_owned(),
            content: content.to_owned(),
            primary_label: "Confirm".to_owned(),
            secondary_label: "Cancel".to_owned(),
            theme: Theme::dark(),
            focused_button: ButtonFocus::Primary,
            modal_state: ModalState::Hidden,
            animation_frame: 0,
            last_mouse_x: 0,
            last_mouse_y: 0,
        }
    }

    /// The same modal with another label on the primary button.
    pub fn primary_button(self, label: &str) -> (r: Self)
        ensures
            r@ == (ModalView { primary_label: label@, ..self@ }),
    {
        Modal { primary_label: label.to_owned(), ..self }
    }

    /// The same modal with another label on the secondary button.
    pub fn secondary_button(self, label: &str) -> (r: Self)
        ensures
            r@ == (ModalView { secondary_label: label@, ..self@ }),
    {
        Modal { secondary_label: label.to_owned(), ..self }
    }

    /// The same modal with another title.
    pub fn title(self, title: &str) -> (r: Self)
        ensures
            r@ == (ModalView { title: title@, ..self@ }),
    {
        Modal { title: title.to_owned(), ..self }
    }

    /// The same modal with another theme.
    pub fn theme(self, theme: Theme) -> (r: Self)
        ensures
            r@ == (ModalView { theme: theme, ..self@ }),
    {
        Modal { theme, ..self }
    }

    /// Lets the modal begin to appear.
    pub fn show(&mut self)
        ensures
            final(self)@ == old(self)@.showing(),
    {
        self.modal_state = ModalState::Appearing;
        self.animation_frame = 0;
    }

    /// Lets the modal begin to disappear.
    pub fn close(&mut self)
        ensures
            final(self)@ == old(self)@.hiding(),
    {
        self.modal_state = ModalState::Disappearing;
        self.animation_frame = 0;
    }

    /// Whether the modal is visible or about to be.
    pub fn is_visible(&self) -> (r: bool)
        ensures
            r == (self@.modal_state == ModalState::Visible || self@.modal_state
                == ModalState::Appearing),
    {
        self.modal_state == ModalState::Visible || self.modal_state == ModalState::Appearing
    }

    /// The button that has the focus.
    pub fn focused_button(&self) -> (r: ButtonFocus)
        ensures
            r == self@.focused_button,
    {
        self.focused_button
    }

    /// Where the modal stands between hidden and visible.
    pub fn state(&self) -> (r: ModalState)
        ensures
            r == self@.modal_state,
    {
        self.modal_state
    }

    /// The number of frames since the modal began to appear or to
    /// disappear.
    pub fn animation_frame(&self) -> (r: u8)
        ensures
            r == self@.animation_frame,
    {
        self.animation_frame
    }

    /// The cell of the last mouse event, as column and row.
    pub fn last_mouse(&self) -> (r: (u16, u16))
        ensures
            r == (self@.last_mouse_x, self@.last_mouse_y),
    {
        (self.last_mouse_x, self.last_mouse_y)
    }

    /// The title.
    pub fn title_text(&self) -> (r: &str)
        ensures
            r@ == self@.title,
    {
        self.title.as_str()
    }

    /// The content.
    pub fn content_text(&self) -> (r: &str)
        ensures
            r@ == self@.content,
    {
        self.content.as_str()
    }

    /// The label of the primary button.
    pub fn primary_label(&self) -> (r: &str)
        ensures
            r@ == self@.primary_label,
    {
        self.primary_label.as_str()
    }

    /// The label of the secondary button.
    pub fn secondary_label(&self) -> (r: &str)
        ensures
            r@ == self@.secondary_label,
    {
        self.secondary_label.as_str()
    }

    /// The theme.
    pub fn current_theme(&self) -> (r: Theme)
        ensures
            r == self@.theme,
    {
        self.theme
    }

    /// Moves the animation on by one frame.
    pub fn update_animation(&mut self)
        ensures
            final(self)@ == old(self)@.after_frame(),
    {
        match self.modal_state {
            ModalState::Appearing => {
                self.animation_frame = if self.animation_frame < u8::MAX {
                    self.animation_frame + 1
                } else {
                    u8::MAX
                };
                if self.animation_frame >= ANIMATION_FRAMES {
                    self.modal_state = ModalState::Visible;
                }
            },
            ModalState::Disappearing => {
                self.animation_frame = if self.animation_frame < u8::MAX {
                    self.animation_frame + 1
                } else {
                    u8::MAX
                };
                if self.animation_frame >= ANIMATION_FRAMES {
                    self.modal_state = ModalState::Hidden;
                }
            },
            _ => {},
        }
    }

    /// Whether a cell lies on the primary button, as it is laid out on a
    /// screen of 80 by 24 cells.
    pub fn is_on_primary(&self, column: u16, row: u16) -> (r: bool)
        ensures
            r == self@.on_primary(column, row),
    {
        let end: u128 = PRIMARY_START as u128 + self.primary_label.as_str().len() as u128 + 4;
        column >= PRIMARY_START && (column as u128) < end && row == BUTTON_ROW
    }

    /// Whether a cell lies on the secondary button, as it is laid out on a
    /// screen of 80 by 24 cells.
    pub fn is_on_secondary(&self, column: u16, row: u16) -> (r: bool)
        ensures
            r == self@.on_secondary(column, row),
    {
        let primary_end: u128 = PRIMARY_START as u128 + self.primary_label.as_str().len() as u128
            + 4;
        let start: u128 = primary_end + 4;
        let end: u128 = start + self.secondary_label.as_str().len() as u128 + 4;
        (column as u128) >= start && (column as u128) < end && row == BUTTON_ROW
    }

    /// Applies a message and returns the action that it asks of the
    /// application.
    pub fn update(&mut self, msg: ModalMessage) -> (r: Option<Action>)
        ensures
            final(self)@ == old(self)@.after_message(msg),
            r == action_of(msg),
    {
        match msg {
            ModalMessage::PrimaryButton => {
                self.close();
                Some(Action::Confirm)
            },
            ModalMessage::SecondaryButton => {
                self.close();
                Some(Action::Cancel)
            },
            ModalMessage::Dismiss => {
                self.close();
                Some(Action::Cancel)
            },
            ModalMessage::HoverPrimary => {
                self.focused_button = ButtonFocus::Primary;
                None
            },
            ModalMessage::HoverSecondary => {
                self.focused_button = ButtonFocus::Secondary;
                None
            },
            ModalMessage::NoHover => {
                self.focused_button = ButtonFocus::Primary;
                None
            },
        }
    }

    /// Takes in an event and returns the message that it gives rise to.
    pub fn handle_event(&mut self, event: &Event) -> (r: Option<ModalMessage>)
        ensures
            final(self)@ == old(self)@.after_event(*event),
            r == old(self)@.message(*event),
    {
        match *event {
            Event::Key(code) => match code {
                KeyCode::Enter => match self.focused_button {
                    ButtonFocus::Primary => Some(ModalMessage::PrimaryButton),
                    ButtonFocus::Secondary => Some(ModalMessage::SecondaryButton),
                    ButtonFocus::Neither => None,
                },
                KeyCode::Esc => Some(ModalMessage::Dismiss),
                KeyCode::Tab | KeyCode::Right => {
                    self.focused_button = match self.focused_button {
                        ButtonFocus::Primary => ButtonFocus::Secondary,
                        ButtonFocus::Secondary => ButtonFocus::Primary,
                        ButtonFocus::Neither => ButtonFocus::Primary,
                    };
                    None
                },
                KeyCode::BackTab | KeyCode::Left => {
                    self.focused_button = match self.focused_button {
                        ButtonFocus::Primary => ButtonFocus::Secondary,
                        ButtonFocus::Secondary => ButtonFocus::Primary,
                        ButtonFocus::Neither => ButtonFocus::Secondary,
                    };
                    None
                },
                KeyCode::Char(c) => {
                    if c == 'y' || c == 'Y' {
                        Some(ModalMessage::PrimaryButton)
                    } else if c == 'n' || c == 'N' {
                        Some(ModalMessage::SecondaryButton)
                    } else {
                        None
                    }
                },
                _ => None,
            },
            Event::Mouse(mouse) => {
                self.last_mouse_x = mouse.column;
                self.last_mouse_y = mouse.row;
                let on_primary: bool = self.is_on_primary(mouse.column, mouse.row);
                let on_secondary: bool = self.is_on_secondary(mouse.column, mouse.row);
                match mouse.kind {
                    MouseKind::Down | MouseKind::Up => {
                        if on_primary {
                            Some(ModalMessage::PrimaryButton)
                        } else if on_secondary {
                            Some(ModalMessage::SecondaryButton)
                        } else {
                            None
                        }
                    },
                    MouseKind::Moved => {
                        if on_primary {
                            Some(ModalMessage::HoverPrimary)
                        } else if on_secondary {
                            Some(ModalMessage::HoverSecondary)
                        } else {
                            Some(ModalMessage::NoHover)
                        }
                    },
                    MouseKind::Other => None,
                }
            },
            _ => None,
        }
    }
}

/// The sum of two lengths on the screen, which stops at the greatest one.
pub open spec fn capped_sum(a: int, b: int) -> u16 {
    if a + b > u16::MAX {
        u16::MAX
    } else {
        (a + b) as u16
    }
}

/// Adds two lengths on the screen; the sum stops at the greatest one.
pub fn add_capped(a: u16, b: u16) -> (r: u16)
    ensures
        r == capped_sum(a as int, b as int),
{
    if a > u16::MAX - b {
        u16::MAX
    } else {
        a + b
    }
}

/// The width of a button in cells: its label and `around` cells of frame,
/// at most the greatest length on the screen.
pub fn button_width(label: &str, around: u16) -> (r: u16)
    ensures
        r == capped_sum(label_width(label@), around as int),
{
    let length: usize = label.len();
    if length > (u16::MAX - around) as usize {
        u16::MAX
    } else {
        length as u16 + around
    }
}

/// The area of a modal in the middle of `area`: at most 60 cells wide and
/// 14 high, and smaller where `area` leaves less than that and a margin.
pub open spec fn centered(area: Rect) -> Rect {
    let room_across = if area.width >= 4 {
        area.width - 4
    } else {
        0
    };
    let room_down = if area.height >= 2 {
        area.height - 2
    } else {
        0
    };
    let width = if room_across < 60 {
        room_across
    } else {
        60
    };
    let height = if room_down < 14 {
        room_down
    } else {
        14
    };
    Rect {
        x: capped_sum(area.x as int, (area.width - width) / 2),
        y: capped_sum(area.y as int, (area.height - height) / 2),
        width: width as u16,
        height: height as u16,
    }
}

/// The area of the message inside a modal: the upper half of the inside, at
/// most six lines.
pub open spec fn message_part(inner: Rect) -> Rect {
    Rect {
        height: if inner.height / 2 < 6 {
            inner.height / 2
        } else {
            6
        },
        ..inner
    }
}

/// The line of the buttons inside a modal: one line below the message.
pub open spec fn button_part(inner: Rect) -> Rect {
    Rect {
        y: capped_sum(inner.y as int, message_part(inner).height + 1),
        height: 1,
        ..inner
    }
}

/// Computes the area of a modal in the middle of `area`.
pub fn modal_area(area: Rect) -> (r: Rect)
    ensures
        r == centered(area),
{
    let room_across: u16 = if area.width >= 4 {
        area.width - 4
    } else {
        0
    };
    let room_down: u16 = if area.height >= 2 {
        area.height - 2
    } else {
        0
    };
    let width: u16 = if room_across < 60 {
        room_across
    } else {
        60
    };
    let height: u16 = if room_down < 14 {
        room_down
    } else {
        14
    };
    Rect {
        x: add_capped(area.x, (area.width - width) / 2),
        y: add_capped(area.y, (area.height - height) / 2),
        width,
        height,
    }
}

/// Computes the area of the message inside a modal.
pub fn message_area(inner: Rect) -> (r: Rect)
    ensures
        r == message_part(inner),
{
    let half: u16 = inner.height / 2;
    Rect {
        x: inner.x,
        y: inner.y,
        width: inner.width,
        height: if half < 6 {
            half
        } else {
            6
        },
    }
}

/// Computes the line of the buttons inside a modal.
pub fn button_area(inner: Rect) -> (r: Rect)
    ensures
        r == button_part(inner),
{
    let message: Rect = message_area(inner);
    Rect {
        x: inner.x,
        y: add_capped(inner.y, message.height + 1),
        width: inner.width,
        height: 1,
    }
}

impl ModalView {
    /// Whether the backdrop is drawn dark: while the modal is visible, in
    /// the later half of its appearing and in the earlier half of its
    /// disappearing.
    pub open spec fn backdrop_is_dark(self) -> bool {
        match self.modal_state {
            ModalState::Hidden => false,
            ModalState::Appearing => self.animation_frame > 5,
            ModalState::Visible => true,
            ModalState::Disappearing => self.animation_frame < 5,
        }
    }

    /// The area of the primary button on the line of the buttons.
    pub open spec fn primary_area(self, buttons: Rect) -> Rect {
        Rect {
            x: capped_sum(buttons.x as int, 2),
            y: buttons.y,
            width: capped_sum(label_width(self.primary_label), 4),
            height: 1,
        }
    }

    /// The area of the secondary button on the line of the buttons: three
    /// cells to the right of the primary one.
    pub open spec fn secondary_area(self, buttons: Rect) -> Rect {
        Rect {
            x: capped_sum(
                capped_sum(
                    self.primary_area(buttons).x as int,
                    self.primary_area(buttons).width as int,
                ) as int,
                3,
            ),
            y: buttons.y,
            width: capped_sum(label_width(self.secondary_label), 4),
            height: 1,
        }
    }
}

impl Modal {
    /// Whether the backdrop is to be drawn dark.
    pub fn backdrop_is_dark(&self) -> (r: bool)
        ensures
            r == self@.backdrop_is_dark(),
    {
        match self.modal_state {
            ModalState::Hidden => false,
            ModalState::Appearing => self.animation_frame > 5,
            ModalState::Visible => true,
            ModalState::Disappearing => self.animation_frame < 5,
        }
    }

    /// The area of the primary button on the line of the buttons.
    pub fn primary_button_area(&self, buttons: Rect) -> (r: Rect)
        ensures
            r == self@.primary_area(buttons),
    {
        Rect {
            x: add_capped(buttons.x, 2),
            y: buttons.y,
            width: button_width(self.primary_label.as_str(), 4),
            height: 1,
        }
    }

    /// The area of the secondary button on the line of the buttons.
    pub fn secondary_button_area(&self, buttons: Rect) -> (r: Rect)
        ensures
            r == self@.secondary_area(buttons),
    {
        let primary: Rect = self.primary_button_area(buttons);
        Rect {
            x: add_capped(add_capped(primary.x, primary.width), 3),
            y: buttons.y,
            width: button_width(self.secondary_label.as_str(), 4),
            height: 1,
        }
    }
}

/// The text on a button: the label between blanks where the button has the
/// focus, and between brackets where it has not.
pub open spec fn button_caption(label: Seq<char>, focused: bool) -> Seq<char> {
    if focused {
        " "@ + label + " "@
    } else {
        "[ "@ + label + " ]"@
    }
}

/// Builds the text on a button.
pub fn button_text(label: &str, focused: bool) -> (r: String)
    ensures
        r@ == button_caption(label@, focused),
{
    if focused {
        let mut text: String = " ".to_owned();
        text.append(label);
        text.append(" ");
        text
    } else {
        let mut text: String = "[ ".to_owned();
        text.append(label);
        text.append(" ]");
        text
    }
}

impl ModalView {
    /// Whether the last mouse event was on the line of `area` and within
    /// its width.
    pub open spec fn mouse_over_primary(self, area: Rect) -> bool {
        area.x <= self.last_mouse_x < area.x + area.width && self.last_mouse_y == area.y
    }

    /// Whether the last mouse event was on the line of `area` and on the
    /// secondary button, which starts four cells behind the primary label.
    pub open spec fn mouse_over_secondary(self, area: Rect) -> bool {
        let start = area.x + label_width(self.primary_label) + 4;
        start <= self.last_mouse_x < start + label_width(self.secondary_label) + 2
            && self.last_mouse_y == area.y
    }
}

impl Modal {
    /// Whether the mouse was last seen over the primary button, given the
    /// area of that button.
    pub fn is_mouse_over_primary(&self, button_area: Rect) -> (r: bool)
        ensures
            r == self@.mouse_over_primary(button_area),
    {
        self.last_mouse_x >= button_area.x && (self.last_mouse_x as u32) < button_area.x as u32
            + button_area.width as u32 && self.last_mouse_y == button_area.y
    }

    /// Whether the mouse was last seen over the secondary button, given the
    /// area of the line of buttons.
    pub fn is_mouse_over_secondary(&self, button_area: Rect) -> (r: bool)
        ensures
            r == self@.mouse_over_secondary(button_area),
    {
        let start: u128 = button_area.x as u128 + self.primary_label.as_str().len() as u128 + 4;
        let end: u128 = start + self.secondary_label.as_str().len() as u128 + 2;
        (self.last_mouse_x as u128) >= start && (self.last_mouse_x as u128) < end
            && self.last_mouse_y == button_area.y
    }
}

} // verus!
