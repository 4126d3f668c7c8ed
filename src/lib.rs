use vstd::prelude::*;

pub mod types;
pub mod util;

verus! {

/// What the caller says the prompt is doing; it only picks a colour.
#[non_exhaustive]
#[derive(Debug, Clone, Copy, PartialEq, Eq, Structural)]
pub enum Role {
    Inactive,
    Active,
    Completed,
    Aborted,
}

/// How the current value is judged.
#[non_exhaustive]
#[derive(Debug, Clone, Copy, PartialEq, Eq, Structural)]
pub enum Status {
    Neutral,
    Uncertain,
    Valid,
    Invalid,
}

/// Settings that stay fixed for one prompt session.
#[derive(Debug)]
pub struct Config {
    pub prompt_text: String,
    pub prompt_hint: String,
    pub max_display_width: Option<usize>,
    pub max_length: Option<usize>,
}

/// The editable part of a prompt session.
#[derive(Debug)]
pub struct State<T> {
    pub input: Option<T>,
    pub cursor_position: usize,
    pub role: Role,
    pub status: Status,
}

/// A colour the prompt draws in.
#[derive(Debug, Clone, Copy, PartialEq, Eq, Structural)]
pub enum Color {
    Yellow,
    Grey,
    Green,
    White,
    Red,
}

/// The colour of the prompt text for a status.
pub open spec fn status_color_of(status: Status) -> Color {
    match status {
        Status::Neutral => Color::Yellow,
        Status::Uncertain => Color::Grey,
        Status::Valid => Color::Green,
        Status::Invalid => Color::Red,
    }
}

/// The colour of the value (or hint) for a role.
pub open spec fn role_color_of(role: Role) -> Color {
    match role {
        Role::Inactive => Color::Grey,
        Role::Active => Color::White,
        Role::Completed => Color::Green,
        Role::Aborted => Color::Red,
    }
}

pub fn status_color(status: Status) -> (r: Color)
    ensures
        r == status_color_of(status),
{
    match status {
        Status::Neutral => Color::Yellow,
        Status::Uncertain => Color::Grey,
        Status::Valid => Color::Green,
        Status::Invalid => Color::Red,
    }
}

pub fn role_color(role: Role) -> (r: Color)
    ensures
        r == role_color_of(role),
{
    match role {
        Role::Inactive => Color::Grey,
        Role::Active => Color::White,
        Role::Completed => Color::Green,
        Role::Aborted => Color::Red,
    }
}

/// What to draw for one cycle: clear the line, draw the prompt text in
/// `status_color`, then `visible_text` in `role_color`, and put the cursor in
/// column `cursor_column`.
#[derive(Debug)]
pub struct RenderInstruction {
    pub status_color: Color,
    pub role_color: Color,
    pub visible_text: String,
    pub cursor_column: u16,
}

/// A `RenderInstruction` with its text seen as characters.
pub ghost struct RenderView {
    pub status_color: Color,
    pub role_color: Color,
    pub visible_text: Seq<char>,
    pub cursor_column: nat,
}

impl View for RenderInstruction {
    type V = RenderView;

    open spec fn view(&self) -> RenderView {
        RenderView {
            status_color: self.status_color,
            role_color: self.role_color,
            visible_text: self.visible_text@,
            cursor_column: self.cursor_column as nat,
        }
    }
}

/// The contents of a `State`, with the value seen through its view.
pub ghost struct StateView<V> {
    pub input: Option<V>,
    pub cursor_position: nat,
    pub role: Role,
    pub status: Status,
}

impl<T: View> View for State<T> {
    type V = StateView<T::V>;

    open spec fn view(&self) -> StateView<T::V> {
        StateView {
            input: match self.input {
                Some(t) => Some(t@),
                None => None,
            },
            cursor_position: self.cursor_position as nat,
            role: self.role,
            status: self.status,
        }
    }
}

/// A key press, as far as the prompt tells keys apart.
#[derive(Debug, Clone, Copy, PartialEq, Eq, Structural)]
pub enum Key {
    Char(char),
    Backspace,
    Left,
    Right,
    Enter,
    Other,
}

/// What the terminal reports between two cycles.
#[derive(Debug, Clone, Copy, PartialEq, Eq, Structural)]
pub enum InputEvent {
    Key(Key),
    Resize,
    Other,
}

/// Why a prompt session ends without a value.
#[derive(Debug, Clone, Copy, PartialEq, Eq, Structural)]
pub enum PromptError {
    /// The session ended with no value committed.
    NoInput,
    /// A screen column does not fit the terminal's 16-bit column range.
    OutOfRange,
}

/// What one cycle is run with for `event`: `None` when the event is ignored,
/// `Some(None)` for a redraw with no edit (the terminal was resized), and
/// `Some(Some(k))` for the key `k`.
pub fn cycle_input(event: InputEvent) -> (r: Option<Option<Key>>)
    ensures
        r == match event {
            InputEvent::Key(k) => Some(Some(k)),
            InputEvent::Resize => Some(None::<Key>),
            InputEvent::Other => None::<Option<Key>>,
        },
{
    match event {
        InputEvent::Key(k) => Some(Some(k)),
        InputEvent::Resize => Some(None),
        InputEvent::Other => None,
    }
}

/// The cursor after a move of `step` positions over a value of `len`
/// positions: a move right stops at `len`, a move left stops at 0.
pub open spec fn moved(cursor: int, step: int, len: int) -> int {
    if step > 0 {
        if cursor + step < len {
            cursor + step
        } else {
            len
        }
    } else if cursor + step < 0 {
        0
    } else {
        cursor + step
    }
}

/// A kind of value that a prompt can edit.
pub trait Promptable where Self: Sized {
    /// The length of `input` as it is shown, in terminal columns.
    spec fn length_of(input: Option<Self>) -> nat;

    /// The number of cursor positions past the start of `input`.
    spec fn cursor_limit_of(input: Option<Self>) -> nat;

    /// One cycle: apply `event` (none for a plain redraw) to `state`, then
    /// judge the value again. Returns whether the value was accepted.
    fn render_prompt(config: &Config, event: Option<Key>, state: &mut State<Self>) -> bool;

    /// The length of the value as it is shown, in terminal columns.
    fn get_length(state: &State<Self>) -> (r: usize)
        ensures
            r == Self::length_of(state.input),
    ;

    /// The number of cursor positions past the start of the value.
    fn cursor_limit(state: &State<Self>) -> (r: usize)
        ensures
            r == Self::cursor_limit_of(state.input),
    ;

    /// Judge the value; by default the status is kept as it is.
    fn validate(state: &State<Self>) -> Status {
        state.status
    }

    /// Move the cursor by `i` positions, never past either end of the value.
    fn move_cursor(state: &mut State<Self>, i: i8)
        ensures
            final(state).cursor_position == moved(
                old(state).cursor_position as int,
                i as int,
                Self::cursor_limit_of(old(state).input) as int,
            ),
            i > 0 && old(state).cursor_position + i >= Self::cursor_limit_of(old(state).input)
                ==> final(state).cursor_position == Self::cursor_limit_of(old(state).input),
            i <= 0 && old(state).cursor_position + i <= 0 ==> final(state).cursor_position == 0,
            final(state).input == old(state).input,
            final(state).role == old(state).role,
            final(state).status == old(state).status,
    {
        let len = Self::cursor_limit(state);
        if i > 0 {
            let ahead = state.cursor_position.saturating_add(i as usize);
            state.cursor_position = if ahead < len {
                ahead
            } else {
                len
            };
        } else {
            let back = (0 - (i as i16)) as usize;
            state.cursor_position = state.cursor_position.saturating_sub(back);
        }
    }
}

/// The width available to the prompt on a terminal `terminal_width` columns wide.
pub open spec fn width_limit(max_display_width: Option<usize>, terminal_width: usize) -> usize {
    match max_display_width {
        Some(x) => if x < terminal_width { x } else { terminal_width },
        None => terminal_width,
    }
}

/// Columns the prompt may use: the terminal's width, narrowed to
/// `config.max_display_width` when that is set.
pub fn get_width(config: &Config, terminal_width: usize) -> (r: usize)
    ensures
        r == width_limit(config.max_display_width, terminal_width),
{
    match config.max_display_width {
        Some(x) => if x < terminal_width { x } else { terminal_width },
        None => terminal_width,
    }
}

} // verus!
