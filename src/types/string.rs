//! Text values: how a prompt edits, judges and draws a `String`.
use vstd::prelude::*;

use crate::util::{char_count, inserted, min_of, prefix_of, removed, suffix_of, text_of, window};
use crate::{
    get_width, moved, role_color, role_color_of, status_color, status_color_of, width_limit, Config,
    Key, PromptError, Promptable, RenderInstruction, RenderView, State, StateView, Status,
};

pub use crate::util::{get_input_prefix, get_input_suffix, insert_char_into_input, remove_char_from_input};

verus! {

/// The columns a terminal gives to the text `s`.
pub uninterp spec fn display_width(s: Seq<char>) -> usize;

/// Relies on unicode_width's `UnicodeWidthStr::width` for `str`: the number of
/// columns the text takes on a terminal, which for empty text is zero.
#[verifier::external_body]
fn text_width(s: &str) -> (r: usize)
    ensures
        r == display_width(s@),
        s@.len() == 0 ==> r == 0,
{
    unicode_width::UnicodeWidthStr::width(s)
}

pub open spec fn is_ascii_digit(c: char) -> bool {
    '0' <= c && c <= '9'
}

/// Whether some character of `s` is an ASCII digit.
pub open spec fn has_digit(s: Seq<char>) -> bool {
    exists|i: int| 0 <= i < s.len() && is_ascii_digit(#[trigger] s[i])
}

/// How a value is judged: an untouched value is uncertain, text with a digit
/// in it is invalid, any other text is valid.
pub open spec fn status_of(input: Option<Seq<char>>) -> Status {
    match input {
        Some(s) => if has_digit(s) {
            Status::Invalid
        } else {
            Status::Valid
        },
        None => Status::Uncertain,
    }
}

/// The state after the edit that `key` asks for, before it is judged again.
pub open spec fn key_applied(
    max_length: Option<usize>,
    s: StateView<Seq<char>>,
    key: Key,
) -> StateView<Seq<char>> {
    let cursor = s.cursor_position as int;
    match key {
        Key::Char(c) => {
            let input = inserted(s.input, cursor, max_length, c);
            StateView {
                input,
                cursor_position: moved(cursor, 1, char_count(input) as int) as nat,
                ..s
            }
        },
        Key::Backspace => {
            let input = removed(s.input, cursor);
            StateView {
                input,
                cursor_position: moved(cursor, -1, char_count(input) as int) as nat,
                ..s
            }
        },
        Key::Left => StateView {
            cursor_position: moved(cursor, -1, char_count(s.input) as int) as nat,
            ..s
        },
        Key::Right => StateView {
            cursor_position: moved(cursor, 1, char_count(s.input) as int) as nat,
            ..s
        },
        _ => s,
    }
}

/// The state after one cycle: the edit for `event`, if any, then a fresh status.
pub open spec fn cycled(
    max_length: Option<usize>,
    s: StateView<Seq<char>>,
    event: Option<Key>,
) -> StateView<Seq<char>> {
    let t = match event {
        Some(k) => key_applied(max_length, s, k),
        None => s,
    };
    StateView { status: status_of(t.input), ..t }
}

/// Whether a cycle with `event` accepts the value: Enter on a value that is
/// there and was last judged valid or neutral.
pub open spec fn accepts(s: StateView<Seq<char>>, event: Option<Key>) -> bool {
    &&& event == Some(Key::Enter)
    &&& (s.status == Status::Valid || s.status == Status::Neutral)
    &&& s.input is Some
}

/// The cursor stays within the value: at most one position past its last character.
pub open spec fn cursor_in_bounds(s: StateView<Seq<char>>) -> bool {
    s.cursor_position <= char_count(s.input)
}

impl Promptable for String {
    open spec fn length_of(input: Option<String>) -> nat {
        match input {
            Some(s) => display_width(s@) as nat,
            None => 0,
        }
    }

    open spec fn cursor_limit_of(input: Option<String>) -> nat {
        char_count(text_of(input))
    }

    fn render_prompt(config: &Config, event: Option<Key>, state: &mut State<String>) -> (done:
        bool)
        ensures
            final(state)@ == cycled(config.max_length, old(state)@, event),
            done == accepts(old(state)@, event),
    {
        let mut done = false;
        if let Some(key) = event {
            match key {
                Key::Char(c) => {
                    insert_char_into_input(state, config, c);
                    Self::move_cursor(state, 1);
                },
                Key::Backspace => {
                    remove_char_from_input(state, config);
                    Self::move_cursor(state, -1);
                },
                Key::Left => {
                    Self::move_cursor(state, -1);
                },
                Key::Right => {
                    Self::move_cursor(state, 1);
                },
                Key::Enter => {
                    let acceptable = match state.status {
                        Status::Valid | Status::Neutral => true,
                        _ => false,
                    };
                    done = acceptable && state.input.is_some();
                },
                Key::Other => {},
            }
        }
        state.status = Self::validate(state);
        done
    }

    fn get_length(state: &State<String>) -> (r: usize) {
        match &state.input {
            Some(s) => text_width(s.as_str()),
            None => 0,
        }
    }

    fn cursor_limit(state: &State<String>) -> (r: usize) {
        match &state.input {
            Some(s) => s.as_str().unicode_len(),
            None => 0,
        }
    }

    fn validate(state: &State<String>) -> (r: Status)
        ensures
            r == status_of(text_of(state.input)),
    {
        match &state.input {
            Some(input) => {
                let text = input.as_str();
                let n = text.unicode_len();
                let mut idx: usize = 0;
                while idx < n
                    invariant
                        n == text@.len(),
                        text_of(state.input) == Some(text@),
                        idx <= n,
                        forall|j: int| 0 <= j < idx ==> !is_ascii_digit(#[trigger] text@[j]),
                    decreases n - idx,
                {
                    let c = text.get_char(idx);
                    if '0' <= c && c <= '9' {
                        assert(is_ascii_digit(text@[idx as int]));
                        return Status::Invalid;
                    }
                    idx = idx + 1;
                }
                Status::Valid
            },
            None => Status::Uncertain,
        }
    }
}

/// Truncate string to given width, scrolling to keep the cursor in view; the
/// width comes back with it, as the bound for the cursor's column.
pub fn truncate(s: String, width: usize, cursor_position: usize) -> (r: (String, usize))
    ensures
        r.0@ == window(s@, width as int, cursor_position as int),
        r.1 == width,
{
    (crate::util::truncate(s, width, cursor_position), width)
}

/// Columns left for the value once the prompt text takes its own.
pub open spec fn text_area(full_width: int, prompt_width: int) -> int {
    if full_width > prompt_width {
        full_width - prompt_width
    } else {
        0
    }
}

/// The screen column of the cursor, which never passes the usable width.
pub open spec fn screen_column(prompt_width: int, cursor_column: int, total_width: int) -> int {
    min_of(prompt_width + cursor_column, total_width)
}

/// What one cycle draws for `s`, with a prompt text `prompt_width` columns
/// wide on a terminal `terminal_width` columns wide; `None` when the cursor's
/// column does not fit in 16 bits.
pub open spec fn frame_of(
    config: &Config,
    s: StateView<Seq<char>>,
    prompt_width: int,
    terminal_width: usize,
) -> Option<RenderView> {
    let full = width_limit(config.max_display_width, terminal_width) as int;
    let width = text_area(full, prompt_width);
    let cursor = s.cursor_position as int;
    let column = screen_column(prompt_width, min_of(cursor, width), full);
    if column > u16::MAX {
        None
    } else {
        Some(
            RenderView {
                status_color: status_color_of(s.status),
                role_color: role_color_of(s.role),
                visible_text: match s.input {
                    Some(text) => window(text, width, cursor),
                    None => window(config.prompt_hint@, width, cursor),
                },
                cursor_column: column as nat,
            },
        )
    }
}

/// What to draw for `state` when the prompt text takes `prompt_width` columns.
pub fn layout(config: &Config, state: &State<String>, prompt_width: usize, terminal_width: usize) -> (r:
    Result<RenderInstruction, PromptError>)
    ensures
        match r {
            Ok(frame) => frame_of(config, state@, prompt_width as int, terminal_width) == Some(
                frame@,
            ),
            Err(e) => frame_of(config, state@, prompt_width as int, terminal_width) is None && e
                == PromptError::OutOfRange,
        },
{
    let full_width = get_width(config, terminal_width);
    let width = if full_width > prompt_width {
        full_width - prompt_width
    } else {
        0
    };
    let (visible_text, cursor_move) = match &state.input {
        Some(s) => truncate(s.clone(), width, state.cursor_position),
        None => truncate(config.prompt_hint.clone(), width, state.cursor_position),
    };
    let cursor_column = if state.cursor_position < cursor_move {
        state.cursor_position
    } else {
        cursor_move
    };
    let ahead = prompt_width + cursor_column;
    let column = if ahead < full_width {
        ahead
    } else {
        full_width
    };
    if column > 65535 {
        Err(PromptError::OutOfRange)
    } else {
        Ok(
            RenderInstruction {
                status_color: status_color(state.status),
                role_color: role_color(state.role),
                visible_text,
                cursor_column: column as u16,
            },
        )
    }
}

/// What to draw for `state` on a terminal `terminal_width` columns wide.
pub fn render_instruction(config: &Config, state: &State<String>, terminal_width: usize) -> (r:
    Result<RenderInstruction, PromptError>)
    ensures
        match r {
            Ok(frame) => frame_of(
                config,
                state@,
                display_width(config.prompt_text@) as int,
                terminal_width,
            ) == Some(frame@),
            Err(e) => frame_of(
                config,
                state@,
                display_width(config.prompt_text@) as int,
                terminal_width,
            ) is None && e == PromptError::OutOfRange,
        },
{
    let prompt_width = text_width(config.prompt_text.as_str());
    layout(config, state, prompt_width, terminal_width)
}

/// The value a session ends with: the text, or an error when there is none.
pub fn finish(state: State<String>) -> (r: Result<String, PromptError>)
    ensures
        match state.input {
            Some(s) => r is Ok && r->Ok_0@ == s@,
            None => r == Err::<String, PromptError>(PromptError::NoInput),
        },
{
    match state.input {
        Some(s) => Ok(s),
        None => Err(PromptError::NoInput),
    }
}

/// The status depends on the text alone: two states with the same text are
/// judged alike, whatever their cursor, role or former status.
pub proof fn lemma_status_depends_on_text(a: State<String>, b: State<String>)
    requires
        text_of(a.input) == text_of(b.input),
    ensures
        status_of(text_of(a.input)) == status_of(text_of(b.input)),
{
}

/// Enter on an invalid value accepts nothing and edits nothing: the cycle is
/// a plain redraw, and leaves a state whose status is current as it was.
pub proof fn lemma_enter_when_invalid(max_length: Option<usize>, s: StateView<Seq<char>>)
    requires
        s.status == Status::Invalid,
    ensures
        !accepts(s, Some(Key::Enter)),
        cycled(max_length, s, Some(Key::Enter)) == cycled(max_length, s, None),
        s.status == status_of(s.input) ==> cycled(max_length, s, Some(Key::Enter)) == s,
{
}

/// Every cycle keeps the cursor within the value.
pub proof fn lemma_cycle_keeps_cursor_in_bounds(
    max_length: Option<usize>,
    s: StateView<Seq<char>>,
    event: Option<Key>,
)
    requires
        cursor_in_bounds(s),
    ensures
        cursor_in_bounds(cycled(max_length, s, event)),
{
    let cursor = s.cursor_position as int;
    if let Some(Key::Backspace) = event {
        if let Some(text) = s.input {
            if cursor > 0 {
                assert((prefix_of(text, cursor - 1) + suffix_of(text, cursor)).len() == text.len() - 1);
            }
        }
    }
}

} // verus!
