//! Character-indexed editing of a text value and the scrolling window that
//! shows it.
use vstd::prelude::*;

use crate::{Config, State};

verus! {

/// Relies on std's `String::push`: the character is appended at the end.
pub assume_specification[ String::push ](string: &mut String, ch: char)
    ensures
        final(string)@ == old(string)@.push(ch),
;

/// The marker drawn where the window cuts text off.
pub const ELLIPSIS: char = '\u{2026}';

/// The smallest of `a` and `b`.
pub open spec fn min_of(a: int, b: int) -> int {
    if a < b {
        a
    } else {
        b
    }
}

/// The first `count` characters of `s`, or all of `s` when it is shorter.
pub open spec fn prefix_of(s: Seq<char>, count: int) -> Seq<char> {
    s.take(min_of(count, s.len() as int))
}

/// What follows the first `count` characters of `s` (empty when `s` is shorter).
pub open spec fn suffix_of(s: Seq<char>, count: int) -> Seq<char> {
    s.skip(min_of(count, s.len() as int))
}

/// The text a value holds, if any.
pub open spec fn text_of(input: Option<String>) -> Option<Seq<char>> {
    match input {
        Some(s) => Some(s@),
        None => None,
    }
}

/// The number of characters of a value; none for an untouched one.
pub open spec fn char_count(input: Option<Seq<char>>) -> nat {
    match input {
        Some(s) => s.len(),
        None => 0,
    }
}

/// The value after typing `c` at `cursor`: unchanged when it already holds
/// `max_length` characters (an untouched value holds none), else `c` placed
/// before the character at `cursor` (at the end when `cursor` is past it).
pub open spec fn inserted(
    input: Option<Seq<char>>,
    cursor: int,
    max_length: Option<usize>,
    c: char,
) -> Option<Seq<char>> {
    if max_length is Some && max_length->0 == char_count(input) {
        input
    } else {
        match input {
            Some(s) => Some(prefix_of(s, cursor) + seq![c] + suffix_of(s, cursor)),
            None => Some(seq![c]),
        }
    }
}

/// The value after deleting the character before `cursor`; a value left
/// empty becomes untouched again.
pub open spec fn removed(input: Option<Seq<char>>, cursor: int) -> Option<Seq<char>> {
    match input {
        Some(s) => {
            let r = prefix_of(s, if cursor > 0 { cursor - 1 } else { 0 }) + suffix_of(s, cursor);
            if r.len() == 0 {
                None
            } else {
                Some(r)
            }
        },
        None => None,
    }
}

/// First shown character of the window of `width` characters that keeps the
/// cursor in view.
pub open spec fn window_start(width: int, cursor: int) -> int {
    if cursor > width {
        cursor - width
    } else {
        0
    }
}

/// Whether the window draws ellipsis markers at all.
pub open spec fn shows_ellipsis(width: int) -> bool {
    width > 3
}

/// Whether the window of `s` ends with a marker for text cut off on the right.
pub open spec fn cuts_tail(s: Seq<char>, width: int, cursor: int) -> bool {
    &&& s.len() >= width
    &&& window_start(width, cursor) + width < s.len()
    &&& shows_ellipsis(width)
}

/// The visible part of `s` in `width` characters with the cursor at `cursor`.
/// Text that fits is shown whole. Otherwise the last `width` characters up to
/// the cursor are shown (the first `width` while the cursor is among them);
/// when the window is wider than three characters, the first shown character
/// becomes a marker if text is hidden on the left, and a marker is added after
/// the last one if text is hidden on the right.
pub open spec fn window(s: Seq<char>, width: int, cursor: int) -> Seq<char> {
    if s.len() >= width {
        let start = window_start(width, cursor);
        let shown = s.subrange(min_of(start, s.len() as int), min_of(start + width, s.len() as int));
        let head = if start > 0 && shows_ellipsis(width) && shown.len() > 0 {
            seq![ELLIPSIS] + shown.drop_first()
        } else {
            shown
        };
        if cuts_tail(s, width, cursor) {
            head.push(ELLIPSIS)
        } else {
            head
        }
    } else {
        s
    }
}

/// Get count number of characters from the beginning of the string
pub fn get_input_prefix(string: &str, count: usize) -> (r: String)
    ensures
        r@ == prefix_of(string@, count as int),
{
    let len = string.unicode_len();
    let n = if count < len {
        count
    } else {
        len
    };
    String::from_str(string.substring_char(0, n))
}

/// Get the characters of the string that follow its first count characters
pub fn get_input_suffix(string: &str, count: usize) -> (r: String)
    ensures
        r@ == suffix_of(string@, count as int),
{
    let len = string.unicode_len();
    let n = if count < len {
        count
    } else {
        len
    };
    String::from_str(string.substring_char(n, len))
}

/// Insert the given character into the current prompt input, at the cursor
pub fn insert_char_into_input(state: &mut State<String>, config: &Config, c: char)
    ensures
        text_of(final(state).input) == inserted(
            text_of(old(state).input),
            old(state).cursor_position as int,
            config.max_length,
            c,
        ),
        final(state).cursor_position == old(state).cursor_position,
        final(state).role == old(state).role,
        final(state).status == old(state).status,
{
    if let Some(x) = config.max_length {
        let count = match &state.input {
            Some(i) => i.as_str().unicode_len(),
            None => 0,
        };
        if count == x {
            return ;
        }
    }
    let result = match &state.input {
        Some(input) => {
            let mut result = get_input_prefix(input.as_str(), state.cursor_position);
            result.push(c);
            let rest = get_input_suffix(input.as_str(), state.cursor_position);
            result.append(rest.as_str());
            result
        },
        None => {
            let mut result = String::new();
            result.push(c);
            result
        },
    };
    state.input = Some(result);
}

/// Remove the character before the cursor from the prompt input
pub fn remove_char_from_input(state: &mut State<String>, _config: &Config)
    ensures
        text_of(final(state).input) == removed(
            text_of(old(state).input),
            old(state).cursor_position as int,
        ),
        final(state).cursor_position == old(state).cursor_position,
        final(state).role == old(state).role,
        final(state).status == old(state).status,
{
    if let Some(input) = &state.input {
        let cut = if state.cursor_position > 0 {
            state.cursor_position - 1
        } else {
            0
        };
        let mut result = get_input_prefix(input.as_str(), cut);
        let rest = get_input_suffix(input.as_str(), state.cursor_position);
        result.append(rest.as_str());
        state.input = if result.as_str().unicode_len() == 0 {
            None
        } else {
            Some(result)
        };
    }
}

/// Truncate string to given width, scrolling to keep the cursor in view.
/// A marker cut off on the right comes after the `width` shown characters, so
/// the result is then one character wider than `width`.
pub fn truncate(s: String, width: usize, cursor_position: usize) -> (r: String)
    ensures
        r@ == window(s@, width as int, cursor_position as int),
        cuts_tail(s@, width as int, cursor_position as int) ==> r@.len() == width + 1 && r@.last()
            == ELLIPSIS,
        !cuts_tail(s@, width as int, cursor_position as int) ==> r@.len() <= width,
{
    let len = s.as_str().unicode_len();
    if len >= width {
        let start = if cursor_position > width {
            cursor_position - width
        } else {
            0
        };
        let end = if cursor_position > width {
            cursor_position
        } else {
            width
        };
        let display_ellipsis = width > 3;
        let from = if start < len {
            start
        } else {
            len
        };
        let to = if end < len {
            end
        } else {
            len
        };
        let shown = s.as_str().substring_char(from, to);
        let mut result = String::new();
        if start > 0 && display_ellipsis && from < to {
            result.push(ELLIPSIS);
            result.append(shown.substring_char(1, to - from));
        } else {
            result.append(shown);
        }
        if end < len && display_ellipsis {
            result.push(ELLIPSIS);
        }
        result
    } else {
        s
    }
}

/// Typing at a cursor within the text places the character there: what
/// stood before the cursor stays before it, what stood after stays after it,
/// and the text grows by one (unless a length limit is already reached).
pub proof fn lemma_insert_at_cursor(s: Seq<char>, cursor: int, max_length: Option<usize>, c: char)
    requires
        0 <= cursor <= s.len(),
        !(max_length is Some && max_length->0 == s.len()),
    ensures
        inserted(Some(s), cursor, max_length, c) is Some,
        ({
            let r = inserted(Some(s), cursor, max_length, c)->0;
            &&& r.len() == s.len() + 1
            &&& r.take(cursor) == s.take(cursor)
            &&& r[cursor] == c
            &&& r.skip(cursor + 1) == s.skip(cursor)
        }),
{
    let r = inserted(Some(s), cursor, max_length, c)->0;
    assert(r.take(cursor) =~= s.take(cursor));
    assert(r.skip(cursor + 1) =~= s.skip(cursor));
}

/// Once the value holds `max_length` characters, typing leaves it as it is;
/// an untouched value counts as holding none.
pub proof fn lemma_insert_at_limit(
    input: Option<Seq<char>>,
    cursor: int,
    max_length: usize,
    c: char,
)
    requires
        char_count(input) == max_length,
    ensures
        inserted(input, cursor, Some(max_length), c) == input,
{
}

/// Typing never takes a value past its length limit.
pub proof fn lemma_insert_within_limit(
    input: Option<Seq<char>>,
    cursor: int,
    max_length: usize,
    c: char,
)
    requires
        0 <= cursor,
        char_count(input) <= max_length,
    ensures
        char_count(inserted(input, cursor, Some(max_length), c)) <= max_length,
{
    if let Some(s) = input {
        if max_length != s.len() {
            let r = prefix_of(s, cursor) + seq![c] + suffix_of(s, cursor);
            assert(r.len() == s.len() + 1);
        }
    }
}

/// Deleting at a cursor inside the text removes exactly the character just
/// before it; at the start of the text nothing is removed.
pub proof fn lemma_remove_before_cursor(s: Seq<char>, cursor: int)
    requires
        0 <= cursor <= s.len(),
        s.len() > 0,
    ensures
        cursor == 0 ==> removed(Some(s), cursor) == Some(s),
        cursor > 0 ==> char_count(removed(Some(s), cursor)) == s.len() - 1,
        cursor > 0 && s.len() > 1 ==> removed(Some(s), cursor) == Some(s.remove(cursor - 1)),
{
    if cursor == 0 {
        assert(prefix_of(s, 0) + suffix_of(s, 0) =~= s);
    } else {
        assert(prefix_of(s, cursor - 1) + suffix_of(s, cursor) =~= s.remove(cursor - 1));
    }
}

/// Deleting the only character leaves the value untouched (no text at all),
/// not an empty text.
pub proof fn lemma_remove_last_char(s: Seq<char>)
    requires
        s.len() == 1,
    ensures
        removed(Some(s), 1) is None,
{
    assert((prefix_of(s, 0) + suffix_of(s, 1)).len() == 0);
}

} // verus!
