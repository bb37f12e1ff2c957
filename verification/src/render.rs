//! How states and dates are shown.
//!
//! Colours are the `colored` crate's. Whether it colours at all, and with
//! which escape sequence, depends on the terminal and its settings: a
//! coloured text is the text itself, or the text between a sequence that
//! sets the colour and the sequence that resets it.

use crate::date::{date_text, Date};
use crate::commands::{is_shown, shown};
use crate::models::{Task, TaskState};
use colored::Colorize;
use vstd::prelude::*;
use vstd::string::*;

verus! {

/// The colour of a state, as red, green and blue: the colder the paler.
pub open spec fn rgb_of(state: TaskState) -> (u8, u8, u8) {
    match state {
        TaskState::Iced => (0xBB, 0xE8, 0xF2),
        TaskState::Melting => (0x94, 0xD7, 0xF2),
        TaskState::Melted => (0x55, 0xB3, 0xD9),
        TaskState::Evaporated => (0x3F, 0x5F, 0x73),
    }
}

/// The colour of a state, as red, green and blue.
pub fn state_rgb(state: TaskState) -> (rgb: (u8, u8, u8))
    ensures
        rgb == rgb_of(state),
{
    match state {
        TaskState::Iced => (0xBB, 0xE8, 0xF2),
        TaskState::Melting => (0x94, 0xD7, 0xF2),
        TaskState::Melted => (0x55, 0xB3, 0xD9),
        TaskState::Evaporated => (0x3F, 0x5F, 0x73),
    }
}

/// The escape character, with which every escape sequence starts.
pub open spec fn escape() -> char {
    '\u{1b}'
}

/// The escape sequence that ends a colour.
pub open spec fn reset_sequence() -> Seq<char> {
    seq![escape(), '[', '0', 'm']
}

/// Whether `shown` is `text` as it comes out of colouring: left as it is,
/// or put between some sequence that sets the colour and the sequence that
/// resets it.
pub open spec fn is_painted(shown: Seq<char>, text: Seq<char>) -> bool {
    shown == text || exists|style: Seq<char>| shown == #[trigger] (style + text) + reset_sequence()
}

/// Calls `Colorize::truecolor` of the `colored` crate and writes the result
/// out with its `Display`. Trusted: a text that holds no escape character
/// comes out plain, or between a style sequence and the reset sequence.
/// Which of the two, and which style sequence, the crate decides by the
/// terminal and its settings; of a text with an escape character in it
/// nothing is claimed, since the crate may then write into the text.
#[verifier::external_body]
fn paint(text: &str, red: u8, green: u8, blue: u8) -> (r: String)
    ensures
        !text@.contains(escape()) ==> is_painted(r@, text@),
{
    text.truecolor(red, green, blue).to_string()
}

/// The name of a state holds no escape character.
proof fn lemma_label_is_plain(state: TaskState)
    ensures
        !state.label().contains(escape()),
{
    reveal_strlit("Iced");
    reveal_strlit("Melting");
    reveal_strlit("Melted");
    reveal_strlit("Evaporated");
    let label = state.label();
    assert forall|i: int| 0 <= i < label.len() implies label[i] != escape() by {
        match state {
            TaskState::Iced => {
                assert(label =~= seq!['I', 'c', 'e', 'd']);
            },
            TaskState::Melting => {
                assert(label =~= seq!['M', 'e', 'l', 't', 'i', 'n', 'g']);
            },
            TaskState::Melted => {
                assert(label =~= seq!['M', 'e', 'l', 't', 'e', 'd']);
            },
            TaskState::Evaporated => {
                assert(label =~= seq!['E', 'v', 'a', 'p', 'o', 'r', 'a', 't', 'e', 'd']);
            },
        }
    }
}

/// The name of a state in the colour of the state: the name itself where
/// nothing is coloured, and else the name between the sequence that sets a
/// colour and the sequence that resets it.
pub fn colored_state(state: TaskState) -> (r: String)
    ensures
        is_painted(r@, state.label()),
{
    let label: String = state.to_string();
    let (red, green, blue) = state_rgb(state);
    proof {
        lemma_label_is_plain(state);
    }
    paint(label.as_str(), red, green, blue)
}

/// A run of `n` spaces.
pub open spec fn spaces(n: nat) -> Seq<char> {
    Seq::new(n, |i: int| ' ')
}

/// The spaces that fill a text of `visible` characters up to `width`.
pub open spec fn padding(visible: nat, width: nat) -> nat {
    if width > visible {
        (width - visible) as nat
    } else {
        0
    }
}

/// Puts `count` spaces behind a text.
pub fn pad_right(text: String, count: usize) -> (r: String)
    ensures
        r@ == text@ + spaces(count as nat),
{
    let ghost start = text@;
    let mut out: String = text;
    let mut i: usize = 0;
    proof {
        assert(out@ =~= start + spaces(0));
    }
    while i < count
        invariant
            i <= count,
            out@ == start + spaces(i as nat),
        decreases count - i,
    {
        out.append(" ");
        proof {
            reveal_strlit(" ");
            assert(" "@ =~= seq![' ']);
            assert(out@ =~= start + spaces((i + 1) as nat));
        }
        i = i + 1;
    }
    out
}

/// The name of a state in the colour of the state, filled up with spaces
/// to `width` columns. The spaces are counted from the name as it is seen,
/// and stand behind whatever the colouring added.
pub fn colored_state_padded(state: TaskState, width: usize) -> (r: String)
    ensures
        r@.len() >= padding(state.label().len(), width as nat),
        r@.subrange(r@.len() - padding(state.label().len(), width as nat), r@.len() as int)
            == spaces(padding(state.label().len(), width as nat)),
{
    let visible: usize = state.label_len();
    let colored: String = colored_state(state);
    let count: usize = if width > visible {
        width - visible
    } else {
        0
    };
    let r: String = pad_right(colored, count);
    proof {
        assert(r@.subrange(r@.len() - count, r@.len() as int) =~= spaces(count as nat));
    }
    r
}

/// A date as text, and `-` for no date.
pub fn date_str(date: Option<Date>) -> (r: String)
    ensures
        r@ == match date {
            Some(d) => date_text(d@),
            None => "-"@,
        },
{
    match date {
        Some(d) => d.to_string(),
        None => "-".to_owned(),
    }
}

/// The number of bytes that a text takes when written out.
pub open spec fn byte_len(text: Seq<char>) -> nat {
    vstd::utf8::encode_utf8(text).len()
}

/// The width of the title column of a list: that of the longest title among
/// the tasks that the list shows, counted in bytes, and at least the four
/// columns of the heading.
pub fn title_width(tasks: &[Task], iced: bool, all: bool) -> (width: usize)
    ensures
        width >= 4,
        forall|i: int|
            0 <= i < tasks@.len() && shown(tasks@[i].state, iced, all) ==> byte_len(
                (#[trigger] tasks@[i]).title@,
            ) <= width,
        width == 4 || exists|i: int|
            0 <= i < tasks@.len() && shown(tasks@[i].state, iced, all) && byte_len(
                (#[trigger] tasks@[i]).title@,
            ) == width,
{
    let mut width: usize = 4;
    let mut i: usize = 0;
    while i < tasks.len()
        invariant
            i <= tasks@.len(),
            width >= 4,
            forall|j: int|
                0 <= j < i && shown(tasks@[j].state, iced, all) ==> byte_len(
                    (#[trigger] tasks@[j]).title@,
                ) <= width,
            width == 4 || exists|j: int|
                0 <= j < i && shown(tasks@[j].state, iced, all) && byte_len(
                    (#[trigger] tasks@[j]).title@,
                ) == width,
        decreases tasks@.len() - i,
    {
        if is_shown(tasks[i].state, iced, all) {
            let len: usize = tasks[i].title.as_str().as_bytes().len();
            if len > width {
                width = len;
            }
        }
        i = i + 1;
    }
    width
}

} // verus!
