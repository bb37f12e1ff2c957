//! Tasks, their states, and the reading of date specifications.

use crate::date::{iso_day_number, Date, DAY_MAX};
use crate::error::Error;
use vstd::prelude::*;
use vstd::string::*;

verus! {

/// The phase of a task's life.
#[derive(Clone, Copy, Debug, PartialEq, Eq, Structural)]
pub enum TaskState {
    /// Frozen: put off until a thaw date, and out of sight until then.
    Iced,
    /// Thawing: the thaw date has come, and nobody has picked the task up
    /// yet. Only the sweep puts a task into this state.
    Melting,
    /// Active: ready to be worked on.
    Melted,
    /// Done: completed. A completion can be taken back.
    Evaporated,
}

impl TaskState {
    /// The name under which a state is shown.
    pub open spec fn label(self) -> Seq<char> {
        match self {
            TaskState::Iced => "Iced"@,
            TaskState::Melting => "Melting"@,
            TaskState::Melted => "Melted"@,
            TaskState::Evaporated => "Evaporated"@,
        }
    }

    /// The length of the name under which a state is shown.
    pub fn label_len(&self) -> (n: usize)
        ensures
            n == self.label().len(),
    {
        proof {
            reveal_strlit("Iced");
            reveal_strlit("Melting");
            reveal_strlit("Melted");
            reveal_strlit("Evaporated");
        }
        match self {
            TaskState::Iced => 4,
            TaskState::Melting => 7,
            TaskState::Melted => 6,
            TaskState::Evaporated => 10,
        }
    }

    /// The name under which a state is shown.
    pub fn to_string(&self) -> (s: String)
        ensures
            s@ == self.label(),
    {
        match self {
            TaskState::Iced => "Iced".to_owned(),
            TaskState::Melting => "Melting".to_owned(),
            TaskState::Melted => "Melted".to_owned(),
            TaskState::Evaporated => "Evaporated".to_owned(),
        }
    }
}

/// A task. No operation of the library takes a task out of a collection.
#[derive(Clone, Debug)]
pub struct Task {
    /// Unique in a collection, and never given out twice.
    pub id: u32,
    pub title: String,
    pub description: String,
    pub state: TaskState,
    /// When an iced task melts.
    pub thaw_date: Option<Date>,
    /// For the reader only: no rule depends on it.
    pub due_date: Option<Date>,
    /// Set once, when the task is made.
    pub created_at: Date,
}

/// What a task is, with dates as day numbers and texts as sequences.
pub struct TaskView {
    pub id: u32,
    pub title: Seq<char>,
    pub description: Seq<char>,
    pub state: TaskState,
    pub thaw_date: Option<int>,
    pub due_date: Option<int>,
    pub created_at: int,
}

/// The day number of a date that may be absent.
pub open spec fn day_of(date: Option<Date>) -> Option<int> {
    match date {
        Some(d) => Some(d@),
        None => None,
    }
}

impl View for Task {
    type V = TaskView;

    open spec fn view(&self) -> TaskView {
        TaskView {
            id: self.id,
            title: self.title@,
            description: self.description@,
            state: self.state,
            thaw_date: day_of(self.thaw_date),
            due_date: day_of(self.due_date),
            created_at: self.created_at@,
        }
    }
}

impl TaskView {
    /// An iced task has a thaw date.
    pub open spec fn well_formed(self) -> bool {
        self.state == TaskState::Iced ==> self.thaw_date is Some
    }
}

/// The views of a sequence of tasks.
pub open spec fn views(tasks: Seq<Task>) -> Seq<TaskView> {
    tasks.map_values(|t: Task| t@)
}

/// Whether `c` is one of the ten decimal digits.
pub open spec fn is_digit(c: char) -> bool {
    '0' <= c <= '9'
}

/// The number that a decimal digit stands for.
pub open spec fn digit_value(c: char) -> int {
    c as int - 48
}

/// Whether `s` holds decimal digits only.
pub open spec fn all_digits(s: Seq<char>) -> bool {
    forall|i: int| 0 <= i < s.len() ==> is_digit(#[trigger] s[i])
}

/// The number that a sequence of decimal digits writes; 0 for none.
pub open spec fn decimal_value(s: Seq<char>) -> nat
    decreases s.len(),
{
    if s.len() == 0 {
        0
    } else {
        (decimal_value(s.drop_last()) * 10 + digit_value(s.last())) as nat
    }
}

/// Whether `s` is a relative specification: one or more digits and then `d`
/// for days or `w` for weeks.
pub open spec fn is_relative(s: Seq<char>) -> bool {
    s.len() >= 2 && all_digits(s.drop_last()) && (s.last() == 'd' || s.last() == 'w')
}

/// The days that a relative specification counts, a week being seven days.
/// `None` for any other text.
pub open spec fn relative_days(s: Seq<char>) -> Option<nat> {
    if is_relative(s) {
        Some(decimal_value(s.drop_last()) * if s.last() == 'w' { 7nat } else { 1nat })
    } else {
        None
    }
}

/// Whether `s` has the shape `YYYY-MM-DD`: ten characters, digits but for the
/// two hyphens.
pub open spec fn is_iso_date(s: Seq<char>) -> bool {
    &&& s.len() == 10
    &&& s[4] == '-'
    &&& s[7] == '-'
    &&& is_digit(s[0])
    &&& is_digit(s[1])
    &&& is_digit(s[2])
    &&& is_digit(s[3])
    &&& is_digit(s[5])
    &&& is_digit(s[6])
    &&& is_digit(s[8])
    &&& is_digit(s[9])
}

/// The day number that a date specification stands for when read on the day
/// `base`, or `None` where it stands for none.
///
/// A relative specification counts days from `base`, and stands for nothing
/// where that leads past the last day that can be held. Any other text has to
/// have the shape `YYYY-MM-DD`, and stands for the date that the calendar
/// reads from it, if it reads one.
pub open spec fn resolve(s: Seq<char>, base: int) -> Option<int> {
    match relative_days(s) {
        Some(n) => if base + n <= DAY_MAX {
            Some(base + n)
        } else {
            None
        },
        None => if is_iso_date(s) {
            iso_day_number(s)
        } else {
            None
        },
    }
}

/// No count of days that matters is as large as this: it is more than the
/// days between the first and the last date that can be held.
const COUNT_CAP: u64 = 200_000_000;

/// A text with a character outside ASCII is no date specification.
proof fn lemma_non_ascii_is_no_spec(s: Seq<char>)
    requires
        !vstd::utf8::is_ascii_chars(s),
    ensures
        relative_days(s) is None,
        !is_iso_date(s),
{
    let i = choose|i: int| 0 <= i < s.len() && !('\0' <= #[trigger] s[i] <= '\u{7f}');
    if relative_days(s) is Some {
        if i < s.len() - 1 {
            assert(is_digit(s.drop_last()[i]));
        }
    }
}

/// Reads the digits before position `end`. `None` where there are none, or
/// where another character stands among them.
fn read_count(spec: &str, end: usize) -> (r: Option<u64>)
    requires
        is_ascii(spec),
        end <= spec@.len(),
    ensures
        r is Some <==> end > 0 && all_digits(spec@.subrange(0, end as int)),
        r matches Some(n) ==> n <= COUNT_CAP && (n < COUNT_CAP ==> n == decimal_value(
            spec@.subrange(0, end as int),
        )) && (n == COUNT_CAP ==> decimal_value(spec@.subrange(0, end as int)) >= COUNT_CAP),
{
    if end == 0 {
        return None;
    }
    let mut acc: u64 = 0;
    let mut i: usize = 0;
    while i < end
        invariant
            is_ascii(spec),
            i <= end <= spec@.len(),
            all_digits(spec@.subrange(0, i as int)),
            acc <= COUNT_CAP,
            acc < COUNT_CAP ==> acc == decimal_value(spec@.subrange(0, i as int)),
            acc == COUNT_CAP ==> decimal_value(spec@.subrange(0, i as int)) >= COUNT_CAP,
        decreases end - i,
    {
        let b: u8 = spec.get_ascii(i);
        let ghost before = spec@.subrange(0, i as int);
        let ghost after = spec@.subrange(0, i + 1);
        proof {
            assert(after.drop_last() =~= before);
            assert(after.last() == spec@[i as int]);
            assert('\0' <= spec@[i as int] <= '\u{7f}');
        }
        if b < 48 || b > 57 {
            proof {
                let whole = spec@.subrange(0, end as int);
                assert(whole[i as int] == spec@[i as int]);
                assert(!is_digit(whole[i as int]));
            }
            return None;
        }
        let digit: u64 = (b - 48) as u64;
        let next: u64 = acc * 10 + digit;
        acc = if next > COUNT_CAP { COUNT_CAP } else { next };
        proof {
            assert(digit == digit_value(spec@[i as int]));
            assert forall|j: int| 0 <= j < after.len() implies is_digit(#[trigger] after[j]) by {
                if j < i {
                    assert(after[j] == before[j]);
                }
            }
        }
        i = i + 1;
    }
    Some(acc)
}

/// Reads a date specification on the day `base`: a count of days (`3d`) or of
/// weeks (`2w`) from `base`, or a date written as `YYYY-MM-DD`.
pub fn parse_date_spec(spec: &str, base: Date) -> (r: Result<Date, Error>)
    ensures
        match r {
            Ok(d) => resolve(spec@, base@) == Some(d@),
            Err(e) => e == Error::InvalidDateSpec && resolve(spec@, base@) is None,
        },
{
    if !spec.is_ascii() {
        proof {
            lemma_non_ascii_is_no_spec(spec@);
        }
        return Err(Error::InvalidDateSpec);
    }
    proof {
        is_ascii_spec_bytes(spec);
        assert(spec.spec_bytes().len() == spec@.len());
    }
    let len: usize = spec.as_bytes().len();
    if len == 0 {
        return Err(Error::InvalidDateSpec);
    }
    let unit: u8 = spec.get_ascii(len - 1);
    proof {
        assert('\0' <= spec@[len - 1] <= '\u{7f}');
        assert(spec@.last() == spec@[len - 1]);
        assert(spec@.drop_last() =~= spec@.subrange(0, len - 1));
    }
    if unit == 100 || unit == 119 {
        match read_count(spec, len - 1) {
            Some(count) => {
                let days: u64 = if unit == 119 { count * 7 } else { count };
                match base.checked_add_days(days) {
                    Some(d) => Ok(d),
                    None => Err(Error::InvalidDateSpec),
                }
            },
            None => Err(Error::InvalidDateSpec),
        }
    } else if len == 10 {
        let b0: u8 = spec.get_ascii(0);
        let b1: u8 = spec.get_ascii(1);
        let b2: u8 = spec.get_ascii(2);
        let b3: u8 = spec.get_ascii(3);
        let b4: u8 = spec.get_ascii(4);
        let b5: u8 = spec.get_ascii(5);
        let b6: u8 = spec.get_ascii(6);
        let b7: u8 = spec.get_ascii(7);
        let b8: u8 = spec.get_ascii(8);
        let b9: u8 = spec.get_ascii(9);
        proof {
            assert forall|i: int| 0 <= i < 10 implies '\0' <= #[trigger] spec@[i] <= '\u{7f}' by {}
        }
        if is_digit_byte(b0) && is_digit_byte(b1) && is_digit_byte(b2) && is_digit_byte(b3) && b4
            == 45 && is_digit_byte(b5) && is_digit_byte(b6) && b7 == 45 && is_digit_byte(b8)
            && is_digit_byte(b9) {
            match Date::parse_iso(spec) {
                Ok(d) => Ok(d),
                Err(_) => Err(Error::InvalidDateSpec),
            }
        } else {
            Err(Error::InvalidDateSpec)
        }
    } else {
        Err(Error::InvalidDateSpec)
    }
}

/// Whether a byte is the ASCII code of a decimal digit.
fn is_digit_byte(b: u8) -> (r: bool)
    ensures
        r == (48 <= b <= 57),
{
    48 <= b && b <= 57
}

/// Digits followed by `d` stand for the day that many days after `base`, and
/// digits followed by `w` for the day that many weeks after it, as long as
/// that day can be held; where it cannot, the text stands for no date.
pub proof fn relative_spec_counts_from_base(digits: Seq<char>, base: int)
    requires
        digits.len() > 0,
        all_digits(digits),
    ensures
        resolve(digits.push('d'), base) == if base + decimal_value(digits) <= DAY_MAX {
            Some(base + decimal_value(digits))
        } else {
            None
        },
        resolve(digits.push('w'), base) == if base + 7 * decimal_value(digits) <= DAY_MAX {
            Some(base + 7 * decimal_value(digits))
        } else {
            None
        },
{
    assert(digits.push('d').drop_last() =~= digits);
    assert(digits.push('w').drop_last() =~= digits);
}

/// A text that is neither digits followed by `d` or `w` nor of the shape
/// `YYYY-MM-DD` stands for no date, on whatever day it is read.
pub proof fn unmatched_spec_is_refused(s: Seq<char>, base: int)
    requires
        !is_relative(s),
        !is_iso_date(s),
    ensures
        resolve(s, base) is None,
{
}

/// A text of the shape `YYYY-MM-DD` stands for the date that the calendar
/// reads from it, whatever the day it is read on.
pub proof fn iso_spec_does_not_depend_on_base(s: Seq<char>, base: int)
    requires
        is_iso_date(s),
    ensures
        resolve(s, base) == iso_day_number(s),
{
    assert(s.last() == s[9]);
}

} // verus!
