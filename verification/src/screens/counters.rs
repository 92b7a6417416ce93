use vstd::prelude::*;
use vstd::string::StrSliceExecFns;

use crate::counter::CounterEditAction;

verus! {

/// Whether `c` is a decimal digit.
pub open spec fn is_digit_char(c: char) -> bool {
    48 <= c as int <= 57
}

/// Numeric value of the decimal digit `c`.
pub open spec fn digit_val(c: char) -> int {
    c as int - 48
}

/// Whether every character of `s` is a decimal digit.
pub open spec fn all_digits(s: Seq<char>) -> bool {
    forall|i: int| 0 <= i < s.len() ==> is_digit_char(#[trigger] s[i])
}

/// Numeric value of a string of decimal digits, most significant first.
pub open spec fn digits_val(s: Seq<char>) -> int
    decreases s.len(),
{
    if s.len() == 0 {
        0
    } else {
        digits_val(s.drop_last()) * 10 + digit_val(s.last())
    }
}

/// The digit part of an integer literal: what follows an optional sign.
pub open spec fn int_str_body(s: Seq<char>) -> Seq<char> {
    if s.len() > 0 && (s[0] == '+' || s[0] == '-') {
        s.subrange(1, s.len() as int)
    } else {
        s
    }
}

/// The sign of an integer literal.
pub open spec fn int_str_sign(s: Seq<char>) -> int {
    if s.len() > 0 && s[0] == '-' {
        -1
    } else {
        1
    }
}

/// Whether `s` is an integer literal: an optional sign followed by at
/// least one decimal digit and nothing else.
pub open spec fn is_valid_int_str(s: Seq<char>) -> bool {
    &&& int_str_body(s).len() > 0
    &&& all_digits(int_str_body(s))
}

/// Numeric value of an integer literal.
pub open spec fn int_str_val(s: Seq<char>) -> int {
    int_str_sign(s) * digits_val(int_str_body(s))
}

/// A digit string has a non-negative value.
proof fn lemma_digits_val_nonneg(s: Seq<char>)
    requires
        all_digits(s),
    ensures
        digits_val(s) >= 0,
    decreases s.len(),
{
    if s.len() > 0 {
        assert(all_digits(s.drop_last()));
        lemma_digits_val_nonneg(s.drop_last());
    }
}

/// Extending a digit string never shrinks its value.
proof fn lemma_digits_val_prefix_le(s: Seq<char>, k: int)
    requires
        all_digits(s),
        0 <= k <= s.len(),
    ensures
        digits_val(s.subrange(0, k)) <= digits_val(s),
    decreases s.len() - k,
{
    if k == s.len() {
        assert(s.subrange(0, k) =~= s);
    } else {
        let p = s.subrange(0, k);
        let q = s.subrange(0, k + 1);
        assert(q.drop_last() =~= p);
        assert(all_digits(p));
        lemma_digits_val_nonneg(p);
        assert(digits_val(q) == digits_val(p) * 10 + digit_val(q.last()));
        lemma_digits_val_prefix_le(s, k + 1);
    }
}

/// Parses an integer literal: an optional sign followed by decimal digits.
/// Yields the literal's value exactly when the literal is well formed and
/// its value fits a 32-bit signed integer, and nothing otherwise.
pub fn parse_i32(s: &str) -> (r: Option<i32>)
    ensures
        match r {
            Some(v) => {
                &&& is_valid_int_str(s@)
                &&& i32::MIN <= int_str_val(s@) <= i32::MAX
                &&& v == int_str_val(s@)
            },
            None => !(is_valid_int_str(s@) && i32::MIN <= int_str_val(s@) <= i32::MAX),
        },
{
    let n = s.unicode_len();
    if n == 0 {
        return None;
    }
    let first = s.get_char(0);
    let neg = first == '-';
    let has_sign = neg || first == '+';
    let start: usize = if has_sign {
        1
    } else {
        0
    };
    proof {
        if has_sign {
            assert(int_str_body(s@) =~= s@.subrange(start as int, n as int));
        } else {
            assert(int_str_body(s@) =~= s@.subrange(start as int, n as int));
        }
    }
    if start == n {
        return None;
    }
    let ghost body = s@.subrange(start as int, n as int);
    let mut i: usize = start;
    let mut acc: u64 = 0;
    while i < n
        invariant
            start <= i <= n,
            n == s@.len(),
            body == s@.subrange(start as int, n as int),
            int_str_body(s@) == body,
            all_digits(s@.subrange(start as int, i as int)),
            acc == digits_val(s@.subrange(start as int, i as int)),
            acc <= 0x8000_0000u64,
        decreases n - i,
    {
        let c = s.get_char(i);
        let u = c as u32;
        if u < 48 || u > 57 {
            proof {
                assert(body[i - start] == s@[i as int]);
                assert(!is_digit_char(body[i - start]));
                assert(!all_digits(body));
            }
            return None;
        }
        let d = (u - 48) as u64;
        let next = acc * 10 + d;
        proof {
            let p = s@.subrange(start as int, i as int);
            let q = s@.subrange(start as int, i + 1);
            assert(q.drop_last() =~= p);
            assert(q.last() == s@[i as int]);
            assert(digits_val(q) == digits_val(p) * 10 + digit_val(s@[i as int]));
        }
        if next > 0x8000_0000u64 {
            proof {
                if all_digits(body) {
                    let q = s@.subrange(start as int, i + 1);
                    assert(q =~= body.subrange(0, i + 1 - start));
                    lemma_digits_val_prefix_le(body, i + 1 - start);
                    lemma_digits_val_nonneg(body);
                    assert(digits_val(body) > 0x8000_0000);
                }
            }
            return None;
        }
        acc = next;
        i += 1;
    }
    proof {
        assert(s@.subrange(start as int, n as int) == body);
        assert(all_digits(body));
        assert(acc == digits_val(body));
        assert(is_valid_int_str(s@));
    }
    if neg {
        proof {
            assert(int_str_sign(s@) == -1);
            assert(int_str_val(s@) == -digits_val(body));
        }
        if acc == 0x8000_0000u64 {
            Some(i32::MIN)
        } else {
            Some(-(acc as i32))
        }
    } else {
        proof {
            assert(int_str_sign(s@) == 1);
            assert(int_str_val(s@) == digits_val(body));
        }
        if acc > 0x7FFF_FFFFu64 {
            return None;
        }
        Some(acc as i32)
    }
}

/// Messages of the counters screen. The numeric edits carry the raw text
/// the user typed; the selection message carries the chosen hunt's
/// primary key.
#[derive(Debug, Clone, PartialEq, Eq)]
pub enum CountersMessage {
    Increment(usize),
    Decrement(usize),
    StartEditCounter(usize),
    StopEditCounter,
    ShinyFound(usize),
    SelectHunt(i32),
    UnsetHunt,
    EditIncrement(String),
    EditCount(String),
}

/// What the counters screen asks the application state to do.
#[derive(Debug, Clone, Copy, PartialEq, Eq)]
pub enum CountersAction {
    Nothing,
    Increment(usize),
    Decrement(usize),
    StartEditCounter(usize),
    EditCounter(CounterEditAction),
    StopEditCounter,
    ShinyFound(usize),
}

/// The action the counters screen yields for `message`: a failed numeric
/// parse is swallowed as no action at all.
pub open spec fn counters_action_for(message: CountersMessage) -> CountersAction {
    match message {
        CountersMessage::Increment(id) => CountersAction::Increment(id),
        CountersMessage::Decrement(id) => CountersAction::Decrement(id),
        CountersMessage::StartEditCounter(id) => CountersAction::StartEditCounter(id),
        CountersMessage::StopEditCounter => CountersAction::StopEditCounter,
        CountersMessage::ShinyFound(_) => CountersAction::Nothing,
        CountersMessage::SelectHunt(id) => CountersAction::EditCounter(
            CounterEditAction::SetHunt(id),
        ),
        CountersMessage::UnsetHunt => CountersAction::EditCounter(CounterEditAction::UnsetHunt),
        CountersMessage::EditIncrement(text) => {
            if is_valid_int_str(text@) && i32::MIN <= int_str_val(text@) <= i32::MAX {
                CountersAction::EditCounter(
                    CounterEditAction::SetIncrement(int_str_val(text@) as i32),
                )
            } else {
                CountersAction::Nothing
            }
        },
        CountersMessage::EditCount(text) => {
            if is_valid_int_str(text@) && i32::MIN <= int_str_val(text@) <= i32::MAX {
                CountersAction::EditCounter(CounterEditAction::SetCount(int_str_val(text@) as i32))
            } else {
                CountersAction::Nothing
            }
        },
    }
}

/// The counters screen; it holds no state of its own.
#[derive(Debug, Clone, Copy, PartialEq, Eq)]
pub struct Counters {}

impl Counters {
    pub fn new() -> (r: Self)
        ensures
            r == (Counters {  }),
    {
        Counters {  }
    }

    /// Turns a screen message into the action the application state should
    /// take; see [`counters_action_for`].
    pub fn update(&mut self, message: CountersMessage) -> (r: CountersAction)
        ensures
            r == counters_action_for(message),
    {
        match message {
            CountersMessage::Increment(id) => CountersAction::Increment(id),
            CountersMessage::Decrement(id) => CountersAction::Decrement(id),
            CountersMessage::StartEditCounter(id) => CountersAction::StartEditCounter(id),
            CountersMessage::StopEditCounter => CountersAction::StopEditCounter,
            CountersMessage::ShinyFound(_) => CountersAction::Nothing,
            CountersMessage::SelectHunt(id) => CountersAction::EditCounter(
                CounterEditAction::SetHunt(id),
            ),
            CountersMessage::UnsetHunt => CountersAction::EditCounter(CounterEditAction::UnsetHunt),
            CountersMessage::EditIncrement(text) => match parse_i32(text.as_str()) {
                Some(v) => CountersAction::EditCounter(CounterEditAction::SetIncrement(v)),
                None => CountersAction::Nothing,
            },
            CountersMessage::EditCount(text) => match parse_i32(text.as_str()) {
                Some(v) => CountersAction::EditCounter(CounterEditAction::SetCount(v)),
                None => CountersAction::Nothing,
            },
        }
    }
}

impl Default for Counters {
    fn default() -> (r: Self)
        ensures
            r == (Counters {  }),
    {
        Counters {  }
    }
}

} // verus!
