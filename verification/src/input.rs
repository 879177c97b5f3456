//! Checks and defaults for the texts of an input form.

use vstd::prelude::*;
use crate::digits::{is_ascii_digit, is_digit};
use crate::fields::{parse_field, to_chars, unsigned_value};

verus! {

/// Whether `s` may stand in a numeric input: it is not empty and holds
/// nothing but ASCII digits and, where `colon_allowed`, colons.
pub open spec fn acceptable_input(s: Seq<char>, colon_allowed: bool) -> bool {
    s.len() > 0 && forall|i: int|
        0 <= i < s.len() ==> is_digit(#[trigger] s[i]) || (colon_allowed && s[i] == ':')
}

/// Checks the text of a numeric input as it is typed.
pub fn validate_string_inputs(s: &str, colon_allowed: bool) -> (valid: bool)
    ensures
        valid == acceptable_input(s@, colon_allowed),
{
    let chars = to_chars(s);
    if chars.len() == 0 {
        return false;
    }
    let mut i: usize = 0;
    while i < chars.len()
        invariant
            i <= chars.len(),
            chars@ == s@,
            forall|k: int|
                0 <= k < i ==> is_digit(#[trigger] chars@[k]) || (colon_allowed && chars@[k]
                    == ':'),
        decreases chars.len() - i,
    {
        let symbol = chars[i];
        if !(is_ascii_digit(symbol) || (colon_allowed && symbol == ':')) {
            return false;
        }
        i = i + 1;
    }
    true
}

/// `text`, or `default` where `text` is empty.
pub open spec fn text_or(text: Seq<char>, default: Seq<char>) -> Seq<char> {
    if text.len() == 0 {
        default
    } else {
        text
    }
}

/// The text of an input, or `default` where the input was left empty.
pub fn text_or_default(s: &str, default: &str) -> (text: String)
    ensures
        text@ == text_or(s@, default@),
{
    if s.is_empty() {
        default.to_owned()
    } else {
        s.to_owned()
    }
}

/// The time, prefix and ending of the form. An empty time stands for ten
/// minutes, `10:00`; an empty prefix or ending stays empty.
pub fn get_texts(time_text: &str, prefix_text: &str, ending_text: &str) -> (texts: (
    String,
    String,
    String,
))
    ensures
        texts.0@ == text_or(time_text@, "10:00"@),
        texts.1@ == prefix_text@,
        texts.2@ == ending_text@,
{
    let time_in = text_or_default(time_text, "10:00");
    let prefix = text_or_default(prefix_text, "");
    let ending = text_or_default(ending_text, "");
    proof {
        reveal_strlit("");
    }
    (time_in, prefix, ending)
}

/// The step that a text stands for: its number where the text is one
/// unsigned field (an optional `+`, then one or more ASCII digits) whose
/// number fits the machine's word, and one second for every other text, one
/// with a minus sign too.
pub open spec fn step_of(text: Seq<char>) -> nat {
    match unsigned_value(text) {
        Some(v) => if v <= usize::MAX {
            v
        } else {
            1
        },
        None => 1,
    }
}

/// Reads the step size of the form.
pub fn parse_step(text: &str) -> (step: usize)
    ensures
        step == step_of(text@),
{
    let chars = to_chars(text);
    assert(chars@.subrange(0, chars@.len() as int) =~= text@);
    match parse_field(&chars, 0, chars.len(), false) {
        Some(v) => if v <= usize::MAX as u128 {
            v as usize
        } else {
            1
        },
        None => 1,
    }
}

} // verus!
