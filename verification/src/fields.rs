//! Colon-separated numeric fields: how a time expression splits into fields
//! and what number each field stands for.

use vstd::prelude::*;
use crate::digits::{all_digits, digit_of, digits_value, is_ascii_digit, is_digit};

verus! {

/// The fields of `s`: the maximal runs between colons, in order. A text
/// without a colon is one field; `n` colons always give `n + 1` fields, empty
/// ones included (`""` is one empty field, `"1:"` is `"1"` and `""`).
pub open spec fn split_fields(s: Seq<char>) -> Seq<Seq<char>>
    decreases s.len(),
{
    if s.len() == 0 {
        seq![Seq::<char>::empty()]
    } else {
        let before = split_fields(s.drop_last());
        if s.last() == ':' {
            before.push(Seq::<char>::empty())
        } else {
            before.drop_last().push(before.last().push(s.last()))
        }
    }
}

/// The fields joined by single colons; the inverse of [`split_fields`] on
/// fields that hold no colon.
pub open spec fn join_fields(fields: Seq<Seq<char>>) -> Seq<char>
    decreases fields.len(),
{
    if fields.len() == 0 {
        Seq::<char>::empty()
    } else if fields.len() == 1 {
        fields[0]
    } else {
        join_fields(fields.drop_last()).push(':') + fields.last()
    }
}

/// The number a field stands for, if it is numeric. A numeric field is an
/// optional sign (`+` or `-`) followed by one or more ASCII digits, and its
/// number is not negative: a minus sign is accepted only before zeros.
/// There is no upper bound on the number.
pub open spec fn field_value(f: Seq<char>) -> Option<nat> {
    if f.len() > 0 && (f[0] == '+' || f[0] == '-') {
        let digits = f.subrange(1, f.len() as int);
        if digits.len() > 0 && all_digits(digits) && (f[0] == '+' || digits_value(digits) == 0) {
            Some(digits_value(digits))
        } else {
            None
        }
    } else if f.len() > 0 && all_digits(f) {
        Some(digits_value(f))
    } else {
        None
    }
}

/// The number an unsigned field stands for, if it is one: an optional `+`
/// followed by one or more ASCII digits. A minus sign is refused, before
/// zeros too.
pub open spec fn unsigned_value(f: Seq<char>) -> Option<nat> {
    if f.len() > 0 && f[0] == '-' {
        None
    } else {
        field_value(f)
    }
}

/// The number of a field under one of the two readings: the numeric one
/// where a minus sign is allowed, and the unsigned one where it is not.
pub open spec fn reading(f: Seq<char>, minus_allowed: bool) -> Option<nat> {
    if minus_allowed {
        field_value(f)
    } else {
        unsigned_value(f)
    }
}

/// The number of a numeric field, and 0 for any other field.
pub open spec fn value_or_zero(f: Seq<char>) -> nat {
    match field_value(f) {
        Some(v) => v,
        None => 0,
    }
}

/// Whether every field is numeric.
pub open spec fn all_fields_numeric(fields: Seq<Seq<char>>) -> bool {
    forall|i: int| 0 <= i < fields.len() ==> field_value(#[trigger] fields[i]) is Some
}

/// Whether every field is unsigned.
pub open spec fn all_fields_unsigned(fields: Seq<Seq<char>>) -> bool {
    forall|i: int| 0 <= i < fields.len() ==> unsigned_value(#[trigger] fields[i]) is Some
}

/// Whether every field has a number under the reading.
pub open spec fn all_fields_read(fields: Seq<Seq<char>>, minus_allowed: bool) -> bool {
    forall|i: int| 0 <= i < fields.len() ==> reading(#[trigger] fields[i], minus_allowed) is Some
}

/// The numbers of the fields, in order.
pub open spec fn field_values(fields: Seq<Seq<char>>) -> Seq<nat> {
    Seq::new(fields.len(), |i: int| value_or_zero(fields[i]))
}

/// Executable code carries field values no further than this bound, 2^64:
/// every larger number is held as the bound itself.
pub const FIELD_CAP: u128 = 0x1_0000_0000_0000_0000;

/// `n`, or [`FIELD_CAP`] where `n` is above it.
pub open spec fn saturated(n: nat) -> nat {
    if n > FIELD_CAP {
        FIELD_CAP as nat
    } else {
        n
    }
}

/// The fields that end before position `start`, where `start` is 0 or
/// follows a colon.
spec fn fields_before(s: Seq<char>, start: int) -> Seq<Seq<char>> {
    if start <= 0 {
        Seq::<Seq<char>>::empty()
    } else {
        split_fields(s.take(start - 1))
    }
}

/// A text always has at least one field.
pub proof fn lemma_split_nonempty(s: Seq<char>)
    ensures
        split_fields(s).len() >= 1,
    decreases s.len(),
{
    if s.len() > 0 {
        lemma_split_nonempty(s.drop_last());
    }
}

/// The run from `start` up to the next colon (or the end) is the next field.
proof fn lemma_next_field(s: Seq<char>, start: int, end: int)
    requires
        0 <= start <= end <= s.len(),
        start == 0 || s[start - 1] == ':',
        forall|k: int| start <= k < end ==> s[k] != ':',
    ensures
        split_fields(s.take(end)) == fields_before(s, start).push(s.subrange(start, end)),
    decreases end - start,
{
    if end == start {
        assert(s.subrange(start, end) =~= Seq::<char>::empty());
        if start > 0 {
            assert(s.take(start).drop_last() =~= s.take(start - 1));
        }
    } else {
        lemma_next_field(s, start, end - 1);
        let before = split_fields(s.take(end - 1));
        assert(s.take(end).drop_last() =~= s.take(end - 1));
        assert(before.last().push(s[end - 1]) =~= s.subrange(start, end));
    }
}

/// Splitting undoes joining, for fields that hold no colon.
pub proof fn lemma_split_join(fields: Seq<Seq<char>>)
    requires
        fields.len() >= 1,
        forall|i: int| 0 <= i < fields.len() ==> !(#[trigger] fields[i]).contains(':'),
    ensures
        split_fields(join_fields(fields)) == fields,
    decreases fields.len(),
{
    let joined = join_fields(fields);
    let last = fields.last();
    assert forall|k: int| 0 <= k < last.len() implies last[k] != ':' by {
        assert(!last.contains(':'));
    }
    if fields.len() == 1 {
        lemma_next_field(joined, 0, joined.len() as int);
        assert(joined.subrange(0, joined.len() as int) =~= joined);
    } else {
        let front = fields.drop_last();
        let head = join_fields(front);
        assert forall|i: int| 0 <= i < front.len() implies !(#[trigger] front[i]).contains(':') by {
            assert(front[i] == fields[i]);
        }
        lemma_split_join(front);
        let start = head.len() as int + 1;
        assert forall|k: int| start <= k < joined.len() implies joined[k] != ':' by {
            assert(joined[k] == last[k - start]);
        }
        lemma_next_field(joined, start, joined.len() as int);
        assert(joined.take(joined.len() as int) =~= joined);
        assert(joined.take(start - 1) =~= head);
        assert(joined.subrange(start, joined.len() as int) =~= last);
    }
}

/// Joining undoes splitting: every text is its fields joined by colons, and
/// no field holds a colon. With [`lemma_split_join`] this says that the
/// fields of a text are the one way to cut it at its colons.
pub proof fn lemma_join_split(s: Seq<char>)
    ensures
        join_fields(split_fields(s)) == s,
        forall|i: int|
            0 <= i < split_fields(s).len() ==> !(#[trigger] split_fields(s)[i]).contains(':'),
    decreases s.len(),
{
    let fields = split_fields(s);
    if s.len() > 0 {
        let rest = s.drop_last();
        let before = split_fields(rest);
        lemma_join_split(rest);
        lemma_split_nonempty(rest);
        if s.last() == ':' {
            assert(fields.drop_last() =~= before);
            assert forall|i: int| 0 <= i < fields.len() implies !(#[trigger] fields[i]).contains(
                ':',
            ) by {
                if i < before.len() {
                    assert(fields[i] == before[i]);
                }
            }
        } else {
            let grown = before.last().push(s.last());
            assert(fields.drop_last() =~= before.drop_last());
            assert(rest.push(s.last()) =~= s);
            assert forall|i: int| 0 <= i < fields.len() implies !(#[trigger] fields[i]).contains(
                ':',
            ) by {
                if i < fields.len() - 1 {
                    assert(fields[i] == before[i]);
                } else if grown.contains(':') {
                    let k = choose|k: int| 0 <= k < grown.len() && grown[k] == ':';
                    assert(before.last()[k] == ':');
                }
            }
        }
    }
}

/// The characters of `s`, in order.
pub fn to_chars(s: &str) -> (chars: Vec<char>)
    ensures
        chars@ == s@,
{
    let mut chars: Vec<char> = Vec::new();
    for c in it: s.chars()
        invariant
            chars@ == it.seq().take(it.index()),
    {
        chars.push(c);
    }
    chars
}

/// The number of the field `chars[start..end]` under the reading, saturated
/// at [`FIELD_CAP`], or `None` where the field has no number under it.
#[verifier::loop_isolation(false)]
pub(crate) fn parse_field(
    chars: &Vec<char>,
    start: usize,
    end: usize,
    minus_allowed: bool,
) -> (value: Option<u128>)
    requires
        start <= end <= chars.len(),
    ensures
        value is Some <==> reading(
            chars@.subrange(start as int, end as int),
            minus_allowed,
        ) is Some,
        value matches Some(v) ==> v == saturated(
            value_or_zero(chars@.subrange(start as int, end as int)),
        ),
{
    let ghost field = chars@.subrange(start as int, end as int);
    if start == end {
        return None;
    }
    let first = chars[start];
    if first == '-' && !minus_allowed {
        return None;
    }
    let signed = first == '+' || first == '-';
    let begin: usize = if signed {
        start + 1
    } else {
        start
    };
    let ghost digits = chars@.subrange(begin as int, end as int);
    assert(signed ==> digits =~= field.subrange(1, field.len() as int));
    if begin == end {
        return None;
    }
    let mut value: u128 = 0;
    let mut i: usize = begin;
    while i < end
        invariant
            begin <= i <= end <= chars.len(),
            all_digits(chars@.subrange(begin as int, i as int)),
            value == saturated(digits_value(chars@.subrange(begin as int, i as int))),
        decreases end - i,
    {
        let c = chars[i];
        if !is_ascii_digit(c) {
            assert(digits[i - begin] == c);
            return None;
        }
        let d: u128 = digit_of(c) as u128;
        proof {
            let run = chars@.subrange(begin as int, i as int + 1);
            assert(run.drop_last() =~= chars@.subrange(begin as int, i as int));
            assert forall|k: int| 0 <= k < run.len() implies is_digit(#[trigger] run[k]) by {
                if k < run.len() - 1 {
                    assert(run[k] == run.drop_last()[k]);
                }
            }
        }
        value = if value >= FIELD_CAP {
            FIELD_CAP
        } else if value * 10 + d > FIELD_CAP {
            FIELD_CAP
        } else {
            value * 10 + d
        };
        i = i + 1;
    }
    if first == '-' && value != 0 {
        return None;
    }
    Some(value)
}

/// The numbers of the fields of `s` under the reading, each saturated at
/// [`FIELD_CAP`], or `None` where some field has no number under it.
pub(crate) fn parse_fields(s: &str, minus_allowed: bool) -> (values: Option<Vec<u128>>)
    ensures
        values is Some <==> all_fields_read(split_fields(s@), minus_allowed),
        minus_allowed ==> all_fields_read(split_fields(s@), minus_allowed) == all_fields_numeric(
            split_fields(s@),
        ),
        !minus_allowed ==> all_fields_read(split_fields(s@), minus_allowed)
            == all_fields_unsigned(split_fields(s@)),
        values matches Some(v) ==> {
            &&& v@.len() == split_fields(s@).len()
            &&& forall|i: int|
                0 <= i < v@.len() ==> v@[i] == saturated(
                    #[trigger] field_values(split_fields(s@))[i],
                )
        },
{
    let chars = to_chars(s);
    let n = chars.len();
    let mut values: Vec<u128> = Vec::new();
    let mut numeric = true;
    let mut start: usize = 0;
    let mut finished = false;
    let ghost mut done: Seq<Seq<char>> = Seq::empty();
    while !finished
        invariant
            chars@ == s@,
            n == chars.len(),
            !finished ==> start <= n && (start == 0 || chars@[start - 1] == ':') && done
                == fields_before(chars@, start as int),
            finished ==> done == split_fields(chars@),
            values@.len() == done.len(),
            numeric <==> all_fields_read(done, minus_allowed),
            forall|i: int|
                0 <= i < done.len() ==> values@[i] == saturated(value_or_zero(#[trigger] done[i])),
        decreases
            (if finished {
                0
            } else {
                n - start + 1
            }),
    {
        let mut end: usize = start;
        while end < n && chars[end] != ':'
            invariant
                start <= end <= n,
                n == chars.len(),
                forall|k: int| start <= k < end ==> chars@[k] != ':',
            decreases n - end,
        {
            end = end + 1;
        }
        let ghost field = chars@.subrange(start as int, end as int);
        proof {
            lemma_next_field(chars@, start as int, end as int);
        }
        let ghost grown = done.push(field);
        match parse_field(&chars, start, end, minus_allowed) {
            Some(v) => {
                values.push(v);
            },
            None => {
                values.push(0);
                numeric = false;
            },
        }
        proof {
            assert forall|i: int| 0 <= i < grown.len() implies values@[i] == saturated(
                value_or_zero(#[trigger] grown[i]),
            ) by {
                if i < done.len() {
                    assert(grown[i] == done[i]);
                }
            }
            if numeric {
                assert forall|i: int| 0 <= i < grown.len() implies reading(
                    #[trigger] grown[i],
                    minus_allowed,
                ) is Some by {
                    if i < done.len() {
                        assert(grown[i] == done[i]);
                    }
                }
            } else if all_fields_read(grown, minus_allowed) {
                assert forall|i: int| 0 <= i < done.len() implies reading(
                    #[trigger] done[i],
                    minus_allowed,
                ) is Some by {
                    assert(grown[i] == done[i]);
                }
                assert(reading(grown[done.len() as int], minus_allowed) is Some);
            }
            done = grown;
        }
        if end == n {
            finished = true;
            assert(chars@.take(n as int) =~= chars@);
        } else {
            start = end + 1;
        }
    }
    if numeric {
        Some(values)
    } else {
        None
    }
}

} // verus!
