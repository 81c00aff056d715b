//! Colors written as text: up to three numbers with commas between them.

use vstd::prelude::*;
use crate::text::{chars_of, parse_unsigned, parsed_u8};

verus! {

/// Where the field that starts at `from` ends: at the first comma from
/// there on, or at the end of the text.
pub open spec fn field_end(s: Seq<char>, from: int) -> int
    decreases s.len() - from,
{
    if from >= s.len() || s[from] == ',' {
        from
    } else {
        field_end(s, from + 1)
    }
}

/// Where field `k` starts, counting from 0, if the text has that many
/// fields. The first field starts the text, and each comma starts another.
pub open spec fn field_start(s: Seq<char>, k: nat) -> Option<int>
    decreases k,
{
    if k == 0 {
        Some(0)
    } else {
        match field_start(s, (k - 1) as nat) {
            Some(start) if field_end(s, start) < s.len() => Some(field_end(s, start) + 1),
            _ => None,
        }
    }
}

/// Field `k` of the text, if it has that many fields.
pub open spec fn field(s: Seq<char>, k: nat) -> Option<Seq<char>> {
    match field_start(s, k) {
        Some(start) => Some(s.subrange(start, field_end(s, start))),
        None => None,
    }
}

/// Channel `k` of the color that the text spells: the number in field `k`,
/// 0 where the text has no such field, and nothing where the field is there
/// and is no number that a byte can hold.
pub open spec fn channel(s: Seq<char>, k: nat) -> Option<u8> {
    match field(s, k) {
        Some(text) => parsed_u8(text),
        None => Some(0),
    }
}

/// The color that the text spells, if it spells one: its first three
/// fields as red, green and blue. Further fields are not looked at.
pub open spec fn color_of(s: Seq<char>) -> Option<Seq<u8>> {
    if channel(s, 0) is Some && channel(s, 1) is Some && channel(s, 2) is Some {
        Some(seq![channel(s, 0)->0, channel(s, 1)->0, channel(s, 2)->0])
    } else {
        None
    }
}

/// Finds where the field that starts at `from` ends.
fn find_field_end(chars: &Vec<char>, from: usize) -> (end: usize)
    requires
        from <= chars@.len(),
    ensures
        end == field_end(chars@, from as int),
        from <= end <= chars@.len(),
{
    let mut end: usize = from;
    while end < chars.len() && chars[end] != ','
        invariant
            from <= end <= chars@.len(),
            field_end(chars@, from as int) == field_end(chars@, end as int),
        decreases chars@.len() - end,
    {
        end += 1;
    }
    end
}

/// Reads one channel: the number in the field that starts at `start`, or 0
/// where `start` is `None`, which says that the text has no such field.
/// Also says where the next field starts.
fn read_channel(chars: &Vec<char>, start: Option<usize>) -> (read: (Option<u8>, Option<usize>))
    requires
        start matches Some(from) ==> from <= chars@.len(),
    ensures
        read.0 == (match start {
            Some(from) => parsed_u8(
                chars@.subrange(from as int, field_end(chars@, from as int)),
            ),
            None => Some(0u8),
        }),
        read.1 is Some <==> (start matches Some(from) && field_end(chars@, from as int)
            < chars@.len()),
        read.1 matches Some(next) ==> next <= chars@.len() && (start matches Some(from) && next
            == field_end(chars@, from as int) + 1),
{
    match start {
        None => (Some(0), None),
        Some(from) => {
            let end = find_field_end(chars, from);
            let value = match parse_unsigned(chars, from, end, u8::MAX as u64) {
                Some(v) => Some(v as u8),
                None => None,
            };
            let next = if end < chars.len() {
                Some(end + 1)
            } else {
                None
            };
            (value, next)
        },
    }
}

/// Reads a color: up to three numbers from 0 to 255 with commas between
/// them, for red, green and blue. A channel that the text does not name is
/// 0. `None` where one of the first three fields is not such a number.
pub fn parse_color(color_str: &str) -> (color: Option<[u8; 3]>)
    ensures
        match color {
            Some(c) => color_of(color_str@) == Some(c@),
            None => color_of(color_str@) is None,
        },
{
    let chars = chars_of(color_str);
    let ghost s = color_str@;
    proof {
        reveal_with_fuel(field_start, 3);
    }
    let (red, second) = read_channel(&chars, Some(0));
    let (green, third) = read_channel(&chars, second);
    let (blue, _) = read_channel(&chars, third);
    assert(match second {
        Some(start) => field_start(s, 1) == Some(start as int),
        None => field_start(s, 1) is None,
    });
    assert(match third {
        Some(start) => field_start(s, 2) == Some(start as int),
        None => field_start(s, 2) is None,
    });
    assert(red == channel(s, 0));
    assert(green == channel(s, 1));
    assert(blue == channel(s, 2));
    match (red, green, blue) {
        (Some(r), Some(g), Some(b)) => {
            let c = [r, g, b];
            assert(c@ =~= seq![r, g, b]);
            Some(c)
        },
        _ => None,
    }
}

/// A channel that the text does not name is 0.
pub proof fn law_missing_channel_is_zero(s: Seq<char>, k: nat)
    requires
        k < 3,
        field(s, k) is None,
        color_of(s) is Some,
    ensures
        color_of(s)->0[k as int] == 0,
{
}

} // verus!
