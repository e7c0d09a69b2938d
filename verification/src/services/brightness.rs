//! The brightness widget: reading the backlight's sysfs values, and when a new reading
//! is worth announcing.
use vstd::prelude::*;
use crate::launcher::service::{is_unicode_ws, is_ws};
use crate::text::chars_of;

verus! {

/// `s` without its leading Unicode whitespace.
pub open spec fn trim_start(s: Seq<char>) -> Seq<char>
    decreases s.len(),
{
    if s.len() > 0 && is_unicode_ws(s[0]) {
        trim_start(s.skip(1))
    } else {
        s
    }
}

/// `s` without its trailing Unicode whitespace.
pub open spec fn trim_end(s: Seq<char>) -> Seq<char>
    decreases s.len(),
{
    if s.len() > 0 && is_unicode_ws(s.last()) {
        trim_end(s.drop_last())
    } else {
        s
    }
}

/// `s` without leading and trailing whitespace, as `str::trim` gives it.
pub open spec fn trimmed(s: Seq<char>) -> Seq<char> {
    trim_end(trim_start(s))
}

/// The value of a decimal digit.
pub open spec fn digit_value(c: char) -> Option<nat> {
    if 48 <= c as u32 <= 57 {
        Some((c as u32 - 48) as nat)
    } else {
        None
    }
}

/// Whether every character of `s` is a decimal digit.
pub open spec fn all_digits(s: Seq<char>) -> bool {
    forall|i: int| 0 <= i < s.len() ==> (#[trigger] digit_value(s[i])) is Some
}

/// The number written by the decimal digits `s` (non-digits count as zero).
pub open spec fn decimal_value(s: Seq<char>) -> nat
    decreases s.len(),
{
    if s.len() == 0 {
        0
    } else {
        let d: nat = match digit_value(s.last()) {
            Some(v) => v,
            None => 0,
        };
        decimal_value(s.drop_last()) * 10 + d
    }
}

/// What `str::parse::<u32>` accepts and returns: an optional `+`, then at least one
/// decimal digit, with a value that fits in a `u32`.
pub open spec fn parsed_u32(s: Seq<char>) -> Option<u32> {
    let body = if s.len() > 0 && s[0] == '+' { s.skip(1) } else { s };
    if body.len() > 0 && all_digits(body) && decimal_value(body) <= u32::MAX {
        Some(decimal_value(body) as u32)
    } else {
        None
    }
}

proof fn lemma_decimal_prefix(s: Seq<char>, i: int)
    requires
        0 <= i <= s.len(),
    ensures
        decimal_value(s.take(i)) <= decimal_value(s),
    decreases s.len(),
{
    if i < s.len() {
        lemma_decimal_prefix(s.drop_last(), i);
        assert(s.drop_last().take(i) =~= s.take(i));
    } else {
        assert(s.take(i) =~= s);
    }
}

fn parse_u32(s: &[char]) -> (r: Option<u32>)
    ensures
        r == parsed_u32(s@),
{
    let body: &[char] = if s.len() > 0 && s[0] == '+' {
        s.split_at(1).1
    } else {
        s
    };
    proof {
        if s@.len() > 0 && s@[0] == '+' {
            assert(body@ =~= s@.skip(1));
        }
    }
    if body.len() == 0 {
        return None;
    }
    let mut acc: u32 = 0;
    let mut i: usize = 0;
    while i < body.len()
        invariant
            body@ == (if s@.len() > 0 && s@[0] == '+' { s@.skip(1) } else { s@ }),
            body.len() > 0,
            i <= body.len(),
            acc as nat == decimal_value(body@.take(i as int)),
            all_digits(body@.take(i as int)),
        decreases body.len() - i,
    {
        let ghost pre = body@.take(i as int);
        let ghost next = body@.take(i + 1);
        proof {
            assert(next.drop_last() =~= pre);
            assert(next.last() == body@[i as int]);
        }
        let c = body[i];
        let u = c as u32;
        if !(48 <= u && u <= 57) {
            proof {
                assert(!all_digits(body@)) by {
                    assert(digit_value(body@[i as int]) is None);
                }
            }
            return None;
        }
        let d: u32 = u - 48;
        proof {
            assert(decimal_value(next) == acc * 10 + d);
            lemma_decimal_prefix(body@, i + 1);
        }
        match acc.checked_mul(10) {
            None => {
                return None;
            },
            Some(m) => match m.checked_add(d) {
                None => {
                    return None;
                },
                Some(v) => {
                    acc = v;
                },
            },
        }
        proof {
            assert forall|j: int| 0 <= j < next.len() implies (#[trigger] digit_value(next[j]))
                is Some by {
                if j < i {
                    assert(next[j] == pre[j]);
                }
            }
        }
        i += 1;
    }
    proof {
        assert(body@.take(body.len() as int) =~= body@);
    }
    Some(acc)
}

/// A sysfs value (`brightness`, `max_brightness`): the file's text, trimmed, read as a
/// `u32`; `None` when it is none.
pub fn read_sysfs_u32(text: &str) -> (r: Option<u32>)
    ensures
        r == parsed_u32(trimmed(text@)),
{
    let v = chars_of(text);
    proof {
        assert(text@.skip(0) =~= text@);
    }
    let mut a: usize = 0;
    while a < v.len() && is_ws(v[a])
        invariant
            a <= v.len(),
            v@ == text@,
            trim_start(text@) == trim_start(text@.skip(a as int)),
        decreases v.len() - a,
    {
        proof {
            assert(text@.skip(a as int).skip(1) =~= text@.skip(a + 1));
        }
        a += 1;
    }
    proof {
        assert(trim_start(text@.skip(a as int)) == text@.skip(a as int));
    }
    let mut b: usize = v.len();
    while b > a && is_ws(v[b - 1])
        invariant
            a <= b <= v.len(),
            v@ == text@,
            trim_start(text@) == text@.skip(a as int),
            trimmed(text@) == trim_end(text@.subrange(a as int, b as int)),
        decreases b - a,
    {
        proof {
            assert(text@.subrange(a as int, b as int).drop_last() =~= text@.subrange(
                a as int,
                b - 1,
            ));
        }
        b -= 1;
    }
    proof {
        assert(text@.skip(a as int) =~= text@.subrange(a as int, v.len() as int));
    }
    let body = v.as_slice().split_at(b).0.split_at(a).1;
    proof {
        assert(body@ =~= text@.subrange(a as int, b as int));
        assert(trim_end(body@) == body@);
    }
    parse_u32(body)
}

/// Whether a new reading is announced: only when the brightness differs from the last
/// one announced (or none was).
pub fn brightness_changed(last: Option<u32>, brightness: u32) -> (r: bool)
    ensures
        r == (last != Some(brightness)),
{
    match last {
        Some(l) => l != brightness,
        None => true,
    }
}

} // verus!
