//! Hexadecimal numerals: Hyprland names windows by their client address (`0x55f4a1b2c3d0`).
use vstd::prelude::*;
use crate::text::{chars_of, has_prefix, string_from_chars};

verus! {

/// The value of a hexadecimal digit (either case), if `c` is one.
pub open spec fn hex_digit_value(c: char) -> Option<nat> {
    let u = c as u32;
    if 48 <= u <= 57 {
        Some((u - 48) as nat)
    } else if 97 <= u <= 102 {
        Some((u - 87) as nat)
    } else if 65 <= u <= 70 {
        Some((u - 55) as nat)
    } else {
        None
    }
}

/// Whether every character of `s` is a hexadecimal digit.
pub open spec fn all_hex(s: Seq<char>) -> bool {
    forall|i: int| 0 <= i < s.len() ==> (#[trigger] hex_digit_value(s[i])) is Some
}

/// The number written by the hexadecimal digits `s` (non-digits count as zero).
pub open spec fn hex_nat(s: Seq<char>) -> nat
    decreases s.len(),
{
    if s.len() == 0 {
        0
    } else {
        let d: nat = match hex_digit_value(s.last()) {
            Some(v) => v,
            None => 0,
        };
        hex_nat(s.drop_last()) * 16 + d
    }
}

/// What `u64::from_str_radix(s, 16)` accepts and returns: an optional leading `+`, then
/// at least one hexadecimal digit, and a value that fits in a `u64`.
pub open spec fn radix16_u64(s: Seq<char>) -> Option<u64> {
    let body = if s.len() > 0 && s[0] == '+' { s.skip(1) } else { s };
    if body.len() > 0 && all_hex(body) && hex_nat(body) <= u64::MAX {
        Some(hex_nat(body) as u64)
    } else {
        None
    }
}

/// The window id of a Hyprland address: the hexadecimal number after an optional `0x`,
/// or 0 when that is no valid `u64` numeral.
pub open spec fn address_value(a: Seq<char>) -> u64 {
    let hex = if has_prefix(a, seq!['0', 'x']) { a.skip(2) } else { a };
    match radix16_u64(hex) {
        Some(v) => v,
        None => 0,
    }
}

/// The lower-case hexadecimal digit for `d < 16`.
pub open spec fn hex_char(d: nat) -> char {
    if d < 10 {
        (48 + d) as char
    } else {
        (87 + d) as char
    }
}

/// The shortest lower-case hexadecimal numeral of `n`, as `format!("{n:x}")` prints it.
pub open spec fn hex_lower(n: nat) -> Seq<char>
    decreases n,
{
    if n < 16 {
        seq![hex_char(n)]
    } else {
        hex_lower(n / 16).push(hex_char(n % 16))
    }
}

/// The Hyprland address of a window id: `0x` and its lower-case hexadecimal numeral.
pub open spec fn address_text(id: u64) -> Seq<char> {
    seq!['0', 'x'] + hex_lower(id as nat)
}

proof fn lemma_hex_nat_prefix(s: Seq<char>, i: int)
    requires
        0 <= i <= s.len(),
    ensures
        hex_nat(s.take(i)) <= hex_nat(s),
    decreases s.len(),
{
    if i < s.len() {
        lemma_hex_nat_prefix(s.drop_last(), i);
        assert(s.drop_last().take(i) =~= s.take(i));
    } else {
        assert(s.take(i) =~= s);
    }
}

fn hex_digit(c: char) -> (r: Option<u64>)
    ensures
        match r {
            Some(v) => hex_digit_value(c) == Some(v as nat),
            None => hex_digit_value(c) is None,
        },
{
    let u = c as u32;
    if 48 <= u && u <= 57 {
        Some((u - 48) as u64)
    } else if 97 <= u && u <= 102 {
        Some((u - 87) as u64)
    } else if 65 <= u && u <= 70 {
        Some((u - 55) as u64)
    } else {
        None
    }
}

/// `u64::from_str_radix(s, 16)`, with `None` for its error.
pub fn parse_radix16(s: &[char]) -> (r: Option<u64>)
    ensures
        r == radix16_u64(s@),
{
    let body: &[char] = if s.len() > 0 && s[0] == '+' {
        s.split_at(1).1
    } else {
        s
    };
    proof {
        if s@.len() > 0 && s@[0] == '+' {
            assert(body@ =~= s@.skip(1));
        }
    }
    if body.len() == 0 {
        return None;
    }
    let mut acc: u64 = 0;
    let mut i: usize = 0;
    while i < body.len()
        invariant
            body@ == (if s@.len() > 0 && s@[0] == '+' { s@.skip(1) } else { s@ }),
            body.len() > 0,
            i <= body.len(),
            acc as nat == hex_nat(body@.take(i as int)),
            all_hex(body@.take(i as int)),
        decreases body.len() - i,
    {
        let ghost pre = body@.take(i as int);
        let ghost next = body@.take(i + 1);
        proof {
            assert(next.drop_last() =~= pre);
            assert(next.last() == body@[i as int]);
        }
        match hex_digit(body[i]) {
            None => {
                proof {
                    assert(!all_hex(body@)) by {
                        assert(hex_digit_value(body@[i as int]) is None);
                    }
                }
                return None;
            },
            Some(d) => {
                let ghost whole: nat = hex_nat(next);
                proof {
                    assert(whole == acc * 16 + d);
                    lemma_hex_nat_prefix(body@, i + 1);
                }
                match acc.checked_mul(16) {
                    None => {
                        return None;
                    },
                    Some(m) => match m.checked_add(d) {
                        None => {
                            return None;
                        },
                        Some(v) => {
                            acc = v;
                        },
                    },
                }
                proof {
                    assert forall|j: int| 0 <= j < next.len() implies (#[trigger] hex_digit_value(
                        next[j],
                    )) is Some by {
                        if j < i {
                            assert(next[j] == pre[j]);
                        }
                    }
                }
            },
        }
        i += 1;
    }
    proof {
        assert(body@.take(body.len() as int) =~= body@);
    }
    Some(acc)
}

/// The window id of a Hyprland client address (`"0x55f4..."`): its hexadecimal value, or 0
/// when it is none.
pub fn parse_address(addr: &str) -> (r: u64)
    ensures
        r == address_value(addr@),
{
    let v = chars_of(addr);
    let has_0x = v.len() >= 2 && v[0] == '0' && v[1] == 'x';
    proof {
        if has_0x {
            assert(addr@.take(2) =~= seq!['0', 'x']);
        } else if addr@.len() >= 2 {
            assert(addr@.take(2)[0] == addr@[0]);
            assert(addr@.take(2)[1] == addr@[1]);
        }
        assert(has_0x == has_prefix(addr@, seq!['0', 'x']));
    }
    let hex: &[char] = if has_0x {
        v.as_slice().split_at(2).1
    } else {
        v.as_slice()
    };
    proof {
        if has_0x {
            assert(hex@ =~= addr@.skip(2));
        }
    }
    match parse_radix16(hex) {
        Some(n) => n,
        None => 0,
    }
}

fn hex_digit_char(d: u64) -> (c: char)
    requires
        d < 16,
    ensures
        c == hex_char(d as nat),
{
    let cs: [char; 16] = ['0', '1', '2', '3', '4', '5', '6', '7', '8', '9', 'a', 'b', 'c', 'd', 'e', 'f'];
    let c = cs[d as usize];
    proof {
        assert(d == 0 || d == 1 || d == 2 || d == 3 || d == 4 || d == 5 || d == 6 || d == 7
            || d == 8 || d == 9 || d == 10 || d == 11 || d == 12 || d == 13 || d == 14 || d == 15);
    }
    c
}

fn hex_lower_chars(n: u64) -> (v: Vec<char>)
    ensures
        v@ == hex_lower(n as nat),
    decreases n,
{
    if n < 16 {
        let mut v = Vec::new();
        v.push(hex_digit_char(n));
        proof {
            assert(v@ =~= hex_lower(n as nat));
        }
        v
    } else {
        let mut v = hex_lower_chars(n / 16);
        v.push(hex_digit_char(n % 16));
        v
    }
}

/// The Hyprland address of window `id`, as `format!("0x{id:x}")` writes it.
pub fn hypr_address(id: u64) -> (r: String)
    ensures
        r@ == address_text(id),
{
    let mut v: Vec<char> = Vec::new();
    v.push('0');
    v.push('x');
    let d = hex_lower_chars(id);
    crate::text::push_all(&mut v, d.as_slice());
    proof {
        assert(v@ =~= address_text(id));
    }
    string_from_chars(v.as_slice())
}

proof fn lemma_hex_char(d: nat)
    requires
        d < 16,
    ensures
        hex_digit_value(hex_char(d)) == Some(d),
        hex_char(d) != '+',
{
    if d < 10 {
        assert(((48 + d) as char) as u32 == 48 + d);
    } else {
        assert(((87 + d) as char) as u32 == 87 + d);
    }
}

proof fn lemma_hex_lower(n: nat)
    ensures
        hex_lower(n).len() > 0,
        all_hex(hex_lower(n)),
        hex_nat(hex_lower(n)) == n,
        hex_lower(n)[0] != '+',
    decreases n,
{
    if n < 16 {
        lemma_hex_char(n);
        assert(hex_lower(n).drop_last() =~= Seq::<char>::empty());
        assert(hex_lower(n).last() == hex_char(n));
        assert(hex_nat(hex_lower(n).drop_last()) == 0);
    } else {
        lemma_hex_char(n % 16);
        lemma_hex_lower(n / 16);
        let s = hex_lower(n);
        assert(s.drop_last() =~= hex_lower(n / 16));
        assert(s.last() == hex_char(n % 16));
        assert(hex_nat(s) == hex_nat(hex_lower(n / 16)) * 16 + n % 16);
        assert((n / 16) * 16 + n % 16 == n);
        assert forall|i: int| 0 <= i < s.len() implies (#[trigger] hex_digit_value(s[i])) is Some by {
            if i < s.len() - 1 {
                assert(s[i] == hex_lower(n / 16)[i]);
            }
        }
        assert(s[0] == hex_lower(n / 16)[0]);
    }
}

/// Reading back the address of a window gives its id: `parse_address(hypr_address(id)) == id`.
pub proof fn lemma_address_round_trip(id: u64)
    ensures
        address_value(address_text(id)) == id,
{
    let t = address_text(id);
    lemma_hex_lower(id as nat);
    assert(t.take(2) =~= seq!['0', 'x']);
    assert(t.skip(2) =~= hex_lower(id as nat));
}

} // verus!
