//! Verified construction of the short debugger texts used throughout the
//! library: upper-case hexadecimal bytes and words, decimal bytes, and lists
//! joined by a separator.

use vstd::prelude::*;
use vstd::string::*;
use vstd::std_specs::iter::IteratorSpec;

verus! {

/// The upper-case hexadecimal digit for `n` (0..15).
pub open spec fn spec_hex_char(n: int) -> char {
    if n == 0 {
        '0'
    } else if n == 1 {
        '1'
    } else if n == 2 {
        '2'
    } else if n == 3 {
        '3'
    } else if n == 4 {
        '4'
    } else if n == 5 {
        '5'
    } else if n == 6 {
        '6'
    } else if n == 7 {
        '7'
    } else if n == 8 {
        '8'
    } else if n == 9 {
        '9'
    } else if n == 10 {
        'A'
    } else if n == 11 {
        'B'
    } else if n == 12 {
        'C'
    } else if n == 13 {
        'D'
    } else if n == 14 {
        'E'
    } else {
        'F'
    }
}

/// The decimal digit for `n` (0..9).
pub open spec fn spec_dec_char(n: int) -> char {
    spec_hex_char(n)
}

/// Two upper-case hexadecimal digits, as `{:02X}` prints a byte.
pub open spec fn spec_hex2(b: u8) -> Seq<char> {
    seq![spec_hex_char((b / 16) as int), spec_hex_char((b % 16) as int)]
}

/// Four upper-case hexadecimal digits, as `{:04X}` prints a word.
pub open spec fn spec_hex4(w: u16) -> Seq<char> {
    spec_hex2((w / 256) as u8) + spec_hex2((w % 256) as u8)
}

/// Decimal digits of `n` without leading zeros, as `{}` prints a number.
pub open spec fn spec_dec(n: nat) -> Seq<char>
    decreases n,
{
    if n < 10 {
        seq![spec_dec_char(n as int)]
    } else {
        spec_dec(n / 10) + seq![spec_dec_char((n % 10) as int)]
    }
}

/// `parts` separated by `sep`.
pub open spec fn spec_join(parts: Seq<Seq<char>>, sep: Seq<char>) -> Seq<char>
    decreases parts.len(),
{
    if parts.len() == 0 {
        Seq::empty()
    } else if parts.len() == 1 {
        parts[0]
    } else {
        spec_join(parts.drop_last(), sep) + sep + parts.last()
    }
}

/// Joining one part gives the part; joining two puts the separator between.
pub proof fn lemma_join_small(a: Seq<char>, b: Seq<char>, sep: Seq<char>)
    ensures
        spec_join(seq![a], sep) == a,
        spec_join(seq![a, b], sep) == a + sep + b,
{
    assert(seq![a, b].drop_last() =~= seq![a]);
    assert(spec_join(seq![a], sep) == a);
}

/// The character contents of each string of a list.
pub open spec fn string_views(v: Seq<String>) -> Seq<Seq<char>> {
    v.map_values(|s: String| s@)
}

/// A one-character string holding the hexadecimal digit `n`.
pub fn hex_digit(n: u8) -> (s: &'static str)
    requires
        n < 16,
    ensures
        s@ == seq![spec_hex_char(n as int)],
{
    if n == 0 {
        proof { reveal_strlit("0"); }
        "0"
    } else if n == 1 {
        proof { reveal_strlit("1"); }
        "1"
    } else if n == 2 {
        proof { reveal_strlit("2"); }
        "2"
    } else if n == 3 {
        proof { reveal_strlit("3"); }
        "3"
    } else if n == 4 {
        proof { reveal_strlit("4"); }
        "4"
    } else if n == 5 {
        proof { reveal_strlit("5"); }
        "5"
    } else if n == 6 {
        proof { reveal_strlit("6"); }
        "6"
    } else if n == 7 {
        proof { reveal_strlit("7"); }
        "7"
    } else if n == 8 {
        proof { reveal_strlit("8"); }
        "8"
    } else if n == 9 {
        proof { reveal_strlit("9"); }
        "9"
    } else if n == 10 {
        proof { reveal_strlit("A"); }
        "A"
    } else if n == 11 {
        proof { reveal_strlit("B"); }
        "B"
    } else if n == 12 {
        proof { reveal_strlit("C"); }
        "C"
    } else if n == 13 {
        proof { reveal_strlit("D"); }
        "D"
    } else if n == 14 {
        proof { reveal_strlit("E"); }
        "E"
    } else {
        proof { reveal_strlit("F"); }
        "F"
    }
}

/// Appends the two hexadecimal digits of `b` to `out`.
pub fn push_hex2(out: &mut String, b: u8)
    ensures
        final(out)@ == old(out)@ + spec_hex2(b),
{
    out.append(hex_digit(b / 16));
    out.append(hex_digit(b % 16));
}

/// Appends the four hexadecimal digits of `w` to `out`.
pub fn push_hex4(out: &mut String, w: u16)
    ensures
        final(out)@ == old(out)@ + spec_hex4(w),
{
    push_hex2(out, (w / 256) as u8);
    push_hex2(out, (w % 256) as u8);
}

/// `{:02X}` of a byte.
pub fn hex2(b: u8) -> (s: String)
    ensures
        s@ == spec_hex2(b),
{
    let mut s = String::new();
    push_hex2(&mut s, b);
    s
}

/// `{:04X}` of a word.
pub fn hex4(w: u16) -> (s: String)
    ensures
        s@ == spec_hex4(w),
{
    let mut s = String::new();
    push_hex4(&mut s, w);
    s
}

/// Appends the decimal digits of `n` to `out`.
pub fn push_dec(out: &mut String, n: u8)
    ensures
        final(out)@ == old(out)@ + spec_dec(n as nat),
{
    if n >= 100 {
        out.append(hex_digit(n / 100));
        out.append(hex_digit((n / 10) % 10));
        out.append(hex_digit(n % 10));
        proof {
            let nn = n as nat;
            assert(spec_dec(nn / 10) == spec_dec(nn / 100) + seq![spec_dec_char(((nn / 10) % 10) as int)]);
            assert(spec_dec(nn / 100) == seq![spec_dec_char((nn / 100) as int)]);
        }
    } else if n >= 10 {
        out.append(hex_digit(n / 10));
        out.append(hex_digit(n % 10));
        proof {
            let nn = n as nat;
            assert(spec_dec(nn / 10) == seq![spec_dec_char((nn / 10) as int)]);
        }
    } else {
        out.append(hex_digit(n));
    }
}

/// `{}` of a byte.
pub fn dec(n: u8) -> (s: String)
    ensures
        s@ == spec_dec(n as nat),
{
    let mut s = String::new();
    push_dec(&mut s, n);
    s
}

/// Joins string slices with a separator.
pub fn join_strs(parts: &Vec<&str>, sep: &str) -> (s: String)
    ensures
        s@ == spec_join(parts@.map_values(|p: &str| p@), sep@),
{
    let ghost views = parts@.map_values(|p: &str| p@);
    let mut s = String::new();
    let mut i: usize = 0;
    while i < parts.len()
        invariant
            i <= parts.len(),
            views == parts@.map_values(|p: &str| p@),
            s@ == spec_join(views.take(i as int), sep@),
        decreases parts.len() - i,
    {
        if i > 0 {
            s.append(sep);
        }
        s.append(parts[i]);
        proof {
            assert(views.take(i + 1).drop_last() =~= views.take(i as int));
            assert(views.take(i + 1).last() == views[i as int]);
            if i == 0 {
                assert(views.take(1) =~= seq![views[0]]);
            }
        }
        i = i + 1;
    }
    proof {
        assert(views.take(parts.len() as int) =~= views);
    }
    s
}

/// Joins owned strings with a separator.
pub fn join_strings(parts: &Vec<String>, sep: &str) -> (s: String)
    ensures
        s@ == spec_join(string_views(parts@), sep@),
{
    let ghost views = string_views(parts@);
    let mut s = String::new();
    let mut i: usize = 0;
    while i < parts.len()
        invariant
            i <= parts.len(),
            views == string_views(parts@),
            s@ == spec_join(views.take(i as int), sep@),
        decreases parts.len() - i,
    {
        if i > 0 {
            s.append(sep);
        }
        s.append(parts[i].as_str());
        proof {
            assert(views.take(i + 1).drop_last() =~= views.take(i as int));
            assert(views.take(i + 1).last() == views[i as int]);
            if i == 0 {
                assert(views.take(1) =~= seq![views[0]]);
            }
        }
        i = i + 1;
    }
    proof {
        assert(views.take(parts.len() as int) =~= views);
    }
    s
}

/// Whether two strings have the same characters.
pub fn str_eq(a: &str, b: &str) -> (r: bool)
    ensures
        r == (a@ == b@),
{
    broadcast use vstd::string::next_postcondition, vstd::string::axiom_spec_iter;

    let mut ia = a.chars();
    let mut ib = b.chars();
    let ghost mut k: int = 0;
    loop
        invariant
            0 <= k <= a@.len(),
            k <= b@.len(),
            ia.remaining() == a@.skip(k),
            ib.remaining() == b@.skip(k),
            a@.take(k) == b@.take(k),
        decreases a@.len() - k,
    {
        let ca = ia.next();
        let cb = ib.next();
        match (ca, cb) {
            (None, None) => {
                assert(a@ =~= a@.take(k));
                assert(b@ =~= b@.take(k));
                return true;
            },
            (Some(x), Some(y)) => {
                if x != y {
                    assert(a@[k] == x);
                    assert(b@[k] == y);
                    return false;
                }
                proof {
                    assert(a@.take(k + 1) =~= a@.take(k).push(x));
                    assert(b@.take(k + 1) =~= b@.take(k).push(y));
                    assert(ia.remaining() =~= a@.skip(k + 1));
                    assert(ib.remaining() =~= b@.skip(k + 1));
                    k = k + 1;
                }
            },
            _ => {
                assert(a@.len() != b@.len());
                return false;
            },
        }
    }
}

/// The first character of a string, if any.
pub fn first_char(a: &str) -> (r: Option<char>)
    ensures
        r == (if a@.len() > 0 { Some(a@[0]) } else { None }),
{
    broadcast use vstd::string::next_postcondition, vstd::string::axiom_spec_iter;

    let mut ia = a.chars();
    ia.next()
}

} // verus!
