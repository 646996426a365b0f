//! Digit-level text functions: rendering an object-id value as the store's
//! 24-digit lower-case hex form, rendering small decimal numbers, and parsing
//! the hex form back into its integer value.

use vstd::prelude::*;
use vstd::string::StringExecFns;

verus! {

/// The lower-case hex digit for `d` (meaningful for `0 <= d < 16`).
pub open spec fn hex_digit_char(d: int) -> char {
    if d == 0 {
        '0'
    } else if d == 1 {
        '1'
    } else if d == 2 {
        '2'
    } else if d == 3 {
        '3'
    } else if d == 4 {
        '4'
    } else if d == 5 {
        '5'
    } else if d == 6 {
        '6'
    } else if d == 7 {
        '7'
    } else if d == 8 {
        '8'
    } else if d == 9 {
        '9'
    } else if d == 10 {
        'a'
    } else if d == 11 {
        'b'
    } else if d == 12 {
        'c'
    } else if d == 13 {
        'd'
    } else if d == 14 {
        'e'
    } else {
        'f'
    }
}

/// The decimal digit for `d` (meaningful for `0 <= d < 10`).
pub open spec fn dec_digit_char(d: int) -> char {
    if d == 0 {
        '0'
    } else if d == 1 {
        '1'
    } else if d == 2 {
        '2'
    } else if d == 3 {
        '3'
    } else if d == 4 {
        '4'
    } else if d == 5 {
        '5'
    } else if d == 6 {
        '6'
    } else if d == 7 {
        '7'
    } else if d == 8 {
        '8'
    } else {
        '9'
    }
}

/// The lowest `n` hex digits of `v`, most significant first, zero-padded to
/// width `n`.
pub open spec fn hex_seq(v: int, n: nat) -> Seq<char>
    decreases n,
{
    if n == 0 {
        Seq::<char>::empty()
    } else {
        hex_seq(v / 16, (n - 1) as nat).push(hex_digit_char(v % 16))
    }
}

/// The lowest `n` decimal digits of `v`, most significant first, zero-padded
/// to width `n`.
pub open spec fn dec_seq(v: int, n: nat) -> Seq<char>
    decreases n,
{
    if n == 0 {
        Seq::<char>::empty()
    } else {
        dec_seq(v / 10, (n - 1) as nat).push(dec_digit_char(v % 10))
    }
}

/// An object-id value rendered the way the store renders it: exactly 24
/// lower-case hex digits.
pub open spec fn oid_hex(v: u128) -> Seq<char> {
    hex_seq(v as int, 24)
}

fn push_hex_digit(s: &mut String, d: u8)
    requires
        d < 16,
    ensures
        final (s)@ == old(s)@.push(hex_digit_char(d as int)),
{
    let ghost pre = s@;
    match d {
        0 => {
            s.append("0");
            proof {
                reveal_strlit("0");
                assert(s@ =~= pre.push('0'));
            }
        },
        1 => {
            s.append("1");
            proof {
                reveal_strlit("1");
                assert(s@ =~= pre.push('1'));
            }
        },
        2 => {
            s.append("2");
            proof {
                reveal_strlit("2");
                assert(s@ =~= pre.push('2'));
            }
        },
        3 => {
            s.append("3");
            proof {
                reveal_strlit("3");
                assert(s@ =~= pre.push('3'));
            }
        },
        4 => {
            s.append("4");
            proof {
                reveal_strlit("4");
                assert(s@ =~= pre.push('4'));
            }
        },
        5 => {
            s.append("5");
            proof {
                reveal_strlit("5");
                assert(s@ =~= pre.push('5'));
            }
        },
        6 => {
            s.append("6");
            proof {
                reveal_strlit("6");
                assert(s@ =~= pre.push('6'));
            }
        },
        7 => {
            s.append("7");
            proof {
                reveal_strlit("7");
                assert(s@ =~= pre.push('7'));
            }
        },
        8 => {
            s.append("8");
            proof {
                reveal_strlit("8");
                assert(s@ =~= pre.push('8'));
            }
        },
        9 => {
            s.append("9");
            proof {
                reveal_strlit("9");
                assert(s@ =~= pre.push('9'));
            }
        },
        10 => {
            s.append("a");
            proof {
                reveal_strlit("a");
                assert(s@ =~= pre.push('a'));
            }
        },
        11 => {
            s.append("b");
            proof {
                reveal_strlit("b");
                assert(s@ =~= pre.push('b'));
            }
        },
        12 => {
            s.append("c");
            proof {
                reveal_strlit("c");
                assert(s@ =~= pre.push('c'));
            }
        },
        13 => {
            s.append("d");
            proof {
                reveal_strlit("d");
                assert(s@ =~= pre.push('d'));
            }
        },
        14 => {
            s.append("e");
            proof {
                reveal_strlit("e");
                assert(s@ =~= pre.push('e'));
            }
        },
        _ => {
            s.append("f");
            proof {
                reveal_strlit("f");
                assert(s@ =~= pre.push('f'));
            }
        },
    }
}

/// Appends the lowest `n` hex digits of `v`, most significant first.
pub fn push_hex_digits(s: &mut String, v: u128, n: usize)
    ensures
        final (s)@ == old(s)@ + hex_seq(v as int, n as nat),
    decreases n,
{
    if n == 0 {
        proof {
            assert(old(s)@ + hex_seq(v as int, 0) =~= old(s)@);
        }
    } else {
        push_hex_digits(s, v / 16, n - 1);
        push_hex_digit(s, (v % 16) as u8);
        proof {
            assert(s@ =~= old(s)@ + hex_seq(v as int, n as nat));
        }
    }
}

/// Appends the lowest `n` decimal digits of `v`, most significant first.
pub fn push_dec_digits(s: &mut String, v: u64, n: usize)
    ensures
        final (s)@ == old(s)@ + dec_seq(v as int, n as nat),
    decreases n,
{
    if n == 0 {
        proof {
            assert(old(s)@ + dec_seq(v as int, 0) =~= old(s)@);
        }
    } else {
        push_dec_digits(s, v / 10, n - 1);
        let d = (v % 10) as u8;
        let ghost pre = s@;
        match d {
            0 => {
                s.append("0");
                proof {
                    reveal_strlit("0");
                    assert(s@ =~= pre.push('0'));
                }
            },
            1 => {
                s.append("1");
                proof {
                    reveal_strlit("1");
                    assert(s@ =~= pre.push('1'));
                }
            },
            2 => {
                s.append("2");
                proof {
                    reveal_strlit("2");
                    assert(s@ =~= pre.push('2'));
                }
            },
            3 => {
                s.append("3");
                proof {
                    reveal_strlit("3");
                    assert(s@ =~= pre.push('3'));
                }
            },
            4 => {
                s.append("4");
                proof {
                    reveal_strlit("4");
                    assert(s@ =~= pre.push('4'));
                }
            },
            5 => {
                s.append("5");
                proof {
                    reveal_strlit("5");
                    assert(s@ =~= pre.push('5'));
                }
            },
            6 => {
                s.append("6");
                proof {
                    reveal_strlit("6");
                    assert(s@ =~= pre.push('6'));
                }
            },
            7 => {
                s.append("7");
                proof {
                    reveal_strlit("7");
                    assert(s@ =~= pre.push('7'));
                }
            },
            8 => {
                s.append("8");
                proof {
                    reveal_strlit("8");
                    assert(s@ =~= pre.push('8'));
                }
            },
            _ => {
                s.append("9");
                proof {
                    reveal_strlit("9");
                    assert(s@ =~= pre.push('9'));
                }
            },
        }
        proof {
            assert(s@ =~= old(s)@ + dec_seq(v as int, n as nat));
        }
    }
}

/// Renders an object-id value as its 24-digit lower-case hex form.
pub fn oid_to_hex(v: u128) -> (r: String)
    ensures
        r@ == oid_hex(v),
{
    let mut s = String::new();
    push_hex_digits(&mut s, v, 24);
    s
}

/// The text with every occurrence of `pat` replaced by `to`, scanning left
/// to right without overlap; an empty pattern leaves the text unchanged.
pub open spec fn replace_text(s: Seq<char>, pat: Seq<char>, to: Seq<char>) -> Seq<char>
    decreases s.len(),
{
    if pat.len() == 0 || s.len() < pat.len() {
        s
    } else if s.subrange(0, pat.len() as int) == pat {
        to + replace_text(s.skip(pat.len() as int), pat, to)
    } else {
        seq![s[0]] + replace_text(s.drop_first(), pat, to)
    }
}

/// Whether `pat` occurs in `s` at position `i`.
fn segment_matches(s: &str, i: usize, pat: &str, m: usize) -> (r: bool)
    requires
        m == pat@.len(),
        i + m <= s@.len(),
        s@.len() <= usize::MAX,
    ensures
        r == (s@.subrange(i as int, i + m) == pat@),
{
    let mut j: usize = 0;
    while j < m
        invariant
            m == pat@.len(),
            i + m <= s@.len(),
            s@.len() <= usize::MAX,
            j <= m,
            forall|k: int| 0 <= k < j ==> s@[i + k] == pat@[k],
        decreases m - j,
    {
        if s.get_char(i + j) != pat.get_char(j) {
            proof {
                assert(s@.subrange(i as int, i + m)[j as int] == s@[i + j]);
            }
            return false;
        }
        j = j + 1;
    }
    proof {
        assert(s@.subrange(i as int, i + m) =~= pat@);
    }
    true
}

/// Replaces every occurrence of `pat` in `s` by `to`, scanning left to
/// right without overlap.
pub fn replace_all(s: &str, pat: &str, to: &str) -> (r: String)
    ensures
        r@ == replace_text(s@, pat@, to@),
{
    let n = s.unicode_len();
    let m = pat.unicode_len();
    if m == 0 {
        return s.to_owned();
    }
    let mut out = String::new();
    let mut i: usize = 0;
    proof {
        assert(s@.skip(0) =~= s@);
        assert(out@ + replace_text(s@, pat@, to@) =~= replace_text(s@, pat@, to@));
    }
    while i < n
        invariant
            n == s@.len(),
            m == pat@.len(),
            0 < m,
            i <= n,
            replace_text(s@, pat@, to@) == out@ + replace_text(s@.skip(i as int), pat@, to@),
        decreases n - i,
    {
        let ghost rest = s@.skip(i as int);
        if m <= n - i && segment_matches(s, i, pat, m) {
            out.append(to);
            proof {
                assert(rest.subrange(0, m as int) =~= s@.subrange(i as int, i + m));
                assert(rest.skip(m as int) =~= s@.skip(i + m));
                assert(replace_text(rest, pat@, to@) == to@ + replace_text(
                    s@.skip(i + m),
                    pat@,
                    to@,
                ));
                assert(out@ + replace_text(s@.skip(i + m), pat@, to@) =~= replace_text(
                    s@,
                    pat@,
                    to@,
                ));
            }
            i = i + m;
        } else {
            let piece = s.substring_char(i, i + 1);
            out.append(piece);
            proof {
                assert(piece@ =~= seq![s@[i as int]]);
                if m <= n - i {
                    assert(rest.subrange(0, m as int) =~= s@.subrange(i as int, i + m));
                    assert(rest.drop_first() =~= s@.skip(i + 1));
                    assert(replace_text(rest, pat@, to@) == seq![rest[0]] + replace_text(
                        s@.skip(i + 1),
                        pat@,
                        to@,
                    ));
                } else {
                    assert(replace_text(rest, pat@, to@) == rest);
                    assert(s@.skip(i + 1).len() < m);
                    assert(replace_text(s@.skip(i + 1), pat@, to@) == s@.skip(i + 1));
                    assert(seq![rest[0]] + s@.skip(i + 1) =~= rest);
                }
                assert(out@ + replace_text(s@.skip(i + 1), pat@, to@) =~= replace_text(
                    s@,
                    pat@,
                    to@,
                ));
            }
            i = i + 1;
        }
    }
    proof {
        assert(s@.skip(n as int).len() == 0);
        assert(replace_text(s@.skip(n as int), pat@, to@) == s@.skip(n as int));
        assert(out@ =~= replace_text(s@, pat@, to@));
    }
    out
}

/// Whether `c` is a decimal digit.
pub open spec fn is_dec_digit(c: char) -> bool {
    48 <= c as u32 && c as u32 <= 57
}

/// Whether `c` is an ASCII letter or digit.
pub open spec fn is_alphanumeric_char(c: char) -> bool {
    (48 <= c as u32 && c as u32 <= 57) || (65 <= c as u32 && c as u32 <= 90) || (97 <= c as u32
        && c as u32 <= 122)
}

/// The value of a decimal digit string, most significant digit first.
pub open spec fn dec_value_of(s: Seq<char>) -> int
    decreases s.len(),
{
    if s.len() == 0 {
        0
    } else {
        dec_value_of(s.drop_last()) * 10 + (s.last() as u32 - 48)
    }
}

/// Ten to the `n`.
pub open spec fn pow10(n: nat) -> int
    decreases n,
{
    if n == 0 {
        1int
    } else {
        10 * pow10((n - 1) as nat)
    }
}

/// A digit string's value only grows as digits are appended.
pub(crate) proof fn lemma_dec_prefix_le(s: Seq<char>, i: int)
    requires
        0 <= i <= s.len(),
        forall|k: int| 0 <= k < s.len() ==> is_dec_digit(#[trigger] s[k]),
    ensures
        dec_value_of(s.subrange(0, i)) <= dec_value_of(s),
        dec_value_of(s) >= 0,
    decreases s.len(),
{
    if s.len() == 0 {
        assert(s.subrange(0, i) =~= s);
    } else {
        let t = s.drop_last();
        lemma_dec_prefix_le(t, if i <= t.len() { i } else { t.len() as int });
        if i <= t.len() {
            assert(s.subrange(0, i) =~= t.subrange(0, i));
        } else {
            assert(s.subrange(0, i) =~= s);
        }
    }
}

proof fn lemma_pow10_positive(n: nat)
    ensures
        pow10(n) >= 1,
    decreases n,
{
    if n > 0 {
        lemma_pow10_positive((n - 1) as nat);
    }
}

/// A fixed-width decimal rendering is well formed and carries the value's
/// lowest digits: its parsed value is the value modulo the width's range.
pub proof fn lemma_dec_seq_value(v: int, n: nat)
    requires
        v >= 0,
    ensures
        dec_seq(v, n).len() == n,
        forall|i: int| 0 <= i < n ==> is_dec_digit(#[trigger] dec_seq(v, n)[i]),
        dec_value_of(dec_seq(v, n)) == v % pow10(n),
    decreases n,
{
    if n == 0 {
        assert(v % 1 == 0) by (nonlinear_arith)
            requires
                v >= 0,
        ;
    } else {
        lemma_dec_seq_value(v / 10, (n - 1) as nat);
        let t = dec_seq(v / 10, (n - 1) as nat);
        let s = dec_seq(v, n);
        assert(s.drop_last() =~= t);
        assert(s.last() == dec_digit_char(v % 10));
        assert(is_dec_digit(dec_digit_char(v % 10)));
        lemma_pow10_positive((n - 1) as nat);
        vstd::arithmetic::div_mod::lemma_mod_breakdown(v, 10, pow10((n - 1) as nat));
        assert(dec_value_of(s) == ((v / 10) % pow10((n - 1) as nat)) * 10 + v % 10);
    }
}

/// Whether `c` is a hex digit in any case, as the store's id parser accepts.
pub open spec fn is_hex_digit(c: char) -> bool {
    (48 <= c as u32 && c as u32 <= 57) || (97 <= c as u32 && c as u32 <= 102) || (65 <= c as u32
        && c as u32 <= 70)
}

/// The value of hex digit `c` (meaningful when `is_hex_digit(c)`).
pub open spec fn hex_val(c: char) -> int {
    if 48 <= c as u32 && c as u32 <= 57 {
        c as u32 - 48
    } else if 97 <= c as u32 && c as u32 <= 102 {
        c as u32 - 87
    } else {
        c as u32 - 55
    }
}

/// The integer value of a hex digit string, most significant digit first.
pub open spec fn hex_value_of(s: Seq<char>) -> int
    decreases s.len(),
{
    if s.len() == 0 {
        0
    } else {
        hex_value_of(s.drop_last()) * 16 + hex_val(s.last())
    }
}

/// Sixteen to the `n`.
pub open spec fn pow16(n: nat) -> int
    decreases n,
{
    if n == 0 {
        1int
    } else {
        16 * pow16((n - 1) as nat)
    }
}

/// A string of `n` hex digits has a value below `pow16(n)`.
proof fn lemma_hex_value_bound(s: Seq<char>)
    requires
        forall|i: int| 0 <= i < s.len() ==> is_hex_digit(#[trigger] s[i]),
    ensures
        0 <= hex_value_of(s) < pow16(s.len()),
    decreases s.len(),
{
    if s.len() > 0 {
        lemma_hex_value_bound(s.drop_last());
        assert(0 <= hex_val(s.last()) < 16);
    }
}

fn hex_digit_value(c: char) -> (r: Option<u8>)
    ensures
        match r {
            Some(d) => is_hex_digit(c) && d < 16 && d as int == hex_val(c),
            None => !is_hex_digit(c),
        },
{
    let u = c as u32;
    if 48 <= u && u <= 57 {
        Some((u - 48) as u8)
    } else if 97 <= u && u <= 102 {
        Some((u - 87) as u8)
    } else if 65 <= u && u <= 70 {
        Some((u - 55) as u8)
    } else {
        None
    }
}

/// Whether a string is a well-formed object id: exactly 24 hex digits.
pub open spec fn is_object_id_text(s: Seq<char>) -> bool {
    s.len() == 24 && (forall|i: int| 0 <= i < s.len() ==> is_hex_digit(#[trigger] s[i]))
}

/// Parses the store's 24-hex-digit object-id form into its integer value;
/// rejects any other string, as the store's parser does for its hex form.
pub fn parse_object_id(s: &str) -> (r: Option<u128>)
    ensures
        match r {
            Some(v) => is_object_id_text(s@) && v as int == hex_value_of(s@) && v
                < 0x1000000000000000000000000,
            None => !is_object_id_text(s@),
        },
{
    let n = s.unicode_len();
    if n != 24 {
        return None;
    }
    proof {
        lemma_pow16_24();
    }
    let mut acc: u128 = 0;
    let mut i: usize = 0;
    while i < 24
        invariant
            s@.len() == 24,
            i <= 24,
            forall|k: int| 0 <= k < i ==> is_hex_digit(#[trigger] s@[k]),
            acc as int == hex_value_of(s@.subrange(0, i as int)),
            (acc as int) < pow16(i as nat),
            pow16(24) == 0x1000000000000000000000000,
        decreases 24 - i,
    {
        let c = s.get_char(i);
        let d = match hex_digit_value(c) {
            Some(d) => d,
            None => {
                return None;
            },
        };
        proof {
            lemma_pow16_increases(i as nat, 23);
            assert((acc as int) < pow16(23));
        }
        let ghost prefix = s@.subrange(0, i as int);
        acc = acc * 16 + d as u128;
        proof {
            let longer = s@.subrange(0, i + 1);
            assert(longer.drop_last() =~= prefix);
            assert(longer.last() == s@[i as int]);
        }
        i = i + 1;
    }
    proof {
        assert(s@.subrange(0, 24) =~= s@);
    }
    Some(acc)
}

proof fn lemma_pow16_24()
    ensures
        pow16(24) == 0x1000000000000000000000000,
{
    reveal_with_fuel(pow16, 25);
}

/// A fixed-width hex rendering is well formed and carries the value's
/// lowest digits: its parsed value is the value modulo the width's range.
proof fn lemma_hex_seq_value(v: int, n: nat)
    requires
        v >= 0,
    ensures
        hex_seq(v, n).len() == n,
        forall|i: int| 0 <= i < n ==> is_hex_digit(#[trigger] hex_seq(v, n)[i]),
        hex_value_of(hex_seq(v, n)) == v % pow16(n),
    decreases n,
{
    if n == 0 {
        assert(v % 1 == 0) by (nonlinear_arith)
            requires
                v >= 0,
        ;
    } else {
        lemma_hex_seq_value(v / 16, (n - 1) as nat);
        let t = hex_seq(v / 16, (n - 1) as nat);
        let s = hex_seq(v, n);
        assert(s.drop_last() =~= t);
        assert(s.last() == hex_digit_char(v % 16));
        assert(is_hex_digit(hex_digit_char(v % 16)));
        lemma_pow16_positive((n - 1) as nat);
        vstd::arithmetic::div_mod::lemma_mod_breakdown(v, 16, pow16((n - 1) as nat));
        assert(hex_value_of(s) == ((v / 16) % pow16((n - 1) as nat)) * 16 + v % 16);
    }
}

/// Rendering an id and parsing the text back restores the value, for every
/// value of the store's 12-byte id width.
pub proof fn lemma_oid_hex_round_trip(v: u128)
    requires
        v < 0x1000000000000000000000000,
    ensures
        is_object_id_text(oid_hex(v)),
        hex_value_of(oid_hex(v)) == v,
{
    lemma_pow16_24();
    lemma_hex_seq_value(v as int, 24);
    vstd::arithmetic::div_mod::lemma_small_mod(v as nat, pow16(24) as nat);
}

/// `pow16` grows with its argument.
proof fn lemma_pow16_increases(a: nat, b: nat)
    requires
        a <= b,
    ensures
        pow16(a) <= pow16(b),
    decreases b,
{
    if a < b {
        lemma_pow16_increases(a, (b - 1) as nat);
        assert(pow16(b) == 16 * pow16((b - 1) as nat));
        lemma_pow16_positive((b - 1) as nat);
    }
}

proof fn lemma_pow16_positive(n: nat)
    ensures
        pow16(n) >= 1,
    decreases n,
{
    if n > 0 {
        lemma_pow16_positive((n - 1) as nat);
    }
}

} // verus!
