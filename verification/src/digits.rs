//! Textual encodings of numbers used by the wire formats: decimal for
//! timestamps, fixed-width lowercase hex for identifiers, and the
//! hyphenated 128-bit id form. Each encoding comes with the lemmas that
//! connect writing and reading it back.

use vstd::prelude::*;

use vstd::string::StringExecFns;

verus! {

pub open spec fn is_dec_digit(b: u8) -> bool {
    48 <= b <= 57
}

/// Decimal digits of `v`, most significant first, no sign, no leading
/// zeros (`0` encodes as the single digit `0`).
pub open spec fn dec_digits(v: int) -> Seq<u8>
    decreases v,
{
    if v < 10 {
        seq![(48 + v) as u8]
    } else {
        dec_digits(v / 10).push((48 + v % 10) as u8)
    }
}

/// Value of a run of decimal digit bytes, most significant first.
pub open spec fn dec_seq_val(s: Seq<u8>) -> int
    decreases s.len(),
{
    if s.len() == 0 {
        0
    } else {
        dec_seq_val(s.drop_last()) * 10 + (s.last() - 48)
    }
}

pub proof fn lemma_dec_digits_are_digits(v: int)
    requires
        v >= 0,
    ensures
        dec_digits(v).len() >= 1,
        forall|i: int| 0 <= i < dec_digits(v).len() ==> is_dec_digit(#[trigger] dec_digits(v)[i]),
    decreases v,
{
    if v >= 10 {
        lemma_dec_digits_are_digits(v / 10);
    }
}

/// Reading the decimal digits of `v` yields `v` again.
pub proof fn lemma_dec_round_trip(v: int)
    requires
        v >= 0,
    ensures
        dec_seq_val(dec_digits(v)) == v,
    decreases v,
{
    if v < 10 {
        let s = dec_digits(v);
        assert(s.drop_last() =~= Seq::<u8>::empty());
        assert(s.last() == (48 + v) as u8);
        assert(dec_seq_val(s) == dec_seq_val(s.drop_last()) * 10 + (s.last() - 48));
        assert(dec_seq_val(s.drop_last()) == 0);
        assert(s.last() - 48 == v);
    } else {
        lemma_dec_round_trip(v / 10);
        let s = dec_digits(v);
        assert(s.drop_last() =~= dec_digits(v / 10));
        assert(dec_seq_val(s.drop_last()) == v / 10);
        assert(s.last() == (48 + v % 10) as u8);
        assert(s.last() - 48 == v % 10);
        assert(dec_seq_val(s) == dec_seq_val(s.drop_last()) * 10 + (s.last() - 48));
        vstd::arithmetic::div_mod::lemma_fundamental_div_mod(v, 10);
        assert(v == (v / 10) * 10 + v % 10);
    }
}

/// Every prefix of the decimal digits of `v` reads back as a value no
/// larger than `v` itself.
pub proof fn lemma_dec_prefix_bound(v: int, k: int)
    requires
        v >= 0,
        0 <= k <= dec_digits(v).len(),
    ensures
        0 <= dec_seq_val(dec_digits(v).take(k)) <= v,
    decreases v,
{
    if k == dec_digits(v).len() {
        assert(dec_digits(v).take(k) =~= dec_digits(v));
        lemma_dec_round_trip(v);
    } else if v < 10 {
        assert(dec_digits(v).take(k) =~= Seq::<u8>::empty());
    } else {
        assert(dec_digits(v).take(k) =~= dec_digits(v / 10).take(k));
        lemma_dec_prefix_bound(v / 10, k);
    }
}

/// Appends the decimal digits of `v` to `out`.
pub fn append_dec_u64(v: u64, out: &mut Vec<u8>)
    ensures
        final(out)@ == old(out)@ + dec_digits(v as int),
    decreases v,
{
    if v < 10 {
        out.push(48 + (v as u8));
        assert(out@ =~= old(out)@ + dec_digits(v as int));
    } else {
        append_dec_u64(v / 10, out);
        out.push(48 + ((v % 10) as u8));
        assert(out@ =~= old(out)@ + dec_digits(v as int));
    }
}

/// The decimal text of a nonnegative number, as characters.
pub open spec fn dec_chars(v: int) -> Seq<char>
    decreases v,
{
    if v < 10 {
        seq![((48 + v) as u8) as char]
    } else {
        dec_chars(v / 10).push(((48 + v % 10) as u8) as char)
    }
}

/// The decimal text of a signed number, as characters.
pub open spec fn dec_chars_i64(v: int) -> Seq<char> {
    if v < 0 {
        seq!['-'] + dec_chars(-v)
    } else {
        dec_chars(v)
    }
}

fn digit_str(d: u64) -> (r: &'static str)
    requires
        d < 10,
    ensures
        r@ == seq![((48 + d) as u8) as char],
{
    let r: &'static str = match d {
        0 => "0",
        1 => "1",
        2 => "2",
        3 => "3",
        4 => "4",
        5 => "5",
        6 => "6",
        7 => "7",
        8 => "8",
        _ => "9",
    };
    proof {
        reveal_strlit("0");
        reveal_strlit("1");
        reveal_strlit("2");
        reveal_strlit("3");
        reveal_strlit("4");
        reveal_strlit("5");
        reveal_strlit("6");
        reveal_strlit("7");
        reveal_strlit("8");
        reveal_strlit("9");
        assert(r@ =~= seq![((48 + d) as u8) as char]);
    }
    r
}

/// The decimal text of `v`.
pub fn u64_to_string(v: u64) -> (r: String)
    ensures
        r@ == dec_chars(v as int),
    decreases v,
{
    if v < 10 {
        let r = digit_str(v).to_owned();
        proof {
            assert(r@ =~= dec_chars(v as int));
        }
        r
    } else {
        let mut r = u64_to_string(v / 10);
        r.append(digit_str(v % 10));
        proof {
            assert(r@ =~= dec_chars(v as int));
        }
        r
    }
}

/// The decimal text of `v`, with a sign when it is negative.
pub fn i64_to_string(v: i64) -> (r: String)
    ensures
        r@ == dec_chars_i64(v as int),
{
    if v < 0 {
        let mut r = String::from_str("-");
        let m: u64 = (-(v as i128)) as u64;
        let digits = u64_to_string(m);
        r.append(digits.as_str());
        proof {
            assert(m as int == -(v as int));
            reveal_strlit("-");
            assert(r@ =~= dec_chars_i64(v as int));
        }
        r
    } else {
        let r = u64_to_string(v as u64);
        proof {
            assert(r@ =~= dec_chars_i64(v as int));
        }
        r
    }
}

pub open spec fn is_hex_digit(b: u8) -> bool {
    (48 <= b <= 57) || (97 <= b <= 102)
}

pub open spec fn hex_digit_val(b: u8) -> int {
    if b <= 57 {
        b - 48
    } else {
        b - 87
    }
}

/// The lowercase hex byte for a digit value in `0..16`.
pub open spec fn hex_ascii(d: int) -> u8 {
    if d < 10 {
        (48 + d) as u8
    } else {
        (87 + d) as u8
    }
}

/// Exactly `n` lowercase hex digits of `v`, most significant first;
/// encodes `v` modulo `16^n`.
pub open spec fn hex_fixed(v: int, n: nat) -> Seq<u8>
    decreases n,
{
    if n == 0 {
        Seq::empty()
    } else {
        hex_fixed(v / 16, (n - 1) as nat).push(hex_ascii(v % 16))
    }
}

/// Value of a run of hex digit bytes, most significant first.
pub open spec fn hex_seq_val(s: Seq<u8>) -> int
    decreases s.len(),
{
    if s.len() == 0 {
        0
    } else {
        hex_seq_val(s.drop_last()) * 16 + hex_digit_val(s.last())
    }
}

pub open spec fn pow16(n: nat) -> int
    decreases n,
{
    if n == 0 {
        1
    } else {
        16 * pow16((n - 1) as nat)
    }
}

pub proof fn lemma_pow16_positive(n: nat)
    ensures
        pow16(n) >= 1,
    decreases n,
{
    if n > 0 {
        lemma_pow16_positive((n - 1) as nat);
    }
}

pub proof fn lemma_pow16_increases(a: nat, b: nat)
    requires
        a <= b,
    ensures
        pow16(a) <= pow16(b),
    decreases b,
{
    lemma_pow16_positive(a);
    if a < b {
        lemma_pow16_increases(a, (b - 1) as nat);
    }
}

pub proof fn lemma_hex_fixed_len(v: int, n: nat)
    ensures
        hex_fixed(v, n).len() == n,
    decreases n,
{
    if n > 0 {
        lemma_hex_fixed_len(v / 16, (n - 1) as nat);
    }
}

pub proof fn lemma_hex_fixed_digits(v: int, n: nat)
    requires
        v >= 0,
    ensures
        forall|i: int| 0 <= i < hex_fixed(v, n).len() ==> is_hex_digit(#[trigger] hex_fixed(v, n)[i]),
    decreases n,
{
    if n > 0 {
        lemma_hex_fixed_digits(v / 16, (n - 1) as nat);
        lemma_hex_fixed_len(v / 16, (n - 1) as nat);
        let s = hex_fixed(v, n);
        let p = hex_fixed(v / 16, (n - 1) as nat);
        assert forall|i: int| 0 <= i < s.len() implies is_hex_digit(#[trigger] s[i]) by {
            if i < n - 1 {
                assert(s[i] == p[i]);
            } else {
                assert(s[i] == hex_ascii(v % 16));
            }
        };
    }
}

/// Reading `n` hex digits of `v` yields `v` again, provided `v` fits.
pub proof fn lemma_hex_round_trip(v: int, n: nat)
    requires
        0 <= v < pow16(n),
    ensures
        hex_seq_val(hex_fixed(v, n)) == v,
    decreases n,
{
    if n == 0 {
        assert(hex_fixed(v, n) =~= Seq::<u8>::empty());
    } else {
        lemma_pow16_positive((n - 1) as nat);
        assert(v / 16 < pow16((n - 1) as nat)) by {
            if v / 16 >= pow16((n - 1) as nat) {
                assert(v >= 16 * pow16((n - 1) as nat)) by {
                    vstd::arithmetic::div_mod::lemma_fundamental_div_mod(v, 16);
                };
            }
        };
        lemma_hex_round_trip(v / 16, (n - 1) as nat);
        assert(hex_fixed(v, n).drop_last() =~= hex_fixed(v / 16, (n - 1) as nat));
        assert(hex_ascii(v % 16) == if v % 16 < 10 {
            (48 + v % 16) as u8
        } else {
            (87 + v % 16) as u8
        });
        vstd::arithmetic::div_mod::lemma_fundamental_div_mod(v, 16);
    }
}

pub proof fn lemma_pow16_32()
    ensures
        pow16(32) == 0x100000000000000000000000000000000,
{
    reveal_with_fuel(pow16, 33);
}

/// Appends exactly `n` lowercase hex digits of `v` to `out`.
pub fn append_hex_fixed(v: u128, n: usize, out: &mut Vec<u8>)
    ensures
        final(out)@ == old(out)@ + hex_fixed(v as int, n as nat),
    decreases n,
{
    if n > 0 {
        append_hex_fixed(v / 16, n - 1, out);
        let d: u8 = (v % 16) as u8;
        let b: u8 = if d < 10 {
            48 + d
        } else {
            87 + d
        };
        out.push(b);
        assert(out@ =~= old(out)@ + hex_fixed(v as int, n as nat));
    } else {
        assert(out@ =~= old(out)@ + hex_fixed(v as int, 0));
    }
}

/// Appends `src[from..to]` to `out`.
pub fn append_range(src: &Vec<u8>, from: usize, to: usize, out: &mut Vec<u8>)
    requires
        from <= to <= src@.len(),
    ensures
        final(out)@ == old(out)@ + src@.subrange(from as int, to as int),
{
    let mut i: usize = from;
    while i < to
        invariant
            from <= i <= to <= src@.len(),
            out@ == old(out)@ + src@.subrange(from as int, i as int),
        decreases to - i,
    {
        let b: u8 = src[i];
        out.push(b);
        i = i + 1;
        assert(out@ =~= old(out)@ + src@.subrange(from as int, i as int));
    }
}

/// The hyphenated lowercase text form of a 128-bit id:
/// `xxxxxxxx-xxxx-xxxx-xxxx-xxxxxxxxxxxx`.
pub open spec fn uuid_ascii(v: int) -> Seq<u8> {
    let h = hex_fixed(v, 32);
    h.subrange(0, 8) + seq![45u8] + h.subrange(8, 12) + seq![45u8] + h.subrange(12, 16)
        + seq![45u8] + h.subrange(16, 20) + seq![45u8] + h.subrange(20, 32)
}

/// How many hex digits stand before position `j` of the hyphenated form.
pub open spec fn uuid_dig_count(j: int) -> int {
    if j <= 8 {
        j
    } else if j <= 13 {
        j - 1
    } else if j <= 18 {
        j - 2
    } else if j <= 23 {
        j - 3
    } else {
        j - 4
    }
}

pub open spec fn uuid_is_dash_pos(j: int) -> bool {
    j == 8 || j == 13 || j == 18 || j == 23
}

pub proof fn lemma_uuid_ascii_index(v: int, j: int)
    requires
        0 <= j < 36,
    ensures
        uuid_ascii(v).len() == 36,
        uuid_is_dash_pos(j) ==> uuid_ascii(v)[j] == 45,
        !uuid_is_dash_pos(j) ==> uuid_ascii(v)[j] == hex_fixed(v, 32)[uuid_dig_count(j)],
{
    lemma_hex_fixed_len(v, 32);
}

/// Writes `v` in the hyphenated lowercase text form.
pub fn append_uuid_text(v: u128, out: &mut Vec<u8>)
    ensures
        final(out)@ == old(out)@ + uuid_ascii(v as int),
{
    let mut h: Vec<u8> = Vec::new();
    append_hex_fixed(v, 32, &mut h);
    proof {
        lemma_hex_fixed_len(v as int, 32);
    }
    append_range(&h, 0, 8, out);
    out.push(45);
    append_range(&h, 8, 12, out);
    out.push(45);
    append_range(&h, 12, 16, out);
    out.push(45);
    append_range(&h, 16, 20, out);
    out.push(45);
    append_range(&h, 20, 32, out);
    assert(out@ =~= old(out)@ + uuid_ascii(v as int));
}

/// Reads a hyphenated lowercase 128-bit id out of `s[at..at + 36]`.
/// Whenever that window is exactly the text form of some id, this
/// returns that id.
pub fn parse_uuid_at(s: &Vec<u8>, at: usize) -> (r: Option<u128>)
    requires
        at + 36 <= s@.len(),
    ensures
        forall|v: u128|
            s@.subrange(at as int, at as int + 36) == #[trigger] uuid_ascii(v as int) ==> r
                == Some(v),
{
    let ghost w = s@.subrange(at as int, at as int + 36);
    let slen: usize = s.len();
    let mut val: u128 = 0;
    let mut j: usize = 0;
    while j < 36
        invariant
            at + 36 <= slen == s@.len(),
            0 <= j <= 36,
            w == s@.subrange(at as int, at as int + 36),
            val < pow16(uuid_dig_count(j as int) as nat),
            forall|v: u128|
                w == #[trigger] uuid_ascii(v as int) ==> val == hex_seq_val(
                    hex_fixed(v as int, 32).take(uuid_dig_count(j as int)),
                ),
        decreases 36 - j,
    {
        let b: u8 = s[at + j];
        assert(w[j as int] == b);
        if j == 8 || j == 13 || j == 18 || j == 23 {
            if b != 45 {
                proof {
                    assert forall|v: u128| w != #[trigger] uuid_ascii(v as int) by {
                        lemma_uuid_ascii_index(v as int, j as int);
                    };
                }
                return None;
            }
            proof {
                assert forall|v: u128|
                    w == #[trigger] uuid_ascii(v as int) implies val == hex_seq_val(
                    hex_fixed(v as int, 32).take(uuid_dig_count(j as int + 1)),
                ) by {
                    lemma_uuid_ascii_index(v as int, j as int);
                };
            }
        } else {
            let d: u8 = if 48 <= b && b <= 57 {
                b - 48
            } else if 97 <= b && b <= 102 {
                b - 87
            } else {
                proof {
                    assert forall|v: u128| w != #[trigger] uuid_ascii(v as int) by {
                        lemma_uuid_ascii_index(v as int, j as int);
                        lemma_hex_fixed_digits(v as int, 32);
                        lemma_hex_fixed_len(v as int, 32);
                    };
                }
                return None;
            };
            assert(is_hex_digit(b) && d == hex_digit_val(b));
            let ghost dc = uuid_dig_count(j as int);
            proof {
                lemma_pow16_increases((dc + 1) as nat, 32);
                lemma_pow16_32();
                assert(val * 16 + d < pow16((dc + 1) as nat)) by {
                    assert(pow16((dc + 1) as nat) == 16 * pow16(dc as nat));
                };
            }
            let new_val: u128 = val * 16 + (d as u128);
            proof {
                assert forall|v: u128|
                    w == #[trigger] uuid_ascii(v as int) implies new_val == hex_seq_val(
                    hex_fixed(v as int, 32).take(uuid_dig_count(j as int + 1)),
                ) by {
                    lemma_uuid_ascii_index(v as int, j as int);
                    lemma_hex_fixed_len(v as int, 32);
                    let hfx = hex_fixed(v as int, 32);
                    assert(hfx.take(dc + 1).drop_last() =~= hfx.take(dc));
                    assert(hfx.take(dc + 1).last() == hfx[dc]);
                    assert(hfx[dc] == b);
                };
            }
            val = new_val;
        }
        j = j + 1;
    }
    proof {
        assert forall|v: u128| w == #[trigger] uuid_ascii(v as int) implies val == v by {
            lemma_hex_fixed_len(v as int, 32);
            let hfx = hex_fixed(v as int, 32);
            assert(hfx.take(32) =~= hfx);
            lemma_pow16_32();
            lemma_hex_round_trip(v as int, 32);
        };
    }
    Some(val)
}

} // verus!
