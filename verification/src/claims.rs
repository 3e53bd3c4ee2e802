//! Session claims and their payload form: a JSON object
//! `{"exp":<seconds>,"sub":"<id>","verified":<bool>}` written in one
//! canonical way. The reader accepts exactly the writer's output, so a
//! decrypted payload parses back to the claims it was built from; any
//! other byte string is rejected.

use vstd::prelude::*;

use crate::digits::{
    append_dec_u64, append_range, append_uuid_text, dec_digits, dec_seq_val, is_dec_digit,
    lemma_dec_digits_are_digits, lemma_dec_prefix_bound, lemma_dec_round_trip, parse_uuid_at,
    uuid_ascii,
};

verus! {

/// A user's identity: the 128-bit value of its record id.
#[derive(Clone, Copy, Debug, PartialEq, Eq, Hash, Structural)]
pub struct UserId(pub u128);

/// What a session token carries: who, until when, and whether the
/// account's contact channel was confirmed.
#[derive(Clone, Copy, Debug, PartialEq, Eq, Structural)]
pub struct Claims {
    pub sub: UserId,
    pub exp: u64,
    pub verified: bool,
}

pub open spec fn json_head() -> Seq<u8> {
    seq![123u8, 34u8, 101u8, 120u8, 112u8, 34u8, 58u8]
}

pub open spec fn json_sub_marker() -> Seq<u8> {
    seq![44u8, 34u8, 115u8, 117u8, 98u8, 34u8, 58u8, 34u8]
}

pub open spec fn json_verified_marker() -> Seq<u8> {
    seq![34u8, 44u8, 34u8, 118u8, 101u8, 114u8, 105u8, 102u8, 105u8, 101u8, 100u8, 34u8, 58u8]
}

pub open spec fn json_tail_true() -> Seq<u8> {
    seq![116u8, 114u8, 117u8, 101u8, 125u8]
}

pub open spec fn json_tail_false() -> Seq<u8> {
    seq![102u8, 97u8, 108u8, 115u8, 101u8, 125u8]
}

/// The canonical payload bytes of a claims value.
pub open spec fn claims_json(c: Claims) -> Seq<u8> {
    json_head() + dec_digits(c.exp as int) + json_sub_marker() + uuid_ascii(c.sub.0 as int)
        + json_verified_marker() + if c.verified {
        json_tail_true()
    } else {
        json_tail_false()
    }
}

fn head_bytes() -> (r: Vec<u8>)
    ensures
        r@ == json_head(),
{
    let mut out: Vec<u8> = Vec::new();
    out.push(123);
    out.push(34);
    out.push(101);
    out.push(120);
    out.push(112);
    out.push(34);
    out.push(58);
    assert(out@ =~= json_head());
    out
}

fn sub_marker_bytes() -> (r: Vec<u8>)
    ensures
        r@ == json_sub_marker(),
{
    let mut out: Vec<u8> = Vec::new();
    out.push(44);
    out.push(34);
    out.push(115);
    out.push(117);
    out.push(98);
    out.push(34);
    out.push(58);
    out.push(34);
    assert(out@ =~= json_sub_marker());
    out
}

fn verified_marker_bytes() -> (r: Vec<u8>)
    ensures
        r@ == json_verified_marker(),
{
    let mut out: Vec<u8> = Vec::new();
    out.push(34);
    out.push(44);
    out.push(34);
    out.push(118);
    out.push(101);
    out.push(114);
    out.push(105);
    out.push(102);
    out.push(105);
    out.push(101);
    out.push(100);
    out.push(34);
    out.push(58);
    assert(out@ =~= json_verified_marker());
    out
}

fn tail_true_bytes() -> (r: Vec<u8>)
    ensures
        r@ == json_tail_true(),
{
    let mut out: Vec<u8> = Vec::new();
    out.push(116);
    out.push(114);
    out.push(117);
    out.push(101);
    out.push(125);
    assert(out@ =~= json_tail_true());
    out
}

fn tail_false_bytes() -> (r: Vec<u8>)
    ensures
        r@ == json_tail_false(),
{
    let mut out: Vec<u8> = Vec::new();
    out.push(102);
    out.push(97);
    out.push(108);
    out.push(115);
    out.push(101);
    out.push(125);
    assert(out@ =~= json_tail_false());
    out
}

/// Region layout of a canonical payload: where each part begins, given
/// the number of decimal digits of the expiry.
pub proof fn lemma_claims_json_regions(c: Claims)
    ensures
        ({
            let s = claims_json(c);
            let d = dec_digits(c.exp as int).len() as int;
            let tail = if c.verified {
                json_tail_true()
            } else {
                json_tail_false()
            };
            &&& s.len() == 64 + d + tail.len()
            &&& d >= 1
            &&& s.subrange(0, 7) == json_head()
            &&& s.subrange(7, 7 + d) == dec_digits(c.exp as int)
            &&& s.subrange(7 + d, 15 + d) == json_sub_marker()
            &&& s.subrange(15 + d, 51 + d) == uuid_ascii(c.sub.0 as int)
            &&& s.subrange(51 + d, 64 + d) == json_verified_marker()
            &&& s.subrange(64 + d, s.len() as int) == tail
        }),
{
    lemma_dec_digits_are_digits(c.exp as int);
    crate::digits::lemma_hex_fixed_len(c.sub.0 as int, 32);
    let s = claims_json(c);
    let d = dec_digits(c.exp as int).len() as int;
    let tail = if c.verified {
        json_tail_true()
    } else {
        json_tail_false()
    };
    assert(uuid_ascii(c.sub.0 as int).len() == 36);
    assert(s.subrange(0, 7) =~= json_head());
    assert(s.subrange(7, 7 + d) =~= dec_digits(c.exp as int));
    assert(s.subrange(7 + d, 15 + d) =~= json_sub_marker());
    assert(s.subrange(15 + d, 51 + d) =~= uuid_ascii(c.sub.0 as int));
    assert(s.subrange(51 + d, 64 + d) =~= json_verified_marker());
    assert(s.subrange(64 + d, s.len() as int) =~= tail);
}

/// Writes the canonical payload of `c`.
pub fn claims_to_json(c: &Claims) -> (r: Vec<u8>)
    ensures
        r@ == claims_json(*c),
{
    let mut out: Vec<u8> = head_bytes();
    append_dec_u64(c.exp, &mut out);
    let m1 = sub_marker_bytes();
    append_range(&m1, 0, 8, &mut out);
    append_uuid_text(c.sub.0, &mut out);
    let m2 = verified_marker_bytes();
    append_range(&m2, 0, 13, &mut out);
    if c.verified {
        let t = tail_true_bytes();
        append_range(&t, 0, 5, &mut out);
    } else {
        let t = tail_false_bytes();
        append_range(&t, 0, 6, &mut out);
    }
    proof {
        assert(m1@.subrange(0, 8) =~= json_sub_marker());
        assert(m2@.subrange(0, 13) =~= json_verified_marker());
        assert(json_tail_true().subrange(0, 5) =~= json_tail_true());
        assert(json_tail_false().subrange(0, 6) =~= json_tail_false());
        assert(out@ =~= claims_json(*c));
    }
    out
}

/// True when `s[at..at + pat.len()]` equals `pat`.
fn range_matches(s: &Vec<u8>, at: usize, pat: &Vec<u8>) -> (r: bool)
    requires
        at + pat@.len() <= s@.len(),
    ensures
        r == (s@.subrange(at as int, at as int + pat@.len() as int) == pat@),
{
    let n: usize = pat.len();
    let slen: usize = s.len();
    let mut t: usize = 0;
    while t < n
        invariant
            n == pat@.len(),
            at + n <= slen == s@.len(),
            0 <= t <= n,
            forall|k: int| 0 <= k < t ==> s@[at + k] == pat@[k],
        decreases n - t,
    {
        if s[at + t] != pat[t] {
            proof {
                assert(s@.subrange(at as int, at as int + n as int)[t as int] != pat@[t as int]);
            }
            return false;
        }
        t = t + 1;
    }
    proof {
        assert(s@.subrange(at as int, at as int + n as int) =~= pat@);
    }
    true
}

fn bytes_eq(a: &Vec<u8>, b: &Vec<u8>) -> (r: bool)
    ensures
        r == (a@ == b@),
{
    if a.len() != b.len() {
        return false;
    }
    let r = range_matches(a, 0, b);
    proof {
        assert(a@.subrange(0, b@.len() as int) =~= a@);
    }
    r
}

/// Reads a claims value back from payload bytes. Accepts exactly the
/// canonical form: a `Some` result re-serializes to the very input, and
/// whenever the input is the payload of some claims value, that value
/// comes back.
#[verifier::rlimit(100)]
pub fn claims_from_json(s: &Vec<u8>) -> (r: Option<Claims>)
    ensures
        match r {
            Some(c) => s@ == claims_json(c),
            None => forall|c: Claims| s@ != #[trigger] claims_json(c),
        },
{
    let slen: usize = s.len();
    // opening marker
    if slen < 70 {
        proof {
            assert forall|c: Claims| s@ != #[trigger] claims_json(c) by {
                lemma_claims_json_regions(c);
            };
        }
        return None;
    }
    let head = head_bytes();
    if !range_matches(s, 0, &head) {
        proof {
            assert forall|c: Claims| s@ != #[trigger] claims_json(c) by {
                lemma_claims_json_regions(c);
            };
        }
        return None;
    }
    // expiry digits
    let mut val: u64 = 0;
    let mut i: usize = 7;
    loop
        invariant
            slen == s@.len(),
            s@.subrange(0, 7) == json_head(),
            7 <= i <= slen,
            slen >= 70,
            forall|c: Claims|
                s@ == #[trigger] claims_json(c) ==> i - 7 <= dec_digits(c.exp as int).len()
                    && val == dec_seq_val(dec_digits(c.exp as int).take(i - 7)),
        ensures
            7 <= i < slen,
            !is_dec_digit(s@[i as int]),
            forall|c: Claims|
                s@ == #[trigger] claims_json(c) ==> i - 7 <= dec_digits(c.exp as int).len()
                    && val == dec_seq_val(dec_digits(c.exp as int).take(i - 7)),
        decreases slen - i,
    {
        if i == slen {
            // a canonical payload never ends inside the digits
            proof {
                assert forall|c: Claims| s@ != #[trigger] claims_json(c) by {
                    lemma_claims_json_regions(c);
                };
            }
            return None;
        }
        let b: u8 = s[i];
        if b < 48 || b > 57 {
            break;
        }
        let d: u8 = b - 48;
        // overflow guard: no expiry of a canonical payload exceeds u64
        if val > (u64::MAX - (d as u64)) / 10 {
            proof {
                assert forall|c: Claims| s@ != #[trigger] claims_json(c) by {
                    lemma_claims_json_regions(c);
                    let dd = dec_digits(c.exp as int);
                    let k = i - 7;
                    if s@ == claims_json(c) {
                        assert(k <= dd.len());
                        if k < dd.len() {
                            lemma_dec_prefix_bound(c.exp as int, k + 1);
                            assert(dd.take(k + 1).drop_last() =~= dd.take(k));
                            assert(s@.subrange(7, 7 + dd.len() as int)[k] == s@[7 + k]);
                            assert(dd[k] == b);
                            assert(dec_seq_val(dd.take(k + 1)) == val * 10 + d);
                            assert(val * 10 + d <= u64::MAX);
                            vstd::arithmetic::div_mod::lemma_fundamental_div_mod(
                                u64::MAX - d,
                                10,
                            );
                        } else {
                            // the byte after the digits is a comma, not a digit
                            assert(s@.subrange(7 + dd.len() as int, 15 + dd.len() as int)[0]
                                == s@[7 + dd.len() as int]);
                            assert(s@[i as int] == 44);
                        }
                    }
                };
            }
            return None;
        }
        proof {
            assert forall|c: Claims|
                s@ == #[trigger] claims_json(c) implies i + 1 - 7 <= dec_digits(
                c.exp as int,
            ).len() && val * 10 + d == dec_seq_val(
                dec_digits(c.exp as int).take(i + 1 - 7),
            ) by {
                lemma_claims_json_regions(c);
                let dd = dec_digits(c.exp as int);
                let k = i - 7;
                assert(k <= dd.len());
                if k == dd.len() {
                    // the byte after the digits is a comma, not a digit
                    assert(s@.subrange(7 + dd.len() as int, 15 + dd.len() as int)[0]
                        == s@[7 + dd.len() as int]);
                    assert(false);
                }
                assert(s@.subrange(7, 7 + dd.len() as int)[k] == s@[7 + k]);
                assert(dd[k] == b);
                assert(dd.take(k + 1).drop_last() =~= dd.take(k));
            };
        }
        val = val * 10 + (d as u64);
        i = i + 1;
    }
    // the byte that stopped the scan must open the subject field
    let ghost scan_end = i as int;
    if slen - i < 62 {
        proof {
            assert forall|c: Claims| s@ != #[trigger] claims_json(c) by {
                lemma_claims_json_regions(c);
                if s@ == claims_json(c) {
                    let dd = dec_digits(c.exp as int);
                    assert(i - 7 <= dd.len());
                    if i - 7 < dd.len() {
                        assert(s@.subrange(7, 7 + dd.len() as int)[i - 7] == s@[i as int]);
                        assert(is_dec_digit(dd[i - 7]));
                    }
                }
            };
        }
        return None;
    }
    let m1 = sub_marker_bytes();
    if !range_matches(s, i, &m1) {
        proof {
            assert forall|c: Claims| s@ != #[trigger] claims_json(c) by {
                lemma_claims_json_regions(c);
                if s@ == claims_json(c) {
                    let dd = dec_digits(c.exp as int);
                    lemma_dec_digits_are_digits(c.exp as int);
                    if i - 7 < dd.len() {
                        assert(s@.subrange(7, 7 + dd.len() as int)[i - 7] == s@[i as int]);
                        assert(is_dec_digit(dd[i - 7]));
                    }
                    assert(i - 7 == dd.len());
                    assert(s@.subrange(scan_end, scan_end + 8) =~= s@.subrange(
                        7 + dd.len() as int,
                        15 + dd.len() as int,
                    ));
                }
            };
        }
        return None;
    }
    let parsed: Option<u128> = parse_uuid_at(s, i + 8);
    let sub = match parsed {
        Some(u) => u,
        None => {
            proof {
                assert forall|c: Claims| s@ != #[trigger] claims_json(c) by {
                    lemma_claims_json_regions(c);
                    if s@ == claims_json(c) {
                        let dd = dec_digits(c.exp as int);
                        lemma_dec_digits_are_digits(c.exp as int);
                        if i - 7 < dd.len() {
                            assert(s@.subrange(7, 7 + dd.len() as int)[i - 7] == s@[i as int]);
                            assert(is_dec_digit(dd[i - 7]));
                        }
                        assert(i - 7 == dd.len());
                        assert(s@.subrange(scan_end + 8, scan_end + 44) =~= s@.subrange(
                            15 + dd.len() as int,
                            51 + dd.len() as int,
                        ));
                    }
                };
            }
            return None;
        },
    };
    let m2 = verified_marker_bytes();
    if !range_matches(s, i + 44, &m2) {
        proof {
            assert forall|c: Claims| s@ != #[trigger] claims_json(c) by {
                lemma_claims_json_regions(c);
                if s@ == claims_json(c) {
                    let dd = dec_digits(c.exp as int);
                    lemma_dec_digits_are_digits(c.exp as int);
                    if i - 7 < dd.len() {
                        assert(s@.subrange(7, 7 + dd.len() as int)[i - 7] == s@[i as int]);
                        assert(is_dec_digit(dd[i - 7]));
                    }
                    assert(i - 7 == dd.len());
                    assert(s@.subrange(scan_end + 44, scan_end + 57) =~= s@.subrange(
                        51 + dd.len() as int,
                        64 + dd.len() as int,
                    ));
                }
            };
        }
        return None;
    }
    let rest: usize = slen - (i + 57);
    let verified: bool = if rest == 5 {
        true
    } else if rest == 6 {
        false
    } else {
        proof {
            assert forall|c: Claims| s@ != #[trigger] claims_json(c) by {
                lemma_claims_json_regions(c);
                if s@ == claims_json(c) {
                    let dd = dec_digits(c.exp as int);
                    lemma_dec_digits_are_digits(c.exp as int);
                    if i - 7 < dd.len() {
                        assert(s@.subrange(7, 7 + dd.len() as int)[i - 7] == s@[i as int]);
                        assert(is_dec_digit(dd[i - 7]));
                    }
                    assert(i - 7 == dd.len());
                }
            };
        }
        return None;
    };
    let candidate = Claims { sub: UserId(sub), exp: val, verified };
    let encoded = claims_to_json(&candidate);
    if bytes_eq(s, &encoded) {
        return Some(candidate);
    }
    // the loose scan agreed with no canonical payload
    proof {
        assert forall|c: Claims| s@ != #[trigger] claims_json(c) by {
            lemma_claims_json_regions(c);
            if s@ == claims_json(c) {
                let dd = dec_digits(c.exp as int);
                lemma_dec_digits_are_digits(c.exp as int);
                if i - 7 < dd.len() {
                    assert(s@.subrange(7, 7 + dd.len() as int)[i - 7] == s@[i as int]);
                    assert(is_dec_digit(dd[i - 7]));
                }
                assert(i - 7 == dd.len());
                assert(dd.take(dd.len() as int) =~= dd);
                lemma_dec_round_trip(c.exp as int);
                assert(val == c.exp);
                assert(s@.subrange(scan_end + 8, scan_end + 44) =~= s@.subrange(
                    15 + dd.len() as int,
                    51 + dd.len() as int,
                ));
                assert(sub == c.sub.0);
                assert(verified == c.verified);
                assert(candidate == c);
                assert(encoded@ == s@);
            }
        };
    }
    None
}

} // verus!
