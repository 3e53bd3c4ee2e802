//! Telegram widget sign-in: the widget hands over profile fields, a
//! timestamp and a hash; the hash must be the HMAC-SHA256, under a
//! secret derived from the bot token, of the fields laid out in a
//! fixed key-ordered text, and the timestamp must be fresh. The hash
//! and digest themselves come from outside crates; the freshness rule
//! and the exact layout of the signed text are this module's logic.

use hmac::{Hmac, KeyInit, Mac};
use sha2::{Digest, Sha256};
use vstd::prelude::*;

use crate::digits::{append_dec_u64, dec_digits};
use vstd::string::StrSliceExecFns;
use vstd::utf8::encode_utf8;

verus! {

/// What the Telegram sign-in widget submits. A `None` field was absent
/// from the submission; `Some(None)` was present but null.
pub struct TelegramAuthDto {
    pub auth_date: i64,
    pub first_name: Option<Option<String>>,
    pub id: i64,
    pub last_name: Option<Option<String>>,
    pub photo_url: Option<Option<String>>,
    pub username: Option<Option<String>>,
    pub hash: String,
}

/// The SHA-256 digest of a byte string: a function of the input alone.
pub uninterp spec fn sha256_of(data: Seq<u8>) -> Seq<u8>;

/// The HMAC-SHA256 tag of a byte string under a key: a function of the
/// two alone.
pub uninterp spec fn hmac_sha256_of(key: Seq<u8>, data: Seq<u8>) -> Seq<u8>;

/// Lowercase hex text of a byte string, two digits a byte, high nibble
/// first.
pub open spec fn hex_lower_of(data: Seq<u8>) -> Seq<char>
    decreases data.len(),
{
    if data.len() == 0 {
        Seq::empty()
    } else {
        hex_lower_of(data.drop_last()) + seq![
            hex_lower_char(data.last() / 16),
            hex_lower_char(data.last() % 16),
        ]
    }
}

pub open spec fn hex_lower_char(d: u8) -> char {
    if d < 10 {
        ((48 + d) as u8) as char
    } else {
        ((87 + d) as u8) as char
    }
}

/// Relies on sha2's `Sha256` through the `Digest` trait: 32 bytes,
/// depending on the input alone.
#[verifier::external_body]
fn sha256(data: &Vec<u8>) -> (r: Vec<u8>)
    ensures
        r@ == sha256_of(data@),
        r@.len() == 32,
{
    Sha256::digest(data.as_slice()).to_vec()
}

/// Relies on hmac's `Hmac<Sha256>`: `new_from_slice` takes keys of any
/// length, and the tag is 32 bytes depending on key and input alone.
#[verifier::external_body]
fn hmac_sha256(key: &Vec<u8>, data: &Vec<u8>) -> (r: Vec<u8>)
    ensures
        r@ == hmac_sha256_of(key@, data@),
        r@.len() == 32,
{
    let mut mac = <Hmac<Sha256> as KeyInit>::new_from_slice(key.as_slice())
        .expect("HMAC accepts keys of any length");
    mac.update(data.as_slice());
    mac.finalize().into_bytes().to_vec()
}

/// Relies on hex's `encode`: lowercase, two digits a byte, in input
/// order.
#[verifier::external_body]
fn hex_encode(data: &Vec<u8>) -> (r: String)
    ensures
        r@ == hex_lower_of(data@),
{
    hex::encode(data.as_slice())
}

/// The widget-check secret: the SHA-256 digest of the bot token. The
/// token itself comes from the process environment, read by the
/// caller at startup.
pub fn derive_bot_secret(bot_token: &str) -> (r: Vec<u8>)
    ensures
        r@ == sha256_of(encode_utf8(bot_token@)),
        r@.len() == 32,
{
    let bytes = bot_token.as_bytes_vec();
    sha256(&bytes)
}

/// The decimal text of a signed number, as bytes.
pub open spec fn dec_i64(v: int) -> Seq<u8> {
    if v < 0 {
        seq![45u8] + dec_digits(-v)
    } else {
        dec_digits(v)
    }
}

/// Writes the decimal text of `v`.
pub fn append_dec_i64(v: i64, out: &mut Vec<u8>)
    ensures
        final(out)@ == old(out)@ + dec_i64(v as int),
{
    if v < 0 {
        out.push(45);
        let m: u64 = (-(v as i128)) as u64;
        append_dec_u64(m, out);
        proof {
            assert(m as int == -(v as int));
            assert(out@ =~= old(out)@ + dec_i64(v as int));
        }
    } else {
        append_dec_u64(v as u64, out);
    }
}

/// One optional field of the signed text: absent fields contribute
/// nothing; a present field contributes a line of its own, a null
/// value standing as the empty string.
pub open spec fn spec_field_part(key: Seq<char>, v: Option<Option<String>>) -> Seq<u8> {
    match v {
        None => Seq::empty(),
        Some(inner) => encode_utf8("\n"@) + encode_utf8(key) + match inner {
            Some(s) => encode_utf8(s@),
            None => Seq::empty(),
        },
    }
}

/// The exact byte layout of the text the widget signs: `key=value`
/// lines joined by newlines, keys in fixed alphabetical order, only
/// present fields included.
pub open spec fn spec_check_data(d: &TelegramAuthDto) -> Seq<u8> {
    encode_utf8("auth_date="@) + dec_i64(d.auth_date as int) + spec_field_part(
        "first_name="@,
        d.first_name,
    ) + encode_utf8("\nid="@) + dec_i64(d.id as int) + spec_field_part("last_name="@, d.last_name)
        + spec_field_part("photo_url="@, d.photo_url) + spec_field_part(
        "username="@,
        d.username,
    )
}

fn append_field_part(key: &str, v: &Option<Option<String>>, out: &mut Vec<u8>)
    ensures
        final(out)@ == old(out)@ + spec_field_part(key@, *v),
{
    match v {
        None => {
            proof {
                assert(out@ =~= old(out)@ + spec_field_part(key@, *v));
            }
        },
        Some(inner) => {
            let mut part = "\n".as_bytes_vec();
            out.append(&mut part);
            let mut part = key.as_bytes_vec();
            out.append(&mut part);
            match inner {
                Some(s) => {
                    let mut part = s.as_str().as_bytes_vec();
                    out.append(&mut part);
                },
                None => {},
            }
            proof {
                assert(out@ =~= old(out)@ + spec_field_part(key@, *v));
            }
        },
    }
}

/// Lays the submitted fields out as the text the widget signed.
pub fn build_check_data(d: &TelegramAuthDto) -> (r: Vec<u8>)
    ensures
        r@ == spec_check_data(d),
{
    let mut out = "auth_date=".as_bytes_vec();
    append_dec_i64(d.auth_date, &mut out);
    append_field_part("first_name=", &d.first_name, &mut out);
    let mut part = "\nid=".as_bytes_vec();
    out.append(&mut part);
    append_dec_i64(d.id, &mut out);
    append_field_part("last_name=", &d.last_name, &mut out);
    append_field_part("photo_url=", &d.photo_url, &mut out);
    append_field_part("username=", &d.username, &mut out);
    proof {
        assert(out@ =~= spec_check_data(d));
    }
    out
}

/// When a submission passes: received no more than five minutes past
/// its own timestamp, and carrying exactly the lowercase hex HMAC of
/// the signed text under the bot secret.
pub open spec fn spec_telegram_auth_valid(
    d: &TelegramAuthDto,
    secret: Seq<u8>,
    now: int,
) -> bool {
    &&& now - d.auth_date <= 300
    &&& d.hash@ == hex_lower_of(hmac_sha256_of(secret, spec_check_data(d)))
}

/// Checks a widget submission against the bot secret at clock reading
/// `now`. The caller waits out the timing guard around this check.
pub fn verify_telegram_hash(data: &TelegramAuthDto, secret_key: &Vec<u8>, now: i64) -> (r: bool)
    ensures
        r == spec_telegram_auth_valid(data, secret_key@, now as int),
{
    let age: i128 = (now as i128) - (data.auth_date as i128);
    if age > 300 {
        return false;
    }
    let check = build_check_data(data);
    let tag = hmac_sha256(secret_key, &check);
    let tag_hex = hex_encode(&tag);
    tag_hex == data.hash
}

} // verus!
