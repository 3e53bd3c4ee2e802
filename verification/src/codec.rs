//! Session token codec: claims are written as their canonical payload
//! and sealed into a compact encrypted token (JWE, ECDH-ES key
//! agreement with A256GCM content encryption) under a process-wide key
//! pair. Verification is a pure validation boundary: every decode
//! failure, of whatever kind, becomes "no claims".

use vstd::prelude::*;

use crate::claims::{claims_from_json, claims_json, claims_to_json, Claims, UserId};
use crate::digits::{dec_digits, lemma_dec_round_trip};
use crate::errors::{AppError, AppErrorView};
use vstd::string::StringExecFns;

verus! {

/// How long an issued session lives, in seconds.
pub const SESSION_LIFETIME: u64 = 3600;

/// The key-agreement algorithm name an accepted token must declare.
pub open spec fn ecdh_es_name() -> Seq<char> {
    "ECDH-ES"@
}

/// The content-encryption name an accepted token must declare.
pub open spec fn a256gcm_name() -> Seq<char> {
    "A256GCM"@
}

/// The process-wide key material, loaded once at startup: two
/// PEM-encoded keys of one elliptic-curve pair.
pub struct SessionKeys {
    pub private_pem: Vec<u8>,
    pub public_pem: Vec<u8>,
}

/// What decrypting a compact token under a private key yields: the
/// payload bytes and the declared algorithm and content-encryption
/// names, or nothing. Decryption is a function of the token and the
/// key alone.
pub uninterp spec fn jwe_decrypt_of(token: Seq<char>, private_pem: Seq<u8>) -> Option<
    (Seq<u8>, Seq<char>, Seq<char>),
>;

/// Whether two PEM-encoded keys form one elliptic-curve pair, so that
/// what one seals the other opens.
pub uninterp spec fn is_key_pair(private_pem: Seq<u8>, public_pem: Seq<u8>) -> bool;

/// Whether a PEM byte string is an EC private key the decrypter accepts.
pub uninterp spec fn private_pem_ok(pem: Seq<u8>) -> bool;

/// Whether a PEM byte string is an EC public key the encrypter accepts.
pub uninterp spec fn public_pem_ok(pem: Seq<u8>) -> bool;

/// Relies on josekit's `EcdhEsJweAlgorithm::decrypter_from_pem`: whether
/// it accepts a PEM depends on the bytes alone.
#[verifier::external_body]
fn check_private_pem(pem: &Vec<u8>) -> (r: bool)
    ensures
        r == private_pem_ok(pem@),
{
    josekit::jwe::ECDH_ES.decrypter_from_pem(pem.as_slice()).is_ok()
}

/// Relies on josekit's `EcdhEsJweAlgorithm::encrypter_from_pem`: whether
/// it accepts a PEM depends on the bytes alone.
#[verifier::external_body]
fn check_public_pem(pem: &Vec<u8>) -> (r: bool)
    ensures
        r == public_pem_ok(pem@),
{
    josekit::jwe::ECDH_ES.encrypter_from_pem(pem.as_slice()).is_ok()
}

/// Relies on josekit's `jwe::serialize_compact` with an ECDH-ES
/// encrypter and an `enc` of A256GCM: when the two PEMs form one key
/// pair, the produced token deserializes under the private key to the
/// same payload, declaring "ECDH-ES" and "A256GCM".
#[verifier::external_body]
fn jwe_encrypt(payload: &Vec<u8>, keys: &SessionKeys) -> (r: Option<String>)
    ensures
        r matches Some(token) ==> (is_key_pair(keys.private_pem@, keys.public_pem@)
            ==> jwe_decrypt_of(token@, keys.private_pem@) == Some(
            (payload@, ecdh_es_name(), a256gcm_name()),
        )),
{
    let encrypter = josekit::jwe::ECDH_ES.encrypter_from_pem(keys.public_pem.as_slice()).ok()?;
    let mut header = josekit::jwe::JweHeader::new();
    header.set_content_encryption("A256GCM");
    josekit::jwe::serialize_compact(payload.as_slice(), &header, &encrypter).ok()
}

/// Relies on josekit's `EcdhEsJweAlgorithm::decrypter_from_pem` and
/// `jwe::deserialize_compact`, plus the header accessors `algorithm`
/// and `content_encryption`; the outcome is a function of the token
/// and the private key alone.
#[verifier::external_body]
fn jwe_decrypt(token: &str, private_pem: &Vec<u8>) -> (r: Option<(Vec<u8>, String, String)>)
    ensures
        match r {
            Some(t) => jwe_decrypt_of(token@, private_pem@) == Some((t.0@, t.1@, t.2@)),
            None => jwe_decrypt_of(token@, private_pem@) is None,
        },
{
    let decrypter = josekit::jwe::ECDH_ES.decrypter_from_pem(private_pem.as_slice()).ok()?;
    let (payload, header) = josekit::jwe::deserialize_compact(token, &decrypter).ok()?;
    let alg = header.algorithm()?.to_owned();
    let enc = header.content_encryption()?.to_owned();
    Some((payload, alg, enc))
}

/// Two distinct claims values never share a payload.
pub proof fn lemma_claims_json_injective(c1: Claims, c2: Claims)
    requires
        claims_json(c1) == claims_json(c2),
    ensures
        c1 == c2,
{
    crate::claims::lemma_claims_json_regions(c1);
    crate::claims::lemma_claims_json_regions(c2);
    crate::digits::lemma_dec_digits_are_digits(c1.exp as int);
    crate::digits::lemma_dec_digits_are_digits(c2.exp as int);
    let s = claims_json(c1);
    let d1 = dec_digits(c1.exp as int).len() as int;
    let d2 = dec_digits(c2.exp as int).len() as int;
    // the digit runs end at the same comma, so they have one length
    if d1 < d2 {
        assert(s.subrange(7 + d1, 15 + d1)[0] == s[7 + d1]);
        assert(s.subrange(7, 7 + d2)[d1] == s[7 + d1]);
        assert(false);
    }
    if d2 < d1 {
        assert(s.subrange(7 + d2, 15 + d2)[0] == s[7 + d2]);
        assert(s.subrange(7, 7 + d1)[d2] == s[7 + d2]);
        assert(false);
    }
    let d = d1;
    assert(dec_digits(c1.exp as int) == dec_digits(c2.exp as int));
    lemma_dec_round_trip(c1.exp as int);
    lemma_dec_round_trip(c2.exp as int);
    assert(c1.exp == c2.exp);
    assert(crate::digits::uuid_ascii(c1.sub.0 as int) == crate::digits::uuid_ascii(
        c2.sub.0 as int,
    ));
    lemma_uuid_ascii_injective(c1.sub.0, c2.sub.0);
    // the tails have distinct lengths, so one length means one flag
    if c1.verified != c2.verified {
        assert(s.len() == 64 + d + 5 || s.len() == 64 + d + 6);
        assert(false);
    }
}

/// Two distinct ids never share a hyphenated text form.
pub proof fn lemma_uuid_ascii_injective(v1: u128, v2: u128)
    requires
        crate::digits::uuid_ascii(v1 as int) == crate::digits::uuid_ascii(v2 as int),
    ensures
        v1 == v2,
{
    crate::digits::lemma_hex_fixed_len(v1 as int, 32);
    crate::digits::lemma_hex_fixed_len(v2 as int, 32);
    let h1 = crate::digits::hex_fixed(v1 as int, 32);
    let h2 = crate::digits::hex_fixed(v2 as int, 32);
    assert forall|k: int| 0 <= k < 32 implies h1[k] == h2[k] by {
        let j: int = if k < 8 {
            k
        } else if k < 12 {
            k + 1
        } else if k < 16 {
            k + 2
        } else if k < 20 {
            k + 3
        } else {
            k + 4
        };
        crate::digits::lemma_uuid_ascii_index(v1 as int, j);
        crate::digits::lemma_uuid_ascii_index(v2 as int, j);
    };
    assert(h1 =~= h2);
    crate::digits::lemma_pow16_32();
    crate::digits::lemma_hex_round_trip(v1 as int, 32);
    crate::digits::lemma_hex_round_trip(v2 as int, 32);
}

/// The claims value a payload byte string stands for, if any.
pub open spec fn spec_payload_claims(payload: Seq<u8>) -> Option<Claims> {
    if exists|c: Claims| payload == claims_json(c) {
        Some(choose|c: Claims| payload == claims_json(c))
    } else {
        None
    }
}

/// What verifying a token under a private key yields: the claims of
/// the decrypted payload when the declared algorithm and content
/// encryption are the expected pair and the payload is a canonical
/// claims payload; nothing otherwise.
pub open spec fn spec_verify(token: Seq<char>, private_pem: Seq<u8>) -> Option<Claims> {
    match jwe_decrypt_of(token, private_pem) {
        Some(parts) => if parts.1 == ecdh_es_name() && parts.2 == a256gcm_name() {
            spec_payload_claims(parts.0)
        } else {
            None
        },
        None => None,
    }
}

impl SessionKeys {
    /// The explicit startup step: accepts the two PEM byte strings only
    /// when the decrypter and the encrypter both take them. Absent or
    /// malformed key material must stop the process, so failure is an
    /// error, never a degraded state.
    pub fn load(private_pem: Vec<u8>, public_pem: Vec<u8>) -> (r: Result<SessionKeys, AppError>)
        ensures
            match r {
                Ok(keys) => keys.private_pem@ == private_pem@ && keys.public_pem@ == public_pem@
                    && private_pem_ok(private_pem@) && public_pem_ok(public_pem@),
                Err(e) => (!private_pem_ok(private_pem@) || !public_pem_ok(public_pem@)) && e@
                    matches AppErrorView::System(_),
            },
    {
        if !check_private_pem(&private_pem) {
            return Err(AppError::system_error("can't read a private key"));
        }
        if !check_public_pem(&public_pem) {
            return Err(AppError::system_error("can't read a public key"));
        }
        Ok(SessionKeys { private_pem, public_pem })
    }

    /// Builds claims expiring `SESSION_LIFETIME` seconds past `now` and
    /// seals them. Under a matching key pair, the issued token verifies
    /// back to exactly those claims. A clock so late that the expiry
    /// leaves the representable range is its own system error, told
    /// apart from a failure of the encrypter.
    pub fn issue(&self, sub: UserId, verified: bool, now: u64) -> (r: Result<String, AppError>)
        ensures
            now + SESSION_LIFETIME > u64::MAX ==> (r matches Err(e) && e@ == AppErrorView::System(
                "Time went backwards"@,
            )),
            now + SESSION_LIFETIME <= u64::MAX ==> match r {
                Ok(token) => is_key_pair(self.private_pem@, self.public_pem@) ==> spec_verify(
                    token@,
                    self.private_pem@,
                ) == Some(Claims { sub, exp: (now + SESSION_LIFETIME) as u64, verified }),
                Err(e) => e@ == AppErrorView::System("Token encryption failed"@),
            },
    {
        let exp = match now.checked_add(SESSION_LIFETIME) {
            Some(exp) => exp,
            None => {
                return Err(AppError::system_error("Time went backwards"));
            },
        };
        let c = Claims { sub, exp, verified };
        let payload = claims_to_json(&c);
        match jwe_encrypt(&payload, self) {
            Some(token) => {
                proof {
                    if is_key_pair(self.private_pem@, self.public_pem@) {
                        let parts = jwe_decrypt_of(token@, self.private_pem@)->Some_0;
                        assert(parts.0 == claims_json(c));
                        assert(exists|cc: Claims| parts.0 == claims_json(cc));
                        let cc = choose|cc: Claims| parts.0 == claims_json(cc);
                        lemma_claims_json_injective(c, cc);
                    }
                }
                Ok(token)
            },
            None => Err(AppError::system_error("Token encryption failed")),
        }
    }

    /// Opens a token and returns its claims, or nothing. All decode
    /// failures (wrong key, tampered bytes, foreign algorithm names, a
    /// payload of another shape) end here as `None`; the expiry is
    /// deliberately not examined, that classification belongs to the
    /// caller.
    pub fn verify(&self, token: &str) -> (r: Option<Claims>)
        ensures
            r == spec_verify(token@, self.private_pem@),
    {
        let parts = match jwe_decrypt(token, &self.private_pem) {
            Some(parts) => parts,
            None => {
                return None;
            },
        };
        let (payload, alg, enc) = parts;
        let expected_alg = String::from_str("ECDH-ES");
        let expected_enc = String::from_str("A256GCM");
        if !(alg == expected_alg) || !(enc == expected_enc) {
            return None;
        }
        let parsed = claims_from_json(&payload);
        proof {
            match parsed {
                Some(c) => {
                    assert(exists|cc: Claims| payload@ == claims_json(cc));
                    let cc = choose|cc: Claims| payload@ == claims_json(cc);
                    lemma_claims_json_injective(c, cc);
                },
                None => {
                },
            }
        }
        parsed
    }
}

/// Issuing and then verifying under one key pair gives back the very
/// subject and flag that were issued, with the expiry one session
/// lifetime past the clock reading — stated over the codec's
/// mathematical functions.
pub proof fn lemma_issue_verify_round_trip(
    token: Seq<char>,
    private_pem: Seq<u8>,
    sub: UserId,
    verified: bool,
    exp: u64,
)
    requires
        jwe_decrypt_of(token, private_pem) == Some(
            (claims_json(Claims { sub, exp, verified }), ecdh_es_name(), a256gcm_name()),
        ),
    ensures
        spec_verify(token, private_pem) == Some(Claims { sub, exp, verified }),
{
    let c = Claims { sub, exp, verified };
    assert(exists|cc: Claims| claims_json(c) == claims_json(cc));
    let cc = choose|cc: Claims| claims_json(c) == claims_json(cc);
    lemma_claims_json_injective(c, cc);
}

} // verus!
