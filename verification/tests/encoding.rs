//! The wire encodings: claims payloads, identifier text, decimal
//! text, cookie values, and the status-code mapping.

use nri_core::claims::{claims_from_json, claims_to_json, Claims, UserId};
use nri_core::cookie::{
    render_auth_cookie, render_removal_cookie, render_widget_removal_cookie,
};
use nri_core::digits::{i64_to_string, u64_to_string};
use nri_core::errors::{AppError, EScenarioStatus};

#[test]
fn claims_payload_has_the_documented_shape() {
    let c = Claims {
        sub: UserId(0x00112233445566778899aabbccddeeffu128),
        exp: 1_700_000_000,
        verified: true,
    };
    let json = claims_to_json(&c);
    assert_eq!(
        String::from_utf8(json).unwrap(),
        r#"{"exp":1700000000,"sub":"00112233-4455-6677-8899-aabbccddeeff","verified":true}"#
    );
    let c2 = Claims { verified: false, ..c };
    let json = claims_to_json(&c2);
    assert_eq!(
        String::from_utf8(json).unwrap(),
        r#"{"exp":1700000000,"sub":"00112233-4455-6677-8899-aabbccddeeff","verified":false}"#
    );
}

#[test]
fn claims_payload_is_ordinary_json() {
    let c = Claims {
        sub: UserId(0x00112233445566778899aabbccddeeffu128),
        exp: 1_700_000_000,
        verified: true,
    };
    let json = claims_to_json(&c);
    let v: serde_json::Value = serde_json::from_slice(&json).expect("the payload is valid JSON");
    assert_eq!(v["exp"].as_u64(), Some(1_700_000_000));
    assert_eq!(v["sub"].as_str(), Some("00112233-4455-6677-8899-aabbccddeeff"));
    assert_eq!(v["verified"].as_bool(), Some(true));
}

#[test]
fn id_text_matches_the_uuid_crate() {
    for x in [0u128, u128::MAX, 0x00112233445566778899aabbccddeeffu128] {
        let expected = uuid::Uuid::from_u128(x).hyphenated().to_string();
        let mut out: Vec<u8> = Vec::new();
        nri_core::digits::append_uuid_text(x, &mut out);
        assert_eq!(String::from_utf8(out).unwrap(), expected);
    }
}

#[test]
fn claims_payload_round_trips() {
    for (sub, exp, verified) in [
        (0u128, 0u64, false),
        (u128::MAX, u64::MAX, true),
        (0x00112233445566778899aabbccddeeffu128, 1_700_000_000u64, true),
    ] {
        let c = Claims { sub: UserId(sub), exp, verified };
        let json = claims_to_json(&c);
        assert_eq!(claims_from_json(&json), Some(c));
    }
}

#[test]
fn claims_reader_rejects_other_shapes() {
    let reject = |s: &str| {
        assert_eq!(claims_from_json(&s.as_bytes().to_vec()), None, "accepted: {}", s);
    };
    reject("");
    reject("{}");
    reject("not json");
    reject(r#"{"sub":"00112233-4455-6677-8899-aabbccddeeff","exp":1,"verified":true}"#);
    reject(r#"{"exp":01,"sub":"00112233-4455-6677-8899-aabbccddeeff","verified":true}"#);
    reject(r#"{"exp":1,"sub":"00112233-4455-6677-8899-AABBCCDDEEFF","verified":true}"#);
    reject(r#"{"exp":1,"sub":"001122334455-6677-8899-aabbccddeeff","verified":true}"#);
    reject(r#"{"exp":1,"sub":"00112233-4455-6677-8899-aabbccddeeff","verified":null}"#);
    reject(r#"{"exp":99999999999999999999,"sub":"00112233-4455-6677-8899-aabbccddeeff","verified":true}"#);
    reject(r#"{"exp":1,"sub":"00112233-4455-6677-8899-aabbccddeeff","verified":true} "#);
}

#[test]
fn decimal_text_is_exact() {
    assert_eq!(u64_to_string(0), "0");
    assert_eq!(u64_to_string(7), "7");
    assert_eq!(u64_to_string(3600), "3600");
    assert_eq!(u64_to_string(u64::MAX), "18446744073709551615");
    assert_eq!(i64_to_string(0), "0");
    assert_eq!(i64_to_string(-1), "-1");
    assert_eq!(i64_to_string(i64::MIN), "-9223372036854775808");
    assert_eq!(i64_to_string(i64::MAX), "9223372036854775807");
}

#[test]
fn cookie_values_are_exact() {
    assert_eq!(
        render_auth_cookie("session", "tok", false, false),
        "session=tok; SameSite; HttpOnly; path=/api; max-age=3600"
    );
    assert_eq!(
        render_auth_cookie("session", "tok", true, true),
        "session=tok; SameSite=None; Secure; HttpOnly; path=/api; max-age=3600"
    );
    assert_eq!(
        render_removal_cookie("session", false, false),
        "session=; SameSite; HttpOnly; path=/api; max-age=0"
    );
    assert_eq!(
        render_removal_cookie("session", true, true),
        "session=; SameSite=None; Secure; HttpOnly; path=/api; max-age=0"
    );
    assert_eq!(
        render_widget_removal_cookie(),
        "stel_ssid=; samesite=None; secure; HttpOnly; path=/; max-age=0"
    );
}

#[test]
fn status_codes_round_trip() {
    let all = [
        EScenarioStatus::SCENARIO_SUCCESS,
        EScenarioStatus::SCENARIO_FAIL,
        EScenarioStatus::UNAUTHORIZED,
        EScenarioStatus::SESSION_EXPIRED,
        EScenarioStatus::SYSTEM_ERROR,
    ];
    let codes = [0u16, 400, 401, 419, 500];
    for (s, c) in all.iter().zip(codes.iter()) {
        assert_eq!(s.status_code(), *c);
        assert_eq!(EScenarioStatus::from_status_code(*c), Some(*s));
    }
    assert_eq!(EScenarioStatus::from_status_code(404), None);
    assert_eq!(EScenarioStatus::from_status_code(1), None);
}

#[test]
fn errors_map_to_their_status_class() {
    assert_eq!(
        AppError::scenario_error("m", None).status(),
        EScenarioStatus::SCENARIO_FAIL
    );
    assert_eq!(AppError::unauthorized("m").status(), EScenarioStatus::UNAUTHORIZED);
    assert_eq!(AppError::SessionExpired.status(), EScenarioStatus::SESSION_EXPIRED);
    assert_eq!(AppError::system_error("m").status(), EScenarioStatus::SYSTEM_ERROR);
}
