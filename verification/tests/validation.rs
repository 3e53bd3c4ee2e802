//! Submission validation, the workflow gates, image sniffing, and the
//! Telegram widget check against the real digest crates.

use hmac::{Hmac, KeyInit, Mac};
use nri_core::company::ApiUpdateCompanyDto;
use nri_core::dto::{
    check_email, normalize_profile_update, validate_registration, validate_sign_in,
};
use nri_core::errors::AppError;
use nri_core::flows::{
    apply_gate, approve_gate, email_verification_outcome, master_gate, reject_gate, tg_nickname,
    verification_channel_supported, AppForApproval, ApplyGate, ApprovalGate, EventForApplying,
    MasterGate,
};
use nri_core::image::{classify_remote_image, is_image_header};
use nri_core::locations::validate_map_link;
use nri_core::shared::Missable;
use nri_core::telegram::{build_check_data, derive_bot_secret, verify_telegram_hash, TelegramAuthDto};
use sha2::{Digest, Sha256};

#[test]
fn email_shape_accepts_and_rejects() {
    assert!(check_email("a@b.c"));
    assert!(check_email("player.one+tag@mail.example.org"));
    assert!(check_email("a@b.c.d"));
    assert!(check_email("UPPER@CASE.OK"));
    assert!(!check_email(""));
    assert!(!check_email("plain"));
    assert!(!check_email("@b.c"));
    assert!(!check_email("a@b@c.d"));
    assert!(!check_email("a b@c.d"));
    assert!(!check_email("a@bc"));
    assert!(!check_email("a@.c"));
    assert!(!check_email("a@bc."));
    assert!(!check_email("a.b@cd"));
    assert!(!check_email("a\u{00A0}x@b.c"));
    assert!(!check_email("a@b.c\n"));
}

#[test]
fn registration_validation_checks_in_order() {
    assert!(validate_registration(
        "nick".to_string(),
        "a@b.c".to_string(),
        "pw".to_string(),
        Some(-12)
    )
    .is_ok());
    let msg = |r: Result<nri_core::dto::RegistrationEmailDto, AppError>| match r {
        Err(AppError::ScenarioError(m, None)) => m,
        other => panic!("expected a scenario error, got {:?}", other.is_ok()),
    };
    assert_eq!(
        msg(validate_registration("".into(), "a@b.c".into(), "pw".into(), None)),
        "Invalid nickname"
    );
    assert_eq!(
        msg(validate_registration("n".into(), "bad".into(), "pw".into(), None)),
        "Invalid email address"
    );
    assert_eq!(
        msg(validate_registration("n".into(), "a@b.c".into(), "".into(), None)),
        "Invalid password"
    );
    assert_eq!(
        msg(validate_registration("n".into(), "a@b.c".into(), "pw".into(), Some(13))),
        "Invalid timezone offset"
    );
    assert_eq!(
        msg(validate_registration("n".into(), "a@b.c".into(), "pw".into(), Some(-13))),
        "Invalid timezone offset"
    );
}

#[test]
fn sign_in_validation() {
    assert!(validate_sign_in("a@b.c".into(), "pw".into()).is_ok());
    assert!(matches!(
        validate_sign_in("nope".into(), "pw".into()),
        Err(AppError::ScenarioError(m, None)) if m == "Invalid email address"
    ));
    assert!(matches!(
        validate_sign_in("a@b.c".into(), "".into()),
        Err(AppError::ScenarioError(m, None)) if m == "Invalid password"
    ));
}

#[test]
fn profile_update_normalizes_timezone_fields() {
    let d = normalize_profile_update("n".into(), None, None, Some(5), Some("own".into()))
        .expect("a personal offset in range passes");
    assert_eq!(d.own_tz, Some(5));
    assert_eq!(d.tz_variant.as_deref(), Some("own"));
    assert!(matches!(
        normalize_profile_update("n".into(), None, None, Some(13), Some("own".into())),
        Err(AppError::ScenarioError(m, None)) if m == "Invalid personal timezone offset"
    ));
    assert!(matches!(
        normalize_profile_update("n".into(), None, None, None, Some("own".into())),
        Err(AppError::ScenarioError(m, None)) if m == "No personal timezone offset given"
    ));
    let d = normalize_profile_update("n".into(), None, None, Some(5), Some("city".into()))
        .expect("the city variant passes");
    assert_eq!(d.own_tz, None);
    assert_eq!(d.tz_variant.as_deref(), Some("city"));
    let d = normalize_profile_update("n".into(), None, None, Some(5), Some("device".into()))
        .expect("the device variant passes");
    assert_eq!(d.own_tz, None);
    assert_eq!(d.tz_variant.as_deref(), Some("device"));
    let d = normalize_profile_update("n".into(), None, None, Some(5), Some("odd".into()))
        .expect("an unknown variant is dropped");
    assert_eq!(d.own_tz, None);
    assert_eq!(d.tz_variant, None);
    let d = normalize_profile_update("n".into(), None, None, Some(5), None)
        .expect("no variant drops the offset");
    assert_eq!(d.own_tz, None);
    assert_eq!(d.tz_variant, None);
}

#[test]
fn map_links_of_known_services_only() {
    assert!(validate_map_link(&None));
    assert!(validate_map_link(&Some("https://2gis.ru/spb/firm/1".to_string())));
    assert!(validate_map_link(&Some("https://yandex.ru/maps/2/spb".to_string())));
    assert!(validate_map_link(&Some("https://google.com/maps/place/x".to_string())));
    assert!(!validate_map_link(&Some("https://example.com/maps/".to_string())));
    assert!(!validate_map_link(&Some("http://2gis.ru/".to_string())));
    assert!(!validate_map_link(&Some("".to_string())));
}

#[test]
fn company_update_emptiness_ignores_event_style() {
    let empty = ApiUpdateCompanyDto { name: None, system: None, description: None, event_style: None };
    assert!(empty.is_empty());
    let style_only = ApiUpdateCompanyDto {
        name: None,
        system: None,
        description: None,
        event_style: Some(Some("open table".to_string())),
    };
    assert!(style_only.is_empty());
    let named = ApiUpdateCompanyDto {
        name: Some(Some("The Keep".to_string())),
        system: None,
        description: None,
        event_style: None,
    };
    assert!(!named.is_empty());
    let nulled = ApiUpdateCompanyDto {
        name: None,
        system: Some(None),
        description: None,
        event_style: None,
    };
    assert!(!nulled.is_empty());
}

#[test]
fn missable_tells_missing_from_null() {
    assert_eq!(Missable::<String>::default(), Missable::Missed);
    assert_eq!(Missable::Present(Some("v".to_string())).deep_unwrap_or_default(), "v");
    assert_eq!(Missable::<String>::Present(None).deep_unwrap_or_default(), "");
    assert_eq!(Missable::<String>::Missed.deep_unwrap_or_default(), "");
    assert_eq!(
        Missable::Present(Some("v".to_string())).deep_unwrap_or_else(|| "f".to_string()),
        "v"
    );
    assert_eq!(
        Missable::<String>::Present(None).deep_unwrap_or_else(|| "f".to_string()),
        "f"
    );
    assert_eq!(Missable::<String>::Missed.deep_unwrap_or_else(|| "f".to_string()), "f");
}

#[test]
fn telegram_check_data_layout_is_exact() {
    let dto = TelegramAuthDto {
        auth_date: 1000,
        first_name: Some(Some("Ann".to_string())),
        id: 42,
        last_name: None,
        photo_url: Some(None),
        username: None,
        hash: String::new(),
    };
    assert_eq!(
        build_check_data(&dto),
        b"auth_date=1000\nfirst_name=Ann\nid=42\nphoto_url=".to_vec()
    );
    let bare = TelegramAuthDto {
        auth_date: -5,
        first_name: None,
        id: -7,
        last_name: None,
        photo_url: None,
        username: None,
        hash: String::new(),
    };
    assert_eq!(build_check_data(&bare), b"auth_date=-5\nid=-7".to_vec());
}

#[test]
fn telegram_hash_verifies_against_real_digests() {
    let secret = derive_bot_secret("123456:bot-token");
    let expected: Vec<u8> = Sha256::digest(b"123456:bot-token").to_vec();
    assert_eq!(secret, expected);

    let mut dto = TelegramAuthDto {
        auth_date: 1000,
        first_name: Some(Some("Ann".to_string())),
        id: 42,
        last_name: Some(Some("Lee".to_string())),
        photo_url: None,
        username: Some(Some("ann_lee".to_string())),
        hash: String::new(),
    };
    let check = build_check_data(&dto);
    let mut mac = <Hmac<Sha256> as KeyInit>::new_from_slice(&secret).unwrap();
    mac.update(&check);
    dto.hash = hex::encode(mac.finalize().into_bytes());

    assert!(verify_telegram_hash(&dto, &secret, 1200));
    // five minutes past the timestamp the submission is stale
    assert!(!verify_telegram_hash(&dto, &secret, 1302));
    // a reordered or retyped hash fails
    let mut wrong = TelegramAuthDto { hash: "0".repeat(64), ..dto };
    assert!(!verify_telegram_hash(&wrong, &secret, 1200));
    // a different secret fails
    wrong.hash = String::new();
    let other_secret = derive_bot_secret("another-token");
    let check = build_check_data(&wrong);
    let mut mac = <Hmac<Sha256> as KeyInit>::new_from_slice(&other_secret).unwrap();
    mac.update(&check);
    wrong.hash = hex::encode(mac.finalize().into_bytes());
    assert!(!verify_telegram_hash(&wrong, &secret, 1200));
}

#[test]
fn tg_nickname_falls_back_in_order() {
    assert_eq!(
        tg_nickname(Some(Some("ann".to_string())), Some(Some("Ann".to_string())), 42),
        "ann"
    );
    assert_eq!(tg_nickname(Some(None), Some(Some("Ann".to_string())), 42), "Ann");
    assert_eq!(tg_nickname(None, Some(None), 42), "user_42");
    assert_eq!(tg_nickname(None, None, -3), "user_-3");
}

#[test]
fn verification_channels_and_outcomes() {
    assert!(verification_channel_supported("email"));
    assert!(!verification_channel_supported("telegram"));
    assert!(!verification_channel_supported(""));
    assert!(matches!(
        email_verification_outcome(None),
        Err(AppError::ScenarioError(m, None)) if m == "Invalid verification link"
    ));
    assert!(matches!(
        email_verification_outcome(Some((true, false))),
        Err(AppError::ScenarioError(m, None)) if m == "Verification link expired"
    ));
    assert!(matches!(
        email_verification_outcome(Some((false, false))),
        Err(AppError::ScenarioError(m, None)) if m == "Email was already verified"
    ));
    assert!(email_verification_outcome(Some((false, true))).is_ok());
}

#[test]
fn image_signatures() {
    let mut h = vec![0u8; 12];
    assert!(!is_image_header(&h));
    h[0] = 0xFF;
    h[1] = 0xD8;
    assert!(is_image_header(&h));
    let png = vec![0x89, 0x50, 0x4E, 0x47, 0x0D, 0x0A, 0x1A, 0x0A, 0, 0, 0, 0];
    assert!(is_image_header(&png));
    let gif87 = b"GIF87a\0\0\0\0\0\0".to_vec();
    let gif89 = b"GIF89a\0\0\0\0\0\0".to_vec();
    assert!(is_image_header(&gif87));
    assert!(is_image_header(&gif89));
    let webp = b"RIFF\0\0\0\0WEBP".to_vec();
    assert!(is_image_header(&webp));
    let avif = b"ftyp\0\0\0\0avif".to_vec();
    assert!(is_image_header(&avif));
    let riff_only = b"RIFF\0\0\0\0WAVE".to_vec();
    assert!(!is_image_header(&riff_only));

    assert!(classify_remote_image(Some(&png)).is_ok());
    assert!(matches!(
        classify_remote_image(Some(&riff_only)),
        Err(AppError::ScenarioError(m, None)) if m == "The link does not point to an image file"
    ));
    assert!(matches!(
        classify_remote_image(None),
        Err(AppError::SystemError(m)) if m == "Image link check failed"
    ));
}

#[test]
fn approval_gates() {
    let now = 2_000;
    assert_eq!(approve_gate(None, now), ApprovalGate::Missing);
    let base = AppForApproval { approval: None, event_cancelled: false, event_date: 3_000 };
    assert_eq!(approve_gate(Some(AppForApproval { ..base }), now), ApprovalGate::Proceed);
    assert_eq!(
        approve_gate(Some(AppForApproval { approval: Some(true), ..base }), now),
        ApprovalGate::AlreadyDecided
    );
    assert_eq!(
        approve_gate(Some(AppForApproval { approval: Some(false), ..base }), now),
        ApprovalGate::Proceed
    );
    assert_eq!(
        approve_gate(Some(AppForApproval { event_cancelled: true, ..base }), now),
        ApprovalGate::Cancelled
    );
    assert_eq!(
        approve_gate(Some(AppForApproval { event_date: 1_000, ..base }), now),
        ApprovalGate::Over
    );
    assert_eq!(reject_gate(None, now), ApprovalGate::Missing);
    assert_eq!(
        reject_gate(Some(AppForApproval { approval: Some(false), ..base }), now),
        ApprovalGate::AlreadyDecided
    );
    assert_eq!(
        reject_gate(Some(AppForApproval { approval: Some(true), ..base }), now),
        ApprovalGate::Proceed
    );
}

#[test]
fn apply_and_master_gates() {
    assert_eq!(apply_gate(None), ApplyGate::Missing);
    let base = EventForApplying {
        master_id: nri_core::claims::UserId(9),
        you_are_master: false,
        already_applied: false,
        cancelled: false,
        can_auto_approve: true,
    };
    assert_eq!(apply_gate(Some(&base)), ApplyGate::Proceed { auto_approve: true });
    assert_eq!(
        apply_gate(Some(&EventForApplying { you_are_master: true, ..base })),
        ApplyGate::YouAreMaster
    );
    assert_eq!(
        apply_gate(Some(&EventForApplying { already_applied: true, ..base })),
        ApplyGate::AlreadyApplied
    );
    assert_eq!(
        apply_gate(Some(&EventForApplying { cancelled: true, ..base })),
        ApplyGate::Cancelled
    );
    assert_eq!(master_gate(false, true), MasterGate::Missing);
    assert_eq!(master_gate(true, false), MasterGate::NotMaster);
    assert_eq!(master_gate(true, true), MasterGate::Proceed);
}
