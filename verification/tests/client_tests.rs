use chain::gateway::{health, hex_to_hash256, queued_response, register_tx};
use chain::ml_client::http::{
    aid_to_hex, endpoint, evidence_hash_to_hex, hash256_to_hex, interpret_reply, verify_request,
    Reply, VerifyResponse,
};
use chain::{
    AccountId, Aid, EvidenceHash, EvidenceRef, Hash256, MlClientConfig, MlError,
    RegisterModelRequest, Transaction, WmProfile, HASH_LEN,
};

fn wm_profile() -> WmProfile {
    WmProfile {
        tau_input: 0.9f32.to_bits(),
        tau_feat: 0.1f32.to_bits(),
        logit_band_low: 0.02f32.to_bits(),
        logit_band_high: 0.05f32.to_bits(),
    }
}

fn request(owner: &str, aid: &str, evidence: &str) -> RegisterModelRequest {
    RegisterModelRequest {
        owner_account_hex: owner.to_string(),
        aid_hex: aid.to_string(),
        scheme_id: "multi_factor_v1".to_string(),
        evidence_hash_hex: evidence.to_string(),
        wm_profile: wm_profile(),
    }
}

#[test]
fn verify_request_hex_encoding_helpers() {
    let h = Hash256([0xAB; HASH_LEN]);
    let eh = EvidenceHash(h);
    let aid = Aid(h);

    let aid_hex = aid_to_hex(&aid);
    let eh_hex = evidence_hash_to_hex(&eh);

    assert_eq!(aid_hex.len(), HASH_LEN * 2);
    assert_eq!(eh_hex.len(), HASH_LEN * 2);
    assert!(aid_hex.chars().all(|c| c.is_ascii_hexdigit()));
    assert!(eh_hex.chars().all(|c| c.is_ascii_hexdigit()));
    assert_eq!(aid_hex, "ab".repeat(32));
}

#[test]
fn hex_is_lower_case_high_half_first() {
    let mut bytes = [0u8; 32];
    bytes[0] = 0x01;
    bytes[1] = 0xf0;
    bytes[31] = 0x9c;
    let s = hash256_to_hex(&Hash256(bytes));
    assert!(s.starts_with("01f000"));
    assert!(s.ends_with("009c"));
    assert_eq!(hex_to_hash256(&s), Ok(Hash256(bytes)));
    assert_eq!(hex_to_hash256(&s.to_uppercase()), Ok(Hash256(bytes)));
}

#[test]
fn hex_to_hash256_names_what_is_wrong() {
    assert_eq!(hex_to_hash256(&"zz".repeat(32)), Err("invalid hex encoding"));
    assert_eq!(hex_to_hash256(&"a".repeat(63)), Err("invalid hex encoding"));
    assert_eq!(hex_to_hash256("\u{e9}"), Err("invalid hex encoding"));
    assert_eq!(hex_to_hash256(&"ab".repeat(31)), Err("expected 32-byte hash"));
    assert_eq!(hex_to_hash256(&"ab".repeat(33)), Err("expected 32-byte hash"));
    assert_eq!(hex_to_hash256(""), Err("expected 32-byte hash"));
}

#[test]
fn endpoint_joins_with_one_slash() {
    assert_eq!(endpoint("http://127.0.0.1:8080", "/verify"), "http://127.0.0.1:8080/verify");
    assert_eq!(endpoint("http://h//", "//verify"), "http://h/verify");
    assert_eq!(endpoint("http://h", "verify/"), "http://h/verify/");
    assert_eq!(endpoint("", ""), "/");
}

#[test]
fn verify_request_carries_hex_and_profile() {
    let evidence = EvidenceRef {
        scheme_id: "multi_factor_v1".to_string(),
        evidence_hash: EvidenceHash(Hash256([3u8; 32])),
        wm_profile: wm_profile(),
    };
    let req = verify_request(&Aid(Hash256([4u8; 32])), &evidence);
    assert_eq!(req.aid, "04".repeat(32));
    assert_eq!(req.scheme_id, "multi_factor_v1");
    assert_eq!(req.evidence_hash, "03".repeat(32));
    assert_eq!(req.wm_profile, wm_profile());
    assert_eq!(f32::from_bits(req.wm_profile.tau_input), 0.9);
}

#[test]
fn reply_is_read_by_status_then_body() {
    let body = VerifyResponse {
        ok: true,
        trigger_acc: Some(0.96f32.to_bits()),
        feat_dist: Some(0.04f32.to_bits()),
        logit_stat: None,
        latency_ms: Some(142),
    };
    let answered = |status: u16, body| Reply::Answered {
        status,
        status_text: format!("{status} Some Reason"),
        body,
    };
    let verdict = interpret_reply("http://h/verify", answered(200, Ok(body))).expect("verdict");
    assert!(verdict.ok);
    assert_eq!(verdict.trigger_acc.map(f32::from_bits), Some(0.96));
    assert_eq!(verdict.logit_stat, None);
    assert_eq!(verdict.latency_ms, Some(142));
    assert!(interpret_reply("u", answered(399, Ok(body))).is_ok());

    match interpret_reply("u", answered(400, Ok(body))) {
        Err(MlError::Service(m)) => assert_eq!(m, "ML service returned HTTP status 400 Some Reason"),
        other => panic!("unexpected result: {other:?}"),
    }
    match interpret_reply("u", answered(503, Err("eof".to_string()))) {
        Err(MlError::Service(m)) => assert_eq!(m, "ML service returned HTTP status 503 Some Reason"),
        other => panic!("unexpected result: {other:?}"),
    }
    match interpret_reply("u", answered(200, Err("expected value".to_string()))) {
        Err(MlError::Protocol(m)) => {
            assert_eq!(m, "failed to parse JSON response: expected value")
        }
        other => panic!("unexpected result: {other:?}"),
    }
    match interpret_reply("http://h/verify", Reply::Failed("timed out".to_string())) {
        Err(MlError::Transport(m)) => {
            assert_eq!(m, "HTTP POST http://h/verify failed: timed out")
        }
        other => panic!("unexpected result: {other:?}"),
    }
}

#[test]
fn registration_request_becomes_a_transaction() {
    let req = request(&"01".repeat(32), &"02".repeat(32), &"03".repeat(32));
    match register_tx(&req).expect("valid request") {
        Transaction::RegisterModel(t) => {
            assert_eq!(t.owner, AccountId(Hash256([1u8; 32])));
            assert_eq!(t.aid, Aid(Hash256([2u8; 32])));
            assert_eq!(t.evidence.evidence_hash, EvidenceHash(Hash256([3u8; 32])));
            assert_eq!(t.evidence.scheme_id, "multi_factor_v1");
            assert_eq!(t.evidence.wm_profile, wm_profile());
            assert_eq!((t.fee, t.nonce), (0, 0));
            assert!(t.signature.as_bytes().is_empty());
        }
        other => panic!("unexpected transaction: {other:?}"),
    }
    let answer = queued_response(&req);
    assert_eq!(answer.status, "queued");
    assert_eq!(answer.aid, "02".repeat(32));
    assert_eq!(health().status, "ok");
}

#[test]
fn registration_request_fails_on_the_first_bad_text() {
    let good = "01".repeat(32);
    assert_eq!(
        register_tx(&request("xyz", "02", &good)).expect_err("bad owner"),
        "invalid hex encoding"
    );
    assert_eq!(
        register_tx(&request(&good, "02", "xyz")).expect_err("short aid"),
        "expected 32-byte hash"
    );
    assert_eq!(
        register_tx(&request(&good, &good, "xyz")).expect_err("bad evidence"),
        "invalid hex encoding"
    );
}

#[test]
fn client_defaults() {
    let cfg = MlClientConfig::default();
    assert_eq!(cfg.base_url, "http://127.0.0.1:8080");
    assert_eq!(cfg.timeout_ms, 2000);
    assert_eq!(cfg.clone().timeout_ms, 2000);
}
