use hmac::{Hmac, Mac};
use payment_webhooks::signature::{
    signature_fields, verify_signature_at, verify_webhook_signature, VerificationError,
};
use sha2::Sha256;

fn sign(secret: &str, timestamp: &str, payload: &[u8]) -> String {
    let mut mac = <Hmac<Sha256> as Mac>::new_from_slice(secret.as_bytes()).unwrap();
    mac.update(timestamp.as_bytes());
    mac.update(b".");
    mac.update(payload);
    hex::encode(mac.finalize().into_bytes())
}

fn header(timestamp: &str, signature: &str) -> String {
    format!("t={},v1={}", timestamp, signature)
}

const NOW: i64 = 1_700_000_000;

#[test]
fn valid_signature_verifies() {
    let payload = br#"{"id":"evt_1","type":"invoice.paid"}"#;
    let sig = sign("whsec_test", "1700000000", payload);
    let h = header("1700000000", &sig);
    assert_eq!(verify_signature_at(payload, &h, "whsec_test", NOW), Ok(()));
}

#[test]
fn flipped_payload_byte_fails() {
    let payload = b"{\"id\":\"evt_1\"}".to_vec();
    let sig = sign("whsec_test", "1700000000", &payload);
    let h = header("1700000000", &sig);
    for i in 0..payload.len() {
        let mut tampered = payload.clone();
        tampered[i] ^= 0x01;
        assert_eq!(
            verify_signature_at(&tampered, &h, "whsec_test", NOW),
            Err(VerificationError::SignatureMismatch)
        );
    }
}

#[test]
fn wrong_secret_fails() {
    let payload = b"body";
    let sig = sign("other_secret", "1700000000", payload);
    let h = header("1700000000", &sig);
    assert_eq!(
        verify_signature_at(payload, &h, "whsec_test", NOW),
        Err(VerificationError::SignatureMismatch)
    );
}

#[test]
fn timestamp_301_seconds_old_fails() {
    let payload = b"body";
    let ts = (NOW - 301).to_string();
    let h = header(&ts, &sign("whsec_test", &ts, payload));
    assert_eq!(
        verify_signature_at(payload, &h, "whsec_test", NOW),
        Err(VerificationError::TimestampOutOfTolerance)
    );
}

#[test]
fn timestamp_301_seconds_ahead_fails() {
    let payload = b"body";
    let ts = (NOW + 301).to_string();
    let h = header(&ts, &sign("whsec_test", &ts, payload));
    assert_eq!(
        verify_signature_at(payload, &h, "whsec_test", NOW),
        Err(VerificationError::TimestampOutOfTolerance)
    );
}

#[test]
fn timestamp_300_seconds_old_verifies() {
    let payload = b"body";
    let ts = (NOW - 300).to_string();
    let h = header(&ts, &sign("whsec_test", &ts, payload));
    assert_eq!(verify_signature_at(payload, &h, "whsec_test", NOW), Ok(()));
}

#[test]
fn missing_timestamp_field() {
    assert_eq!(
        verify_signature_at(b"x", "v1=abcd", "s", NOW),
        Err(VerificationError::MissingTimestamp)
    );
    assert_eq!(
        verify_signature_at(b"x", "", "s", NOW),
        Err(VerificationError::MissingTimestamp)
    );
}

#[test]
fn missing_signature_field() {
    assert_eq!(
        verify_signature_at(b"x", "t=1700000000", "s", NOW),
        Err(VerificationError::MissingSignature)
    );
}

#[test]
fn malformed_timestamp() {
    assert_eq!(
        verify_signature_at(b"x", "t=abc,v1=00", "s", NOW),
        Err(VerificationError::InvalidTimestamp)
    );
    assert_eq!(
        verify_signature_at(b"x", "t=,v1=00", "s", NOW),
        Err(VerificationError::InvalidTimestamp)
    );
    assert_eq!(
        verify_signature_at(b"x", "t=99999999999999999999,v1=00", "s", NOW),
        Err(VerificationError::InvalidTimestamp)
    );
}

#[test]
fn header_fields_last_one_wins() {
    let (t, v1) = signature_fields("t=1,v1=aa,junk,v0=zz,t=2,=x,v1=b=c");
    assert_eq!(t, Some("2"));
    assert_eq!(v1, Some("b=c"));
    let (t, v1) = signature_fields("t");
    assert_eq!(t, None);
    assert_eq!(v1, None);
}

#[test]
fn verifies_against_the_clock() {
    let payload = b"{}";
    let ts = chrono::Utc::now().timestamp().to_string();
    let h = header(&ts, &sign("whsec_live", &ts, payload));
    assert_eq!(verify_webhook_signature(payload, &h, "whsec_live"), Ok(()));
    let old = "1000";
    let h = header(old, &sign("whsec_live", old, payload));
    assert_eq!(
        verify_webhook_signature(payload, &h, "whsec_live"),
        Err(VerificationError::TimestampOutOfTolerance)
    );
}

#[test]
fn error_messages() {
    assert_eq!(VerificationError::SignatureMismatch.message(), "Invalid webhook signature");
    assert_eq!(VerificationError::TimestampOutOfTolerance.message(), "Webhook timestamp too old");
}
