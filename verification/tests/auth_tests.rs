use cybersage::auth::signature::{check_signature, examine_signature, SignatureFault};
use cybersage::auth::verify::{
    check_request_signature, verify_discord_request, AuthError, AuthManager, GateDecline,
    HeaderFault, Skew,
};
use cybersage::subscription::{Subscription, SubscriptionManager, SubscriptionStatus};
use ed25519_dalek::{Signer, SigningKey};

const NOW: i64 = 1_700_000_000;

fn signing_key() -> SigningKey {
    SigningKey::from_bytes(&[7u8; 32])
}

fn public_key_hex() -> String {
    hex::encode(signing_key().verifying_key().to_bytes())
}

fn sign(timestamp: &str, body: &[u8]) -> String {
    let mut message = timestamp.as_bytes().to_vec();
    message.extend_from_slice(body);
    hex::encode(signing_key().sign(&message).to_bytes())
}

fn manager() -> AuthManager {
    AuthManager::new(SubscriptionManager::new())
}

#[test]
fn correct_signature_is_accepted() {
    let body = br#"{"type":1}"#;
    let signature = sign("1700000000", body);
    assert_eq!(
        manager().verify_signature_at(&signature, "1700000000", body, &public_key_hex(), NOW),
        Ok(())
    );
    assert_eq!(
        verify_discord_request(&signature, "1700000000", body, &public_key_hex(), NOW),
        Ok(())
    );
    assert_eq!(
        check_request_signature(&signature, "1700000000", body, &public_key_hex()),
        Ok(())
    );
}

#[test]
fn upper_case_hex_is_accepted() {
    let body = b"hello";
    let signature = sign("1700000000", body).to_uppercase();
    let key = public_key_hex().to_uppercase();
    assert_eq!(
        manager().verify_signature_at(&signature, "1700000000", body, &key, NOW),
        Ok(())
    );
}

#[test]
fn empty_body_is_signed_like_any_other() {
    let signature = sign("1700000000", b"");
    assert_eq!(
        manager().verify_signature_at(&signature, "1700000000", b"", &public_key_hex(), NOW),
        Ok(())
    );
}

#[test]
fn changed_body_byte_is_rejected() {
    let body = b"{\"type\":1}".to_vec();
    let signature = sign("1700000000", &body);
    for i in 0..body.len() {
        let mut changed = body.clone();
        changed[i] ^= 0x01;
        assert_eq!(
            manager().verify_signature_at(&signature, "1700000000", &changed, &public_key_hex(), NOW),
            Err(AuthError::BadSignature(SignatureFault::Rejected))
        );
    }
}

#[test]
fn changed_timestamp_is_rejected() {
    let body = b"{\"type\":1}";
    let signature = sign("1700000000", body);
    assert_eq!(
        manager().verify_signature_at(&signature, "1700000001", body, &public_key_hex(), NOW),
        Err(AuthError::BadSignature(SignatureFault::Rejected))
    );
    assert_eq!(
        manager().verify_signature_at(&signature, "01700000000", body, &public_key_hex(), NOW),
        Err(AuthError::BadSignature(SignatureFault::Rejected))
    );
}

#[test]
fn changed_signature_byte_is_rejected() {
    let body = b"{\"type\":1}";
    let raw = signing_key().sign(b"1700000000{\"type\":1}").to_bytes();
    for i in 0..raw.len() {
        let mut changed = raw;
        changed[i] ^= 0x01;
        let outcome = manager().verify_signature_at(
            &hex::encode(changed),
            "1700000000",
            body,
            &public_key_hex(),
            NOW,
        );
        assert_eq!(outcome, Err(AuthError::BadSignature(SignatureFault::Rejected)));
    }
}

#[test]
fn message_has_no_separator() {
    // "17000000001" + "23" and "1700000000" + "123" are the same bytes.
    let signature = sign("1700000000", b"123");
    assert_eq!(
        check_request_signature(&signature, "17000000001", b"23", &public_key_hex()),
        Ok(())
    );
}

#[test]
fn another_key_is_rejected() {
    let body = b"payload";
    let signature = sign("1700000000", body);
    let other = hex::encode(SigningKey::from_bytes(&[9u8; 32]).verifying_key().to_bytes());
    assert_eq!(
        manager().verify_signature_at(&signature, "1700000000", body, &other, NOW),
        Err(AuthError::BadSignature(SignatureFault::Rejected))
    );
}

#[test]
fn old_timestamp_is_clock_skew() {
    let body = b"payload";
    let signature = sign("1699999699", body);
    assert_eq!(
        manager().verify_signature_at(&signature, "1699999699", body, &public_key_hex(), NOW),
        Err(AuthError::ClockSkew(Skew::TooOld))
    );
}

#[test]
fn timestamp_at_the_edge_of_the_window_is_fresh() {
    let body = b"payload";
    let oldest = sign("1699999700", body);
    assert_eq!(
        manager().verify_signature_at(&oldest, "1699999700", body, &public_key_hex(), NOW),
        Ok(())
    );
    let newest = sign("1700000030", body);
    assert_eq!(
        manager().verify_signature_at(&newest, "1700000030", body, &public_key_hex(), NOW),
        Ok(())
    );
}

#[test]
fn future_timestamp_is_clock_skew() {
    let body = b"payload";
    let signature = sign("1700000031", body);
    assert_eq!(
        manager().verify_signature_at(&signature, "1700000031", body, &public_key_hex(), NOW),
        Err(AuthError::ClockSkew(Skew::TooFarInFuture))
    );
}

#[test]
fn stale_timestamp_fails_whatever_the_signature() {
    let body = b"payload";
    let good = sign("1600000000", body);
    assert_eq!(
        manager().verify_signature_at(&good, "1600000000", body, &public_key_hex(), NOW),
        Err(AuthError::ClockSkew(Skew::TooOld))
    );
    let bad = hex::encode([0u8; 64]);
    assert_eq!(
        manager().verify_signature_at(&bad, "1600000000", body, &public_key_hex(), NOW),
        Err(AuthError::ClockSkew(Skew::TooOld))
    );
    assert_eq!(
        verify_discord_request(&good, "1600000000", body, &public_key_hex(), NOW),
        Err(AuthError::ClockSkew(Skew::TooOld))
    );
    let ahead = sign("1800000000", body);
    assert_eq!(
        verify_discord_request(&ahead, "1800000000", body, &public_key_hex(), NOW),
        Err(AuthError::ClockSkew(Skew::TooFarInFuture))
    );
    assert_eq!(check_request_signature(&good, "1600000000", body, &public_key_hex()), Ok(()));
}

#[test]
fn empty_headers_are_malformed() {
    let body = b"payload";
    let signature = sign("1700000000", body);
    assert_eq!(
        manager().verify_signature_at("", "1700000000", body, &public_key_hex(), NOW),
        Err(AuthError::MalformedHeader(HeaderFault::Missing))
    );
    assert_eq!(
        manager().verify_signature_at(&signature, "", body, &public_key_hex(), NOW),
        Err(AuthError::MalformedHeader(HeaderFault::Missing))
    );
}

#[test]
fn timestamp_that_is_no_integer_is_malformed() {
    let body = b"payload";
    for timestamp in ["17e8", " 1700000000", "1700000000 ", "1_700_000_000", "0x10", "99999999999999999999"] {
        let signature = sign(timestamp, body);
        assert_eq!(
            manager().verify_signature_at(&signature, timestamp, body, &public_key_hex(), NOW),
            Err(AuthError::MalformedHeader(HeaderFault::TimestampNotInteger))
        );
    }
}

#[test]
fn signature_that_is_not_hex_is_malformed() {
    let body = b"payload";
    let mut signature = sign("1700000000", body);
    signature.replace_range(0..1, "g");
    assert_eq!(
        manager().verify_signature_at(&signature, "1700000000", body, &public_key_hex(), NOW),
        Err(AuthError::MalformedHeader(HeaderFault::SignatureNotHex))
    );
    assert_eq!(
        check_request_signature(&signature, "1700000000", body, &public_key_hex()),
        Err(AuthError::MalformedHeader(HeaderFault::SignatureNotHex))
    );
}

#[test]
fn signature_of_wrong_length_is_malformed() {
    let body = b"payload";
    let signature = sign("1700000000", body);
    assert_eq!(
        manager().verify_signature_at(&signature[2..], "1700000000", body, &public_key_hex(), NOW),
        Err(AuthError::MalformedHeader(HeaderFault::SignatureLength))
    );
    assert_eq!(
        manager().verify_signature_at(&signature[1..], "1700000000", body, &public_key_hex(), NOW),
        Err(AuthError::MalformedHeader(HeaderFault::SignatureNotHex))
    );
    let long = format!("{}00", signature);
    assert_eq!(
        manager().verify_signature_at(&long, "1700000000", body, &public_key_hex(), NOW),
        Err(AuthError::MalformedHeader(HeaderFault::SignatureLength))
    );
    assert_eq!(
        check_request_signature("", "1700000000", body, &public_key_hex()),
        Err(AuthError::MalformedHeader(HeaderFault::SignatureLength))
    );
}

#[test]
fn malformed_public_key_verifies_nothing() {
    let body = b"payload";
    let signature = sign("1700000000", body);
    let short = public_key_hex()[2..].to_string();
    let cases = [
        ("", SignatureFault::KeyLength),
        ("zz", SignatureFault::KeyNotHex),
        ("abc", SignatureFault::KeyNotHex),
        ("abcd", SignatureFault::KeyLength),
        (short.as_str(), SignatureFault::KeyLength),
    ];
    for (key, fault) in cases {
        assert_eq!(
            manager().verify_signature_at(&signature, "1700000000", body, key, NOW),
            Err(AuthError::BadSignature(fault))
        );
    }
}

#[test]
fn malformed_header_comes_before_clock_skew() {
    assert_eq!(
        manager().verify_signature_at("abc", "1", b"", &public_key_hex(), NOW),
        Err(AuthError::MalformedHeader(HeaderFault::SignatureNotHex))
    );
}

#[test]
fn system_clock_is_used_when_no_time_is_given() {
    let body = b"payload";
    let signature = sign("1", body);
    assert_eq!(
        manager().verify_signature(&signature, "1", body, &public_key_hex()),
        Err(AuthError::ClockSkew(Skew::TooOld))
    );
    assert_eq!(
        manager().verify_signature("", "1", body, &public_key_hex()),
        Err(AuthError::MalformedHeader(HeaderFault::Missing))
    );
    let now = std::time::SystemTime::now()
        .duration_since(std::time::UNIX_EPOCH)
        .unwrap()
        .as_secs()
        .to_string();
    let fresh = sign(&now, body);
    assert_eq!(manager().verify_signature(&fresh, &now, body, &public_key_hex()), Ok(()));
}

#[test]
fn check_signature_takes_raw_bytes() {
    let key = signing_key().verifying_key().to_bytes().to_vec();
    let signature = signing_key().sign(b"message").to_bytes().to_vec();
    assert!(check_signature(&key, b"message", &signature));
    assert!(!check_signature(&key, b"massage", &signature));
    assert!(!check_signature(&key[1..].to_vec(), b"message", &signature));
    assert!(!check_signature(&key, b"message", &signature[1..].to_vec()));
}

#[test]
fn subscription_gate_declines_inactive_guilds() {
    let active = Some(Subscription {
        guild_id: "g".to_string(),
        status: SubscriptionStatus::Active,
        expires_at: NOW,
    });
    assert_eq!(manager().verify_subscription(&active, NOW), Ok(()));
    assert_eq!(manager().verify_subscription(&active, NOW + 1), Err(GateDecline {}));
    assert_eq!(manager().verify_subscription(&None, NOW), Err(GateDecline {}));
    assert_eq!(GateDecline {}.message(), "Guild subscription is not active");
}

#[test]
fn faults_of_raw_signatures_are_told_apart() {
    let key = signing_key().verifying_key().to_bytes().to_vec();
    let signature = signing_key().sign(b"message").to_bytes().to_vec();
    assert_eq!(examine_signature(&key, b"message", &signature), None);
    assert_eq!(
        examine_signature(&key, b"massage", &signature),
        Some(SignatureFault::Rejected)
    );
    assert_eq!(
        examine_signature(&key[1..].to_vec(), b"message", &signature),
        Some(SignatureFault::KeyLength)
    );
    assert_eq!(
        examine_signature(&key, b"message", &signature[1..].to_vec()),
        Some(SignatureFault::Rejected)
    );
    // y = 2 is the y-coordinate of no point of the curve.
    let mut off_curve = vec![0u8; 32];
    off_curve[0] = 2;
    assert_eq!(
        examine_signature(&off_curve, b"message", &signature),
        Some(SignatureFault::KeyInvalid)
    );
}

#[test]
fn every_failure_has_its_text() {
    let texts = [
        (AuthError::MalformedHeader(HeaderFault::Missing), "Missing required Discord signature headers"),
        (
            AuthError::MalformedHeader(HeaderFault::TimestampNotInteger),
            "X-Signature-Timestamp is not a valid integer",
        ),
        (AuthError::MalformedHeader(HeaderFault::SignatureNotHex), "Failed to decode signature hex"),
        (AuthError::MalformedHeader(HeaderFault::SignatureLength), "Signature has invalid length"),
        (AuthError::ClockSkew(Skew::TooFarInFuture), "Request timestamp is too far in the future"),
        (AuthError::ClockSkew(Skew::TooOld), "Request timestamp is too old"),
        (AuthError::ClockSkew(Skew::NoClock), "second time provided was later than self"),
        (AuthError::BadSignature(SignatureFault::KeyNotHex), "Failed to decode public key hex"),
        (AuthError::BadSignature(SignatureFault::KeyLength), "Public key has invalid length"),
        (AuthError::BadSignature(SignatureFault::KeyInvalid), "Invalid public key bytes"),
        (AuthError::BadSignature(SignatureFault::Rejected), "Signature verification failed"),
    ];
    for (error, text) in texts {
        assert_eq!(error.message(), text);
    }
}
