use github_rest::sig::{verify, AuthError};
use hmac::Mac;

fn sign(secret: &[u8], body: &[u8]) -> String {
    let mut mac = hmac::Hmac::<sha2::Sha256>::new_from_slice(secret).unwrap();
    mac.update(body);
    let tag = mac.finalize().into_bytes();
    let mut s = String::from("sha256=");
    for b in tag {
        s.push_str(&format!("{:02x}", b));
    }
    s
}

#[test]
fn verify_known_vector() {
    // HMAC-SHA-256("key", "The quick brown fox jumps over the lazy dog")
    let secret = b"key";
    let body = b"The quick brown fox jumps over the lazy dog";
    let sig = "sha256=f7bc83f430538424b13298e6aa6fb143ef4d59a14946175997479dbc2d1a3cd8";
    assert_eq!(verify(secret, body, Some(sig)), Ok(()));
    assert_eq!(sign(secret, body), sig);
}

#[test]
fn verify_accepts_own_signature() {
    let secret = b"s3cr3t";
    let body = br#"{"zen":"Design for failure."}"#;
    let sig = sign(secret, body);
    assert_eq!(verify(secret, body, Some(sig.as_str())), Ok(()));
}

#[test]
fn verify_rejects_other_secret() {
    let secret = b"s3cr3t";
    let other = b"not-the-secret";
    let body = b"payload bytes";
    let sig = sign(other, body);
    assert_eq!(verify(secret, body, Some(sig.as_str())), Err(AuthError::BadSignature));
}

#[test]
fn verify_rejects_missing_signature() {
    assert_eq!(verify(b"k", b"b", None), Err(AuthError::MissingSignature));
}

#[test]
fn verify_rejects_garbage_signature() {
    assert_eq!(verify(b"k", b"b", Some("sha256=nope")), Err(AuthError::BadSignature));
}

#[test]
fn tampered_body_fails_verification() {
    let secret = b"hook-secret";
    let body: Vec<u8> = br#"{"ref":"refs/heads/main","after":"a"}"#.to_vec();
    let sig = sign(secret, &body);
    assert_eq!(verify(secret, &body, Some(sig.as_str())), Ok(()));
    // flip one byte at every position in turn; each must fail
    for i in 0..body.len() {
        let mut tampered = body.clone();
        tampered[i] ^= 0x01;
        assert_eq!(
            verify(secret, &tampered, Some(sig.as_str())),
            Err(AuthError::BadSignature),
            "byte {} flipped but verification passed",
            i
        );
    }
}
