//! Signature verification for webhook deliveries.
//!
//! GitHub signs each delivery with HMAC-SHA-256 over the exact raw body
//! bytes under the shared secret, and sends the tag in a header of the form
//! `sha256=<64 lowercase hex digits>`. Verification recomputes the tag over
//! the same raw bytes and compares the full header text, accumulating the
//! comparison over every position rather than returning at the first
//! mismatch.

use vstd::prelude::*;
use hmac::Mac;

verus! {

/// Failure of delivery authentication: the signature header was absent, or
/// present but not the tag of the body under the configured secret.
#[derive(Debug, Clone, Copy, PartialEq, Eq, Structural)]
pub enum AuthError {
    MissingSignature,
    BadSignature,
}

/// The HMAC-SHA-256 tag of `msg` under key `key`: 32 bytes that depend on
/// the key and the message alone.
pub uninterp spec fn hmac_sha256_of(key: Seq<u8>, msg: Seq<u8>) -> Seq<u8>;

/// Relies on `hmac::Hmac<sha2::Sha256>` (`new_from_slice`, `update`,
/// `finalize`): HMAC accepts a key of any length, the tag is 32 bytes, and
/// it is a function of the key and message alone.
#[verifier::external_body]
fn hmac_sha256(key: &[u8], msg: &[u8]) -> (r: Vec<u8>)
    ensures
        r@ == hmac_sha256_of(key@, msg@),
        r@.len() == 32,
{
    let mut mac = <hmac::Hmac<sha2::Sha256> as Mac>::new_from_slice(key).unwrap();
    mac.update(msg);
    mac.finalize().into_bytes().to_vec()
}

/// The lowercase hex digit for a nibble.
pub open spec fn hex_digit(n: u8) -> char {
    if n < 10 {
        (((n + 48) as u8) as char)
    } else {
        (((n + 87) as u8) as char)
    }
}

/// Lowercase hex rendering of a byte string, two digits per byte, high
/// nibble first.
pub open spec fn hex_of(bytes: Seq<u8>) -> Seq<char> {
    Seq::new(bytes.len() * 2, |i: int| if i % 2 == 0 {
        hex_digit(bytes[i / 2] / 16)
    } else {
        hex_digit(bytes[i / 2] % 16)
    })
}

/// The exact signature header text that authenticates `body` under `secret`.
pub open spec fn expected_sig(secret: Seq<u8>, body: Seq<u8>) -> Seq<char> {
    "sha256="@ + hex_of(hmac_sha256_of(secret, body))
}

/// What `verify` decides, given the views of its arguments.
pub open spec fn verify_spec(secret: Seq<u8>, body: Seq<u8>, sig: Option<Seq<char>>) -> Result<
    (),
    AuthError,
> {
    match sig {
        Option::None => Err(AuthError::MissingSignature),
        Option::Some(s) => if s == expected_sig(secret, body) {
            Ok(())
        } else {
            Err(AuthError::BadSignature)
        },
    }
}

fn hex_digit_exec(n: u8) -> (c: char)
    requires
        n < 16,
    ensures
        c == hex_digit(n),
{
    if n < 10 {
        (n + 48) as char
    } else {
        (n + 87) as char
    }
}

/// Authenticates a delivery: recomputes the HMAC-SHA-256 tag of the raw
/// `body` under `secret` and compares the signature header against the
/// expected `sha256=<hex>` text. Succeeds exactly when the header is present
/// and equals that text.
pub fn verify(secret: &[u8], body: &[u8], signature: Option<&str>) -> (r: Result<(), AuthError>)
    ensures
        r == verify_spec(
            secret@,
            body@,
            match signature {
                Option::Some(s) => Some(s@),
                Option::None => None,
            },
        ),
{
    let sig = match signature {
        Option::Some(s) => s,
        Option::None => {
            return Err(AuthError::MissingSignature);
        },
    };
    let mac = hmac_sha256(secret, body);
    let prefix = "sha256=";
    let ghost expected: Seq<char> = expected_sig(secret@, body@);
    proof {
        reveal_strlit("sha256=");
        assert(expected.len() == 71) by {
            assert(hex_of(mac@).len() == 64);
        }
    }
    if sig.unicode_len() != 71 {
        assert(sig@ != expected);
        return Err(AuthError::BadSignature);
    }
    let mut ok: bool = true;
    let mut i: usize = 0;
    while i < 7
        invariant
            0 <= i <= 7,
            sig@.len() == 71,
            expected == expected_sig(secret@, body@),
            expected.len() == 71,
            prefix@ == "sha256="@,
            mac@ == hmac_sha256_of(secret@, body@),
            mac@.len() == 32,
            ok <==> (forall|k: int| 0 <= k < i ==> sig@[k] == expected[k]),
        decreases 7 - i,
    {
        proof {
            reveal_strlit("sha256=");
            assert(prefix@.len() == 7);
            assert(expected[i as int] == prefix@[i as int]);
        }
        let c = prefix.get_char(i);
        let d = sig.get_char(i);
        let ghost old_ok = ok;
        ok = ok && c == d;
        proof {
            if ok {
                assert forall|k: int| 0 <= k < i + 1 implies sig@[k] == expected[k] by {
                    if k < i {
                        assert(old_ok);
                    }
                }
            }
        }
        i = i + 1;
    }
    let mut j: usize = 0;
    while j < 64
        invariant
            0 <= j <= 64,
            sig@.len() == 71,
            expected == expected_sig(secret@, body@),
            expected.len() == 71,
            mac@ == hmac_sha256_of(secret@, body@),
            mac@.len() == 32,
            ok <==> (forall|k: int| 0 <= k < 7 + j ==> sig@[k] == expected[k]),
        decreases 64 - j,
    {
        let b = mac[j / 2];
        let nib: u8 = if j % 2 == 0 {
            b / 16
        } else {
            b % 16
        };
        proof {
            reveal_strlit("sha256=");
            assert(expected[7 + j as int] == hex_of(mac@)[j as int]);
            assert(hex_of(mac@)[j as int] == hex_digit(nib));
        }
        let c = hex_digit_exec(nib);
        let d = sig.get_char(7 + j);
        let ghost old_ok = ok;
        ok = ok && c == d;
        proof {
            if ok {
                assert forall|k: int| 0 <= k < 7 + j + 1 implies sig@[k] == expected[k] by {
                    if k < 7 + j {
                        assert(old_ok);
                    }
                }
            }
        }
        j = j + 1;
    }
    if ok {
        proof {
            assert(sig@ =~= expected);
        }
        Ok(())
    } else {
        assert(sig@ != expected);
        Err(AuthError::BadSignature)
    }
}

/// Law: a delivery signed with the configured secret verifies, and a
/// signature produced under a key whose tag of the body differs is rejected.
pub proof fn lemma_verify_own_signature(secret: Seq<u8>, body: Seq<u8>, other: Seq<u8>)
    ensures
        verify_spec(secret, body, Some(expected_sig(secret, body))) == Ok::<(), AuthError>(()),
        hmac_sha256_of(other, body) != hmac_sha256_of(secret, body) ==> verify_spec(
            secret,
            body,
            Some(expected_sig(other, body)),
        ) == Err::<(), AuthError>(AuthError::BadSignature),
{
    if hmac_sha256_of(other, body) != hmac_sha256_of(secret, body) {
        lemma_expected_sig_injective(secret, other, body, body);
    }
}

/// Law: after a valid signature was computed over `body`, any body whose tag
/// under the secret differs (in particular, any tampering that changes the
/// tag) fails verification.
pub proof fn lemma_tampered_body_rejected(secret: Seq<u8>, body: Seq<u8>, tampered: Seq<u8>)
    requires
        hmac_sha256_of(secret, tampered) != hmac_sha256_of(secret, body),
    ensures
        verify_spec(secret, tampered, Some(expected_sig(secret, body))) == Err::<
            (),
            AuthError,
        >(AuthError::BadSignature),
{
    lemma_expected_sig_injective(secret, secret, tampered, body);
}

/// Distinct tags render to distinct signature headers.
proof fn lemma_expected_sig_injective(s1: Seq<u8>, s2: Seq<u8>, b1: Seq<u8>, b2: Seq<u8>)
    requires
        hmac_sha256_of(s1, b1) != hmac_sha256_of(s2, b2),
    ensures
        expected_sig(s1, b1) != expected_sig(s2, b2),
{
    let m1 = hmac_sha256_of(s1, b1);
    let m2 = hmac_sha256_of(s2, b2);
    if expected_sig(s1, b1) == expected_sig(s2, b2) {
        let p = "sha256="@;
        assert(hex_of(m1) =~= hex_of(m2)) by {
            assert(expected_sig(s1, b1).len() == p.len() + hex_of(m1).len());
            assert(hex_of(m1).len() == hex_of(m2).len());
            assert(forall|k: int|
                0 <= k < hex_of(m1).len() ==> hex_of(m1)[k] == (p + hex_of(m1))[p.len() + k]
                    && hex_of(m2)[k] == (p + hex_of(m2))[p.len() + k]);
        }
        lemma_hex_of_injective(m1, m2);
    }
}

/// A nibble is recoverable from its hex digit.
proof fn lemma_hex_digit_injective(x: u8, y: u8)
    requires
        x < 16,
        y < 16,
        hex_digit(x) == hex_digit(y),
    ensures
        x == y,
{
}

/// Hex rendering is injective.
proof fn lemma_hex_of_injective(a: Seq<u8>, b: Seq<u8>)
    requires
        hex_of(a) == hex_of(b),
    ensures
        a =~= b,
{
    assert(hex_of(a).len() == a.len() * 2);
    assert(hex_of(b).len() == b.len() * 2);
    assert(a.len() == b.len());
    assert forall|i: int| 0 <= i < a.len() implies a[i] == b[i] by {
        assert(hex_of(a)[2 * i] == hex_digit(a[i] / 16));
        assert(hex_of(b)[2 * i] == hex_digit(b[i] / 16));
        assert(hex_of(a)[2 * i + 1] == hex_digit(a[i] % 16));
        assert(hex_of(b)[2 * i + 1] == hex_digit(b[i] % 16));
        lemma_hex_digit_injective(a[i] / 16, b[i] / 16);
        lemma_hex_digit_injective(a[i] % 16, b[i] % 16);
        assert(a[i] == a[i] / 16 * 16 + a[i] % 16);
        assert(b[i] == b[i] / 16 * 16 + b[i] % 16);
    }
}

} // verus!
