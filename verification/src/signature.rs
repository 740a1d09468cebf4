//! Authentication of inbound requests.
//!
//! Slack signs every request with HMAC-SHA256 under the signing secret. The
//! signed text is `v0:`, the request's timestamp header, `:` and the raw
//! body; the signature header carries `v0=` and the tag in lower-case
//! hexadecimal. A request is accepted when its signature is the expected one
//! and its timestamp lies within five minutes of the current time.

use crate::text::bytes_equal;
use crate::types::SigningSecret;
use vstd::prelude::*;
use vstd::string::StringSliceAdditionalSpecFns;

verus! {

/// Why a request was not authenticated.
#[derive(Clone, Copy, Debug, PartialEq, Eq, Structural)]
pub enum AuthError {
    /// The signature header is not the signature of this request.
    BadSignature,
    /// The timestamp is more than five minutes away from the current time.
    StaleTimestamp,
    /// A header is missing, or the timestamp header is not a number.
    MalformedHeaders,
}

/// The greatest accepted distance, in seconds, between a request's timestamp
/// and the current time.
pub const REPLAY_WINDOW_SECONDS: u64 = 300;

/// The ASCII code of the letter `v`.
pub const LETTER_V: u8 = 0x76;

/// The ASCII code of the letter `a`.
pub const LETTER_A: u8 = 0x61;

/// The ASCII code of the digit `0`.
pub const DIGIT_ZERO: u8 = 0x30;

/// The ASCII code of the digit `9`.
pub const DIGIT_NINE: u8 = 0x39;

/// The ASCII code of the colon.
pub const COLON: u8 = 0x3a;

/// The ASCII code of the equals sign.
pub const EQUALS_SIGN: u8 = 0x3d;

/// The ASCII code of the plus sign.
pub const PLUS_SIGN: u8 = 0x2b;

// ---------------------------------------------------------------------------
// Timestamps
// ---------------------------------------------------------------------------

/// Whether `b` is an ASCII decimal digit.
pub open spec fn is_digit(b: u8) -> bool {
    DIGIT_ZERO <= b <= DIGIT_NINE
}

/// Whether every byte of `s` is an ASCII decimal digit.
pub open spec fn all_digits(s: Seq<u8>) -> bool {
    forall|i: int| 0 <= i < s.len() ==> is_digit(#[trigger] s[i])
}

/// The number written by the decimal digits `s`, most significant first.
pub open spec fn digits_value(s: Seq<u8>) -> nat
    decreases s.len(),
{
    if s.len() == 0 {
        0
    } else {
        digits_value(s.drop_last()) * 10 + (s.last() - DIGIT_ZERO) as nat
    }
}

/// The digits of a timestamp header: the header itself, without a leading
/// plus sign if it has one.
pub open spec fn timestamp_digits(text: Seq<u8>) -> Seq<u8> {
    if text.len() > 0 && text[0] == PLUS_SIGN {
        text.skip(1)
    } else {
        text
    }
}

/// The number of seconds that a timestamp header denotes, if it denotes one:
/// an optional plus sign followed by at least one decimal digit, with a value
/// that fits in 64 bits.
pub open spec fn timestamp_value(text: Seq<u8>) -> Option<u64> {
    let digits = timestamp_digits(text);
    if digits.len() > 0 && all_digits(digits) && digits_value(digits) <= u64::MAX {
        Some(digits_value(digits) as u64)
    } else {
        None
    }
}

/// A longer digit string does not denote a smaller number than its prefix.
proof fn lemma_digits_value_prefix(s: Seq<u8>, n: int)
    requires
        0 <= n <= s.len(),
        all_digits(s),
    ensures
        digits_value(s.take(n)) <= digits_value(s),
    decreases s.len(),
{
    if n == s.len() {
        assert(s.take(n) =~= s);
    } else {
        let shorter = s.drop_last();
        assert(all_digits(shorter));
        lemma_digits_value_prefix(shorter, n);
        assert(shorter.take(n) =~= s.take(n));
        assert(is_digit(s.last()));
    }
}

/// Reads the number of seconds that a timestamp header denotes.
pub fn parse_timestamp(text: &[u8]) -> (r: Option<u64>)
    ensures
        r == timestamp_value(text@),
{
    let start: usize = if text.len() > 0 && text[0] == PLUS_SIGN {
        1
    } else {
        0
    };
    if start == text.len() {
        return None;
    }
    let ghost digits = timestamp_digits(text@);
    let mut value: u64 = 0;
    let mut i: usize = start;
    assert(digits.take(0) =~= Seq::<u8>::empty());
    while i < text.len()
        invariant
            start <= i <= text.len(),
            digits == text@.skip(start as int),
            digits == timestamp_digits(text@),
            all_digits(digits.take(i - start)),
            value == digits_value(digits.take(i - start)),
        decreases text.len() - i,
    {
        let b: u8 = text[i];
        let ghost k = i - start;
        assert(digits[k] == b);
        if b < DIGIT_ZERO || b > DIGIT_NINE {
            assert(!all_digits(digits));
            return None;
        }
        assert(digits.take(k + 1).drop_last() =~= digits.take(k));
        assert(all_digits(digits.take(k + 1))) by {
            assert forall|j: int| 0 <= j < k + 1 implies is_digit(
                #[trigger] digits.take(k + 1)[j],
            ) by {
                if j < k {
                    assert(digits.take(k)[j] == digits.take(k + 1)[j]);
                }
            }
        }
        let next = match value.checked_mul(10) {
            Some(tens) => tens.checked_add((b - DIGIT_ZERO) as u64),
            None => None,
        };
        match next {
            Some(v) => {
                value = v;
            },
            None => {
                proof {
                    if all_digits(digits) {
                        lemma_digits_value_prefix(digits, k + 1);
                    }
                }
                return None;
            },
        }
        i = i + 1;
    }
    assert(digits.take(i - start) =~= digits);
    Some(value)
}

/// Whether the timestamp `timestamp` lies within the replay window around
/// the current time `now`, in either direction.
pub open spec fn within_window(now: u64, timestamp: u64) -> bool {
    now - timestamp <= REPLAY_WINDOW_SECONDS && timestamp - now <= REPLAY_WINDOW_SECONDS
}

/// Decides whether a timestamp lies within the replay window.
pub fn is_fresh(now: u64, timestamp: u64) -> (r: bool)
    ensures
        r == within_window(now, timestamp),
{
    if now >= timestamp {
        now - timestamp <= REPLAY_WINDOW_SECONDS
    } else {
        timestamp - now <= REPLAY_WINDOW_SECONDS
    }
}

// ---------------------------------------------------------------------------
// The expected signature
// ---------------------------------------------------------------------------

/// The HMAC-SHA256 tag of `message` under `key`.
pub uninterp spec fn hmac_sha256(key: Seq<u8>, message: Seq<u8>) -> Seq<u8>;

/// Computes an HMAC-SHA256 tag with `hmac::Hmac<sha2::Sha256>`: the key goes
/// to `Mac::new_from_slice`, the message to `Mac::update`, and the tag is what
/// `Mac::finalize` hands back.
///
/// Trusted: that the tag is a function of key and message alone, which is
/// all that [`hmac_sha256`] stands for. `new_from_slice` accepts a key of
/// any length for this construction.
#[verifier::external_body]
fn hmac_sha256_tag(key: &[u8], message: &[u8]) -> (tag: Vec<u8>)
    ensures
        tag@ == hmac_sha256(key@, message@),
{
    let mut mac = <hmac::Hmac<sha2::Sha256> as hmac::Mac>::new_from_slice(key)
        .expect("HMAC takes a key of any length");
    hmac::Mac::update(&mut mac, message);
    hmac::Mac::finalize(mac).into_bytes().to_vec()
}

/// The lower-case hexadecimal digit for a value below sixteen.
pub open spec fn hex_digit(nibble: int) -> u8 {
    if nibble < 10 {
        (DIGIT_ZERO + nibble) as u8
    } else {
        (LETTER_A + nibble - 10) as u8
    }
}

/// The digit at place `i` of the hexadecimal spelling of `bytes`: byte
/// `i / 2` gives two digits, the high half first.
pub open spec fn hex_lower_at(bytes: Seq<u8>, i: int) -> u8 {
    if i % 2 == 0 {
        hex_digit(bytes[i / 2] as int / 16)
    } else {
        hex_digit(bytes[i / 2] as int % 16)
    }
}

/// The lower-case hexadecimal spelling of `bytes`: two digits for each byte.
pub open spec fn hex_lower(bytes: Seq<u8>) -> Seq<u8> {
    Seq::new(2 * bytes.len(), |i: int| hex_lower_at(bytes, i))
}

/// Spells bytes in hexadecimal with `hex::encode`.
///
/// Trusted: that the text returned consists of two lower-case hexadecimal
/// digits for each input byte, in order, the high half of each byte first.
#[verifier::external_body]
fn hex_encode(bytes: &[u8]) -> (text: Vec<u8>)
    ensures
        text@ == hex_lower(bytes@),
{
    hex::encode(bytes).into_bytes()
}

/// The text that Slack signs for a request.
pub open spec fn signed_text(timestamp: Seq<u8>, body: Seq<u8>) -> Seq<u8> {
    seq![LETTER_V, DIGIT_ZERO, COLON] + timestamp + seq![COLON] + body
}

/// The signature header that authenticates a request with the given
/// timestamp header and body under the key `key`.
pub open spec fn expected_signature(key: Seq<u8>, timestamp: Seq<u8>, body: Seq<u8>) -> Seq<u8> {
    seq![LETTER_V, DIGIT_ZERO, EQUALS_SIGN] + hex_lower(
        hmac_sha256(key, signed_text(timestamp, body)),
    )
}

/// Appends the bytes of `src` to `dst`.
fn append_bytes(dst: &mut Vec<u8>, src: &[u8])
    ensures
        final(dst)@ == old(dst)@ + src@,
{
    dst.extend_from_slice(src);
    assert(dst@ =~= old(dst)@ + src@);
}

/// Computes the signature header that authenticates a request with the given
/// timestamp header and body under `secret`.
pub fn compute_signature(secret: &SigningSecret, timestamp: &[u8], body: &[u8]) -> (r: Vec<u8>)
    ensures
        r@ == expected_signature(secret.key(), timestamp@, body@),
{
    let mut text: Vec<u8> = Vec::new();
    text.push(LETTER_V);
    text.push(DIGIT_ZERO);
    text.push(COLON);
    append_bytes(&mut text, timestamp);
    text.push(COLON);
    append_bytes(&mut text, body);
    assert(text@ =~= signed_text(timestamp@, body@));
    let tag = hmac_sha256_tag(secret.as_str().as_bytes(), text.as_slice());
    let mut digits = hex_encode(tag.as_slice());
    let mut signature: Vec<u8> = Vec::new();
    signature.push(LETTER_V);
    signature.push(DIGIT_ZERO);
    signature.push(EQUALS_SIGN);
    signature.append(&mut digits);
    assert(signature@ =~= expected_signature(secret.key(), timestamp@, body@));
    signature
}

// ---------------------------------------------------------------------------
// Verification
// ---------------------------------------------------------------------------

/// The bytes of a header, where the header is present.
pub open spec fn header_bytes(header: Option<&str>) -> Option<Seq<u8>> {
    match header {
        Some(text) => Some(text.spec_bytes()),
        None => None,
    }
}

/// What verification says of a request received at time `now`.
///
/// The headers are looked at first: both must be present and the timestamp
/// must denote a number. Then the timestamp must lie within the replay
/// window. Only then does the signature decide.
pub open spec fn verdict(
    key: Seq<u8>,
    signature: Option<Seq<u8>>,
    timestamp: Option<Seq<u8>>,
    body: Seq<u8>,
    now: u64,
) -> Result<(), AuthError> {
    if signature is None || timestamp is None {
        Err(AuthError::MalformedHeaders)
    } else {
        match timestamp_value(timestamp->0) {
            None => Err(AuthError::MalformedHeaders),
            Some(seconds) => if !within_window(now, seconds) {
                Err(AuthError::StaleTimestamp)
            } else if signature->0 != expected_signature(key, timestamp->0, body) {
                Err(AuthError::BadSignature)
            } else {
                Ok(())
            },
        }
    }
}

/// Authenticates a request received at time `now`, given in seconds since
/// the Unix epoch.
///
/// The current time is always handed in by the caller, so the outcome depends
/// on the arguments alone. The signature is compared with the expected one
/// by [`bytes_equal`], whose running time does not tell where the two
/// differ.
pub fn verify(
    secret: &SigningSecret,
    signature_header: Option<&str>,
    timestamp_header: Option<&str>,
    raw_body: &[u8],
    now: u64,
) -> (r: Result<(), AuthError>)
    ensures
        r == verdict(
            secret.key(),
            header_bytes(signature_header),
            header_bytes(timestamp_header),
            raw_body@,
            now,
        ),
{
    let (signature, timestamp) = match (signature_header, timestamp_header) {
        (Some(signature), Some(timestamp)) => (signature, timestamp),
        _ => {
            return Err(AuthError::MalformedHeaders);
        },
    };
    let seconds = match parse_timestamp(timestamp.as_bytes()) {
        Some(seconds) => seconds,
        None => {
            return Err(AuthError::MalformedHeaders);
        },
    };
    if !is_fresh(now, seconds) {
        return Err(AuthError::StaleTimestamp);
    }
    let expected = compute_signature(secret, timestamp.as_bytes(), raw_body);
    if bytes_equal(expected.as_slice(), signature.as_bytes()) {
        Ok(())
    } else {
        Err(AuthError::BadSignature)
    }
}

// ---------------------------------------------------------------------------
// Laws
// ---------------------------------------------------------------------------

/// Different byte strings are spelt differently in hexadecimal.
pub proof fn lemma_hex_lower_is_injective(a: Seq<u8>, b: Seq<u8>)
    requires
        hex_lower(a) == hex_lower(b),
    ensures
        a == b,
{
    assert(hex_lower(a).len() == 2 * a.len());
    assert(hex_lower(b).len() == 2 * b.len());
    assert forall|i: int| 0 <= i < a.len() implies a[i] == b[i] by {
        assert(hex_lower(a)[2 * i] == hex_lower_at(a, 2 * i));
        assert(hex_lower(b)[2 * i] == hex_lower_at(b, 2 * i));
        assert(hex_lower(a)[2 * i + 1] == hex_lower_at(a, 2 * i + 1));
        assert(hex_lower(b)[2 * i + 1] == hex_lower_at(b, 2 * i + 1));
        assert(hex_digit(a[i] as int / 16) == hex_digit(b[i] as int / 16));
        assert(hex_digit(a[i] as int % 16) == hex_digit(b[i] as int % 16));
    }
    assert(a =~= b);
}

/// Altering the timestamp or the body without changing the timestamp's
/// length alters the text that is signed.
pub proof fn lemma_signed_text_is_injective(
    timestamp: Seq<u8>,
    body: Seq<u8>,
    other_timestamp: Seq<u8>,
    other_body: Seq<u8>,
)
    requires
        timestamp.len() == other_timestamp.len(),
        signed_text(timestamp, body) == signed_text(other_timestamp, other_body),
    ensures
        timestamp == other_timestamp,
        body == other_body,
{
    let a = signed_text(timestamp, body);
    let b = signed_text(other_timestamp, other_body);
    let n = timestamp.len() as int;
    assert(a.len() == 4 + n + body.len());
    assert(b.len() == 4 + n + other_body.len());
    assert forall|i: int| 0 <= i < n implies timestamp[i] == other_timestamp[i] by {
        assert(a[3 + i] == timestamp[i]);
        assert(b[3 + i] == other_timestamp[i]);
    }
    assert(timestamp =~= other_timestamp);
    assert forall|i: int| 0 <= i < body.len() implies body[i] == other_body[i] by {
        assert(a[4 + n + i] == body[i]);
        assert(b[4 + n + i] == other_body[i]);
    }
    assert(body =~= other_body);
}

/// A request that carries the signature computed from its own timestamp
/// header and body under the same key, and whose timestamp lies within the
/// replay window, is accepted.
pub proof fn lemma_own_signature_accepted(
    key: Seq<u8>,
    timestamp: Seq<u8>,
    body: Seq<u8>,
    now: u64,
)
    requires
        timestamp_value(timestamp) is Some,
        within_window(now, timestamp_value(timestamp)->0),
    ensures
        verdict(key, Some(expected_signature(key, timestamp, body)), Some(timestamp), body, now)
            == Ok::<(), AuthError>(()),
{
}

/// A request that carries anything but the signature computed from its own
/// timestamp header and body is rejected. In particular, changing a single
/// byte of a valid signature makes the request fail.
pub proof fn lemma_other_signature_rejected(
    key: Seq<u8>,
    signature: Seq<u8>,
    timestamp: Seq<u8>,
    body: Seq<u8>,
    now: u64,
)
    requires
        signature != expected_signature(key, timestamp, body),
    ensures
        verdict(key, Some(signature), Some(timestamp), body, now) is Err,
{
}

/// A signature computed for one request is rejected on every request whose
/// signed text has a different HMAC-SHA256 tag under the same key.
///
/// By [`lemma_signed_text_is_injective`], changing a byte of the body or of
/// the timestamp header changes the signed text; the altered request is then
/// rejected unless the two texts have the same tag.
pub proof fn lemma_altered_request_rejected(
    key: Seq<u8>,
    timestamp: Seq<u8>,
    body: Seq<u8>,
    altered_timestamp: Seq<u8>,
    altered_body: Seq<u8>,
    now: u64,
)
    requires
        hmac_sha256(key, signed_text(altered_timestamp, altered_body)) != hmac_sha256(
            key,
            signed_text(timestamp, body),
        ),
    ensures
        verdict(
            key,
            Some(expected_signature(key, timestamp, body)),
            Some(altered_timestamp),
            altered_body,
            now,
        ) is Err,
{
    let made = expected_signature(key, timestamp, body);
    let wanted = expected_signature(key, altered_timestamp, altered_body);
    if made == wanted {
        let made_digits = hex_lower(hmac_sha256(key, signed_text(timestamp, body)));
        let wanted_digits = hex_lower(
            hmac_sha256(key, signed_text(altered_timestamp, altered_body)),
        );
        assert(made.skip(3) =~= made_digits);
        assert(wanted.skip(3) =~= wanted_digits);
        lemma_hex_lower_is_injective(
            hmac_sha256(key, signed_text(timestamp, body)),
            hmac_sha256(key, signed_text(altered_timestamp, altered_body)),
        );
    }
}

/// Changing bytes of the timestamp header or of the body, their lengths left
/// as they are, makes a request fail that carries the signature of the
/// unchanged request, unless the changed and the unchanged text have the same
/// HMAC-SHA256 tag under the key.
pub proof fn lemma_flipped_request_rejected(
    key: Seq<u8>,
    timestamp: Seq<u8>,
    body: Seq<u8>,
    flipped_timestamp: Seq<u8>,
    flipped_body: Seq<u8>,
    now: u64,
)
    requires
        flipped_timestamp.len() == timestamp.len(),
        flipped_body.len() == body.len(),
        flipped_timestamp != timestamp || flipped_body != body,
        signed_text(flipped_timestamp, flipped_body) != signed_text(timestamp, body)
            ==> hmac_sha256(key, signed_text(flipped_timestamp, flipped_body)) != hmac_sha256(
            key,
            signed_text(timestamp, body),
        ),
    ensures
        verdict(
            key,
            Some(expected_signature(key, timestamp, body)),
            Some(flipped_timestamp),
            flipped_body,
            now,
        ) is Err,
{
    if signed_text(flipped_timestamp, flipped_body) == signed_text(timestamp, body) {
        lemma_signed_text_is_injective(timestamp, body, flipped_timestamp, flipped_body);
    }
    lemma_altered_request_rejected(key, timestamp, body, flipped_timestamp, flipped_body, now);
}

/// A request whose timestamp lies more than five minutes from the current
/// time, in either direction, is rejected whatever its signature; where the
/// signature header is present, the request is rejected as stale.
pub proof fn lemma_stale_rejected(
    key: Seq<u8>,
    signature: Option<Seq<u8>>,
    timestamp: Seq<u8>,
    body: Seq<u8>,
    now: u64,
)
    requires
        timestamp_value(timestamp) is Some,
        now - timestamp_value(timestamp)->0 > REPLAY_WINDOW_SECONDS || timestamp_value(
            timestamp,
        )->0 - now > REPLAY_WINDOW_SECONDS,
    ensures
        verdict(key, signature, Some(timestamp), body, now) is Err,
        signature is Some ==> verdict(key, signature, Some(timestamp), body, now) == Err::<
            (),
            AuthError,
        >(AuthError::StaleTimestamp),
{
}

} // verus!
