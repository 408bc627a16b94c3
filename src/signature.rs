use hmac::{Hmac, Mac};
use sha2::Sha256;
use vstd::prelude::*;
use vstd::string::*;
use vstd::utf8::*;

use crate::clock::unix_now;
use crate::text::{constant_time_equals, index_from, index_of_char, str_equals};

verus! {

/// Largest accepted distance, in seconds, between a signature's timestamp and now.
pub const TIMESTAMP_TOLERANCE_SECS: i64 = 300;

/// Why a signature header was not accepted.
#[derive(Debug, Clone, Copy, PartialEq, Eq, Structural)]
pub enum VerificationError {
    MissingTimestamp,
    MissingSignature,
    InvalidTimestamp,
    TimestampOutOfTolerance,
    SignatureMismatch,
}

impl VerificationError {
    /// A short description of the failure.
    pub fn message(&self) -> (r: &'static str) {
        match self {
            VerificationError::MissingTimestamp => "Missing timestamp",
            VerificationError::MissingSignature => "Missing signature",
            VerificationError::InvalidTimestamp => "Invalid timestamp",
            VerificationError::TimestampOutOfTolerance => "Webhook timestamp too old",
            VerificationError::SignatureMismatch => "Invalid webhook signature",
        }
    }
}

// ---------------------------------------------------------------------------
// The header: comma-separated `key=value` fields
// ---------------------------------------------------------------------------

/// Whether a field holds a `=`.
pub open spec fn has_separator(part: Seq<char>) -> bool {
    index_from(part, '=', 0) < part.len()
}

/// What stands before the first `=` of a field.
pub open spec fn field_key(part: Seq<char>) -> Seq<char> {
    part.subrange(0, index_from(part, '=', 0))
}

/// What stands after the first `=` of a field.
pub open spec fn field_value(part: Seq<char>) -> Seq<char> {
    part.subrange(index_from(part, '=', 0) + 1, part.len() as int)
}

/// The value of the last field named `key` among the fields of `s` that start
/// at or after `start`, or `found` where there is none.
pub open spec fn last_field_from(
    s: Seq<char>,
    key: Seq<char>,
    start: int,
    found: Option<Seq<char>>,
) -> Option<Seq<char>>
    decreases s.len() - start,
{
    if start < 0 || start > s.len() {
        found
    } else {
        let end = index_from(s, ',', start);
        let part = s.subrange(start, end);
        let next = if has_separator(part) && field_key(part) == key {
            Some(field_value(part))
        } else {
            found
        };
        if end < start || end >= s.len() {
            next
        } else {
            last_field_from(s, key, end + 1, next)
        }
    }
}

/// The value of the field named `key` in a header; the last one wins.
pub open spec fn header_field(header: Seq<char>, key: Seq<char>) -> Option<Seq<char>> {
    last_field_from(header, key, 0, None)
}

pub open spec fn view_opt_str(o: Option<&str>) -> Option<Seq<char>> {
    match o {
        Some(s) => Some(s@),
        None => None,
    }
}

/// Splits a signature header into its `t` and `v1` fields.
pub fn signature_fields<'a>(header: &'a str) -> (r: (Option<&'a str>, Option<&'a str>))
    ensures
        view_opt_str(r.0) == header_field(header@, "t"@),
        view_opt_str(r.1) == header_field(header@, "v1"@),
{
    let n = header.unicode_len();
    let mut start: usize = 0;
    let mut t: Option<&'a str> = None;
    let mut v1: Option<&'a str> = None;
    loop
        invariant
            n == header@.len(),
            start <= n,
            header_field(header@, "t"@) == last_field_from(header@, "t"@, start as int, view_opt_str(t)),
            header_field(header@, "v1"@) == last_field_from(header@, "v1"@, start as int, view_opt_str(v1)),
        decreases n - start,
    {
        let end = index_of_char(header, ',', start);
        let part = header.substring_char(start, end);
        let eq = index_of_char(part, '=', 0);
        let len = part.unicode_len();
        if eq < len {
            let key = part.substring_char(0, eq);
            let value = part.substring_char(eq + 1, len);
            if str_equals(key, "t") {
                t = Some(value);
            }
            if str_equals(key, "v1") {
                v1 = Some(value);
            }
        }
        if end >= n {
            return (t, v1);
        }
        start = end + 1;
    }
}

// ---------------------------------------------------------------------------
// Decimal timestamps
// ---------------------------------------------------------------------------

pub open spec fn is_digit(c: char) -> bool {
    48 <= (c as u32) <= 57
}

/// The value of a string of decimal digits.
pub open spec fn digits_value(d: Seq<char>) -> int
    decreases d.len(),
{
    if d.len() == 0 {
        0
    } else {
        digits_value(d.drop_last()) * 10 + ((d.last() as u32) - 48)
    }
}

/// Whether every character is a decimal digit.
pub open spec fn all_digits(d: Seq<char>) -> bool {
    forall|i: int| 0 <= i < d.len() ==> is_digit(#[trigger] d[i])
}

/// What follows an optional leading sign.
pub open spec fn unsigned_part(s: Seq<char>) -> Seq<char> {
    if s.len() > 0 && (s[0] == '-' || s[0] == '+') {
        s.drop_first()
    } else {
        s
    }
}

/// An `i64` written in decimal: an optional `+` or `-`, then one or more digits,
/// nothing else, and a value in range.
pub open spec fn decimal_i64(s: Seq<char>) -> Option<i64> {
    let digits = unsigned_part(s);
    if digits.len() == 0 || !all_digits(digits) {
        None
    } else {
        let v = if s[0] == '-' {
            -digits_value(digits)
        } else {
            digits_value(digits)
        };
        if i64::MIN <= v <= i64::MAX {
            Some(v as i64)
        } else {
            None
        }
    }
}

/// Relies on `str::parse::<i64>`, which std documents as accepting an optional
/// sign followed by decimal digits, and failing on anything else or on overflow.
#[verifier::external_body]
fn parse_i64(s: &str) -> (r: Option<i64>)
    ensures
        r == decimal_i64(s@),
{
    s.parse::<i64>().ok()
}

// ---------------------------------------------------------------------------
// The keyed hash
// ---------------------------------------------------------------------------

/// The HMAC-SHA256 tag of `message` under `key`.
pub uninterp spec fn hmac_sha256_of(key: Seq<u8>, message: Seq<u8>) -> Seq<u8>;

/// Relies on `hmac::Hmac<sha2::Sha256>` (`Mac::new_from_slice`, `update`,
/// `finalize`): keying accepts a key of any length, and the tag depends on
/// the key and the message alone.
#[verifier::external_body]
fn hmac_sha256(key: &[u8], message: &[u8]) -> (tag: Vec<u8>)
    ensures
        tag@ == hmac_sha256_of(key@, message@),
{
    let mut mac = <Hmac<Sha256> as Mac>::new_from_slice(key).expect("HMAC takes keys of any length");
    mac.update(message);
    mac.finalize().into_bytes().to_vec()
}

/// The lower-case hexadecimal digit of `n`, for `n < 16`.
pub open spec fn hex_digit(n: int) -> char {
    seq!['0', '1', '2', '3', '4', '5', '6', '7', '8', '9', 'a', 'b', 'c', 'd', 'e', 'f'][n]
}

/// Two lower-case hexadecimal digits for each byte, the high half first.
pub open spec fn hex_lower(b: Seq<u8>) -> Seq<char>
    decreases b.len(),
{
    if b.len() == 0 {
        Seq::empty()
    } else {
        hex_lower(b.drop_last()) + seq![hex_digit(b.last() as int / 16), hex_digit(b.last() as int % 16)]
    }
}

/// Relies on `hex::encode`: two lower-case digits for each byte, high half first.
#[verifier::external_body]
fn hex_encode(bytes: &[u8]) -> (r: String)
    ensures
        r@ == hex_lower(bytes@),
{
    hex::encode(bytes)
}

/// The bytes that are signed: the timestamp as written, a dot, the raw payload.
pub open spec fn signed_bytes(timestamp: Seq<char>, payload: Seq<u8>) -> Seq<u8> {
    encode_utf8(timestamp) + seq![46u8] + payload
}

/// The `v1` value that a sender holding `secret` writes for this timestamp and payload.
pub open spec fn expected_signature(secret: Seq<char>, timestamp: Seq<char>, payload: Seq<u8>) -> Seq<char> {
    hex_lower(hmac_sha256_of(encode_utf8(secret), signed_bytes(timestamp, payload)))
}

/// Builds the signed bytes.
fn signed_message(timestamp: &str, payload: &[u8]) -> (r: Vec<u8>)
    ensures
        r@ == signed_bytes(timestamp@, payload@),
{
    let tb = timestamp.as_bytes();
    let mut out: Vec<u8> = Vec::new();
    let mut i: usize = 0;
    while i < tb.len()
        invariant
            i <= tb@.len(),
            out@ == tb@.subrange(0, i as int),
        decreases tb@.len() - i,
    {
        out.push(tb[i]);
        i = i + 1;
        assert(out@ =~= tb@.subrange(0, i as int));
    }
    out.push(46u8);
    let ghost head = out@;
    let mut j: usize = 0;
    while j < payload.len()
        invariant
            j <= payload@.len(),
            out@ == head + payload@.subrange(0, j as int),
        decreases payload@.len() - j,
    {
        out.push(payload[j]);
        j = j + 1;
        assert(out@ =~= head + payload@.subrange(0, j as int));
    }
    assert(tb@ =~= tb@.subrange(0, tb@.len() as int));
    assert(payload@ =~= payload@.subrange(0, payload@.len() as int));
    out
}

// ---------------------------------------------------------------------------
// Verification
// ---------------------------------------------------------------------------

pub open spec fn abs(x: int) -> int {
    if x < 0 {
        -x
    } else {
        x
    }
}

/// The verdict on a signature header at time `now`.
pub open spec fn signature_check(
    payload: Seq<u8>,
    header: Seq<char>,
    secret: Seq<char>,
    now: int,
) -> Result<(), VerificationError> {
    match header_field(header, "t"@) {
        None => Err(VerificationError::MissingTimestamp),
        Some(timestamp) => match header_field(header, "v1"@) {
            None => Err(VerificationError::MissingSignature),
            Some(signature) => match decimal_i64(timestamp) {
                None => Err(VerificationError::InvalidTimestamp),
                Some(ts) => if abs(now - ts) > TIMESTAMP_TOLERANCE_SECS {
                    Err(VerificationError::TimestampOutOfTolerance)
                } else if signature == expected_signature(secret, timestamp, payload) {
                    Ok(())
                } else {
                    Err(VerificationError::SignatureMismatch)
                },
            },
        },
    }
}

/// Checks a signature header against the payload and the shared secret at time `now`.
pub fn verify_signature_at(
    payload: &[u8],
    signature_header: &str,
    webhook_secret: &str,
    now: i64,
) -> (r: Result<(), VerificationError>)
    ensures
        r == signature_check(payload@, signature_header@, webhook_secret@, now as int),
{
    let (t, v1) = signature_fields(signature_header);
    let timestamp = match t {
        Some(x) => x,
        None => return Err(VerificationError::MissingTimestamp),
    };
    let supplied = match v1 {
        Some(x) => x,
        None => return Err(VerificationError::MissingSignature),
    };
    let ts = match parse_i64(timestamp) {
        Some(v) => v,
        None => return Err(VerificationError::InvalidTimestamp),
    };
    let skew: i128 = now as i128 - ts as i128;
    if skew > TIMESTAMP_TOLERANCE_SECS as i128 || skew < -(TIMESTAMP_TOLERANCE_SECS as i128) {
        return Err(VerificationError::TimestampOutOfTolerance);
    }
    let message = signed_message(timestamp, payload);
    let tag = hmac_sha256(webhook_secret.as_bytes(), message.as_slice());
    let computed = hex_encode(tag.as_slice());
    if constant_time_equals(computed.as_str(), supplied) {
        Ok(())
    } else {
        Err(VerificationError::SignatureMismatch)
    }
}

/// Checks a signature header against the payload and the shared secret at the
/// current time.
pub fn verify_webhook_signature(
    payload: &[u8],
    signature_header: &str,
    webhook_secret: &str,
) -> (r: Result<(), VerificationError>)
    ensures
        exists|now: i64| r == signature_check(payload@, signature_header@, webhook_secret@, now as int),
{
    let now = unix_now();
    verify_signature_at(payload, signature_header, webhook_secret, now)
}

// ---------------------------------------------------------------------------
// Laws
// ---------------------------------------------------------------------------

/// The header a sender writes: `t=<timestamp>,v1=<signature>`.
pub open spec fn signature_header_for(timestamp: Seq<char>, signature: Seq<char>) -> Seq<char> {
    "t="@ + timestamp + ",v1="@ + signature
}

proof fn lemma_index_from(s: Seq<char>, c: char, i: int, j: int)
    requires
        0 <= i <= j <= s.len(),
        forall|k: int| i <= k < j ==> s[k] != c,
        j == s.len() || s[j] == c,
    ensures
        index_from(s, c, i) == j,
    decreases j - i,
{
    if i < j {
        lemma_index_from(s, c, i + 1, j);
    }
}

proof fn lemma_hex_has_no_comma(b: Seq<u8>)
    ensures
        forall|k: int| 0 <= k < hex_lower(b).len() ==> hex_lower(b)[k] != ',',
    decreases b.len(),
{
    if b.len() > 0 {
        lemma_hex_has_no_comma(b.drop_last());
        let hi = b.last() as int / 16;
        let lo = b.last() as int % 16;
        assert(hex_digit(hi) != ',');
        assert(hex_digit(lo) != ',');
        let h = hex_lower(b.drop_last());
        let whole = h + seq![hex_digit(hi), hex_digit(lo)];
        assert(hex_lower(b) == whole);
        assert forall|k: int| 0 <= k < whole.len() implies whole[k] != ',' by {
            if k < h.len() {
                assert(whole[k] == h[k]);
            }
        }
    }
}

proof fn lemma_decimal_has_no_comma(s: Seq<char>)
    requires
        decimal_i64(s) is Some,
    ensures
        forall|k: int| 0 <= k < s.len() ==> s[k] != ',',
{
    let digits = unsigned_part(s);
    assert(all_digits(digits));
    assert forall|k: int| 0 <= k < s.len() implies s[k] != ',' by {
        if s.len() > 0 && (s[0] == '-' || s[0] == '+') {
            if k > 0 {
                assert(s[k] == digits[k - 1]);
                assert(is_digit(digits[k - 1]));
            }
        } else {
            assert(is_digit(digits[k]));
        }
    }
}

proof fn lemma_header_fields(ts: Seq<char>, sig: Seq<char>)
    requires
        forall|k: int| 0 <= k < ts.len() ==> ts[k] != ',',
        forall|k: int| 0 <= k < sig.len() ==> sig[k] != ',',
    ensures
        header_field(signature_header_for(ts, sig), "t"@) == Some(ts),
        header_field(signature_header_for(ts, sig), "v1"@) == Some(sig),
{
    reveal_strlit("t=");
    reveal_strlit(",v1=");
    reveal_strlit("t");
    reveal_strlit("v1");
    let h = signature_header_for(ts, sig);
    let first = seq!['t', '='] + ts;
    let second = seq!['v', '1', '='] + sig;
    assert(h =~= first + seq![','] + second);
    let end1 = first.len() as int;
    lemma_index_from(h, ',', 0, end1);
    assert(h.subrange(0, end1) =~= first);
    lemma_index_from(first, '=', 0, 1);
    assert(field_key(first) =~= "t"@);
    assert(field_value(first) =~= ts);
    assert("t"@ != "v1"@);
    lemma_index_from(h, ',', end1 + 1, h.len() as int);
    assert(h.subrange(end1 + 1, h.len() as int) =~= second);
    lemma_index_from(second, '=', 0, 2);
    assert(field_key(second) =~= "v1"@);
    assert(field_value(second) =~= sig);
    let rest = end1 + 1;
    assert(index_from(h, ',', rest) == h.len());
    assert(last_field_from(h, "t"@, rest, Some(ts)) == Some(ts));
    assert(last_field_from(h, "v1"@, rest, None) == Some(sig));
    assert(last_field_from(h, "t"@, 0, None) == last_field_from(h, "t"@, rest, Some(ts)));
    assert(last_field_from(h, "v1"@, 0, None) == last_field_from(h, "v1"@, rest, None));
}

/// A header written with `secret` for a timestamp within the tolerance of
/// `now` verifies.
pub proof fn fresh_signature_verifies(payload: Seq<u8>, secret: Seq<char>, timestamp: Seq<char>, now: int)
    requires
        decimal_i64(timestamp) is Some,
        abs(now - decimal_i64(timestamp)->0) <= TIMESTAMP_TOLERANCE_SECS,
    ensures
        signature_check(
            payload,
            signature_header_for(timestamp, expected_signature(secret, timestamp, payload)),
            secret,
            now,
        ) == Ok::<(), VerificationError>(()),
{
    let sig = expected_signature(secret, timestamp, payload);
    lemma_decimal_has_no_comma(timestamp);
    lemma_hex_has_no_comma(hmac_sha256_of(encode_utf8(secret), signed_bytes(timestamp, payload)));
    lemma_header_fields(timestamp, sig);
}

/// A header whose timestamp lies more than the tolerance away from `now` fails
/// as out of tolerance, whatever its signature.
pub proof fn stale_timestamp_is_rejected(payload: Seq<u8>, header: Seq<char>, secret: Seq<char>, now: int)
    requires
        header_field(header, "t"@) is Some,
        header_field(header, "v1"@) is Some,
        decimal_i64(header_field(header, "t"@)->0) is Some,
        abs(now - decimal_i64(header_field(header, "t"@)->0)->0) > TIMESTAMP_TOLERANCE_SECS,
    ensures
        signature_check(payload, header, secret, now) == Err::<(), VerificationError>(
            VerificationError::TimestampOutOfTolerance,
        ),
{
}

/// A header verifies only when its `v1` field is the signature that `secret`
/// gives for its timestamp and the payload.
pub proof fn verified_signature_matches(payload: Seq<u8>, header: Seq<char>, secret: Seq<char>, now: int)
    requires
        signature_check(payload, header, secret, now) is Ok,
    ensures
        header_field(header, "t"@) is Some,
        header_field(header, "v1"@) == Some(
            expected_signature(secret, header_field(header, "t"@)->0, payload),
        ),
{
}

} // verus!
