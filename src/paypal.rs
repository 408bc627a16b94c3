use base64::Engine;
use vstd::prelude::*;
use vstd::string::*;
use vstd::utf8::*;

use crate::text::{join_str, or_default, str_equals, value_or};

verus! {

/// Connection settings for the second payment provider. `mode` is `live` or
/// `sandbox`.
pub struct PayPalConfig {
    pub client_id: String,
    pub client_secret: String,
    pub mode: String,
    pub webhook_id: String,
}

impl PayPalConfig {
    /// Settings from the configured values, with placeholders for those not set
    /// and sandbox mode by default.
    pub fn from_settings(
        client_id: Option<String>,
        client_secret: Option<String>,
        mode: Option<String>,
        webhook_id: Option<String>,
    ) -> (r: Self)
        ensures
            r.client_id@ == or_default(client_id, "sb_client_id_placeholder"@),
            r.client_secret@ == or_default(client_secret, "sb_client_secret_placeholder"@),
            r.mode@ == or_default(mode, "sandbox"@),
            r.webhook_id@ == or_default(webhook_id, "wh_id_placeholder"@),
    {
        PayPalConfig {
            client_id: value_or(client_id, "sb_client_id_placeholder"),
            client_secret: value_or(client_secret, "sb_client_secret_placeholder"),
            mode: value_or(mode, "sandbox"),
            webhook_id: value_or(webhook_id, "wh_id_placeholder"),
        }
    }

    /// The API's base URL that a mode selects.
    pub open spec fn spec_base_url(mode: Seq<char>) -> Seq<char> {
        if mode == "live"@ {
            "https://api-m.paypal.com"@
        } else {
            "https://api-m.sandbox.paypal.com"@
        }
    }

    /// The API's base URL: the live one in live mode, the sandbox otherwise.
    pub fn base_url(&self) -> (r: &str)
        ensures
            r@ == Self::spec_base_url(self.mode@),
    {
        if str_equals(self.mode.as_str(), "live") {
            "https://api-m.paypal.com"
        } else {
            "https://api-m.sandbox.paypal.com"
        }
    }

    /// The token-exchange endpoint.
    pub fn token_url(&self) -> (r: String)
        ensures
            r@ == Self::spec_base_url(self.mode@) + "/v1/oauth2/token"@,
    {
        join_str(self.base_url(), "/v1/oauth2/token")
    }
}

/// The standard, padded base64 text of some bytes.
pub uninterp spec fn base64_of(bytes: Seq<u8>) -> Seq<char>;

/// Relies on `base64::engine::general_purpose::STANDARD.encode`: the padded
/// standard-alphabet text, a function of the bytes alone. Its length
/// computation panics only for inputs above three quarters of `usize::MAX`.
#[verifier::external_body]
fn encode_base64(bytes: &[u8]) -> (r: String)
    requires
        bytes@.len() <= usize::MAX / 2,
    ensures
        r@ == base64_of(bytes@),
{
    base64::engine::general_purpose::STANDARD.encode(bytes)
}

/// The bytes of `client_id:client_secret`.
pub open spec fn credential_bytes(client_id: Seq<char>, client_secret: Seq<char>) -> Seq<u8> {
    encode_utf8(client_id) + seq![58u8] + encode_utf8(client_secret)
}

/// The `Authorization` header value for the token exchange: `Basic ` and the
/// base64 text of `client_id:client_secret`.
pub fn basic_authorization(client_id: &str, client_secret: &str) -> (r: String)
    requires
        client_id.spec_bytes().len() + client_secret.spec_bytes().len() < usize::MAX / 2,
    ensures
        r@ == "Basic "@ + base64_of(credential_bytes(client_id@, client_secret@)),
{
    let a = client_id.as_bytes();
    let b = client_secret.as_bytes();
    let mut bytes: Vec<u8> = Vec::new();
    let mut i: usize = 0;
    while i < a.len()
        invariant
            i <= a@.len(),
            bytes@ == a@.subrange(0, i as int),
        decreases a@.len() - i,
    {
        bytes.push(a[i]);
        i = i + 1;
        assert(bytes@ =~= a@.subrange(0, i as int));
    }
    bytes.push(58u8);
    let ghost head = bytes@;
    let mut j: usize = 0;
    while j < b.len()
        invariant
            j <= b@.len(),
            bytes@ == head + b@.subrange(0, j as int),
        decreases b@.len() - j,
    {
        bytes.push(b[j]);
        j = j + 1;
        assert(bytes@ =~= head + b@.subrange(0, j as int));
    }
    assert(a@ =~= a@.subrange(0, a@.len() as int));
    assert(b@ =~= b@.subrange(0, b@.len() as int));
    assert(bytes@ =~= credential_bytes(client_id@, client_secret@));
    let encoded = encode_base64(bytes.as_slice());
    join_str("Basic ", encoded.as_str())
}

/// Lifetime assumed for a token whose grant names none, in seconds.
pub const DEFAULT_TOKEN_LIFETIME_SECS: i64 = 3600;

/// How long before its stated expiry a token stops being used, in seconds.
pub const TOKEN_EXPIRY_MARGIN_SECS: i64 = 60;

pub open spec fn clamp_i64(x: int) -> i64 {
    if x < i64::MIN {
        i64::MIN
    } else if x > i64::MAX {
        i64::MAX
    } else {
        x as i64
    }
}

/// Until when a token granted at `now` is used: its lifetime less the margin,
/// held within the range of `i64`.
pub open spec fn token_expiry(now: i64, expires_in: Option<i64>) -> i64 {
    let lifetime = match expires_in {
        Some(x) => x,
        None => DEFAULT_TOKEN_LIFETIME_SECS,
    };
    clamp_i64(now + lifetime - TOKEN_EXPIRY_MARGIN_SECS)
}

/// The access token held between requests, with its expiry in Unix seconds.
pub struct AccessTokenCache {
    token: Option<(String, i64)>,
}

impl View for AccessTokenCache {
    type V = Option<(Seq<char>, i64)>;

    closed spec fn view(&self) -> Option<(Seq<char>, i64)> {
        match self.token {
            Some((t, e)) => Some((t@, e)),
            None => None,
        }
    }
}

impl AccessTokenCache {
    /// A cache holding no token.
    pub fn new() -> (r: Self)
        ensures
            r@ is None,
    {
        AccessTokenCache { token: None }
    }

    /// The held token while it has not expired at `now`.
    pub fn cached_token(&self, now: i64) -> (r: Option<String>)
        ensures
            match self@ {
                Some((t, expiry)) => if expiry > now {
                    r is Some && r->0@ == t
                } else {
                    r is None
                },
                None => r is None,
            },
    {
        match &self.token {
            Some((t, expiry)) => if *expiry > now {
                Some(t.clone())
            } else {
                None
            },
            None => None,
        }
    }

    /// Holds a token granted at `now` with the lifetime that the grant stated.
    pub fn store_token(&mut self, token: String, now: i64, expires_in: Option<i64>)
        ensures
            final(self)@ == Some((token@, token_expiry(now, expires_in))),
    {
        let lifetime: i64 = match expires_in {
            Some(x) => x,
            None => DEFAULT_TOKEN_LIFETIME_SECS,
        };
        let expiry: i128 = now as i128 + lifetime as i128 - TOKEN_EXPIRY_MARGIN_SECS as i128;
        let clamped: i64 = if expiry < i64::MIN as i128 {
            i64::MIN
        } else if expiry > i64::MAX as i128 {
            i64::MAX
        } else {
            expiry as i64
        };
        self.token = Some((token, clamped));
    }
}

/// A notification from the second provider. `resource` is the event's
/// resource as JSON text.
pub struct PayPalEvent {
    pub id: String,
    pub event_type: String,
    pub create_time: String,
    pub resource_type: String,
    pub resource: String,
    pub summary: Option<String>,
}

/// The event types that the second provider's endpoint tells apart.
#[derive(Debug, Clone, Copy, PartialEq, Eq, Structural)]
pub enum PayPalEventKind {
    PaymentCaptureCompleted,
    SubscriptionCreated,
    SubscriptionCancelled,
    Unhandled,
}

pub open spec fn paypal_event_kind(t: Seq<char>) -> PayPalEventKind {
    if t == "PAYMENT.CAPTURE.COMPLETED"@ {
        PayPalEventKind::PaymentCaptureCompleted
    } else if t == "BILLING.SUBSCRIPTION.CREATED"@ {
        PayPalEventKind::SubscriptionCreated
    } else if t == "BILLING.SUBSCRIPTION.CANCELLED"@ {
        PayPalEventKind::SubscriptionCancelled
    } else {
        PayPalEventKind::Unhandled
    }
}

/// Tells an event type apart.
pub fn classify_paypal_event(event_type: &str) -> (r: PayPalEventKind)
    ensures
        r == paypal_event_kind(event_type@),
{
    if str_equals(event_type, "PAYMENT.CAPTURE.COMPLETED") {
        PayPalEventKind::PaymentCaptureCompleted
    } else if str_equals(event_type, "BILLING.SUBSCRIPTION.CREATED") {
        PayPalEventKind::SubscriptionCreated
    } else if str_equals(event_type, "BILLING.SUBSCRIPTION.CANCELLED") {
        PayPalEventKind::SubscriptionCancelled
    } else {
        PayPalEventKind::Unhandled
    }
}

} // verus!
