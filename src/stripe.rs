use vstd::prelude::*;

use crate::ledger::{shared_store_key,  EventResult, IdempotencyStore, ProcessedEvent};
use crate::clock::unix_now;
use crate::signature::{signature_check, verify_signature_at, view_opt_str};
use crate::subscriptions::{cancel_effect, plan_for_code, SubscriptionManager, SubscriptionStatus, UserSubscription};
use crate::text::{copy_str, join_str, or_default, str_equals, value_or};

verus! {

/// Credentials and settings for the payment provider.
pub struct StripeConfig {
    pub secret_key: String,
    pub webhook_secret: String,
    pub publishable_key: String,
    pub redis_url: Option<String>,
}

impl StripeConfig {
    /// Settings from the configured values, with placeholders for the keys
    /// that are not set. Without a shared-store URL the in-process ledger is
    /// used alone.
    pub fn from_settings(
        secret_key: Option<String>,
        webhook_secret: Option<String>,
        publishable_key: Option<String>,
        redis_url: Option<String>,
    ) -> (r: Self)
        ensures
            r.secret_key@ == or_default(secret_key, "sk_test_placeholder"@),
            r.webhook_secret@ == or_default(webhook_secret, "whsec_placeholder"@),
            r.publishable_key@ == or_default(publishable_key, "pk_test_placeholder"@),
            r.redis_url == redis_url,
    {
        StripeConfig {
            secret_key: value_or(secret_key, "sk_test_placeholder"),
            webhook_secret: value_or(webhook_secret, "whsec_placeholder"),
            publishable_key: value_or(publishable_key, "pk_test_placeholder"),
            redis_url,
        }
    }
}

/// A checkout session, as a checkout-completed event carries it. `metadata`
/// holds the session's key/value pairs, each key once.
pub struct CheckoutSession {
    pub id: String,
    pub customer: Option<String>,
    pub customer_email: Option<String>,
    pub subscription: Option<String>,
    pub amount_total: Option<i64>,
    pub currency: Option<String>,
    pub status: String,
    pub metadata: Option<Vec<(String, String)>>,
}

/// What the handlers read from an event's object: its `customer_email` and
/// `amount_paid` fields where they hold a string and an integer, and the object
/// decoded as a checkout session, or why it could not be.
pub struct EventObject {
    pub customer_email: Option<String>,
    pub amount_paid: Option<i64>,
    pub checkout_session: Result<CheckoutSession, String>,
}

pub struct StripeEventData {
    pub object: EventObject,
}

/// A provider event. `id` is the sole deduplication key.
pub struct StripeEvent {
    pub id: String,
    pub event_type: String,
    pub created: i64,
    pub data: StripeEventData,
    pub livemode: bool,
}

/// One record for the audit sink.
pub struct AuditRecord {
    pub event: String,
    pub email: String,
    pub amount_cents: Option<i64>,
}

/// An HTTP status and a short body.
pub struct WebhookReply {
    pub status: u16,
    pub body: String,
}

/// What processing an event asks of its surroundings: the reply, the audit
/// record to emit, and the ledger entry to write to the shared store when the
/// shared store answered the duplicate check.
pub struct DispatchOutcome {
    pub reply: WebhookReply,
    pub audit: Option<AuditRecord>,
    pub shared_write: Option<(String, EventResult)>,
}

/// The handlers that event types select.
#[derive(Debug, Clone, Copy, PartialEq, Eq, Structural)]
pub enum EventKind {
    CheckoutCompleted,
    InvoicePaid,
    PaymentFailed,
    SubscriptionDeleted,
    Unrecognized,
}

pub open spec fn event_kind(t: Seq<char>) -> EventKind {
    if t == "checkout.session.completed"@ {
        EventKind::CheckoutCompleted
    } else if t == "invoice.paid"@ {
        EventKind::InvoicePaid
    } else if t == "invoice.payment_failed"@ {
        EventKind::PaymentFailed
    } else if t == "customer.subscription.deleted"@ {
        EventKind::SubscriptionDeleted
    } else {
        EventKind::Unrecognized
    }
}

/// Selects the handler for an event type.
pub fn classify_event(event_type: &str) -> (r: EventKind)
    ensures
        r == event_kind(event_type@),
{
    if str_equals(event_type, "checkout.session.completed") {
        EventKind::CheckoutCompleted
    } else if str_equals(event_type, "invoice.paid") {
        EventKind::InvoicePaid
    } else if str_equals(event_type, "invoice.payment_failed") {
        EventKind::PaymentFailed
    } else if str_equals(event_type, "customer.subscription.deleted") {
        EventKind::SubscriptionDeleted
    } else {
        EventKind::Unrecognized
    }
}

/// The value of the last pair whose key is `key`.
pub open spec fn metadata_value(m: Seq<(String, String)>, key: Seq<char>) -> Option<Seq<char>>
    decreases m.len(),
{
    if m.len() == 0 {
        None
    } else if m.last().0@ == key {
        Some(m.last().1@)
    } else {
        metadata_value(m.drop_last(), key)
    }
}

/// The plan code of a session: its `plan` metadata, else `pro_monthly`.
pub open spec fn checkout_plan(s: CheckoutSession) -> Seq<char> {
    match s.metadata {
        Some(m) => match metadata_value(m@, "plan"@) {
            Some(p) => p,
            None => "pro_monthly"@,
        },
        None => "pro_monthly"@,
    }
}

/// The customer key of a session: its email, else the empty string.
pub open spec fn checkout_email(s: CheckoutSession) -> Seq<char> {
    match s.customer_email {
        Some(e) => e@,
        None => Seq::empty(),
    }
}

/// The email of a non-checkout event, else `unknown`.
pub open spec fn email_or_unknown(e: StripeEvent) -> Seq<char> {
    match e.data.object.customer_email {
        Some(x) => x@,
        None => "unknown"@,
    }
}

fn lookup_metadata<'a>(m: &'a Vec<(String, String)>, key: &str) -> (r: Option<&'a str>)
    ensures
        match r {
            Some(v) => metadata_value(m@, key@) == Some(v@),
            None => metadata_value(m@, key@) is None,
        },
{
    let mut i: usize = m.len();
    assert(m@ =~= m@.subrange(0, i as int));
    while i > 0
        invariant
            i <= m@.len(),
            metadata_value(m@, key@) == metadata_value(m@.subrange(0, i as int), key@),
        decreases i,
    {
        let k = i - 1;
        if str_equals(m[k].0.as_str(), key) {
            assert(m@.subrange(0, i as int).last() == m@[k as int]);
            return Some(m[k].1.as_str());
        }
        assert(m@.subrange(0, i as int).drop_last() =~= m@.subrange(0, k as int));
        i = k;
    }
    None
}

/// The plan code of a checkout session.
pub fn checkout_plan_code(session: &CheckoutSession) -> (r: &str)
    ensures
        r@ == checkout_plan(*session),
{
    match &session.metadata {
        Some(m) => match lookup_metadata(m, "plan") {
            Some(p) => p,
            None => "pro_monthly",
        },
        None => "pro_monthly",
    }
}

/// The handler's verdict on an event.
pub open spec fn handler_outcome(e: StripeEvent) -> Result<(), Seq<char>> {
    if event_kind(e.event_type@) == EventKind::CheckoutCompleted {
        match e.data.object.checkout_session {
            Ok(_) => Ok(()),
            Err(msg) => Err("Failed to parse session: "@ + msg@),
        }
    } else {
        Ok(())
    }
}

/// The plan recorded in the ledger for a successful event.
pub open spec fn recorded_plan(e: StripeEvent) -> Seq<char> {
    if event_kind(e.event_type@) == EventKind::CheckoutCompleted {
        match e.data.object.checkout_session {
            Ok(s) => checkout_plan(s),
            Err(_) => "processed"@,
        }
    } else {
        "processed"@
    }
}

/// The subscription that a completed checkout activates at `now`.
pub open spec fn activated_from(sub: UserSubscription, s: CheckoutSession, now: i64, user_id: u128) -> bool {
    &&& sub.user_id == user_id
    &&& sub.email@ == checkout_email(s)
    &&& sub.stripe_customer_id == s.customer
    &&& sub.stripe_subscription_id == s.subscription
    &&& sub.plan == plan_for_code(checkout_plan(s))
    &&& sub.status == SubscriptionStatus::Active
    &&& sub.activated_at == now
    &&& sub.current_period_end is None
}

/// How handling `e` takes the registry from `before` to `after`.
pub open spec fn registry_step(
    before: Map<Seq<char>, UserSubscription>,
    after: Map<Seq<char>, UserSubscription>,
    e: StripeEvent,
    now: i64,
    user_id: u128,
) -> bool {
    match event_kind(e.event_type@) {
        EventKind::CheckoutCompleted => match e.data.object.checkout_session {
            Ok(s) => {
                &&& after.contains_key(checkout_email(s))
                &&& after == before.insert(checkout_email(s), after[checkout_email(s)])
                &&& activated_from(after[checkout_email(s)], s, now, user_id)
            },
            Err(_) => after == before,
        },
        EventKind::SubscriptionDeleted => match e.data.object.customer_email {
            Some(email) => after == cancel_effect(before, email@),
            None => after == before,
        },
        _ => after == before,
    }
}

/// The audit record that handling `e` emits.
pub open spec fn audit_for(a: Option<AuditRecord>, e: StripeEvent) -> bool {
    match event_kind(e.event_type@) {
        EventKind::CheckoutCompleted => match e.data.object.checkout_session {
            Ok(s) => match a {
                Some(r) => r.event@ == "checkout.completed"@ && r.email@ == checkout_email(s)
                    && r.amount_cents == s.amount_total,
                None => false,
            },
            Err(_) => a is None,
        },
        EventKind::InvoicePaid => match a {
            Some(r) => r.event@ == "invoice.paid"@ && r.email@ == email_or_unknown(e)
                && r.amount_cents == Some(
                match e.data.object.amount_paid {
                    Some(x) => x,
                    None => 0i64,
                },
            ),
            None => false,
        },
        EventKind::PaymentFailed => match a {
            Some(r) => r.event@ == "payment.failed"@ && r.email@ == email_or_unknown(e)
                && r.amount_cents is None,
            None => false,
        },
        EventKind::SubscriptionDeleted => match e.data.object.customer_email {
            Some(email) => match a {
                Some(r) => r.event@ == "subscription.deleted"@ && r.email@ == email@
                    && r.amount_cents is None,
                None => false,
            },
            None => a is None,
        },
        EventKind::Unrecognized => a is None,
    }
}

/// The ledger outcome recorded for `e`.
pub open spec fn result_for(r: EventResult, e: StripeEvent, user_id: u128) -> bool {
    match handler_outcome(e) {
        Ok(()) => match r {
            EventResult::Success { user_id: u, plan } => u == user_id && plan@ == recorded_plan(e),
            _ => false,
        },
        Err(msg) => match r {
            EventResult::Failed { error } => error@ == msg,
            _ => false,
        },
    }
}

/// Whether `e` counts as already processed: the shared store's answer where it
/// gave one, else the in-process ledger's.
pub open spec fn already_seen(ledger: Map<Seq<char>, ProcessedEvent>, id: Seq<char>, shared_seen: Option<bool>) -> bool {
    match shared_seen {
        Some(b) => b,
        None => ledger.contains_key(id),
    }
}

fn reply(status: u16, body: &str) -> (r: WebhookReply)
    ensures
        r.status == status,
        r.body@ == body@,
{
    WebhookReply { status, body: copy_str(body) }
}

fn audit(event: &str, email: &str, amount_cents: Option<i64>) -> (r: AuditRecord)
    ensures
        r.event@ == event@,
        r.email@ == email@,
        r.amount_cents == amount_cents,
{
    AuditRecord { event: copy_str(event), email: copy_str(email), amount_cents }
}

fn handle_checkout_completed(
    subscriptions: &mut SubscriptionManager,
    event: &StripeEvent,
    now: i64,
    user_id: u128,
) -> (r: Result<AuditRecord, String>)
    requires
        event_kind(event.event_type@) == EventKind::CheckoutCompleted,
    ensures
        match r {
            Ok(a) => handler_outcome(*event) is Ok && audit_for(Some(a), *event),
            Err(msg) => handler_outcome(*event) == Err::<(), Seq<char>>(msg@) && audit_for(None, *event),
        },
        registry_step(old(subscriptions)@, final(subscriptions)@, *event, now, user_id),
{
    let session = match &event.data.object.checkout_session {
        Ok(s) => s,
        Err(e) => return Err(join_str("Failed to parse session: ", e.as_str())),
    };
    let email: &str = match &session.customer_email {
        Some(e) => e.as_str(),
        None => {
            proof {
                reveal_strlit("");
            }
            assert(""@ =~= Seq::<char>::empty());
            ""
        },
    };
    assert(email@ == checkout_email(*session));
    let plan = checkout_plan_code(session);
    let activated = subscriptions.activate_subscription_at(
        email,
        crate::text::copy_opt_string(&session.customer),
        crate::text::copy_opt_string(&session.subscription),
        plan,
        user_id,
        now,
    );
    assert(final(subscriptions)@ == old(subscriptions)@.insert(email@, activated));
    Ok(audit("checkout.completed", email, session.amount_total))
}

fn handle_invoice_paid(event: &StripeEvent) -> (r: AuditRecord)
    requires
        event_kind(event.event_type@) == EventKind::InvoicePaid,
    ensures
        audit_for(Some(r), *event),
{
    let email: &str = match &event.data.object.customer_email {
        Some(e) => e.as_str(),
        None => "unknown",
    };
    let amount: i64 = match event.data.object.amount_paid {
        Some(a) => a,
        None => 0,
    };
    audit("invoice.paid", email, Some(amount))
}

fn handle_payment_failed(event: &StripeEvent) -> (r: AuditRecord)
    requires
        event_kind(event.event_type@) == EventKind::PaymentFailed,
    ensures
        audit_for(Some(r), *event),
{
    let email: &str = match &event.data.object.customer_email {
        Some(e) => e.as_str(),
        None => "unknown",
    };
    audit("payment.failed", email, None)
}

fn handle_subscription_deleted(subscriptions: &mut SubscriptionManager, event: &StripeEvent) -> (r: Option<AuditRecord>)
    requires
        event_kind(event.event_type@) == EventKind::SubscriptionDeleted,
    ensures
        audit_for(r, *event),
        registry_step(old(subscriptions)@, final(subscriptions)@, *event, 0, 0),
{
    match &event.data.object.customer_email {
        Some(email) => {
            subscriptions.cancel_subscription(email.as_str());
            Some(audit("subscription.deleted", email.as_str(), None))
        },
        None => None,
    }
}

/// How processing `e` takes the ledger from `before` to `after`, given the
/// shared store's answer and the write handed back for it.
pub open spec fn ledger_step(
    before: Map<Seq<char>, ProcessedEvent>,
    after: Map<Seq<char>, ProcessedEvent>,
    write: Option<(String, EventResult)>,
    e: StripeEvent,
    shared_seen: Option<bool>,
    now: i64,
    user_id: u128,
) -> bool {
    match shared_seen {
        None => {
            &&& write is None
            &&& after.contains_key(e.id@)
            &&& after == before.insert(e.id@, after[e.id@])
            &&& after[e.id@].event_id@ == e.id@
            &&& after[e.id@].processed_at == now
            &&& result_for(after[e.id@].result, e, user_id)
        },
        Some(_) => {
            &&& after == before
            &&& match write {
                Some(w) => w.0@ == "event:"@ + e.id@ && result_for(w.1, e, user_id),
                None => false,
            }
        },
    }
}

/// The rejection of a request, as a status and a body, or `None` when it is
/// authentic.
pub open spec fn auth_verdict(
    signature: Option<Seq<char>>,
    body: Seq<u8>,
    secret: Seq<char>,
    now: int,
) -> Option<(u16, Seq<char>)> {
    match signature {
        None => Some((400u16, "Missing signature"@)),
        Some(h) => match signature_check(body, h, secret, now) {
            Ok(()) => None,
            Err(_) => Some((401u16, "Invalid signature"@)),
        },
    }
}

pub open spec fn reply_matches(r: Result<(), WebhookReply>, verdict: Option<(u16, Seq<char>)>) -> bool {
    match verdict {
        None => r is Ok,
        Some((status, body)) => match r {
            Err(x) => x.status == status && x.body@ == body,
            Ok(_) => false,
        },
    }
}

/// The shared state of the webhook endpoint.
pub struct StripeWebhookState {
    pub config: StripeConfig,
    pub idempotency: IdempotencyStore,
    pub subscriptions: SubscriptionManager,
}

/// The reply for a body that is not an event.
pub fn invalid_event_reply() -> (r: WebhookReply)
    ensures
        r.status == 400,
        r.body@ == "Invalid event"@,
{
    reply(400, "Invalid event")
}

fn recorded_plan_code(event: &StripeEvent) -> (r: String)
    ensures
        r@ == recorded_plan(*event),
{
    if classify_event(event.event_type.as_str()) == EventKind::CheckoutCompleted {
        match &event.data.object.checkout_session {
            Ok(s) => copy_str(checkout_plan_code(s)),
            Err(_) => copy_str("processed"),
        }
    } else {
        copy_str("processed")
    }
}

impl StripeWebhookState {
    /// A state with an empty ledger and registry.
    pub fn new(config: StripeConfig) -> (r: Self)
        ensures
            r.config == config,
            r.idempotency@ == Map::<Seq<char>, ProcessedEvent>::empty(),
            r.subscriptions@ == Map::<Seq<char>, UserSubscription>::empty(),
    {
        StripeWebhookState { config, idempotency: IdempotencyStore::new(), subscriptions: SubscriptionManager::new() }
    }

    /// Authenticates a request at time `now`: 400 without a signature header,
    /// 401 when the header does not verify.
    pub fn authenticate_at(&self, signature: Option<&str>, body: &[u8], now: i64) -> (r: Result<(), WebhookReply>)
        ensures
            reply_matches(r, auth_verdict(view_opt_str(signature), body@, self.config.webhook_secret@, now as int)),
    {
        match signature {
            None => Err(reply(400, "Missing signature")),
            Some(h) => match verify_signature_at(body, h, self.config.webhook_secret.as_str(), now) {
                Ok(()) => Ok(()),
                Err(_) => Err(reply(401, "Invalid signature")),
            },
        }
    }

    /// Authenticates a request at the current time, as `authenticate_at` does.
    pub fn authenticate(&self, signature: Option<&str>, body: &[u8]) -> (r: Result<(), WebhookReply>)
        ensures
            exists|now: i64|
                reply_matches(r, #[trigger] auth_verdict(view_opt_str(signature), body@, self.config.webhook_secret@, now as int)),
    {
        let now = unix_now();
        self.authenticate_at(signature, body, now)
    }

    /// Processes an authenticated event at time `now`. `shared_seen` is the
    /// shared store's answer to whether the event id was processed, `None` when
    /// the store is absent or unreachable; `user_id` identifies a subscription
    /// that the event may activate.
    ///
    /// A seen event changes nothing and is answered 200. Otherwise the handler
    /// that the event type selects runs, its outcome is recorded once (in the
    /// in-process ledger, or handed back for the shared store), and the reply
    /// is 200 on success, 500 with the error otherwise.
    pub fn process_event_at(
        &mut self,
        event: &StripeEvent,
        shared_seen: Option<bool>,
        now: i64,
        user_id: u128,
    ) -> (r: DispatchOutcome)
        ensures
            final(self).config == old(self).config,
            already_seen(old(self).idempotency@, event.id@, shared_seen) ==> {
                &&& r.reply.status == 200
                &&& r.reply.body@ == "Already processed"@
                &&& r.audit is None
                &&& r.shared_write is None
                &&& final(self).idempotency@ == old(self).idempotency@
                &&& final(self).subscriptions@ == old(self).subscriptions@
            },
            !already_seen(old(self).idempotency@, event.id@, shared_seen) ==> {
                &&& registry_step(old(self).subscriptions@, final(self).subscriptions@, *event, now, user_id)
                &&& ledger_step(
                    old(self).idempotency@,
                    final(self).idempotency@,
                    r.shared_write,
                    *event,
                    shared_seen,
                    now,
                    user_id,
                )
                &&& audit_for(r.audit, *event)
                &&& r.reply.status == if handler_outcome(*event) is Ok {
                    200u16
                } else {
                    500u16
                }
                &&& r.reply.body@ == match handler_outcome(*event) {
                    Ok(()) => "Success"@,
                    Err(msg) => msg,
                }
            },
    {
        let seen = match shared_seen {
            Some(b) => b,
            None => self.idempotency.is_processed(event.id.as_str()),
        };
        if seen {
            return DispatchOutcome { reply: reply(200, "Already processed"), audit: None, shared_write: None };
        }
        let handled: Result<(), String>;
        let audit_record: Option<AuditRecord>;
        match classify_event(event.event_type.as_str()) {
            EventKind::CheckoutCompleted => {
                match handle_checkout_completed(&mut self.subscriptions, event, now, user_id) {
                    Ok(a) => {
                        handled = Ok(());
                        audit_record = Some(a);
                    },
                    Err(e) => {
                        handled = Err(e);
                        audit_record = None;
                    },
                }
            },
            EventKind::InvoicePaid => {
                handled = Ok(());
                audit_record = Some(handle_invoice_paid(event));
            },
            EventKind::PaymentFailed => {
                handled = Ok(());
                audit_record = Some(handle_payment_failed(event));
            },
            EventKind::SubscriptionDeleted => {
                handled = Ok(());
                audit_record = handle_subscription_deleted(&mut self.subscriptions, event);
            },
            EventKind::Unrecognized => {
                handled = Ok(());
                audit_record = None;
            },
        }
        let (result, answer) = match &handled {
            Ok(()) => (EventResult::Success { user_id, plan: recorded_plan_code(event) }, reply(200, "Success")),
            Err(e) => (EventResult::Failed { error: e.clone() }, reply(500, e.as_str())),
        };
        let shared_write = match shared_seen {
            Some(_) => Some((shared_store_key(event.id.as_str()), result)),
            None => {
                let ghost before = self.idempotency@;
                self.idempotency.mark_processed_at(event.id.clone(), result, now);
                assert(self.idempotency@ == before.insert(event.id@, self.idempotency@[event.id@]));
                None
            },
        };
        DispatchOutcome { reply: answer, audit: audit_record, shared_write }
    }
}

/// The answer to a customer-portal request.
pub struct PortalSessionResponse {
    pub url: String,
}

/// The customer-portal session for a provider customer id.
pub fn portal_session(customer_id: &str) -> (r: PortalSessionResponse)
    ensures
        r.url@ == "https://billing.stripe.com/p/session/test_portal_"@ + customer_id@,
{
    PortalSessionResponse { url: join_str("https://billing.stripe.com/p/session/test_portal_", customer_id) }
}

/// Once an event has been processed without a shared store, a redelivery of
/// it is seen as processed, and so changes nothing.
pub proof fn redelivery_is_seen(
    before: Map<Seq<char>, ProcessedEvent>,
    after: Map<Seq<char>, ProcessedEvent>,
    write: Option<(String, EventResult)>,
    e: StripeEvent,
    now: i64,
    user_id: u128,
)
    requires
        ledger_step(before, after, write, e, None, now, user_id),
    ensures
        already_seen(after, e.id@, None),
{
}

/// An event of an unrecognized type leaves the registry as it was, emits no
/// audit record, and succeeds.
pub proof fn unrecognized_event_changes_nothing(
    before: Map<Seq<char>, UserSubscription>,
    after: Map<Seq<char>, UserSubscription>,
    a: Option<AuditRecord>,
    e: StripeEvent,
    now: i64,
    user_id: u128,
)
    requires
        event_kind(e.event_type@) == EventKind::Unrecognized,
        registry_step(before, after, e, now, user_id),
        audit_for(a, e),
    ensures
        after == before,
        a is None,
        handler_outcome(e) is Ok,
{
}

} // verus!
