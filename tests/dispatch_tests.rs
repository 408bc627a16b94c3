use hmac::{Hmac, Mac};
use payment_webhooks::ledger::EventResult;
use payment_webhooks::paypal::{
    basic_authorization, classify_paypal_event, AccessTokenCache, PayPalConfig, PayPalEventKind,
};
use payment_webhooks::stripe::{
    classify_event, invalid_event_reply, portal_session, CheckoutSession, EventKind, EventObject,
    StripeConfig, StripeEvent, StripeEventData, StripeWebhookState,
};
use payment_webhooks::subscriptions::{SubscriptionPlan, SubscriptionStatus};
use sha2::Sha256;

fn session(email: Option<&str>, plan: Option<&str>) -> CheckoutSession {
    CheckoutSession {
        id: "cs_1".to_string(),
        customer: Some("cus_9".to_string()),
        customer_email: email.map(|e| e.to_string()),
        subscription: Some("sub_9".to_string()),
        amount_total: Some(2900),
        currency: Some("eur".to_string()),
        status: "complete".to_string(),
        metadata: plan.map(|p| vec![("plan".to_string(), p.to_string())]),
    }
}

fn event(id: &str, kind: &str, email: Option<&str>, checkout: Result<CheckoutSession, String>) -> StripeEvent {
    StripeEvent {
        id: id.to_string(),
        event_type: kind.to_string(),
        created: 1_700_000_000,
        data: StripeEventData {
            object: EventObject {
                customer_email: email.map(|e| e.to_string()),
                amount_paid: Some(1500),
                checkout_session: checkout,
            },
        },
        livemode: false,
    }
}

fn state() -> StripeWebhookState {
    StripeWebhookState::new(StripeConfig::from_settings(None, Some("whsec_test".to_string()), None, None))
}

#[test]
fn redelivery_mutates_once() {
    let mut st = state();
    let e = event("evt_1", "checkout.session.completed", None, Ok(session(Some("a@x.com"), Some("pro_annual"))));
    let first = st.process_event_at(&e, None, 100, 11);
    assert_eq!(first.reply.status, 200);
    assert_eq!(first.reply.body, "Success");
    let after_first = st.subscriptions.get_by_email("a@x.com").unwrap();
    assert_eq!(after_first.user_id, 11);
    assert_eq!(after_first.plan, SubscriptionPlan::Pro { monthly: false });
    let second = st.process_event_at(&e, None, 200, 22);
    assert_eq!(second.reply.status, 200);
    assert_eq!(second.reply.body, "Already processed");
    assert!(second.audit.is_none());
    let after_second = st.subscriptions.get_by_email("a@x.com").unwrap();
    assert_eq!(after_second.user_id, 11);
    assert_eq!(after_second.activated_at, 100);
}

#[test]
fn unrecognized_type_is_ok_and_changes_nothing() {
    let mut st = state();
    st.subscriptions.activate_subscription_at("a@x.com", None, None, "pro_monthly", 1, 1);
    let e = event("evt_9", "customer.created", Some("a@x.com"), Err("not a session".to_string()));
    let out = st.process_event_at(&e, None, 5, 99);
    assert_eq!(out.reply.status, 200);
    assert_eq!(out.reply.body, "Success");
    assert!(out.audit.is_none());
    let s = st.subscriptions.get_by_email("a@x.com").unwrap();
    assert_eq!(s.user_id, 1);
    assert_eq!(s.status, SubscriptionStatus::Active);
    assert!(st.idempotency.is_processed("evt_9"));
}

#[test]
fn checkout_defaults_to_pro_monthly() {
    let mut st = state();
    let e = event("evt_2", "checkout.session.completed", None, Ok(session(Some("c@x.com"), None)));
    let out = st.process_event_at(&e, None, 7, 3);
    let a = out.audit.unwrap();
    assert_eq!(a.event, "checkout.completed");
    assert_eq!(a.email, "c@x.com");
    assert_eq!(a.amount_cents, Some(2900));
    let s = st.subscriptions.get_by_email("c@x.com").unwrap();
    assert_eq!(s.plan, SubscriptionPlan::Pro { monthly: true });
    assert_eq!(s.stripe_customer_id, Some("cus_9".to_string()));
}

#[test]
fn undecodable_checkout_fails_and_is_recorded() {
    let mut st = state();
    let e = event("evt_3", "checkout.session.completed", None, Err("missing field `id`".to_string()));
    let out = st.process_event_at(&e, None, 7, 3);
    assert_eq!(out.reply.status, 500);
    assert_eq!(out.reply.body, "Failed to parse session: missing field `id`");
    assert!(st.idempotency.is_processed("evt_3"));
    let again = st.process_event_at(&e, None, 8, 4);
    assert_eq!(again.reply.status, 200);
    assert_eq!(again.reply.body, "Already processed");
}

#[test]
fn subscription_deleted_cancels() {
    let mut st = state();
    st.subscriptions.activate_subscription_at("d@x.com", None, None, "enterprise_monthly", 5, 1);
    let e = event("evt_4", "customer.subscription.deleted", Some("d@x.com"), Err(String::new()));
    let out = st.process_event_at(&e, None, 9, 0);
    assert_eq!(out.reply.status, 200);
    assert_eq!(out.audit.unwrap().event, "subscription.deleted");
    let s = st.subscriptions.get_by_email("d@x.com").unwrap();
    assert_eq!(s.status, SubscriptionStatus::Canceled);
}

#[test]
fn invoice_events_are_audited() {
    let mut st = state();
    let paid = event("evt_5", "invoice.paid", None, Err(String::new()));
    let a = st.process_event_at(&paid, None, 1, 1).audit.unwrap();
    assert_eq!(a.event, "invoice.paid");
    assert_eq!(a.email, "unknown");
    assert_eq!(a.amount_cents, Some(1500));
    let failed = event("evt_6", "invoice.payment_failed", Some("e@x.com"), Err(String::new()));
    let a = st.process_event_at(&failed, None, 1, 1).audit.unwrap();
    assert_eq!(a.event, "payment.failed");
    assert_eq!(a.email, "e@x.com");
    assert_eq!(a.amount_cents, None);
}

#[test]
fn shared_store_answers_are_followed() {
    let mut st = state();
    let e = event("evt_7", "invoice.paid", None, Err(String::new()));
    let seen = st.process_event_at(&e, Some(true), 1, 1);
    assert_eq!(seen.reply.body, "Already processed");
    assert!(seen.shared_write.is_none());
    let fresh = st.process_event_at(&e, Some(false), 1, 42);
    assert_eq!(fresh.reply.status, 200);
    let (key, result) = fresh.shared_write.unwrap();
    assert_eq!(key, "event:evt_7");
    match result {
        EventResult::Success { user_id, plan } => {
            assert_eq!(user_id, 42);
            assert_eq!(plan, "processed");
        }
        other => panic!("unexpected {:?}", other),
    }
    assert!(!st.idempotency.is_processed("evt_7"));
}

#[test]
fn authentication_replies() {
    let st = state();
    let missing = st.authenticate_at(None, b"{}", 100).unwrap_err();
    assert_eq!(missing.status, 400);
    assert_eq!(missing.body, "Missing signature");
    let bad = st.authenticate_at(Some("t=100,v1=00"), b"{}", 100).unwrap_err();
    assert_eq!(bad.status, 401);
    assert_eq!(bad.body, "Invalid signature");
    let mut mac = <Hmac<Sha256> as Mac>::new_from_slice(b"whsec_test").unwrap();
    mac.update(b"100.{}");
    let sig = hex::encode(mac.finalize().into_bytes());
    assert!(st.authenticate_at(Some(&format!("t=100,v1={}", sig)), b"{}", 100).is_ok());
    let invalid = invalid_event_reply();
    assert_eq!(invalid.status, 400);
    assert_eq!(invalid.body, "Invalid event");
}

#[test]
fn event_classification() {
    assert_eq!(classify_event("checkout.session.completed"), EventKind::CheckoutCompleted);
    assert_eq!(classify_event("invoice.paid"), EventKind::InvoicePaid);
    assert_eq!(classify_event("invoice.payment_failed"), EventKind::PaymentFailed);
    assert_eq!(classify_event("customer.subscription.deleted"), EventKind::SubscriptionDeleted);
    assert_eq!(classify_event("invoice.created"), EventKind::Unrecognized);
}

#[test]
fn config_defaults() {
    let c = StripeConfig::from_settings(None, None, None, Some("redis://x".to_string()));
    assert_eq!(c.secret_key, "sk_test_placeholder");
    assert_eq!(c.webhook_secret, "whsec_placeholder");
    assert_eq!(c.publishable_key, "pk_test_placeholder");
    assert_eq!(c.redis_url, Some("redis://x".to_string()));
}

#[test]
fn portal_url() {
    assert_eq!(portal_session("cus_1").url, "https://billing.stripe.com/p/session/test_portal_cus_1");
}

#[test]
fn paypal_base_url() {
    let live = PayPalConfig::from_settings(None, None, Some("live".to_string()), None);
    assert_eq!(live.base_url(), "https://api-m.paypal.com");
    let sandbox = PayPalConfig::from_settings(None, None, None, None);
    assert_eq!(sandbox.mode, "sandbox");
    assert_eq!(sandbox.client_id, "sb_client_id_placeholder");
    assert_eq!(sandbox.base_url(), "https://api-m.sandbox.paypal.com");
    assert_eq!(sandbox.token_url(), "https://api-m.sandbox.paypal.com/v1/oauth2/token");
}

#[test]
fn paypal_basic_authorization() {
    assert_eq!(basic_authorization("Aladdin", "open sesame"), "Basic QWxhZGRpbjpvcGVuIHNlc2FtZQ==");
}

#[test]
fn token_cache_expires_a_minute_early() {
    let mut cache = AccessTokenCache::new();
    assert_eq!(cache.cached_token(0), None);
    cache.store_token("tok".to_string(), 1000, Some(120));
    assert_eq!(cache.cached_token(1059), Some("tok".to_string()));
    assert_eq!(cache.cached_token(1060), None);
    cache.store_token("tok2".to_string(), 1000, None);
    assert_eq!(cache.cached_token(4539), Some("tok2".to_string()));
    assert_eq!(cache.cached_token(4540), None);
    cache.store_token("tok3".to_string(), i64::MAX, Some(i64::MAX));
    assert_eq!(cache.cached_token(i64::MAX - 1), Some("tok3".to_string()));
}

#[test]
fn paypal_classification() {
    assert_eq!(classify_paypal_event("PAYMENT.CAPTURE.COMPLETED"), PayPalEventKind::PaymentCaptureCompleted);
    assert_eq!(classify_paypal_event("BILLING.SUBSCRIPTION.CREATED"), PayPalEventKind::SubscriptionCreated);
    assert_eq!(classify_paypal_event("BILLING.SUBSCRIPTION.CANCELLED"), PayPalEventKind::SubscriptionCancelled);
    assert_eq!(classify_paypal_event("OTHER"), PayPalEventKind::Unhandled);
}
