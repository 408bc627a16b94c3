use payment_webhooks::ledger::{shared_store_key, EventResult, IdempotencyStore};
use payment_webhooks::subscriptions::{
    plan_from_code, SubscriptionManager, SubscriptionPlan, SubscriptionStatus,
};

#[test]
fn mark_then_is_processed() {
    let mut store = IdempotencyStore::new();
    assert!(!store.is_processed("evt_1"));
    assert!(store.mark_processed("evt_1".to_string(), EventResult::Duplicate));
    assert!(store.is_processed("evt_1"));
    assert!(!store.is_processed("evt_2"));
}

#[test]
fn ledger_entry_is_never_overwritten() {
    let mut store = IdempotencyStore::new();
    assert!(store.mark_processed_at(
        "evt_1".to_string(),
        EventResult::Failed { error: "first".to_string() },
        10
    ));
    assert!(!store.mark_processed_at(
        "evt_1".to_string(),
        EventResult::Success { user_id: 1, plan: "processed".to_string() },
        20
    ));
    assert!(store.is_processed("evt_1"));
}

#[test]
fn shared_store_key_format() {
    assert_eq!(shared_store_key("evt_42"), "event:evt_42");
}

#[test]
fn activate_then_get_pro_monthly() {
    let mut m = SubscriptionManager::new();
    let s = m.activate_subscription("a@x.com", Some("cus_1".to_string()), None, "pro_monthly");
    assert_eq!(s.plan, SubscriptionPlan::Pro { monthly: true });
    let got = m.get_by_email("a@x.com").unwrap();
    assert_eq!(got.plan, SubscriptionPlan::Pro { monthly: true });
    assert_eq!(got.status, SubscriptionStatus::Active);
    assert_eq!(got.email, "a@x.com");
    assert_eq!(got.stripe_customer_id, Some("cus_1".to_string()));
    assert_eq!(got.user_id, s.user_id);
}

#[test]
fn activation_replaces_earlier_record() {
    let mut m = SubscriptionManager::new();
    m.activate_subscription_at("a@x.com", None, None, "pro_monthly", 1, 100);
    m.cancel_subscription("a@x.com");
    m.activate_subscription_at("a@x.com", None, Some("sub_2".to_string()), "enterprise_annual", 2, 200);
    let got = m.get_by_email("a@x.com").unwrap();
    assert_eq!(got.user_id, 2);
    assert_eq!(got.activated_at, 200);
    assert_eq!(got.plan, SubscriptionPlan::Enterprise { monthly: false });
    assert_eq!(got.status, SubscriptionStatus::Active);
    assert_eq!(got.stripe_subscription_id, Some("sub_2".to_string()));
}

#[test]
fn cancel_unknown_returns_false() {
    let mut m = SubscriptionManager::new();
    m.activate_subscription_at("b@x.com", None, None, "pro_annual", 7, 1);
    assert!(!m.cancel_subscription("unknown@x.com"));
    assert!(m.get_by_email("unknown@x.com").is_none());
    let b = m.get_by_email("b@x.com").unwrap();
    assert_eq!(b.status, SubscriptionStatus::Active);
}

#[test]
fn cancel_twice_same_end_state() {
    let mut m = SubscriptionManager::new();
    m.activate_subscription_at("a@x.com", None, None, "pro_monthly", 3, 5);
    assert!(m.cancel_subscription("a@x.com"));
    let once = m.get_by_email("a@x.com").unwrap();
    assert!(m.cancel_subscription("a@x.com"));
    let twice = m.get_by_email("a@x.com").unwrap();
    assert_eq!(once.status, SubscriptionStatus::Canceled);
    assert_eq!(twice.status, SubscriptionStatus::Canceled);
    assert_eq!(once.user_id, twice.user_id);
    assert_eq!(once.plan, twice.plan);
}

#[test]
fn plan_codes() {
    assert_eq!(plan_from_code("pro_monthly"), SubscriptionPlan::Pro { monthly: true });
    assert_eq!(plan_from_code("pro_annual"), SubscriptionPlan::Pro { monthly: false });
    assert_eq!(plan_from_code("enterprise_monthly"), SubscriptionPlan::Enterprise { monthly: true });
    assert_eq!(plan_from_code("enterprise_annual"), SubscriptionPlan::Enterprise { monthly: false });
    assert_eq!(plan_from_code("gold"), SubscriptionPlan::Free);
    assert_eq!(plan_from_code(""), SubscriptionPlan::Free);
}
