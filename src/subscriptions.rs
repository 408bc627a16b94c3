use vstd::prelude::*;

use crate::clock::{random_uuid, unix_now};
use crate::text::{copy_opt_string, copy_str, str_equals};

verus! {

/// A commercial plan: free, or a paid tier billed monthly or yearly.
#[derive(Debug, Clone, Copy, PartialEq, Eq, Structural)]
pub enum SubscriptionPlan {
    Free,
    Pro { monthly: bool },
    Enterprise { monthly: bool },
}

/// Where a subscription stands.
#[derive(Debug, Clone, Copy, PartialEq, Eq, Structural)]
pub enum SubscriptionStatus {
    Active,
    Trialing,
    PastDue,
    Canceled,
    Unpaid,
}

/// The subscription of one customer, keyed by email. Times are Unix seconds.
#[derive(Debug, Clone)]
pub struct UserSubscription {
    pub user_id: u128,
    pub email: String,
    pub stripe_customer_id: Option<String>,
    pub stripe_subscription_id: Option<String>,
    pub plan: SubscriptionPlan,
    pub status: SubscriptionStatus,
    pub activated_at: i64,
    pub current_period_end: Option<i64>,
}

impl UserSubscription {
    /// A copy equal to `self`.
    pub fn snapshot(&self) -> (r: Self)
        ensures
            r == *self,
    {
        UserSubscription {
            user_id: self.user_id,
            email: self.email.clone(),
            stripe_customer_id: copy_opt_string(&self.stripe_customer_id),
            stripe_subscription_id: copy_opt_string(&self.stripe_subscription_id),
            plan: self.plan,
            status: self.status,
            activated_at: self.activated_at,
            current_period_end: self.current_period_end,
        }
    }
}

/// The plan that a plan code names; unknown codes give the free plan.
pub open spec fn plan_for_code(code: Seq<char>) -> SubscriptionPlan {
    if code == "pro_monthly"@ {
        SubscriptionPlan::Pro { monthly: true }
    } else if code == "pro_annual"@ {
        SubscriptionPlan::Pro { monthly: false }
    } else if code == "enterprise_monthly"@ {
        SubscriptionPlan::Enterprise { monthly: true }
    } else if code == "enterprise_annual"@ {
        SubscriptionPlan::Enterprise { monthly: false }
    } else {
        SubscriptionPlan::Free
    }
}

/// Maps a plan code to its plan.
pub fn plan_from_code(code: &str) -> (r: SubscriptionPlan)
    ensures
        r == plan_for_code(code@),
{
    if str_equals(code, "pro_monthly") {
        SubscriptionPlan::Pro { monthly: true }
    } else if str_equals(code, "pro_annual") {
        SubscriptionPlan::Pro { monthly: false }
    } else if str_equals(code, "enterprise_monthly") {
        SubscriptionPlan::Enterprise { monthly: true }
    } else if str_equals(code, "enterprise_annual") {
        SubscriptionPlan::Enterprise { monthly: false }
    } else {
        SubscriptionPlan::Free
    }
}

/// The same subscription, canceled.
pub open spec fn canceled(s: UserSubscription) -> UserSubscription {
    UserSubscription { status: SubscriptionStatus::Canceled, ..s }
}

/// What a cancellation does to the registry: the key's status becomes
/// canceled if the key is there; otherwise nothing changes.
pub open spec fn cancel_effect(
    m: Map<Seq<char>, UserSubscription>,
    email: Seq<char>,
) -> Map<Seq<char>, UserSubscription> {
    if m.contains_key(email) {
        m.insert(email, canceled(m[email]))
    } else {
        m
    }
}

/// The record for `email` among `s`; a later record wins over an earlier one.
pub open spec fn find_subscription(s: Seq<UserSubscription>, email: Seq<char>) -> Option<UserSubscription>
    decreases s.len(),
{
    if s.len() == 0 {
        None
    } else if s.last().email@ == email {
        Some(s.last())
    } else {
        find_subscription(s.drop_last(), email)
    }
}

proof fn lemma_find_update(s: Seq<UserSubscription>, i: int, x: UserSubscription, k: Seq<char>)
    requires
        0 <= i < s.len(),
        x.email@ == s[i].email@,
        forall|j: int| i < j < s.len() ==> s[j].email@ != s[i].email@,
    ensures
        find_subscription(s.update(i, x), k) == if k == s[i].email@ {
            Some(x)
        } else {
            find_subscription(s, k)
        },
    decreases s.len(),
{
    let u = s.update(i, x);
    if i == s.len() - 1 {
        assert(u.drop_last() =~= s.drop_last());
    } else {
        assert(u.drop_last() =~= s.drop_last().update(i, x));
        lemma_find_update(s.drop_last(), i, x, k);
    }
}

proof fn lemma_find_push(s: Seq<UserSubscription>, x: UserSubscription, k: Seq<char>)
    ensures
        find_subscription(s.push(x), k) == if k == x.email@ {
            Some(x)
        } else {
            find_subscription(s, k)
        },
{
    assert(s.push(x).drop_last() =~= s);
}

/// The subscription registry: at most one subscription per email.
pub struct SubscriptionManager {
    subscriptions: Vec<UserSubscription>,
}

impl View for SubscriptionManager {
    type V = Map<Seq<char>, UserSubscription>;

    closed spec fn view(&self) -> Map<Seq<char>, UserSubscription> {
        Map::new(
            |k: Seq<char>| find_subscription(self.subscriptions@, k) is Some,
            |k: Seq<char>| find_subscription(self.subscriptions@, k)->0,
        )
    }
}

impl SubscriptionManager {
    /// An empty registry.
    pub fn new() -> (r: Self)
        ensures
            r@ == Map::<Seq<char>, UserSubscription>::empty(),
    {
        let r = SubscriptionManager { subscriptions: Vec::new() };
        assert(r@ =~= Map::<Seq<char>, UserSubscription>::empty());
        r
    }

    /// The index of the record for `email`, the last one if several.
    fn position_of(&self, email: &str) -> (r: Option<usize>)
        ensures
            match r {
                Some(i) => {
                    &&& i < self.subscriptions@.len()
                    &&& self.subscriptions@[i as int].email@ == email@
                    &&& find_subscription(self.subscriptions@, email@) == Some(self.subscriptions@[i as int])
                    &&& forall|j: int| i < j < self.subscriptions@.len() ==> self.subscriptions@[j].email@ != email@
                },
                None => find_subscription(self.subscriptions@, email@) is None,
            },
    {
        let s = &self.subscriptions;
        let mut i: usize = s.len();
        assert(s@ =~= s@.subrange(0, i as int));
        while i > 0
            invariant
                s@ == self.subscriptions@,
                i <= s@.len(),
                find_subscription(s@, email@) == find_subscription(s@.subrange(0, i as int), email@),
                forall|j: int| i <= j < s@.len() ==> s@[j].email@ != email@,
            decreases i,
        {
            let k = i - 1;
            if str_equals(s[k].email.as_str(), email) {
                assert(s@.subrange(0, i as int).last() == s@[k as int]);
                return Some(k);
            }
            assert(s@.subrange(0, i as int).drop_last() =~= s@.subrange(0, k as int));
            i = k;
        }
        None
    }

    /// Records `email`'s subscription to the plan that `plan_name` names, as
    /// active from `now`, replacing any earlier record for `email`.
    pub fn activate_subscription_at(
        &mut self,
        email: &str,
        stripe_customer_id: Option<String>,
        stripe_subscription_id: Option<String>,
        plan_name: &str,
        user_id: u128,
        now: i64,
    ) -> (r: UserSubscription)
        ensures
            r.user_id == user_id,
            r.email@ == email@,
            r.stripe_customer_id == stripe_customer_id,
            r.stripe_subscription_id == stripe_subscription_id,
            r.plan == plan_for_code(plan_name@),
            r.status == SubscriptionStatus::Active,
            r.activated_at == now,
            r.current_period_end is None,
            final(self)@ == old(self)@.insert(email@, r),
    {
        let subscription = UserSubscription {
            user_id,
            email: copy_str(email),
            stripe_customer_id,
            stripe_subscription_id,
            plan: plan_from_code(plan_name),
            status: SubscriptionStatus::Active,
            activated_at: now,
            current_period_end: None,
        };
        let result = subscription.snapshot();
        let ghost before = self.subscriptions@;
        match self.position_of(email) {
            Some(i) => {
                self.subscriptions.set(i, subscription);
                proof {
                    assert forall|k: Seq<char>| #[trigger] find_subscription(self.subscriptions@, k)
                        == if k == email@ { Some(result) } else { find_subscription(before, k) } by {
                        lemma_find_update(before, i as int, result, k);
                    }
                }
            },
            None => {
                self.subscriptions.push(subscription);
                proof {
                    assert forall|k: Seq<char>| #[trigger] find_subscription(self.subscriptions@, k)
                        == if k == email@ { Some(result) } else { find_subscription(before, k) } by {
                        lemma_find_push(before, result, k);
                    }
                }
            },
        }
        assert(self@ =~= old(self)@.insert(email@, result));
        result
    }

    /// Records `email`'s subscription as `activate_subscription_at` does, with a
    /// fresh identifier and the current time.
    pub fn activate_subscription(
        &mut self,
        email: &str,
        stripe_customer_id: Option<String>,
        stripe_subscription_id: Option<String>,
        plan_name: &str,
    ) -> (r: UserSubscription)
        ensures
            r.email@ == email@,
            r.stripe_customer_id == stripe_customer_id,
            r.stripe_subscription_id == stripe_subscription_id,
            r.plan == plan_for_code(plan_name@),
            r.status == SubscriptionStatus::Active,
            r.current_period_end is None,
            final(self)@ == old(self)@.insert(email@, r),
    {
        let user_id = random_uuid();
        let now = unix_now();
        self.activate_subscription_at(email, stripe_customer_id, stripe_subscription_id, plan_name, user_id, now)
    }

    /// The subscription recorded for `email`, if any.
    pub fn get_by_email(&self, email: &str) -> (r: Option<UserSubscription>)
        ensures
            r == if self@.contains_key(email@) {
                Some(self@[email@])
            } else {
                None::<UserSubscription>
            },
    {
        match self.position_of(email) {
            Some(i) => Some(self.subscriptions[i].snapshot()),
            None => None,
        }
    }

    /// Marks `email`'s subscription canceled; false, with nothing changed, when
    /// there is none.
    pub fn cancel_subscription(&mut self, email: &str) -> (r: bool)
        ensures
            r == old(self)@.contains_key(email@),
            final(self)@ == cancel_effect(old(self)@, email@),
    {
        match self.position_of(email) {
            Some(i) => {
                let ghost before = self.subscriptions@;
                let mut updated = self.subscriptions[i].snapshot();
                updated.status = SubscriptionStatus::Canceled;
                let ghost x = updated;
                self.subscriptions.set(i, updated);
                proof {
                    assert(x == canceled(before[i as int]));
                    assert forall|k: Seq<char>| #[trigger] find_subscription(self.subscriptions@, k)
                        == if k == email@ { Some(x) } else { find_subscription(before, k) } by {
                        lemma_find_update(before, i as int, x, k);
                    }
                }
                assert(self@ =~= cancel_effect(old(self)@, email@));
                true
            },
            None => false,
        }
    }
}

/// Canceling twice leaves the registry as canceling once does.
pub proof fn cancel_is_idempotent(m: Map<Seq<char>, UserSubscription>, email: Seq<char>)
    ensures
        cancel_effect(cancel_effect(m, email), email) == cancel_effect(m, email),
{
    if m.contains_key(email) {
        assert(cancel_effect(cancel_effect(m, email), email) =~= cancel_effect(m, email));
    }
}

/// Canceling a key that is not there changes nothing.
pub proof fn cancel_unknown_is_noop(m: Map<Seq<char>, UserSubscription>, email: Seq<char>)
    requires
        !m.contains_key(email),
    ensures
        cancel_effect(m, email) == m,
{
}

/// After an activation, a lookup of the same key finds an active subscription
/// on the plan that the code names.
pub proof fn activate_then_get(
    m: Map<Seq<char>, UserSubscription>,
    email: Seq<char>,
    s: UserSubscription,
    code: Seq<char>,
)
    requires
        s.plan == plan_for_code(code),
        s.status == SubscriptionStatus::Active,
    ensures
        m.insert(email, s).contains_key(email),
        m.insert(email, s)[email].plan == plan_for_code(code),
        m.insert(email, s)[email].status == SubscriptionStatus::Active,
{
}

} // verus!
