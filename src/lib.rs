use vstd::prelude::*;

mod clock;
pub mod ledger;
pub mod paypal;
pub mod signature;
pub mod stripe;
pub mod subscriptions;
pub mod text;

verus! {

} // verus!
