//! The server side of JSON-RPC over relays: which relay notifications carry requests.
use vstd::prelude::*;

verus! {

/// Whether an event received under `subscription_id` belongs to the transport's own
/// subscription, and so is a request to serve.
pub fn accepts_notification(subscription_id: &String, transport_subscription_id: &String) -> (r: bool)
    ensures
        r == (subscription_id@ == transport_subscription_id@),
{
    *subscription_id == *transport_subscription_id
}

} // verus!
