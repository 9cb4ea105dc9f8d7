//! Which message events the subscription hands to a subscriber.
use vstd::prelude::*;
use crate::model::MessageChanged;

verus! {

/// The root of the subscriptions.
pub struct Subscription;

/// An event goes to the user it is addressed to, unless that user sent it.
pub open spec fn delivered_to(event: MessageChanged, identity_id: u64) -> bool {
    event.tx_user_id != identity_id && event.rx_user_id == identity_id
}

impl Subscription {
    /// Whether the message subscription of `identity_id` passes `event` on.
    pub fn delivers(event: &MessageChanged, identity_id: u64) -> (r: bool)
        ensures
            r == delivered_to(*event, identity_id),
    {
        event.tx_user_id != identity_id && event.rx_user_id == identity_id
    }
}

} // verus!
