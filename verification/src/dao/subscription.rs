//! Read-only access to the subscriptions in the store.

use crate::dao::payment_dao::{
    get_subscription_spec, item_is_active, stored_active, subscription_request,
};
use crate::store::{Attribute, StoreRequest};
use vstd::prelude::*;

verus! {

/// Reads the subscriptions of one table.
#[derive(Debug, Clone, PartialEq, Eq)]
pub struct SubscriptionReader {
    table_name: String,
}

impl SubscriptionReader {
    /// The table that the requests go to.
    pub closed spec fn table(&self) -> Seq<char> {
        self.table_name@
    }

    /// Access to the table of the given name.
    pub fn new(table_name: String) -> (reader: Self)
        ensures
            reader.table() == table_name@,
    {
        SubscriptionReader { table_name }
    }

    /// The request that reads the subscription of a guild.
    pub fn get_subscription(&self, guild_id: &str) -> (request: StoreRequest)
        ensures
            request@ == get_subscription_spec(self.table(), guild_id@),
    {
        subscription_request(self.table_name.as_str(), guild_id)
    }

    /// Judges the answer to a read of a subscription: active where an item
    /// came, its status is `active`, and it has not expired at `now`.
    pub fn is_active(&self, item: &Option<Vec<Attribute>>, now: i64) -> (active: bool)
        ensures
            active == stored_active(item.deep_view(), now as int),
    {
        item_is_active(item, now)
    }
}

} // verus!
