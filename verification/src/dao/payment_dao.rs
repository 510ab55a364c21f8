//! The subscription of a guild in the store.
//!
//! A subscription is the item under the partition key `guild_id` and the sort
//! key `subscription_key`, which is always `SUBSCRIPTION`. It holds `status`,
//! a text, and `expires_at`, a number of seconds since the epoch.

use crate::decimal::{decimal_i64, decimal_text, format_i64, parse_i64};
use crate::store::{
    number_attribute, read_number, read_text, text_attribute, Attribute, AttributeModel,
    StoreRequest, StoreRequestModel,
};
use crate::subscription::{entitled, Subscription, SubscriptionModel, SubscriptionStatus};
use crate::text::same_text;
use vstd::prelude::*;
use vstd::string::StringExecFns;

verus! {

/// The key of the subscription of a guild.
pub open spec fn subscription_item_key(guild_id: Seq<char>) -> Seq<AttributeModel> {
    seq![
        AttributeModel::text("guild_id"@, guild_id),
        AttributeModel::text("subscription_key"@, "SUBSCRIPTION"@),
    ]
}

/// The request that reads the subscription of a guild.
pub open spec fn get_subscription_spec(
    table_name: Seq<char>,
    guild_id: Seq<char>,
) -> StoreRequestModel {
    StoreRequestModel::GetItem { table_name, key: subscription_item_key(guild_id) }
}

/// The request that makes a guild subscribed until `expires_at`.
pub open spec fn subscribe_guild_spec(
    table_name: Seq<char>,
    guild_id: Seq<char>,
    expires_at: int,
) -> StoreRequestModel {
    StoreRequestModel::PutItem {
        table_name,
        item: seq![
            AttributeModel::text("guild_id"@, guild_id),
            AttributeModel::text("subscription_key"@, "SUBSCRIPTION"@),
            AttributeModel::text("status"@, "active"@),
            AttributeModel::number("expires_at"@, decimal_text(expires_at)),
        ],
    }
}

/// The request that turns the subscription of a guild inactive and leaves
/// the rest of the item as it is.
pub open spec fn cancel_subscription_spec(
    table_name: Seq<char>,
    guild_id: Seq<char>,
) -> StoreRequestModel {
    StoreRequestModel::UpdateItem {
        table_name,
        key: subscription_item_key(guild_id),
        update_expression: "SET #s = :inactive"@,
        names: seq![("#s"@, "status"@)],
        values: seq![AttributeModel::text(":inactive"@, "inactive"@)],
    }
}

/// The status in an item: active only where `status` is the text `active`.
pub open spec fn stored_status(item: Seq<AttributeModel>) -> SubscriptionStatus {
    if text_attribute(item, "status"@) == Some("active"@) {
        SubscriptionStatus::Active
    } else {
        SubscriptionStatus::Inactive
    }
}

/// The expiry in an item: the number under `expires_at`, and 0 where there is
/// none that fits 64 bits.
pub open spec fn stored_expiry(item: Seq<AttributeModel>) -> int {
    match number_attribute(item, "expires_at"@) {
        Some(number) => match decimal_i64(number) {
            Some(seconds) => seconds as int,
            None => 0,
        },
        None => 0,
    }
}

/// The subscription that the answer to a read holds, if an item came.
pub open spec fn stored_subscription(
    guild_id: Seq<char>,
    item: Option<Seq<AttributeModel>>,
) -> Option<SubscriptionModel> {
    match item {
        Some(item) => Some(
            SubscriptionModel {
                guild_id,
                status: stored_status(item),
                expires_at: stored_expiry(item),
            },
        ),
        None => None,
    }
}

/// Whether the answer to a read shows an active subscription at `now`: there
/// is an item, its status is `active`, and it has not expired.
pub open spec fn stored_active(item: Option<Seq<AttributeModel>>, now: int) -> bool {
    match item {
        Some(item) => stored_status(item) == SubscriptionStatus::Active && now <= stored_expiry(
            item,
        ),
        None => false,
    }
}

/// An item shows an active subscription exactly when the subscription read
/// from it entitles the guild.
pub proof fn stored_active_is_entitled(
    guild_id: Seq<char>,
    item: Option<Seq<AttributeModel>>,
    now: int,
)
    ensures
        stored_active(item, now) == entitled(stored_subscription(guild_id, item), now),
{
}

fn read_status(item: &Vec<Attribute>) -> (status: SubscriptionStatus)
    ensures
        status == stored_status(item.deep_view()),
{
    match read_text(item, "status") {
        Some(status) => if same_text(status.as_str(), "active") {
            SubscriptionStatus::Active
        } else {
            SubscriptionStatus::Inactive
        },
        None => SubscriptionStatus::Inactive,
    }
}

fn read_expiry(item: &Vec<Attribute>) -> (expires_at: i64)
    ensures
        expires_at == stored_expiry(item.deep_view()),
{
    match read_number(item, "expires_at") {
        Some(number) => match parse_i64(number.as_str()) {
            Some(seconds) => seconds,
            None => 0,
        },
        None => 0,
    }
}

/// Judges the answer to a read of a subscription; see [`stored_active`].
pub fn item_is_active(item: &Option<Vec<Attribute>>, now: i64) -> (active: bool)
    ensures
        active == stored_active(item.deep_view(), now as int),
{
    match item {
        Some(item) => match read_status(item) {
            SubscriptionStatus::Active => now <= read_expiry(item),
            SubscriptionStatus::Inactive => false,
        },
        None => false,
    }
}

fn subscription_key(guild_id: &str) -> (key: Vec<Attribute>)
    ensures
        key.deep_view() == subscription_item_key(guild_id@),
{
    let key = vec![
        Attribute::text("guild_id", guild_id),
        Attribute::text("subscription_key", "SUBSCRIPTION"),
    ];
    assert(key.deep_view() =~= subscription_item_key(guild_id@));
    key
}

/// The request that reads the subscription of a guild from a table.
pub fn subscription_request(table_name: &str, guild_id: &str) -> (request: StoreRequest)
    ensures
        request@ == get_subscription_spec(table_name@, guild_id@),
{
    StoreRequest::GetItem { table_name: table_name.to_owned(), key: subscription_key(guild_id) }
}

/// Reads and writes the subscriptions of one table.
#[derive(Debug, Clone, PartialEq, Eq)]
pub struct PaymentDao {
    table_name: String,
}

impl PaymentDao {
    /// The table that the requests go to.
    pub closed spec fn table(&self) -> Seq<char> {
        self.table_name@
    }

    /// Access to the table of the given name.
    pub fn new(table_name: String) -> (dao: Self)
        ensures
            dao.table() == table_name@,
    {
        PaymentDao { table_name }
    }

    /// The request that reads the subscription of a guild. Its answer is read
    /// by [`PaymentDao::status_from_item`], [`PaymentDao::is_active`] or
    /// [`PaymentDao::subscription_from_item`].
    pub fn get_subscription_status(&self, guild_id: &str) -> (request: StoreRequest)
        ensures
            request@ == get_subscription_spec(self.table(), guild_id@),
    {
        subscription_request(self.table_name.as_str(), guild_id)
    }

    /// The status text in the answer to a read, if an item came and has one.
    pub fn status_from_item(item: &Option<Vec<Attribute>>) -> (status: Option<String>)
        ensures
            status.deep_view() == match item.deep_view() {
                Some(item) => text_attribute(item, "status"@),
                None => None,
            },
    {
        match item {
            Some(item) => read_text(item, "status"),
            None => None,
        }
    }

    /// The request that makes a guild subscribed for `duration_seconds` from
    /// `now`.
    pub fn subscribe_guild(&self, guild_id: &str, duration_seconds: i64, now: i64) -> (request:
        StoreRequest)
        requires
            i64::MIN <= now + duration_seconds <= i64::MAX,
        ensures
            request@ == subscribe_guild_spec(self.table(), guild_id@, now + duration_seconds),
    {
        let expires_at = format_i64(now + duration_seconds);
        let item = vec![
            Attribute::text("guild_id", guild_id),
            Attribute::text("subscription_key", "SUBSCRIPTION"),
            Attribute::text("status", "active"),
            Attribute::number("expires_at", expires_at.as_str()),
        ];
        assert(item.deep_view() =~= seq![
            AttributeModel::text("guild_id"@, guild_id@),
            AttributeModel::text("subscription_key"@, "SUBSCRIPTION"@),
            AttributeModel::text("status"@, "active"@),
            AttributeModel::number("expires_at"@, decimal_text(now + duration_seconds)),
        ]);
        StoreRequest::PutItem { table_name: self.table_name.clone(), item }
    }

    /// The request that cancels the subscription of a guild.
    pub fn cancel_subscription(&self, guild_id: &str) -> (request: StoreRequest)
        ensures
            request@ == cancel_subscription_spec(self.table(), guild_id@),
    {
        let names = vec![(String::from_str("#s"), String::from_str("status"))];
        assert(names.deep_view() =~= seq![("#s"@, "status"@)]);
        let values = vec![Attribute::text(":inactive", "inactive")];
        assert(values.deep_view() =~= seq![AttributeModel::text(":inactive"@, "inactive"@)]);
        StoreRequest::UpdateItem {
            table_name: self.table_name.clone(),
            key: subscription_key(guild_id),
            update_expression: String::from_str("SET #s = :inactive"),
            names,
            values,
        }
    }

    /// Judges the answer to a read of a subscription; see [`stored_active`].
    pub fn is_active(&self, item: &Option<Vec<Attribute>>, now: i64) -> (active: bool)
        ensures
            active == stored_active(item.deep_view(), now as int),
    {
        item_is_active(item, now)
    }

    /// Reads the subscription of a guild from the answer to a read; see
    /// [`stored_subscription`].
    pub fn subscription_from_item(guild_id: &str, item: &Option<Vec<Attribute>>) -> (subscription:
        Option<Subscription>)
        ensures
            subscription.deep_view() == stored_subscription(guild_id@, item.deep_view()),
    {
        match item {
            Some(item) => Some(
                Subscription {
                    guild_id: guild_id.to_owned(),
                    status: read_status(item),
                    expires_at: read_expiry(item),
                },
            ),
            None => None,
        }
    }
}

} // verus!
