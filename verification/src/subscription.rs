//! The subscription gate: whether a guild is entitled to the bot.

use vstd::prelude::*;
use vstd::string::StringExecFns;

verus! {

/// How long a new subscription lasts: thirty days, in seconds.
pub const DEFAULT_SUBSCRIPTION_DURATION_SECONDS: i64 = 2_592_000;

/// Stored state of a subscription.
#[derive(Debug, Clone, Copy, PartialEq, Eq, Structural)]
pub enum SubscriptionStatus {
    Active,
    Inactive,
}

/// The subscription record of one guild. Expiry is in seconds since the
/// epoch and is judged when the record is read; nothing sweeps old records.
#[derive(Debug, Clone, PartialEq, Eq)]
pub struct Subscription {
    pub guild_id: String,
    pub status: SubscriptionStatus,
    pub expires_at: i64,
}

/// Mathematical model of a [`Subscription`].
pub ghost struct SubscriptionModel {
    pub guild_id: Seq<char>,
    pub status: SubscriptionStatus,
    pub expires_at: int,
}

impl DeepView for Subscription {
    type V = SubscriptionModel;

    open spec fn deep_view(&self) -> SubscriptionModel {
        SubscriptionModel {
            guild_id: self.guild_id@,
            status: self.status,
            expires_at: self.expires_at as int,
        }
    }
}

impl View for Subscription {
    type V = SubscriptionModel;

    open spec fn view(&self) -> SubscriptionModel {
        self.deep_view()
    }
}

/// A guild is entitled at `now` exactly when it has a record, the record says
/// `Active`, and the record has not expired.
pub open spec fn entitled(record: Option<SubscriptionModel>, now: int) -> bool {
    match record {
        Some(subscription) => subscription.status == SubscriptionStatus::Active && now
            <= subscription.expires_at,
        None => false,
    }
}

/// Why a subscription was not started.
#[derive(Debug, Clone, Copy, PartialEq, Eq, Structural)]
pub enum SubscriptionError {
    /// The guild is entitled already.
    AlreadyActive,
}

impl SubscriptionError {
    /// The text that tells of this failure.
    pub fn message(&self) -> (text: String)
        ensures
            text@ == "Guild already has an active subscription"@,
    {
        match self {
            SubscriptionError::AlreadyActive => String::from_str(
                "Guild already has an active subscription",
            ),
        }
    }
}

/// What to store when a guild subscribes at `now`, given its current record.
pub open spec fn subscribe_spec(
    current: Option<SubscriptionModel>,
    guild_id: Seq<char>,
    now: int,
) -> Result<SubscriptionModel, SubscriptionError> {
    if entitled(current, now) {
        Err(SubscriptionError::AlreadyActive)
    } else {
        Ok(
            SubscriptionModel {
                guild_id,
                status: SubscriptionStatus::Active,
                expires_at: now + DEFAULT_SUBSCRIPTION_DURATION_SECONDS,
            },
        )
    }
}

/// The model of the outcome of [`SubscriptionManager::subscribe`].
pub open spec fn subscribed_model(outcome: Result<Subscription, SubscriptionError>) -> Result<
    SubscriptionModel,
    SubscriptionError,
> {
    match outcome {
        Ok(subscription) => Ok(subscription@),
        Err(e) => Err(e),
    }
}

/// Decides on subscriptions. It holds no state: records come from the
/// caller's store and go back to it.
#[derive(Debug, Clone, Copy, PartialEq, Eq, Structural)]
pub struct SubscriptionManager {}

impl SubscriptionManager {
    /// The manager; there is only one.
    pub fn new() -> (manager: Self)
        ensures
            manager == (SubscriptionManager {  }),
    {
        SubscriptionManager {  }
    }

    /// Tells whether the guild with this record is entitled at `now`.
    pub fn is_active(&self, record: &Option<Subscription>, now: i64) -> (active: bool)
        ensures
            active == entitled(record.deep_view(), now as int),
    {
        match record {
            Some(subscription) => {
                match subscription.status {
                    SubscriptionStatus::Active => now <= subscription.expires_at,
                    SubscriptionStatus::Inactive => false,
                }
            },
            None => false,
        }
    }

    /// Starts a subscription of thirty days from `now`, unless the guild is
    /// entitled already. The record returned is the one to store.
    pub fn subscribe(&self, current: &Option<Subscription>, guild_id: &str, now: i64) -> (outcome:
        Result<Subscription, SubscriptionError>)
        requires
            now + DEFAULT_SUBSCRIPTION_DURATION_SECONDS <= i64::MAX,
        ensures
            subscribed_model(outcome) == subscribe_spec(current.deep_view(), guild_id@, now as int),
    {
        if self.is_active(current, now) {
            Err(SubscriptionError::AlreadyActive)
        } else {
            Ok(
                Subscription {
                    guild_id: guild_id.to_owned(),
                    status: SubscriptionStatus::Active,
                    expires_at: now + DEFAULT_SUBSCRIPTION_DURATION_SECONDS,
                },
            )
        }
    }

    /// Ends a subscription: the record keeps its guild and expiry and turns
    /// `Inactive`, so that the guild is entitled at no time afterwards.
    pub fn unsubscribe(&self, current: Subscription) -> (cancelled: Subscription)
        ensures
            cancelled@ == (SubscriptionModel { status: SubscriptionStatus::Inactive, ..current@ }),
            forall|now: int| !entitled(Some(cancelled@), now),
    {
        Subscription {
            guild_id: current.guild_id,
            status: SubscriptionStatus::Inactive,
            expires_at: current.expires_at,
        }
    }
}

} // verus!
