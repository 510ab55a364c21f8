//! Vocabulary of the router: effects, outcomes, pending states and steps.

use crate::model::interaction_response::{InteractionResponse, ResponseModel};
use crate::role_manager::{RoleAction, RoleError, RoleErrorModel};
use crate::subscription::{Subscription, SubscriptionModel};
use vstd::prelude::*;

verus! {

/// One piece of outside work that the router asks for.
#[derive(Debug, Clone, PartialEq, Eq)]
pub enum Effect {
    /// Read the subscription record of a guild, and the clock.
    CheckSubscription { guild_id: String },
    /// Search the registry of a guild for role names that begin with a prefix.
    QueryRolesByPrefix { guild_id: String, prefix: String },
    /// Register a role in the registry of a guild, or rename it there.
    SaveRole { guild_id: String, role_id: String, role_name: String },
    /// Look a role up in the registry of a guild by its name.
    GetRoleByName { guild_id: String, role_name: String },
    /// Read the ids of the roles that a member holds now.
    FetchMemberRoles { guild_id: String, user_id: String },
    /// Add one role to a member, or remove it.
    ModifyUserRole { guild_id: String, user_id: String, role_id: String, action: RoleAction },
}

/// Mathematical model of an [`Effect`].
pub ghost enum EffectModel {
    CheckSubscription { guild_id: Seq<char> },
    QueryRolesByPrefix { guild_id: Seq<char>, prefix: Seq<char> },
    SaveRole { guild_id: Seq<char>, role_id: Seq<char>, role_name: Seq<char> },
    GetRoleByName { guild_id: Seq<char>, role_name: Seq<char> },
    FetchMemberRoles { guild_id: Seq<char>, user_id: Seq<char> },
    ModifyUserRole {
        guild_id: Seq<char>,
        user_id: Seq<char>,
        role_id: Seq<char>,
        action: RoleAction,
    },
}

impl DeepView for Effect {
    type V = EffectModel;

    open spec fn deep_view(&self) -> EffectModel {
        match self {
            Effect::CheckSubscription { guild_id } => EffectModel::CheckSubscription {
                guild_id: guild_id@,
            },
            Effect::QueryRolesByPrefix { guild_id, prefix } => EffectModel::QueryRolesByPrefix {
                guild_id: guild_id@,
                prefix: prefix@,
            },
            Effect::SaveRole { guild_id, role_id, role_name } => EffectModel::SaveRole {
                guild_id: guild_id@,
                role_id: role_id@,
                role_name: role_name@,
            },
            Effect::GetRoleByName { guild_id, role_name } => EffectModel::GetRoleByName {
                guild_id: guild_id@,
                role_name: role_name@,
            },
            Effect::FetchMemberRoles { guild_id, user_id } => EffectModel::FetchMemberRoles {
                guild_id: guild_id@,
                user_id: user_id@,
            },
            Effect::ModifyUserRole {
                guild_id,
                user_id,
                role_id,
                action,
            } => EffectModel::ModifyUserRole {
                guild_id: guild_id@,
                user_id: user_id@,
                role_id: role_id@,
                action: *action,
            },
        }
    }
}

impl EffectModel {
    /// Whether the effect reaches the role registry.
    pub open spec fn touches_registry(self) -> bool {
        self is QueryRolesByPrefix || self is SaveRole || self is GetRoleByName
    }

    /// Whether the effect reaches the remote membership API.
    pub open spec fn touches_remote(self) -> bool {
        self is FetchMemberRoles || self is ModifyUserRole
    }
}

/// What came of an effect. Registry entries are pairs of a role's display
/// name and its id, in that order.
#[derive(Debug, Clone, PartialEq, Eq)]
pub enum Outcome {
    /// The subscription record of the guild, if it has one, and the time of
    /// reading in seconds since the epoch.
    Subscription { record: Option<Subscription>, now: i64 },
    /// The subscription store could not be read.
    SubscriptionUnavailable,
    /// The registry entries whose names begin with the prefix.
    RolesByPrefix(Vec<(String, String)>),
    /// The registry entry of that name, if there is one.
    RoleByName(Option<(String, String)>),
    /// The role was written to the registry.
    RoleSaved,
    /// The registry could not be read or written.
    RegistryUnavailable,
    /// The ids of the roles that the member holds.
    MemberRoles(Vec<String>),
    /// The platform carried out the role change.
    RoleModified,
    /// The platform did not do what was asked.
    RemoteFailed(RoleError),
}

/// Mathematical model of an [`Outcome`].
pub ghost enum OutcomeModel {
    Subscription { record: Option<SubscriptionModel>, now: int },
    SubscriptionUnavailable,
    RolesByPrefix(Seq<(Seq<char>, Seq<char>)>),
    RoleByName(Option<(Seq<char>, Seq<char>)>),
    RoleSaved,
    RegistryUnavailable,
    MemberRoles(Seq<Seq<char>>),
    RoleModified,
    RemoteFailed(RoleErrorModel),
}

impl DeepView for Outcome {
    type V = OutcomeModel;

    open spec fn deep_view(&self) -> OutcomeModel {
        match self {
            Outcome::Subscription { record, now } => OutcomeModel::Subscription {
                record: record.deep_view(),
                now: *now as int,
            },
            Outcome::SubscriptionUnavailable => OutcomeModel::SubscriptionUnavailable,
            Outcome::RolesByPrefix(roles) => OutcomeModel::RolesByPrefix(roles.deep_view()),
            Outcome::RoleByName(role) => OutcomeModel::RoleByName(role.deep_view()),
            Outcome::RoleSaved => OutcomeModel::RoleSaved,
            Outcome::RegistryUnavailable => OutcomeModel::RegistryUnavailable,
            Outcome::MemberRoles(roles) => OutcomeModel::MemberRoles(roles.deep_view()),
            Outcome::RoleModified => OutcomeModel::RoleModified,
            Outcome::RemoteFailed(error) => OutcomeModel::RemoteFailed(error.deep_view()),
        }
    }
}

/// Where the router stands while an effect is carried out.
#[derive(Debug, Clone, PartialEq, Eq)]
pub enum Pending {
    /// Waiting for the subscription record; nothing else has been asked for.
    Subscription,
    /// Waiting for the roles that match an autocomplete prefix.
    PrefixMatches,
    /// Waiting for a role to be written to the registry.
    Save,
    /// Waiting for the registry entry of the role to toggle.
    RoleLookup,
    /// Waiting for the member's roles; the role to toggle is known.
    MemberRoles { role_id: String, role_name: String },
    /// Waiting for the platform to carry out the change.
    Modification { role_name: String, action: RoleAction },
}

/// Mathematical model of a [`Pending`] state.
pub ghost enum PendingModel {
    Subscription,
    PrefixMatches,
    Save,
    RoleLookup,
    MemberRoles { role_id: Seq<char>, role_name: Seq<char> },
    Modification { role_name: Seq<char>, action: RoleAction },
}

impl DeepView for Pending {
    type V = PendingModel;

    open spec fn deep_view(&self) -> PendingModel {
        match self {
            Pending::Subscription => PendingModel::Subscription,
            Pending::PrefixMatches => PendingModel::PrefixMatches,
            Pending::Save => PendingModel::Save,
            Pending::RoleLookup => PendingModel::RoleLookup,
            Pending::MemberRoles { role_id, role_name } => PendingModel::MemberRoles {
                role_id: role_id@,
                role_name: role_name@,
            },
            Pending::Modification { role_name, action } => PendingModel::Modification {
                role_name: role_name@,
                action: *action,
            },
        }
    }
}

impl PendingModel {
    /// An upper bound on the effects still to come, this one included.
    pub open spec fn steps_left(self) -> nat {
        match self {
            PendingModel::Subscription => 4,
            PendingModel::RoleLookup => 3,
            PendingModel::MemberRoles { .. } => 2,
            PendingModel::Modification { .. } => 1,
            PendingModel::PrefixMatches => 1,
            PendingModel::Save => 1,
        }
    }
}

/// One move of the router.
#[derive(Debug, Clone, PartialEq, Eq)]
pub enum Step {
    /// Carry out `effect`, then resume in state `then` with its outcome.
    Perform { effect: Effect, then: Pending },
    /// The interaction is over; this is its reply.
    Respond(InteractionResponse),
}

/// Mathematical model of a [`Step`].
pub ghost enum StepModel {
    Perform { effect: EffectModel, then: PendingModel },
    Respond(ResponseModel),
}

impl DeepView for Step {
    type V = StepModel;

    open spec fn deep_view(&self) -> StepModel {
        match self {
            Step::Perform { effect, then } => StepModel::Perform {
                effect: effect.deep_view(),
                then: then.deep_view(),
            },
            Step::Respond(response) => StepModel::Respond(response@),
        }
    }
}

impl View for Step {
    type V = StepModel;

    open spec fn view(&self) -> StepModel {
        self.deep_view()
    }
}

impl StepModel {
    /// The step that ends the interaction with a message for the invoking
    /// user only.
    pub open spec fn reply(text: Seq<char>) -> StepModel {
        StepModel::Respond(ResponseModel::ephemeral(text))
    }
}

impl Step {
    /// Ends the interaction with a message for the invoking user only.
    pub fn reply(text: &str) -> (step: Step)
        ensures
            step@ == StepModel::reply(text@),
    {
        Step::Respond(InteractionResponse::ephemeral(text.to_owned()))
    }
}

} // verus!
