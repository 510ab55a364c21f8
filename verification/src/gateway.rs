//! Between the router and the outside: which request carries out an effect,
//! and which outcome an answer amounts to.
//!
//! A caller that holds a [`Gateway`] needs to know nothing of tables, keys or
//! status codes: it sends the request that [`Gateway::plan`] gives for an
//! effect, and hands the answer to [`Gateway::outcome`].

use crate::dao::guild_dao::{
    get_role_by_name_spec, last_role_in, query_roles_by_prefix_spec, roles_in, save_role_spec,
    GuildDao,
};
use crate::dao::payment_dao::{get_subscription_spec, stored_subscription, PaymentDao};
use crate::role_manager::{
    bot_authorization, member_role_url, member_roles_spec, member_url, method_of,
    modification_outcome_spec, HttpMethod, RemoteRequest, RemoteRequestModel, RoleError,
    RoleErrorModel, RoleManager,
};
use crate::router::step::{Effect, EffectModel, Outcome, OutcomeModel};
use crate::store::{Attribute, AttributeModel, StoreRequest, StoreRequestModel};
use vstd::prelude::*;

verus! {

/// A request to one of the outside services.
#[derive(Debug, Clone, PartialEq, Eq)]
pub enum Request {
    Store(StoreRequest),
    Remote(RemoteRequest),
}

/// Mathematical model of a [`Request`].
pub ghost enum RequestModel {
    Store(StoreRequestModel),
    Remote(RemoteRequestModel),
}

impl DeepView for Request {
    type V = RequestModel;

    open spec fn deep_view(&self) -> RequestModel {
        match self {
            Request::Store(request) => RequestModel::Store(request@),
            Request::Remote(request) => RequestModel::Remote(request@),
        }
    }
}

/// What an outside service answered.
#[derive(Debug, Clone, PartialEq, Eq)]
pub enum Answer {
    /// The store's answer to a read by key: the item, if there is one.
    Item(Option<Vec<Attribute>>),
    /// The store's answer to a query.
    Items(Vec<Vec<Attribute>>),
    /// The store carried out a write.
    Written,
    /// The platform's answer: status code and body.
    Http { status: u16, body: String },
    /// No answer came.
    Failed,
}

/// Mathematical model of an [`Answer`].
pub ghost enum AnswerModel {
    Item(Option<Seq<AttributeModel>>),
    Items(Seq<Seq<AttributeModel>>),
    Written,
    Http { status: u16, body: Seq<char> },
    Failed,
}

impl DeepView for Answer {
    type V = AnswerModel;

    open spec fn deep_view(&self) -> AnswerModel {
        match self {
            Answer::Item(item) => AnswerModel::Item(item.deep_view()),
            Answer::Items(items) => AnswerModel::Items(items.deep_view()),
            Answer::Written => AnswerModel::Written,
            Answer::Http { status, body } => AnswerModel::Http { status: *status, body: body@ },
            Answer::Failed => AnswerModel::Failed,
        }
    }
}

/// How an effect is carried out.
#[derive(Debug, Clone, PartialEq, Eq)]
pub enum Plan {
    /// Send the request and come back with the answer.
    Ask(Request),
    /// Nothing needs to be sent: the outcome is known.
    Known(Outcome),
}

/// Mathematical model of a [`Plan`].
pub ghost enum PlanModel {
    Ask(RequestModel),
    Known(OutcomeModel),
}

impl DeepView for Plan {
    type V = PlanModel;

    open spec fn deep_view(&self) -> PlanModel {
        match self {
            Plan::Ask(request) => PlanModel::Ask(request.deep_view()),
            Plan::Known(outcome) => PlanModel::Known(outcome.deep_view()),
        }
    }
}

/// The plan for an effect, given the two tables and the bot's credential. A
/// search for an empty or blank prefix is answered without asking: it finds
/// nothing.
pub open spec fn plan_spec(
    roles_table: Seq<char>,
    subscriptions_table: Seq<char>,
    token: Seq<char>,
    effect: EffectModel,
) -> PlanModel {
    match effect {
        EffectModel::CheckSubscription { guild_id } => PlanModel::Ask(
            RequestModel::Store(get_subscription_spec(subscriptions_table, guild_id)),
        ),
        EffectModel::QueryRolesByPrefix { guild_id, prefix } => match query_roles_by_prefix_spec(
            roles_table,
            guild_id,
            prefix,
        ) {
            Some(request) => PlanModel::Ask(RequestModel::Store(request)),
            None => PlanModel::Known(OutcomeModel::RolesByPrefix(Seq::empty())),
        },
        EffectModel::SaveRole { guild_id, role_id, role_name } => PlanModel::Ask(
            RequestModel::Store(save_role_spec(roles_table, guild_id, role_id, role_name)),
        ),
        EffectModel::GetRoleByName { guild_id, role_name } => PlanModel::Ask(
            RequestModel::Store(get_role_by_name_spec(roles_table, guild_id, role_name)),
        ),
        EffectModel::FetchMemberRoles { guild_id, user_id } => PlanModel::Ask(
            RequestModel::Remote(
                RemoteRequestModel {
                    method: HttpMethod::Get,
                    url: member_url(guild_id, user_id),
                    authorization: bot_authorization(token),
                },
            ),
        ),
        EffectModel::ModifyUserRole { guild_id, user_id, role_id, action } => PlanModel::Ask(
            RequestModel::Remote(
                RemoteRequestModel {
                    method: method_of(action),
                    url: member_role_url(guild_id, user_id, role_id),
                    authorization: bot_authorization(token),
                },
            ),
        ),
    }
}

/// The outcome that an answer amounts to, for the effect that was asked for.
/// An answer of a form that the request cannot have, and no answer at all,
/// count as a failure of the service that was asked.
pub open spec fn outcome_spec(effect: EffectModel, answer: AnswerModel, now: int) -> OutcomeModel {
    match effect {
        EffectModel::CheckSubscription { guild_id } => match answer {
            AnswerModel::Item(item) => OutcomeModel::Subscription {
                record: stored_subscription(guild_id, item),
                now,
            },
            _ => OutcomeModel::SubscriptionUnavailable,
        },
        EffectModel::QueryRolesByPrefix { .. } => match answer {
            AnswerModel::Items(items) => OutcomeModel::RolesByPrefix(roles_in(items)),
            _ => OutcomeModel::RegistryUnavailable,
        },
        EffectModel::SaveRole { .. } => match answer {
            AnswerModel::Written => OutcomeModel::RoleSaved,
            _ => OutcomeModel::RegistryUnavailable,
        },
        EffectModel::GetRoleByName { .. } => match answer {
            AnswerModel::Items(items) => OutcomeModel::RoleByName(last_role_in(items)),
            _ => OutcomeModel::RegistryUnavailable,
        },
        EffectModel::FetchMemberRoles { .. } => match answer {
            AnswerModel::Http { status, body } => match member_roles_spec(status, body) {
                Ok(roles) => OutcomeModel::MemberRoles(roles),
                Err(error) => OutcomeModel::RemoteFailed(error),
            },
            _ => OutcomeModel::RemoteFailed(RoleErrorModel::Unreachable),
        },
        EffectModel::ModifyUserRole { .. } => match answer {
            AnswerModel::Http { status, body } => match modification_outcome_spec(status, body) {
                Ok(()) => OutcomeModel::RoleModified,
                Err(error) => OutcomeModel::RemoteFailed(error),
            },
            _ => OutcomeModel::RemoteFailed(RoleErrorModel::Unreachable),
        },
    }
}

/// The layout of the store and the credential of the bot.
#[derive(Debug, Clone, PartialEq, Eq)]
pub struct Gateway {
    pub guild_dao: GuildDao,
    pub payment_dao: PaymentDao,
    pub role_manager: RoleManager,
}

impl Gateway {
    pub fn new(guild_dao: GuildDao, payment_dao: PaymentDao, role_manager: RoleManager) -> (gateway:
        Self)
        ensures
            gateway.guild_dao == guild_dao,
            gateway.payment_dao == payment_dao,
            gateway.role_manager == role_manager,
    {
        Gateway { guild_dao, payment_dao, role_manager }
    }

    /// Plans an effect; see [`plan_spec`].
    pub fn plan(&self, effect: &Effect) -> (plan: Plan)
        ensures
            plan.deep_view() == plan_spec(
                self.guild_dao.table(),
                self.payment_dao.table(),
                self.role_manager.token(),
                effect.deep_view(),
            ),
    {
        match effect {
            Effect::CheckSubscription { guild_id } => Plan::Ask(
                Request::Store(self.payment_dao.get_subscription_status(guild_id.as_str())),
            ),
            Effect::QueryRolesByPrefix { guild_id, prefix } => {
                match self.guild_dao.query_roles_by_prefix(guild_id.as_str(), prefix.as_str()) {
                    Some(request) => Plan::Ask(Request::Store(request)),
                    None => {
                        let nothing: Vec<(String, String)> = Vec::new();
                        assert(nothing.deep_view() =~= Seq::empty());
                        Plan::Known(Outcome::RolesByPrefix(nothing))
                    },
                }
            },
            Effect::SaveRole { guild_id, role_id, role_name } => Plan::Ask(
                Request::Store(
                    self.guild_dao.save_role(
                        guild_id.as_str(),
                        role_id.as_str(),
                        role_name.as_str(),
                    ),
                ),
            ),
            Effect::GetRoleByName { guild_id, role_name } => Plan::Ask(
                Request::Store(
                    self.guild_dao.get_role_by_name(guild_id.as_str(), role_name.as_str()),
                ),
            ),
            Effect::FetchMemberRoles { guild_id, user_id } => Plan::Ask(
                Request::Remote(
                    self.role_manager.fetch_member_roles(guild_id.as_str(), user_id.as_str()),
                ),
            ),
            Effect::ModifyUserRole { guild_id, user_id, role_id, action } => Plan::Ask(
                Request::Remote(
                    self.role_manager.modify_user_role(
                        guild_id.as_str(),
                        user_id.as_str(),
                        role_id.as_str(),
                        *action,
                    ),
                ),
            ),
        }
    }

    /// Reads the answer to the request of an effect at the time `now`; see
    /// [`outcome_spec`].
    pub fn outcome(effect: &Effect, answer: Answer, now: i64) -> (outcome: Outcome)
        ensures
            outcome.deep_view() == outcome_spec(effect.deep_view(), answer.deep_view(), now as int),
    {
        match effect {
            Effect::CheckSubscription { guild_id } => match answer {
                Answer::Item(item) => Outcome::Subscription {
                    record: PaymentDao::subscription_from_item(guild_id.as_str(), &item),
                    now,
                },
                _ => Outcome::SubscriptionUnavailable,
            },
            Effect::QueryRolesByPrefix { .. } => match answer {
                Answer::Items(items) => Outcome::RolesByPrefix(GuildDao::roles_from_items(&items)),
                _ => Outcome::RegistryUnavailable,
            },
            Effect::SaveRole { .. } => match answer {
                Answer::Written => Outcome::RoleSaved,
                _ => Outcome::RegistryUnavailable,
            },
            Effect::GetRoleByName { .. } => match answer {
                Answer::Items(items) => Outcome::RoleByName(GuildDao::role_from_items(&items)),
                _ => Outcome::RegistryUnavailable,
            },
            Effect::FetchMemberRoles { .. } => match answer {
                Answer::Http { status, body } => {
                    match RoleManager::member_roles_from_response(status, body.as_str()) {
                        Ok(roles) => Outcome::MemberRoles(roles),
                        Err(error) => Outcome::RemoteFailed(error),
                    }
                },
                _ => Outcome::RemoteFailed(RoleError::Unreachable),
            },
            Effect::ModifyUserRole { .. } => match answer {
                Answer::Http { status, body } => {
                    match RoleManager::modification_outcome(status, body) {
                        Ok(()) => Outcome::RoleModified,
                        Err(error) => Outcome::RemoteFailed(error),
                    }
                },
                _ => Outcome::RemoteFailed(RoleError::Unreachable),
            },
        }
    }
}

} // verus!
