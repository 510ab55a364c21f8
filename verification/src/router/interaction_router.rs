//! Entry of the router: dispatch on the kind of interaction, and the
//! subscription gate that stands before every command.

use crate::model::interaction_request::{InteractionRequest, InteractionType, RequestModel};
use crate::model::interaction_response::{InteractionResponse, ResponseModel};
use crate::router::command_router::{
    autocomplete_spec, belongs_to, command_spec, decline_message, internal_error_message,
    resume_spec, CommandRouter,
};
use crate::router::step::{
    Effect, EffectModel, Outcome, OutcomeModel, Pending, PendingModel, Step, StepModel,
};
use crate::subscription::{entitled, SubscriptionManager};
use vstd::prelude::*;

verus! {

/// First step of an interaction. A ping is answered at once. A command or an
/// autocomplete query first has the subscription of its guild checked; one
/// that names no guild has no subscription and is declined.
pub open spec fn route_spec(request: RequestModel) -> StepModel {
    match request.interaction_type {
        InteractionType::Ping => StepModel::Respond(ResponseModel::pong()),
        InteractionType::Unknown => StepModel::reply("Unsupported interaction type."@),
        _ => match request.guild_id {
            Some(guild_id) => StepModel::Perform {
                effect: EffectModel::CheckSubscription { guild_id },
                then: PendingModel::Subscription,
            },
            None => StepModel::reply(decline_message()),
        },
    }
}

/// The step that follows a passed subscription check.
pub open spec fn dispatch_spec(request: RequestModel) -> StepModel {
    match request.interaction_type {
        InteractionType::ApplicationCommand => command_spec(request),
        InteractionType::ApplicationCommandAutocomplete => autocomplete_spec(request),
        _ => StepModel::reply(internal_error_message()),
    }
}

/// The step that follows an outcome, in any state. After the subscription
/// check the interaction goes on only if the guild is entitled at the time of
/// reading; otherwise it is declined, and nothing else is asked for.
pub open spec fn advance_spec(
    request: RequestModel,
    pending: PendingModel,
    outcome: OutcomeModel,
) -> StepModel {
    match pending {
        PendingModel::Subscription => match outcome {
            OutcomeModel::Subscription { record, now } => if !belongs_to(
                pending,
                request.interaction_type,
            ) {
                StepModel::reply(internal_error_message())
            } else if entitled(record, now) {
                dispatch_spec(request)
            } else {
                StepModel::reply(decline_message())
            },
            _ => StepModel::reply(internal_error_message()),
        },
        _ => resume_spec(request, pending, outcome),
    }
}

/// Routes interactions of every kind.
#[derive(Debug, Clone, Copy, PartialEq, Eq, Structural)]
pub struct InteractionRouter {
    pub command_router: CommandRouter,
}

impl InteractionRouter {
    /// A router that hands commands and autocomplete queries to
    /// `command_router`.
    pub fn new(command_router: CommandRouter) -> (router: Self)
        ensures
            router == (InteractionRouter { command_router }),
    {
        InteractionRouter { command_router }
    }

    /// First step of an interaction; see [`route_spec`].
    pub fn route(&self, interaction: &InteractionRequest) -> (step: Step)
        ensures
            step@ == route_spec(interaction@),
    {
        match interaction.interaction_type {
            InteractionType::Ping => Step::Respond(InteractionResponse::pong()),
            InteractionType::Unknown => Step::reply("Unsupported interaction type."),
            _ => match &interaction.guild_id {
                Some(guild_id) => Step::Perform {
                    effect: Effect::CheckSubscription { guild_id: guild_id.clone() },
                    then: Pending::Subscription,
                },
                None => Step::reply("This server does not have an active subscription."),
            },
        }
    }

    /// Takes the outcome of the effect that was asked for in state `pending`
    /// and makes the next step; see [`advance_spec`].
    pub fn resume(&self, interaction: &InteractionRequest, pending: Pending, outcome: Outcome) -> (step:
        Step)
        ensures
            step@ == advance_spec(interaction@, pending.deep_view(), outcome.deep_view()),
    {
        match pending {
            Pending::Subscription => match outcome {
                Outcome::Subscription { record, now } => {
                    match interaction.interaction_type {
                        InteractionType::ApplicationCommand => {
                            if SubscriptionManager::new().is_active(&record, now) {
                                self.command_router.handle_command(interaction)
                            } else {
                                Step::reply("This server does not have an active subscription.")
                            }
                        },
                        InteractionType::ApplicationCommandAutocomplete => {
                            if SubscriptionManager::new().is_active(&record, now) {
                                self.command_router.handle_autocomplete(interaction)
                            } else {
                                Step::reply("This server does not have an active subscription.")
                            }
                        },
                        _ => Step::reply("Internal error."),
                    }
                },
                _ => Step::reply("Internal error."),
            },
            _ => self.command_router.resume(interaction, pending, outcome),
        }
    }
}

/// A ping is always answered with a pong that carries no data, whatever else
/// the interaction holds.
pub proof fn ping_yields_pong(request: RequestModel)
    requires
        request.interaction_type == InteractionType::Ping,
    ensures
        route_spec(request) == StepModel::Respond(ResponseModel::pong()),
        ResponseModel::pong().kind.wire_value_spec() == 1,
        ResponseModel::pong().data is None,
{
}

/// A command that is not `role` is answered with the fixed message for
/// unknown commands, to the invoking user only.
pub proof fn unknown_command_yields_fixed_reply(request: RequestModel)
    requires
        request.guild_id is Some,
        request.data is Some,
        request.data->0.name != "role"@,
    ensures
        command_spec(request) == StepModel::reply("Unknown command."@),
        ResponseModel::ephemeral("Unknown command."@).is_ephemeral_message(),
{
}

/// A subcommand of `role` that is neither `save` nor `toggle` is answered
/// with the fixed message for unknown subcommands, to the invoking user only.
pub proof fn unknown_subcommand_yields_fixed_reply(request: RequestModel)
    requires
        request.guild_id is Some,
        request.data is Some,
        request.data->0.name == "role"@,
        request.data->0.options.len() > 0,
        request.data->0.options[0].name != "save"@,
        request.data->0.options[0].name != "toggle"@,
    ensures
        command_spec(request) == StepModel::reply("Unknown subcommand."@),
        ResponseModel::ephemeral("Unknown subcommand."@).is_ephemeral_message(),
{
}

/// Without an active subscription every command ends in the same decline
/// message, and neither the registry nor the remote API is asked for
/// anything: the first step asks at most for the subscription record, and an
/// absent, inactive or expired record ends the interaction.
pub proof fn inactive_subscription_declines(
    request: RequestModel,
    record: Option<crate::subscription::SubscriptionModel>,
    now: int,
)
    requires
        request.interaction_type == InteractionType::ApplicationCommand,
        !entitled(record, now),
    ensures
        route_spec(request) == StepModel::reply(decline_message()) || route_spec(request) == (
        StepModel::Perform {
            effect: EffectModel::CheckSubscription { guild_id: request.guild_id->0 },
            then: PendingModel::Subscription,
        }),
        advance_spec(
            request,
            PendingModel::Subscription,
            OutcomeModel::Subscription { record, now },
        ) == StepModel::reply(decline_message()),
        ResponseModel::ephemeral(decline_message()).is_ephemeral_message(),
{
}

/// The first step never reaches the registry or the remote API.
pub proof fn first_step_touches_nothing(request: RequestModel)
    ensures
        route_spec(request) matches StepModel::Perform { effect, .. } ==> !effect.touches_registry()
            && !effect.touches_remote(),
{
}

/// Every step either ends the interaction or leaves strictly fewer steps to
/// go: no interaction is left unanswered, and none takes more than four
/// effects.
pub proof fn every_step_makes_progress(
    request: RequestModel,
    pending: PendingModel,
    outcome: OutcomeModel,
)
    ensures
        advance_spec(request, pending, outcome) matches StepModel::Perform { then, .. }
            ==> then.steps_left() < pending.steps_left(),
        route_spec(request) matches StepModel::Perform { then, .. } ==> then.steps_left() <= 4,
{
}

/// Every reply to a command invocation is a message for the invoking user
/// only, from whichever state it is made.
pub proof fn command_replies_are_ephemeral(
    request: RequestModel,
    pending: PendingModel,
    outcome: OutcomeModel,
)
    requires
        request.interaction_type == InteractionType::ApplicationCommand,
    ensures
        route_spec(request) matches StepModel::Respond(reply) ==> reply.is_ephemeral_message(),
        advance_spec(request, pending, outcome) matches StepModel::Respond(reply)
            ==> reply.is_ephemeral_message(),
{
}

} // verus!
