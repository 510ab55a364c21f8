//! Commands and autocomplete queries: the `role` command with its `save` and
//! `toggle` subcommands.

use crate::model::interaction_request::{
    first_option_text, first_text, resolved_name, ApplicationCommandData, CommandModel,
    InteractionRequest, InteractionType, OptionModel, RequestModel,
};
use crate::model::interaction_response::{
    ApplicationCommandOptionChoice, ChoiceModel, InteractionResponse, ResponseModel,
};
use crate::role_manager::RoleAction;
use crate::router::step::{
    Effect, EffectModel, Outcome, OutcomeModel, Pending, PendingModel, Step, StepModel,
};
use crate::text::same_text;
use vstd::prelude::*;
use vstd::string::StringExecFns;

verus! {

/// The platform shows at most this many suggestions.
pub const MAX_CHOICES: usize = 25;

/// What an interaction is told when its guild has no active subscription.
pub open spec fn decline_message() -> Seq<char> {
    "This server does not have an active subscription."@
}

/// What an interaction is told when the router is resumed with an outcome
/// that does not answer what it asked for.
pub open spec fn internal_error_message() -> Seq<char> {
    "Internal error."@
}

/// The text typed so far into the option that is being completed: the value
/// of the first option of the first subcommand.
pub open spec fn autocomplete_prefix(request: RequestModel) -> Seq<char> {
    match request.data {
        Some(command) => if command.options.len() > 0 {
            first_text(command.options[0].options)
        } else {
            Seq::empty()
        },
        None => Seq::empty(),
    }
}

/// First step of an autocomplete query. An empty prefix is answered with no
/// suggestions and without a look at the registry.
pub open spec fn autocomplete_spec(request: RequestModel) -> StepModel {
    match request.guild_id {
        Some(guild_id) => {
            let prefix = autocomplete_prefix(request);
            if prefix.len() == 0 {
                StepModel::Respond(ResponseModel::autocomplete(Seq::empty()))
            } else {
                StepModel::Perform {
                    effect: EffectModel::QueryRolesByPrefix { guild_id, prefix },
                    then: PendingModel::PrefixMatches,
                }
            }
        },
        None => StepModel::reply(decline_message()),
    }
}

/// First step of `role save`: the role must be named by an option and be
/// among the resolved roles, which give its display name.
pub open spec fn save_spec(
    guild_id: Seq<char>,
    command: CommandModel,
    subcommand: OptionModel,
) -> StepModel {
    let role_id = first_text(subcommand.options);
    if role_id.len() == 0 {
        StepModel::reply("Role is required."@)
    } else {
        match command.resolved {
            Some(resolved) => match resolved_name(resolved.roles, role_id) {
                Some(role_name) => StepModel::Perform {
                    effect: EffectModel::SaveRole { guild_id, role_id, role_name },
                    then: PendingModel::Save,
                },
                None => StepModel::reply("Resolved role missing."@),
            },
            None => StepModel::reply("Resolved role missing."@),
        }
    }
}

/// First step of `role toggle`: the role is looked up in the registry by the
/// name that was typed. Only registered roles can be toggled.
pub open spec fn toggle_spec(guild_id: Seq<char>, subcommand: OptionModel) -> StepModel {
    let role_name = first_text(subcommand.options);
    if role_name.len() == 0 {
        StepModel::reply("Role is required."@)
    } else {
        StepModel::Perform {
            effect: EffectModel::GetRoleByName { guild_id, role_name },
            then: PendingModel::RoleLookup,
        }
    }
}

/// First step of the `role` command, by its subcommand.
pub open spec fn role_command_spec(guild_id: Seq<char>, command: CommandModel) -> StepModel {
    if command.options.len() == 0 {
        StepModel::reply("Missing subcommand."@)
    } else {
        let subcommand = command.options[0];
        if subcommand.name == "save"@ {
            save_spec(guild_id, command, subcommand)
        } else if subcommand.name == "toggle"@ {
            toggle_spec(guild_id, subcommand)
        } else {
            StepModel::reply("Unknown subcommand."@)
        }
    }
}

/// First step of a command invocation.
pub open spec fn command_spec(request: RequestModel) -> StepModel {
    match request.guild_id {
        Some(guild_id) => match request.data {
            Some(command) => if command.name == "role"@ {
                role_command_spec(guild_id, command)
            } else {
                StepModel::reply("Unknown command."@)
            },
            None => StepModel::reply("Invalid command data."@),
        },
        None => StepModel::reply(decline_message()),
    }
}

/// The suggestions made from registry entries: one per entry, in order, at
/// most [`MAX_CHOICES`], each with the role's name as label and as value.
pub open spec fn choices_of(roles: Seq<(Seq<char>, Seq<char>)>) -> Seq<ChoiceModel> {
    Seq::new(
        if roles.len() <= MAX_CHOICES {
            roles.len()
        } else {
            MAX_CHOICES as nat
        },
        |i: int| ChoiceModel { name: roles[i].0, value: roles[i].0 },
    )
}

/// A member who holds the role loses it; one who does not gets it.
pub open spec fn toggle_action(held: Seq<Seq<char>>, role_id: Seq<char>) -> RoleAction {
    if held.contains(role_id) {
        RoleAction::Remove
    } else {
        RoleAction::Add
    }
}

/// The confirmation of a change, naming the role and what was done.
pub open spec fn confirmation(action: RoleAction, role_name: Seq<char>) -> Seq<char> {
    match action {
        RoleAction::Add => "Added '"@ + role_name + "'."@,
        RoleAction::Remove => "Removed '"@ + role_name + "'."@,
    }
}

/// Whether a pending state can belong to an interaction of the given kind.
pub open spec fn belongs_to(pending: PendingModel, kind: InteractionType) -> bool {
    match pending {
        PendingModel::Subscription => kind == InteractionType::ApplicationCommand || kind
            == InteractionType::ApplicationCommandAutocomplete,
        PendingModel::PrefixMatches => kind == InteractionType::ApplicationCommandAutocomplete,
        _ => kind == InteractionType::ApplicationCommand,
    }
}

/// The step that follows an outcome, for every state but the subscription
/// check. A state that does not belong to the interaction, and an outcome
/// that does not answer the state's effect, end in the internal-error reply.
pub open spec fn resume_spec(
    request: RequestModel,
    pending: PendingModel,
    outcome: OutcomeModel,
) -> StepModel {
    if !belongs_to(pending, request.interaction_type) || request.guild_id is None {
        StepModel::reply(internal_error_message())
    } else {
        let guild_id = request.guild_id->0;
        match pending {
            PendingModel::PrefixMatches => match outcome {
                OutcomeModel::RolesByPrefix(roles) => StepModel::Respond(
                    ResponseModel::autocomplete(choices_of(roles)),
                ),
                OutcomeModel::RegistryUnavailable => StepModel::Respond(
                    ResponseModel::autocomplete(Seq::empty()),
                ),
                _ => StepModel::reply(internal_error_message()),
            },
            PendingModel::Save => match outcome {
                OutcomeModel::RoleSaved => StepModel::reply("Role registered successfully."@),
                OutcomeModel::RegistryUnavailable => StepModel::reply("Failed to register role."@),
                _ => StepModel::reply(internal_error_message()),
            },
            PendingModel::RoleLookup => match outcome {
                OutcomeModel::RoleByName(Some(role)) => match request.member {
                    Some(member) => StepModel::Perform {
                        effect: EffectModel::FetchMemberRoles { guild_id, user_id: member.user.id },
                        then: PendingModel::MemberRoles { role_id: role.1, role_name: role.0 },
                    },
                    None => StepModel::reply("User missing."@),
                },
                OutcomeModel::RoleByName(None) => StepModel::reply("Role not self-assignable."@),
                OutcomeModel::RegistryUnavailable => StepModel::reply(
                    "Role not self-assignable."@,
                ),
                _ => StepModel::reply(internal_error_message()),
            },
            PendingModel::MemberRoles { role_id, role_name } => match outcome {
                OutcomeModel::MemberRoles(held) => match request.member {
                    Some(member) => StepModel::Perform {
                        effect: EffectModel::ModifyUserRole {
                            guild_id,
                            user_id: member.user.id,
                            role_id,
                            action: toggle_action(held, role_id),
                        },
                        then: PendingModel::Modification {
                            role_name,
                            action: toggle_action(held, role_id),
                        },
                    },
                    None => StepModel::reply("User missing."@),
                },
                OutcomeModel::RemoteFailed(_) => StepModel::reply("Failed to fetch your roles."@),
                _ => StepModel::reply(internal_error_message()),
            },
            PendingModel::Modification { role_name, action } => match outcome {
                OutcomeModel::RoleModified => StepModel::reply(confirmation(action, role_name)),
                OutcomeModel::RemoteFailed(_) => StepModel::reply("Failed to modify role."@),
                _ => StepModel::reply(internal_error_message()),
            },
            PendingModel::Subscription => StepModel::reply(internal_error_message()),
        }
    }
}

/// A toggle follows membership: a member who holds the role has it removed,
/// any other has it added, and the confirmation names the role and says which
/// of the two was done.
pub proof fn toggle_follows_membership(
    request: RequestModel,
    role_id: Seq<char>,
    role_name: Seq<char>,
    held: Seq<Seq<char>>,
)
    requires
        request.interaction_type == InteractionType::ApplicationCommand,
        request.guild_id is Some,
        request.member is Some,
    ensures
        ({
            let action = if held.contains(role_id) {
                RoleAction::Remove
            } else {
                RoleAction::Add
            };
            resume_spec(
                request,
                PendingModel::MemberRoles { role_id, role_name },
                OutcomeModel::MemberRoles(held),
            ) == (StepModel::Perform {
                effect: EffectModel::ModifyUserRole {
                    guild_id: request.guild_id->0,
                    user_id: request.member->0.user.id,
                    role_id,
                    action,
                },
                then: PendingModel::Modification { role_name, action },
            })
        }),
        resume_spec(
            request,
            PendingModel::Modification { role_name, action: RoleAction::Remove },
            OutcomeModel::RoleModified,
        ) == StepModel::reply("Removed '"@ + role_name + "'."@),
        resume_spec(
            request,
            PendingModel::Modification { role_name, action: RoleAction::Add },
            OutcomeModel::RoleModified,
        ) == StepModel::reply("Added '"@ + role_name + "'."@),
{
}

/// Only registered roles are toggled: the lookup in the registry is the one
/// way to a change of membership, a role that is not found ends the
/// interaction, and the role that is changed is the one that was found.
pub proof fn only_registered_roles_are_toggled(
    request: RequestModel,
    pending: PendingModel,
    outcome: OutcomeModel,
)
    ensures
        resume_spec(request, pending, outcome) matches StepModel::Perform {
            then: PendingModel::MemberRoles { role_id, role_name },
            ..
        } ==> pending == PendingModel::RoleLookup && outcome == OutcomeModel::RoleByName(
            Some((role_name, role_id)),
        ),
        resume_spec(request, pending, outcome) matches StepModel::Perform {
            effect: EffectModel::ModifyUserRole { role_id: changed, .. },
            ..
        } ==> pending matches PendingModel::MemberRoles { role_id: found, .. } && changed
            == found,
        resume_spec(request, PendingModel::RoleLookup, OutcomeModel::RoleByName(None))
            is Respond,
        resume_spec(request, PendingModel::RoleLookup, OutcomeModel::RegistryUnavailable)
            is Respond,
{
}

/// At most one change of membership is asked for in an interaction: the
/// outcome of the change, whatever it is, ends the interaction.
pub proof fn change_ends_the_interaction(
    request: RequestModel,
    role_name: Seq<char>,
    action: RoleAction,
    outcome: OutcomeModel,
)
    ensures
        resume_spec(request, PendingModel::Modification { role_name, action }, outcome)
            is Respond,
{
}

/// Tells whether `role_id` is among the ids in `held`.
pub fn holds_role(held: &Vec<String>, role_id: &str) -> (found: bool)
    ensures
        found == held.deep_view().contains(role_id@),
{
    let mut i: usize = 0;
    while i < held.len()
        invariant
            i <= held.len(),
            forall|j: int| 0 <= j < i ==> held.deep_view()[j] != role_id@,
        decreases held.len() - i,
    {
        if same_text(held[i].as_str(), role_id) {
            assert(held.deep_view()[i as int] == role_id@);
            return true;
        }
        i += 1;
    }
    false
}

/// Makes the suggestions for an autocomplete reply; see [`choices_of`].
pub fn make_choices(roles: &Vec<(String, String)>) -> (choices: Vec<
    ApplicationCommandOptionChoice,
>)
    ensures
        choices.deep_view() == choices_of(roles.deep_view()),
{
    let count = if roles.len() <= MAX_CHOICES {
        roles.len()
    } else {
        MAX_CHOICES
    };
    let mut choices: Vec<ApplicationCommandOptionChoice> = Vec::new();
    let mut i: usize = 0;
    while i < count
        invariant
            i <= count <= roles.len(),
            choices.len() == i,
            forall|j: int|
                0 <= j < i ==> (#[trigger] choices@[j]).deep_view() == (ChoiceModel {
                    name: roles@[j].0@,
                    value: roles@[j].0@,
                }),
        decreases count - i,
    {
        choices.push(
            ApplicationCommandOptionChoice {
                name: roles[i].0.clone(),
                value: roles[i].0.clone(),
            },
        );
        i += 1;
    }
    assert(choices.deep_view() =~= choices_of(roles.deep_view()));
    choices
}

/// The autocomplete reply that suggests nothing.
fn no_suggestions() -> (step: Step)
    ensures
        step@ == StepModel::Respond(ResponseModel::autocomplete(Seq::empty())),
{
    let choices: Vec<ApplicationCommandOptionChoice> = Vec::new();
    assert(choices.deep_view() =~= Seq::empty());
    Step::Respond(InteractionResponse::autocomplete(choices))
}

/// Routes command invocations and autocomplete queries.
#[derive(Debug, Clone, Copy, PartialEq, Eq, Structural)]
pub struct CommandRouter {}

impl CommandRouter {
    /// The router; there is only one.
    pub fn new() -> (router: Self)
        ensures
            router == (CommandRouter {  }),
    {
        CommandRouter {  }
    }

    /// First step of an autocomplete query; see [`autocomplete_spec`].
    pub fn handle_autocomplete(&self, interaction: &InteractionRequest) -> (step: Step)
        ensures
            step@ == autocomplete_spec(interaction@),
    {
        let guild_id = match &interaction.guild_id {
            Some(guild_id) => guild_id,
            None => {
                return Step::reply("This server does not have an active subscription.");
            },
        };
        let prefix = match &interaction.data {
            Some(command) => {
                if command.options.len() > 0 {
                    assert(command.options.deep_view()[0] == command.options@[0].deep_view());
                    first_option_text(&command.options[0].options)
                } else {
                    String::new()
                }
            },
            None => String::new(),
        };
        if prefix.as_str().is_empty() {
            no_suggestions()
        } else {
            Step::Perform {
                effect: Effect::QueryRolesByPrefix { guild_id: guild_id.clone(), prefix },
                then: Pending::PrefixMatches,
            }
        }
    }

    /// First step of a command invocation; see [`command_spec`].
    pub fn handle_command(&self, interaction: &InteractionRequest) -> (step: Step)
        ensures
            step@ == command_spec(interaction@),
    {
        let guild_id = match &interaction.guild_id {
            Some(guild_id) => guild_id,
            None => {
                return Step::reply("This server does not have an active subscription.");
            },
        };
        let command = match &interaction.data {
            Some(command) => command,
            None => {
                return Step::reply("Invalid command data.");
            },
        };
        if same_text(command.name.as_str(), "role") {
            self.handle_role_command(guild_id.as_str(), command)
        } else {
            Step::reply("Unknown command.")
        }
    }

    /// First step of the `role` command; see [`role_command_spec`].
    fn handle_role_command(&self, guild_id: &str, command: &ApplicationCommandData) -> (step: Step)
        ensures
            step@ == role_command_spec(guild_id@, command.deep_view()),
    {
        if command.options.len() == 0 {
            return Step::reply("Missing subcommand.");
        }
        let subcommand = &command.options[0];
        assert(command.options.deep_view()[0] == subcommand.deep_view());
        if same_text(subcommand.name.as_str(), "save") {
            let role_id = first_option_text(&subcommand.options);
            if role_id.as_str().is_empty() {
                return Step::reply("Role is required.");
            }
            let resolved = match &command.resolved {
                Some(resolved) => resolved,
                None => {
                    return Step::reply("Resolved role missing.");
                },
            };
            match resolved.role_name(role_id.as_str()) {
                Some(role_name) => Step::Perform {
                    effect: Effect::SaveRole { guild_id: guild_id.to_owned(), role_id, role_name },
                    then: Pending::Save,
                },
                None => Step::reply("Resolved role missing."),
            }
        } else if same_text(subcommand.name.as_str(), "toggle") {
            let role_name = first_option_text(&subcommand.options);
            if role_name.as_str().is_empty() {
                return Step::reply("Role is required.");
            }
            Step::Perform {
                effect: Effect::GetRoleByName { guild_id: guild_id.to_owned(), role_name },
                then: Pending::RoleLookup,
            }
        } else {
            Step::reply("Unknown subcommand.")
        }
    }

    /// Takes the outcome of the effect that was asked for in state `pending`
    /// and makes the next step; see [`resume_spec`].
    pub fn resume(&self, interaction: &InteractionRequest, pending: Pending, outcome: Outcome) -> (step:
        Step)
        ensures
            step@ == resume_spec(interaction@, pending.deep_view(), outcome.deep_view()),
    {
        let expected = match &pending {
            Pending::Subscription => {
                return Step::reply("Internal error.");
            },
            Pending::PrefixMatches => InteractionType::ApplicationCommandAutocomplete,
            _ => InteractionType::ApplicationCommand,
        };
        if interaction.interaction_type != expected {
            return Step::reply("Internal error.");
        }
        let guild_id = match &interaction.guild_id {
            Some(guild_id) => guild_id,
            None => {
                return Step::reply("Internal error.");
            },
        };
        match pending {
            Pending::Subscription => Step::reply("Internal error."),
            Pending::PrefixMatches => match outcome {
                Outcome::RolesByPrefix(roles) => Step::Respond(
                    InteractionResponse::autocomplete(make_choices(&roles)),
                ),
                Outcome::RegistryUnavailable => no_suggestions(),
                _ => Step::reply("Internal error."),
            },
            Pending::Save => match outcome {
                Outcome::RoleSaved => Step::reply("Role registered successfully."),
                Outcome::RegistryUnavailable => Step::reply("Failed to register role."),
                _ => Step::reply("Internal error."),
            },
            Pending::RoleLookup => match outcome {
                Outcome::RoleByName(Some(role)) => match &interaction.member {
                    Some(member) => Step::Perform {
                        effect: Effect::FetchMemberRoles {
                            guild_id: guild_id.clone(),
                            user_id: member.user.id.clone(),
                        },
                        then: Pending::MemberRoles { role_id: role.1, role_name: role.0 },
                    },
                    None => Step::reply("User missing."),
                },
                Outcome::RoleByName(None) => Step::reply("Role not self-assignable."),
                Outcome::RegistryUnavailable => Step::reply("Role not self-assignable."),
                _ => Step::reply("Internal error."),
            },
            Pending::MemberRoles { role_id, role_name } => match outcome {
                Outcome::MemberRoles(held) => match &interaction.member {
                    Some(member) => {
                        let action = if holds_role(&held, role_id.as_str()) {
                            RoleAction::Remove
                        } else {
                            RoleAction::Add
                        };
                        Step::Perform {
                            effect: Effect::ModifyUserRole {
                                guild_id: guild_id.clone(),
                                user_id: member.user.id.clone(),
                                role_id,
                                action,
                            },
                            then: Pending::Modification { role_name, action },
                        }
                    },
                    None => Step::reply("User missing."),
                },
                Outcome::RemoteFailed(_) => Step::reply("Failed to fetch your roles."),
                _ => Step::reply("Internal error."),
            },
            Pending::Modification { role_name, action } => match outcome {
                Outcome::RoleModified => {
                    let text = match action {
                        RoleAction::Add => String::from_str("Added '").concat(
                            role_name.as_str(),
                        ).concat("'."),
                        RoleAction::Remove => String::from_str("Removed '").concat(
                            role_name.as_str(),
                        ).concat("'."),
                    };
                    Step::reply(text.as_str())
                },
                Outcome::RemoteFailed(_) => Step::reply("Failed to modify role."),
                _ => Step::reply("Internal error."),
            },
        }
    }
}

} // verus!
