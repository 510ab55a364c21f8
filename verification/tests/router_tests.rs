use cybersage::model::interaction_request::{
    ApplicationCommandData, CommandOption, InteractionRequest, InteractionType, Member,
    OptionValue, ResolvedData, ResolvedRole, User,
};
use cybersage::model::interaction_response::{
    ApplicationCommandOptionChoice, InteractionCallbackType, InteractionResponse, EPHEMERAL_FLAG,
};
use cybersage::registry::RoleRegistry;
use cybersage::role_manager::{RoleAction, RoleError};
use cybersage::router::command_router::{holds_role, make_choices, CommandRouter};
use cybersage::router::interaction_router::InteractionRouter;
use cybersage::router::step::{Effect, Outcome, Pending, Step};
use cybersage::subscription::{Subscription, SubscriptionStatus};

const NOW: i64 = 1_700_000_000;
const DECLINE: &str = "This server does not have an active subscription.";

/// Stand-ins for the subscription store, the registry and the remote API,
/// which count how often each is asked.
struct World {
    subscription: Option<Subscription>,
    subscription_fails: bool,
    registry: RoleRegistry,
    registry_fails: bool,
    member_roles: Vec<String>,
    fetch_fails: bool,
    modify_fails: bool,
    subscription_calls: usize,
    registry_calls: usize,
    remote_calls: usize,
    changes: Vec<(String, String, String, RoleAction)>,
}

fn world() -> World {
    World {
        subscription: Some(Subscription {
            guild_id: "guild".to_string(),
            status: SubscriptionStatus::Active,
            expires_at: NOW + 1000,
        }),
        subscription_fails: false,
        registry: RoleRegistry::new(),
        registry_fails: false,
        member_roles: vec![],
        fetch_fails: false,
        modify_fails: false,
        subscription_calls: 0,
        registry_calls: 0,
        remote_calls: 0,
        changes: vec![],
    }
}

fn perform(world: &mut World, effect: Effect) -> Outcome {
    match effect {
        Effect::CheckSubscription { .. } => {
            world.subscription_calls += 1;
            if world.subscription_fails {
                Outcome::SubscriptionUnavailable
            } else {
                Outcome::Subscription { record: world.subscription.clone(), now: NOW }
            }
        }
        Effect::QueryRolesByPrefix { .. } | Effect::SaveRole { .. } | Effect::GetRoleByName { .. } => {
            world.registry_calls += 1;
            if world.registry_fails {
                Outcome::RegistryUnavailable
            } else {
                world.registry.perform(&effect).unwrap()
            }
        }
        Effect::FetchMemberRoles { .. } => {
            world.remote_calls += 1;
            if world.fetch_fails {
                Outcome::RemoteFailed(RoleError::NotFound)
            } else {
                Outcome::MemberRoles(world.member_roles.clone())
            }
        }
        Effect::ModifyUserRole { guild_id, user_id, role_id, action } => {
            world.remote_calls += 1;
            if world.modify_fails {
                Outcome::RemoteFailed(RoleError::Forbidden)
            } else {
                match action {
                    RoleAction::Add => world.member_roles.push(role_id.clone()),
                    RoleAction::Remove => world.member_roles.retain(|held| held != &role_id),
                }
                world.changes.push((guild_id, user_id, role_id, action));
                Outcome::RoleModified
            }
        }
    }
}

fn run(world: &mut World, interaction: &InteractionRequest) -> InteractionResponse {
    let router = InteractionRouter::new(CommandRouter::new());
    let mut step = router.route(interaction);
    let mut effects = 0;
    loop {
        match step {
            Step::Respond(response) => return response,
            Step::Perform { effect, then } => {
                effects += 1;
                assert!(effects <= 4);
                let outcome = perform(world, effect);
                step = router.resume(interaction, then, outcome);
            }
        }
    }
}

fn text_option(name: &str, value: &str) -> CommandOption {
    CommandOption {
        name: name.to_string(),
        value: Some(OptionValue::Text(value.to_string())),
        options: vec![],
    }
}

fn subcommand(name: &str, options: Vec<CommandOption>) -> CommandOption {
    CommandOption { name: name.to_string(), value: None, options }
}

fn interaction(kind: InteractionType, data: Option<ApplicationCommandData>) -> InteractionRequest {
    InteractionRequest {
        id: "1".to_string(),
        application_id: "2".to_string(),
        interaction_type: kind,
        data,
        guild_id: Some("guild".to_string()),
        member: Some(Member { user: User { id: "user".to_string() }, roles: vec![] }),
    }
}

fn command(name: &str, options: Vec<CommandOption>) -> ApplicationCommandData {
    ApplicationCommandData {
        id: "5".to_string(),
        name: name.to_string(),
        options,
        resolved: None,
    }
}

fn toggle(role_name: &str) -> InteractionRequest {
    interaction(
        InteractionType::ApplicationCommand,
        Some(command("role", vec![subcommand("toggle", vec![text_option("role", role_name)])])),
    )
}

fn save(role_id: &str, resolved: Option<(&str, &str)>) -> InteractionRequest {
    let mut data = command("role", vec![subcommand("save", vec![text_option("role", role_id)])]);
    data.resolved = resolved.map(|(id, name)| ResolvedData {
        roles: vec![(
            id.to_string(),
            ResolvedRole { id: id.to_string(), name: name.to_string() },
        )],
    });
    interaction(InteractionType::ApplicationCommand, Some(data))
}

fn autocomplete(prefix: &str) -> InteractionRequest {
    interaction(
        InteractionType::ApplicationCommandAutocomplete,
        Some(command("role", vec![subcommand("toggle", vec![text_option("role", prefix)])])),
    )
}

fn content(response: &InteractionResponse) -> String {
    response.data.as_ref().unwrap().content.clone().unwrap()
}

fn assert_ephemeral(response: &InteractionResponse, text: &str) {
    assert_eq!(response, &InteractionResponse::ephemeral(text.to_string()));
    assert_eq!(response.kind, InteractionCallbackType::ChannelMessageWithSource);
    assert_eq!(response.data.as_ref().unwrap().flags, Some(64));
}

#[test]
fn ping_yields_pong_without_data() {
    let mut world = world();
    let response = run(&mut world, &interaction(InteractionType::Ping, None));
    assert_eq!(response.kind, InteractionCallbackType::Pong);
    assert_eq!(response.kind.wire_value(), 1);
    assert_eq!(response.data, None);
    assert_eq!(world.subscription_calls + world.registry_calls + world.remote_calls, 0);
}

#[test]
fn ping_yields_pong_whatever_else_it_carries() {
    let mut world = world();
    world.subscription = None;
    let mut request = toggle("VIP");
    request.interaction_type = InteractionType::Ping;
    assert_eq!(run(&mut world, &request), InteractionResponse::pong());
    request.guild_id = None;
    request.member = None;
    assert_eq!(run(&mut world, &request), InteractionResponse::pong());
    assert_eq!(world.subscription_calls + world.registry_calls + world.remote_calls, 0);
}

#[test]
fn unknown_kind_is_unsupported() {
    let mut world = world();
    let response = run(&mut world, &interaction(InteractionType::Unknown, None));
    assert_ephemeral(&response, "Unsupported interaction type.");
    assert_eq!(world.subscription_calls + world.registry_calls + world.remote_calls, 0);
}

#[test]
fn toggle_removes_a_held_role_and_adds_it_back() {
    let mut world = world();
    world.registry.save("guild", "111", "VIP");
    world.member_roles = vec!["111".to_string()];

    let first = run(&mut world, &toggle("VIP"));
    assert_ephemeral(&first, "Removed 'VIP'.");
    assert!(content(&first).contains("Removed") && content(&first).contains("VIP"));
    assert_eq!(
        world.changes,
        vec![("guild".to_string(), "user".to_string(), "111".to_string(), RoleAction::Remove)]
    );
    assert!(world.member_roles.is_empty());

    let second = run(&mut world, &toggle("VIP"));
    assert_ephemeral(&second, "Added 'VIP'.");
    assert!(content(&second).contains("Added"));
    assert_eq!(world.changes[1].3, RoleAction::Add);
    assert_eq!(world.member_roles, vec!["111".to_string()]);
    assert_eq!(world.remote_calls, 4);
    assert_eq!(world.registry_calls, 2);
    assert_eq!(world.subscription_calls, 2);
}

#[test]
fn toggle_finds_the_role_in_any_case_and_names_it_as_registered() {
    let mut world = world();
    world.registry.save("guild", "111", "VIP");
    let response = run(&mut world, &toggle("vip"));
    assert_ephemeral(&response, "Added 'VIP'.");
}

#[test]
fn toggle_of_an_unregistered_role_touches_no_member() {
    let mut world = world();
    world.registry.save("other-guild", "111", "VIP");
    let response = run(&mut world, &toggle("VIP"));
    assert_ephemeral(&response, "Role not self-assignable.");
    assert_eq!(world.remote_calls, 0);
    assert_eq!(world.registry_calls, 1);
}

#[test]
fn toggle_treats_a_failing_registry_as_not_found() {
    let mut world = world();
    world.registry.save("guild", "111", "VIP");
    world.registry_fails = true;
    assert_ephemeral(&run(&mut world, &toggle("VIP")), "Role not self-assignable.");
    assert_eq!(world.remote_calls, 0);
}

#[test]
fn toggle_without_a_role_name_asks_for_one() {
    let mut world = world();
    assert_ephemeral(&run(&mut world, &toggle("")), "Role is required.");
    let bare = interaction(
        InteractionType::ApplicationCommand,
        Some(command("role", vec![subcommand("toggle", vec![])])),
    );
    assert_ephemeral(&run(&mut world, &bare), "Role is required.");
    assert_eq!(world.registry_calls + world.remote_calls, 0);
}

#[test]
fn toggle_without_a_member_says_so() {
    let mut world = world();
    world.registry.save("guild", "111", "VIP");
    let mut request = toggle("VIP");
    request.member = None;
    assert_ephemeral(&run(&mut world, &request), "User missing.");
    assert_eq!(world.remote_calls, 0);
}

#[test]
fn toggle_reports_remote_failures_without_detail() {
    let mut world = world();
    world.registry.save("guild", "111", "VIP");
    world.fetch_fails = true;
    assert_ephemeral(&run(&mut world, &toggle("VIP")), "Failed to fetch your roles.");
    assert_eq!(world.remote_calls, 1);
    world.fetch_fails = false;
    world.modify_fails = true;
    assert_ephemeral(&run(&mut world, &toggle("VIP")), "Failed to modify role.");
    assert_eq!(world.remote_calls, 3);
    assert!(world.changes.is_empty());
}

#[test]
fn save_registers_the_resolved_role() {
    let mut world = world();
    let response = run(&mut world, &save("123", Some(("123", "Admins"))));
    assert_ephemeral(&response, "Role registered successfully.");
    assert_eq!(
        world.registry.get_by_name("guild", "admins"),
        Some(("Admins".to_string(), "123".to_string()))
    );
    assert_eq!(world.remote_calls, 0);
}

#[test]
fn save_needs_a_role_and_its_resolution() {
    let mut world = world();
    assert_ephemeral(&run(&mut world, &save("", Some(("123", "Admins")))), "Role is required.");
    assert_ephemeral(&run(&mut world, &save("123", None)), "Resolved role missing.");
    assert_ephemeral(
        &run(&mut world, &save("123", Some(("124", "Admins")))),
        "Resolved role missing.",
    );
    assert_eq!(world.registry_calls, 0);
    assert_eq!(world.registry.len(), 0);
}

#[test]
fn save_reports_a_failing_registry() {
    let mut world = world();
    world.registry_fails = true;
    assert_ephemeral(
        &run(&mut world, &save("123", Some(("123", "Admins")))),
        "Failed to register role.",
    );
}

#[test]
fn unknown_command_gets_the_fixed_message() {
    let mut world = world();
    let request = interaction(InteractionType::ApplicationCommand, Some(command("roles", vec![])));
    assert_ephemeral(&run(&mut world, &request), "Unknown command.");
    let other = interaction(
        InteractionType::ApplicationCommand,
        Some(command("ROLE", vec![subcommand("toggle", vec![text_option("role", "VIP")])])),
    );
    assert_ephemeral(&run(&mut world, &other), "Unknown command.");
    assert_eq!(world.registry_calls + world.remote_calls, 0);
}

#[test]
fn unknown_subcommand_gets_the_fixed_message() {
    let mut world = world();
    let request = interaction(
        InteractionType::ApplicationCommand,
        Some(command("role", vec![subcommand("delete", vec![text_option("role", "VIP")])])),
    );
    assert_ephemeral(&run(&mut world, &request), "Unknown subcommand.");
    assert_eq!(world.registry_calls + world.remote_calls, 0);
}

#[test]
fn command_without_data_or_subcommand_is_refused() {
    let mut world = world();
    let no_data = interaction(InteractionType::ApplicationCommand, None);
    assert_ephemeral(&run(&mut world, &no_data), "Invalid command data.");
    let no_subcommand =
        interaction(InteractionType::ApplicationCommand, Some(command("role", vec![])));
    assert_ephemeral(&run(&mut world, &no_subcommand), "Missing subcommand.");
}

#[test]
fn inactive_subscription_declines_every_command() {
    let requests = vec![
        toggle("VIP"),
        save("123", Some(("123", "Admins"))),
        interaction(InteractionType::ApplicationCommand, Some(command("other", vec![]))),
        interaction(InteractionType::ApplicationCommand, None),
        toggle(""),
    ];
    let absent = None;
    let inactive = Some(Subscription {
        guild_id: "guild".to_string(),
        status: SubscriptionStatus::Inactive,
        expires_at: NOW + 1000,
    });
    let expired = Some(Subscription {
        guild_id: "guild".to_string(),
        status: SubscriptionStatus::Active,
        expires_at: NOW - 1,
    });
    for subscription in [absent, inactive, expired] {
        for request in &requests {
            let mut world = world();
            world.registry.save("guild", "111", "VIP");
            world.subscription = subscription.clone();
            assert_ephemeral(&run(&mut world, request), DECLINE);
            assert_eq!(world.subscription_calls, 1);
            assert_eq!(world.registry_calls, 0);
            assert_eq!(world.remote_calls, 0);
        }
    }
}

#[test]
fn command_without_a_guild_is_declined_unasked() {
    let mut world = world();
    let mut request = toggle("VIP");
    request.guild_id = None;
    assert_ephemeral(&run(&mut world, &request), DECLINE);
    assert_eq!(world.subscription_calls + world.registry_calls + world.remote_calls, 0);
}

#[test]
fn subscription_that_ends_now_is_still_active() {
    let mut world = world();
    world.subscription.as_mut().unwrap().expires_at = NOW;
    world.registry.save("guild", "111", "VIP");
    assert_ephemeral(&run(&mut world, &toggle("VIP")), "Added 'VIP'.");
}

#[test]
fn unreadable_subscription_is_an_internal_error() {
    let mut world = world();
    world.subscription_fails = true;
    assert_ephemeral(&run(&mut world, &toggle("VIP")), "Internal error.");
    assert_eq!(world.registry_calls + world.remote_calls, 0);
}

#[test]
fn autocomplete_suggests_matching_roles() {
    let mut world = world();
    world.registry.save("guild", "1", "Admins");
    world.registry.save("guild", "2", "Artists");
    world.registry.save("guild", "3", "Mods");
    let response = run(&mut world, &autocomplete("a"));
    assert_eq!(response.kind, InteractionCallbackType::ApplicationCommandAutocompleteResult);
    assert_eq!(response.kind.wire_value(), 8);
    let data = response.data.unwrap();
    assert_eq!(data.content, None);
    assert_eq!(data.flags, None);
    assert_eq!(
        data.choices,
        Some(vec![
            ApplicationCommandOptionChoice {
                name: "Admins".to_string(),
                value: "Admins".to_string()
            },
            ApplicationCommandOptionChoice {
                name: "Artists".to_string(),
                value: "Artists".to_string()
            },
        ])
    );
}

#[test]
fn autocomplete_with_empty_prefix_asks_no_registry() {
    let mut world = world();
    world.registry.save("guild", "1", "Admins");
    let response = run(&mut world, &autocomplete(""));
    assert_eq!(response, InteractionResponse::autocomplete(vec![]));
    assert_eq!(world.registry_calls, 0);
    let no_data = interaction(InteractionType::ApplicationCommandAutocomplete, None);
    assert_eq!(run(&mut world, &no_data), InteractionResponse::autocomplete(vec![]));
    assert_eq!(world.registry_calls, 0);
}

#[test]
fn autocomplete_with_failing_registry_suggests_nothing() {
    let mut world = world();
    world.registry.save("guild", "1", "Admins");
    world.registry_fails = true;
    assert_eq!(run(&mut world, &autocomplete("a")), InteractionResponse::autocomplete(vec![]));
}

#[test]
fn autocomplete_is_declined_without_subscription() {
    let mut world = world();
    world.subscription = None;
    world.registry.save("guild", "1", "Admins");
    assert_ephemeral(&run(&mut world, &autocomplete("a")), DECLINE);
    assert_eq!(world.registry_calls, 0);
}

#[test]
fn choices_are_capped_at_twenty_five() {
    let roles: Vec<(String, String)> =
        (0..30).map(|i| (format!("Role{}", i), i.to_string())).collect();
    let choices = make_choices(&roles);
    assert_eq!(choices.len(), 25);
    assert_eq!(choices[0].name, "Role0");
    assert_eq!(choices[0].value, "Role0");
    assert_eq!(choices[24].name, "Role24");
    let router = CommandRouter::new();
    let step = router.resume(&autocomplete("r"), Pending::PrefixMatches, Outcome::RolesByPrefix(roles));
    match step {
        Step::Respond(response) => assert_eq!(response.data.unwrap().choices.unwrap().len(), 25),
        other => panic!("{:?}", other),
    }
}

#[test]
fn holds_role_compares_ids_exactly() {
    let held = vec!["111".to_string(), "222".to_string()];
    assert!(holds_role(&held, "111"));
    assert!(holds_role(&held, "222"));
    assert!(!holds_role(&held, "11"));
    assert!(!holds_role(&held, ""));
    assert!(!holds_role(&vec![], "111"));
}

#[test]
fn first_steps_name_their_effects() {
    let router = InteractionRouter::new(CommandRouter::new());
    assert_eq!(
        router.route(&toggle("VIP")),
        Step::Perform {
            effect: Effect::CheckSubscription { guild_id: "guild".to_string() },
            then: Pending::Subscription,
        }
    );
    let commands = CommandRouter::new();
    assert_eq!(
        commands.handle_command(&toggle("VIP")),
        Step::Perform {
            effect: Effect::GetRoleByName {
                guild_id: "guild".to_string(),
                role_name: "VIP".to_string()
            },
            then: Pending::RoleLookup,
        }
    );
    assert_eq!(
        commands.handle_command(&save("123", Some(("123", "Admins")))),
        Step::Perform {
            effect: Effect::SaveRole {
                guild_id: "guild".to_string(),
                role_id: "123".to_string(),
                role_name: "Admins".to_string(),
            },
            then: Pending::Save,
        }
    );
    assert_eq!(
        commands.handle_autocomplete(&autocomplete("ad")),
        Step::Perform {
            effect: Effect::QueryRolesByPrefix {
                guild_id: "guild".to_string(),
                prefix: "ad".to_string()
            },
            then: Pending::PrefixMatches,
        }
    );
}

#[test]
fn outcome_that_answers_another_effect_is_an_internal_error() {
    let router = InteractionRouter::new(CommandRouter::new());
    let cases = vec![
        (Pending::Subscription, Outcome::RoleSaved),
        (Pending::Save, Outcome::RoleModified),
        (Pending::RoleLookup, Outcome::MemberRoles(vec![])),
        (Pending::PrefixMatches, Outcome::RolesByPrefix(vec![])),
        (
            Pending::Modification { role_name: "VIP".to_string(), action: RoleAction::Add },
            Outcome::RoleSaved,
        ),
    ];
    for (pending, outcome) in cases {
        let step = router.resume(&toggle("VIP"), pending, outcome);
        assert_eq!(step, Step::reply("Internal error."));
    }
}

#[test]
fn ephemeral_flag_is_bit_six() {
    assert_eq!(EPHEMERAL_FLAG, 1 << 6);
    let message = InteractionResponse::message("hello".to_string());
    assert_eq!(message.kind.wire_value(), 4);
    assert_eq!(message.data.as_ref().unwrap().flags, None);
    assert_eq!(message.data.as_ref().unwrap().content.as_deref(), Some("hello"));
    let ephemeral = InteractionResponse::ephemeral("hello".to_string());
    assert_eq!(ephemeral.data.as_ref().unwrap().flags, Some(64));
    assert_eq!(ephemeral.data.as_ref().unwrap().choices, None);
}

#[test]
fn registry_carries_out_registry_effects_only() {
    let mut registry = RoleRegistry::new();
    let saved = registry.perform(&Effect::SaveRole {
        guild_id: "guild".to_string(),
        role_id: "1".to_string(),
        role_name: "One".to_string(),
    });
    assert_eq!(saved, Some(Outcome::RoleSaved));
    assert_eq!(
        registry.perform(&Effect::GetRoleByName {
            guild_id: "guild".to_string(),
            role_name: "ONE".to_string()
        }),
        Some(Outcome::RoleByName(Some(("One".to_string(), "1".to_string()))))
    );
    assert_eq!(
        registry.perform(&Effect::QueryRolesByPrefix {
            guild_id: "guild".to_string(),
            prefix: "o".to_string()
        }),
        Some(Outcome::RolesByPrefix(vec![("One".to_string(), "1".to_string())]))
    );
    assert_eq!(
        registry.perform(&Effect::CheckSubscription { guild_id: "guild".to_string() }),
        None
    );
    assert_eq!(
        registry.perform(&Effect::FetchMemberRoles {
            guild_id: "guild".to_string(),
            user_id: "u".to_string()
        }),
        None
    );
    assert_eq!(registry.len(), 1);
}
