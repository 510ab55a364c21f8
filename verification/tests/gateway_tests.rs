use cybersage::dao::guild_dao::GuildDao;
use cybersage::dao::payment_dao::PaymentDao;
use cybersage::gateway::{Answer, Gateway, Plan, Request};
use cybersage::role_manager::{RoleAction, RoleError, RoleManager};
use cybersage::router::step::{Effect, Outcome};
use cybersage::store::{Attribute, AttributeValue};
use cybersage::subscription::{Subscription, SubscriptionStatus};

const NOW: i64 = 1_700_000_000;

fn gateway() -> Gateway {
    Gateway::new(
        GuildDao::new("roles".to_string()),
        PaymentDao::new("subs".to_string()),
        RoleManager::new("token".to_string()),
    )
}

fn s(name: &str, value: &str) -> Attribute {
    Attribute { name: name.to_string(), value: AttributeValue::S(value.to_string()) }
}

fn check() -> Effect {
    Effect::CheckSubscription { guild_id: "g".to_string() }
}

fn query(prefix: &str) -> Effect {
    Effect::QueryRolesByPrefix { guild_id: "g".to_string(), prefix: prefix.to_string() }
}

fn save() -> Effect {
    Effect::SaveRole {
        guild_id: "g".to_string(),
        role_id: "1".to_string(),
        role_name: "One".to_string(),
    }
}

fn lookup() -> Effect {
    Effect::GetRoleByName { guild_id: "g".to_string(), role_name: "One".to_string() }
}

fn fetch() -> Effect {
    Effect::FetchMemberRoles { guild_id: "g".to_string(), user_id: "u".to_string() }
}

fn modify(action: RoleAction) -> Effect {
    Effect::ModifyUserRole {
        guild_id: "g".to_string(),
        user_id: "u".to_string(),
        role_id: "1".to_string(),
        action,
    }
}

#[test]
fn store_effects_are_planned_as_store_requests() {
    let gateway = gateway();
    assert_eq!(
        gateway.plan(&check()),
        Plan::Ask(Request::Store(gateway.payment_dao.get_subscription_status("g")))
    );
    assert_eq!(
        gateway.plan(&query("o")),
        Plan::Ask(Request::Store(gateway.guild_dao.query_roles_by_prefix("g", "o").unwrap()))
    );
    assert_eq!(
        gateway.plan(&save()),
        Plan::Ask(Request::Store(gateway.guild_dao.save_role("g", "1", "One")))
    );
    assert_eq!(
        gateway.plan(&lookup()),
        Plan::Ask(Request::Store(gateway.guild_dao.get_role_by_name("g", "One")))
    );
}

#[test]
fn remote_effects_are_planned_as_remote_requests() {
    let gateway = gateway();
    assert_eq!(
        gateway.plan(&fetch()),
        Plan::Ask(Request::Remote(gateway.role_manager.fetch_member_roles("g", "u")))
    );
    for action in [RoleAction::Add, RoleAction::Remove] {
        assert_eq!(
            gateway.plan(&modify(action)),
            Plan::Ask(Request::Remote(gateway.role_manager.modify_user_role("g", "u", "1", action)))
        );
    }
}

#[test]
fn empty_prefix_is_answered_without_asking() {
    assert_eq!(gateway().plan(&query("")), Plan::Known(Outcome::RolesByPrefix(vec![])));
    assert_eq!(gateway().plan(&query("  ")), Plan::Known(Outcome::RolesByPrefix(vec![])));
}

#[test]
fn subscription_answer_becomes_a_record() {
    let item = vec![
        s("status", "active"),
        Attribute { name: "expires_at".to_string(), value: AttributeValue::N("1700000060".to_string()) },
    ];
    assert_eq!(
        Gateway::outcome(&check(), Answer::Item(Some(item)), NOW),
        Outcome::Subscription {
            record: Some(Subscription {
                guild_id: "g".to_string(),
                status: SubscriptionStatus::Active,
                expires_at: NOW + 60,
            }),
            now: NOW,
        }
    );
    assert_eq!(
        Gateway::outcome(&check(), Answer::Item(None), NOW),
        Outcome::Subscription { record: None, now: NOW }
    );
    assert_eq!(Gateway::outcome(&check(), Answer::Failed, NOW), Outcome::SubscriptionUnavailable);
    assert_eq!(Gateway::outcome(&check(), Answer::Written, NOW), Outcome::SubscriptionUnavailable);
}

#[test]
fn registry_answers_become_entries() {
    let one = vec![s("role_name", "One"), s("role_id", "1")];
    let two = vec![s("role_name", "Two"), s("role_id", "2")];
    assert_eq!(
        Gateway::outcome(&query("o"), Answer::Items(vec![one.clone(), two.clone()]), NOW),
        Outcome::RolesByPrefix(vec![
            ("One".to_string(), "1".to_string()),
            ("Two".to_string(), "2".to_string()),
        ])
    );
    assert_eq!(
        Gateway::outcome(&lookup(), Answer::Items(vec![one]), NOW),
        Outcome::RoleByName(Some(("One".to_string(), "1".to_string())))
    );
    assert_eq!(Gateway::outcome(&lookup(), Answer::Items(vec![]), NOW), Outcome::RoleByName(None));
    assert_eq!(Gateway::outcome(&save(), Answer::Written, NOW), Outcome::RoleSaved);
    for effect in [query("o"), lookup(), save()] {
        assert_eq!(Gateway::outcome(&effect, Answer::Failed, NOW), Outcome::RegistryUnavailable);
        assert_eq!(
            Gateway::outcome(&effect, Answer::Item(None), NOW),
            Outcome::RegistryUnavailable
        );
    }
}

#[test]
fn remote_answers_are_classified() {
    let ok = |body: &str| Answer::Http { status: 200, body: body.to_string() };
    assert_eq!(
        Gateway::outcome(&fetch(), ok(r#"{"roles":["1"]}"#), NOW),
        Outcome::MemberRoles(vec!["1".to_string()])
    );
    assert_eq!(
        Gateway::outcome(&fetch(), ok("nonsense"), NOW),
        Outcome::RemoteFailed(RoleError::MalformedBody)
    );
    assert_eq!(
        Gateway::outcome(&fetch(), Answer::Http { status: 404, body: String::new() }, NOW),
        Outcome::RemoteFailed(RoleError::NotFound)
    );
    assert_eq!(
        Gateway::outcome(&fetch(), Answer::Failed, NOW),
        Outcome::RemoteFailed(RoleError::Unreachable)
    );
    assert_eq!(
        Gateway::outcome(&modify(RoleAction::Add), Answer::Http { status: 204, body: String::new() }, NOW),
        Outcome::RoleModified
    );
    assert_eq!(
        Gateway::outcome(&modify(RoleAction::Add), Answer::Http { status: 429, body: String::new() }, NOW),
        Outcome::RemoteFailed(RoleError::RateLimited)
    );
    assert_eq!(
        Gateway::outcome(&modify(RoleAction::Remove), Answer::Http { status: 502, body: "bad".to_string() }, NOW),
        Outcome::RemoteFailed(RoleError::Remote { status: 502, body: "bad".to_string() })
    );
    assert_eq!(
        Gateway::outcome(&modify(RoleAction::Remove), Answer::Written, NOW),
        Outcome::RemoteFailed(RoleError::Unreachable)
    );
}
