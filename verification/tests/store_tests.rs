use cybersage::dao::guild_dao::GuildDao;
use cybersage::dao::payment_dao::PaymentDao;
use cybersage::dao::role_db::RoleDb;
use cybersage::dao::subscription::SubscriptionReader;
use cybersage::secrets::{SecretError, SecretsReader};
use cybersage::store::{find_attribute, read_number, read_text, Attribute, AttributeValue, StoreRequest};
use cybersage::text::is_blank;
use cybersage::subscription::{
    Subscription, SubscriptionError, SubscriptionManager, SubscriptionStatus,
    DEFAULT_SUBSCRIPTION_DURATION_SECONDS,
};

const NOW: i64 = 1_700_000_000;

fn s(name: &str, value: &str) -> Attribute {
    Attribute { name: name.to_string(), value: AttributeValue::S(value.to_string()) }
}

fn n(name: &str, value: &str) -> Attribute {
    Attribute { name: name.to_string(), value: AttributeValue::N(value.to_string()) }
}

fn entry(name: &str, id: &str) -> (String, String) {
    (name.to_string(), id.to_string())
}

#[test]
fn attributes_are_found_by_name() {
    let item = vec![s("a", "1"), n("b", "2"), s("a", "3")];
    assert_eq!(find_attribute(&item, "a"), Some(&AttributeValue::S("1".to_string())));
    assert_eq!(find_attribute(&item, "c"), None);
    assert_eq!(read_text(&item, "a"), Some("1".to_string()));
    assert_eq!(read_text(&item, "b"), None);
    assert_eq!(read_number(&item, "b"), Some("2".to_string()));
    assert_eq!(read_number(&item, "a"), None);
    assert_eq!(Attribute::text("a", "1"), s("a", "1"));
    assert_eq!(Attribute::number("b", "2"), n("b", "2"));
}

#[test]
fn role_is_read_by_its_key() {
    let dao = GuildDao::new("roles".to_string());
    assert_eq!(
        dao.get_role_by_id("g", "123"),
        StoreRequest::GetItem {
            table_name: "roles".to_string(),
            key: vec![s("guild_id", "g"), s("mapping_key", "ROLE#123")],
        }
    );
}

#[test]
fn role_is_saved_with_its_normalized_name() {
    let dao = GuildDao::new("roles".to_string());
    assert_eq!(
        dao.save_role("g", "123", "Admins"),
        StoreRequest::PutItem {
            table_name: "roles".to_string(),
            item: vec![
                s("guild_id", "g"),
                s("mapping_key", "ROLE#123"),
                s("role_id", "123"),
                s("role_name", "Admins"),
                s("role_name_normalized", "admins"),
            ],
        }
    );
}

#[test]
fn role_is_looked_up_by_its_normalized_name() {
    let dao = GuildDao::new("roles".to_string());
    assert_eq!(
        dao.get_role_by_name("g", "AdMins"),
        StoreRequest::Query {
            table_name: "roles".to_string(),
            index_name: "GuildRoleNameIndex".to_string(),
            key_condition: "guild_id = :guild_id AND role_name_normalized = :role_name"
                .to_string(),
            values: vec![s(":guild_id", "g"), s(":role_name", "admins")],
            limit: 1,
        }
    );
}

#[test]
fn prefix_query_is_normalized_and_limited() {
    let dao = GuildDao::new("roles".to_string());
    assert_eq!(
        dao.query_roles_by_prefix("g", "Ad"),
        Some(StoreRequest::Query {
            table_name: "roles".to_string(),
            index_name: "GuildRoleNameIndex".to_string(),
            key_condition:
                "guild_id = :guild_id AND begins_with(role_name_normalized, :prefix)".to_string(),
            values: vec![s(":guild_id", "g"), s(":prefix", "ad")],
            limit: 25,
        })
    );
}

#[test]
fn empty_prefix_asks_nothing() {
    let dao = GuildDao::new("roles".to_string());
    assert_eq!(dao.query_roles_by_prefix("g", ""), None);
}

#[test]
fn blank_prefix_asks_nothing() {
    let dao = GuildDao::new("roles".to_string());
    for prefix in [" ", "   ", "\t", "\n \r", "\u{a0}", "\u{3000} "] {
        assert_eq!(dao.query_roles_by_prefix("g", prefix), None, "{:?}", prefix);
    }
    for prefix in [" a", "a ", "\u{200b}", "_"] {
        assert!(dao.query_roles_by_prefix("g", prefix).is_some(), "{:?}", prefix);
    }
}

#[test]
fn blank_text_is_what_trimming_empties() {
    for text in ["", " ", "\t\n", " a ", "a", "\u{2003}", "\u{200b}", "\u{feff}", "\u{85}"] {
        assert_eq!(is_blank(text), text.trim().is_empty(), "{:?}", text);
    }
}

#[test]
fn attributes_of_other_kinds_hold_nothing_to_read() {
    let item = vec![
        Attribute { name: "role_name".to_string(), value: AttributeValue::Other },
        s("role_id", "1"),
    ];
    assert_eq!(read_text(&item, "role_name"), None);
    assert_eq!(read_number(&item, "role_name"), None);
    assert_eq!(find_attribute(&item, "role_name"), Some(&AttributeValue::Other));
    assert_eq!(GuildDao::role_from_item(&item), None);
}

#[test]
fn roles_are_read_from_items() {
    let full = vec![s("role_id", "1"), s("role_name", "One"), s("guild_id", "g")];
    let nameless = vec![s("role_id", "2")];
    let numbered = vec![n("role_id", "3"), s("role_name", "Three")];
    assert_eq!(GuildDao::role_from_item(&full), Some(entry("One", "1")));
    assert_eq!(GuildDao::role_from_item(&nameless), None);
    assert_eq!(GuildDao::role_from_item(&numbered), None);
    assert_eq!(GuildDao::role_from_answer(&Some(full.clone())), Some(entry("One", "1")));
    assert_eq!(GuildDao::role_from_answer(&None), None);
    let items = vec![full.clone(), nameless.clone(), numbered, vec![s("role_name", "Four"), s("role_id", "4")]];
    assert_eq!(GuildDao::roles_from_items(&items), vec![entry("One", "1"), entry("Four", "4")]);
    assert_eq!(GuildDao::roles_from_items(&vec![]), vec![]);
    assert_eq!(GuildDao::role_from_items(&items), Some(entry("Four", "4")));
    assert_eq!(GuildDao::role_from_items(&vec![full, nameless]), None);
    assert_eq!(GuildDao::role_from_items(&vec![]), None);
}

#[test]
fn subscription_is_read_by_its_key() {
    let dao = PaymentDao::new("subs".to_string());
    let expected = StoreRequest::GetItem {
        table_name: "subs".to_string(),
        key: vec![s("guild_id", "g"), s("subscription_key", "SUBSCRIPTION")],
    };
    assert_eq!(dao.get_subscription_status("g"), expected);
    assert_eq!(SubscriptionReader::new("subs".to_string()).get_subscription("g"), expected);
}

#[test]
fn subscribing_stores_status_and_expiry() {
    let dao = PaymentDao::new("subs".to_string());
    assert_eq!(
        dao.subscribe_guild("g", DEFAULT_SUBSCRIPTION_DURATION_SECONDS, NOW),
        StoreRequest::PutItem {
            table_name: "subs".to_string(),
            item: vec![
                s("guild_id", "g"),
                s("subscription_key", "SUBSCRIPTION"),
                s("status", "active"),
                n("expires_at", "1702592000"),
            ],
        }
    );
}

#[test]
fn cancelling_sets_the_status_inactive() {
    let dao = PaymentDao::new("subs".to_string());
    assert_eq!(
        dao.cancel_subscription("g"),
        StoreRequest::UpdateItem {
            table_name: "subs".to_string(),
            key: vec![s("guild_id", "g"), s("subscription_key", "SUBSCRIPTION")],
            update_expression: "SET #s = :inactive".to_string(),
            names: vec![("#s".to_string(), "status".to_string())],
            values: vec![s(":inactive", "inactive")],
        }
    );
}

#[test]
fn stored_subscription_is_judged_at_reading() {
    let dao = PaymentDao::new("subs".to_string());
    let reader = SubscriptionReader::new("subs".to_string());
    let item = |status: &str, expiry: &str| Some(vec![s("status", status), n("expires_at", expiry)]);
    let cases = vec![
        (None, false),
        (item("active", "1700000000"), true),
        (item("active", "1700000001"), true),
        (item("active", "1699999999"), false),
        (item("inactive", "1700000001"), false),
        (item("Active", "1700000001"), false),
        (item("active", "soon"), false),
        (Some(vec![s("status", "active")]), false),
        (Some(vec![n("expires_at", "1700000001")]), false),
        (Some(vec![s("status", "active"), s("expires_at", "1700000001")]), false),
        (Some(vec![n("status", "active"), n("expires_at", "1700000001")]), false),
    ];
    for (answer, expected) in cases {
        assert_eq!(dao.is_active(&answer, NOW), expected, "{:?}", answer);
        assert_eq!(reader.is_active(&answer, NOW), expected, "{:?}", answer);
        let subscription = PaymentDao::subscription_from_item("g", &answer);
        assert_eq!(SubscriptionManager::new().is_active(&subscription, NOW), expected);
    }
}

#[test]
fn missing_expiry_counts_as_the_epoch() {
    let dao = PaymentDao::new("subs".to_string());
    let answer = Some(vec![s("status", "active")]);
    assert!(dao.is_active(&answer, 0));
    assert!(dao.is_active(&answer, -5));
    assert!(!dao.is_active(&answer, 1));
    assert_eq!(
        PaymentDao::subscription_from_item("g", &answer),
        Some(Subscription {
            guild_id: "g".to_string(),
            status: SubscriptionStatus::Active,
            expires_at: 0,
        })
    );
}

#[test]
fn status_text_is_read_as_it_stands() {
    assert_eq!(PaymentDao::status_from_item(&None), None);
    assert_eq!(
        PaymentDao::status_from_item(&Some(vec![s("status", "paused")])),
        Some("paused".to_string())
    );
    assert_eq!(PaymentDao::status_from_item(&Some(vec![n("status", "1")])), None);
}

#[test]
fn subscribing_lasts_thirty_days() {
    assert_eq!(DEFAULT_SUBSCRIPTION_DURATION_SECONDS, 30 * 24 * 60 * 60);
    let manager = SubscriptionManager::new();
    assert_eq!(
        manager.subscribe(&None, "g", NOW),
        Ok(Subscription {
            guild_id: "g".to_string(),
            status: SubscriptionStatus::Active,
            expires_at: NOW + 2_592_000,
        })
    );
}

#[test]
fn active_guild_cannot_subscribe_again() {
    let manager = SubscriptionManager::new();
    let current = manager.subscribe(&None, "g", NOW).ok();
    assert_eq!(manager.subscribe(&current, "g", NOW + 10), Err(SubscriptionError::AlreadyActive));
    let later = NOW + 2_592_001;
    assert_eq!(manager.subscribe(&current, "g", later).unwrap().expires_at, later + 2_592_000);
}

#[test]
fn unsubscribing_ends_entitlement() {
    let manager = SubscriptionManager::new();
    let current = manager.subscribe(&None, "g", NOW).unwrap();
    let cancelled = manager.unsubscribe(current.clone());
    assert_eq!(cancelled.status, SubscriptionStatus::Inactive);
    assert_eq!(cancelled.expires_at, current.expires_at);
    assert_eq!(cancelled.guild_id, "g");
    assert!(manager.is_active(&Some(current), NOW));
    assert!(!manager.is_active(&Some(cancelled.clone()), NOW));
    assert!(manager.subscribe(&Some(cancelled), "g", NOW).is_ok());
}

#[test]
fn secret_value_is_read_from_its_document() {
    let reader = SecretsReader::new();
    let secret = r#"{"key":"abcdef","token":"t0k3n","size":8080}"#;
    assert_eq!(reader.get_secret_value(secret, "key"), Ok("abcdef".to_string()));
    assert_eq!(reader.get_secret_value(secret, "token"), Ok("t0k3n".to_string()));
    assert_eq!(reader.get_secret_value(secret, "size"), Err(SecretError::KeyNotFound));
    assert_eq!(reader.get_secret_value(secret, "other"), Err(SecretError::KeyNotFound));
    assert_eq!(reader.get_secret_value("abcdef", "key"), Err(SecretError::NotJson));
    assert_eq!(reader.get_secret_value("\"abcdef\"", "key"), Err(SecretError::KeyNotFound));
    assert_eq!(reader.get_secret_value("", "key"), Err(SecretError::NotJson));
}

#[test]
fn prefixed_layout_keys_roles_and_names_behind_a_marker() {
    let db = RoleDb::new("roles".to_string());
    assert_eq!(
        db.get_role_by_id("g", "123"),
        StoreRequest::GetItem {
            table_name: "roles".to_string(),
            key: vec![s("guild_id", "g"), s("entity_key", "ROLE#123")],
        }
    );
    assert_eq!(
        db.save_role("g", "123", "Admins"),
        StoreRequest::PutItem {
            table_name: "roles".to_string(),
            item: vec![
                s("guild_id", "g"),
                s("entity_key", "ROLE#123"),
                s("role_id", "123"),
                s("role_name", "Admins"),
                s("role_name_lower", "admins"),
                s("role_name_key", "ROLE#admins"),
            ],
        }
    );
    assert_eq!(
        db.get_role_by_name("g", "AdMins"),
        StoreRequest::Query {
            table_name: "roles".to_string(),
            index_name: "role-name-index".to_string(),
            key_condition: "guild_id = :guild_id AND role_name_key = :role_key".to_string(),
            values: vec![s(":guild_id", "g"), s(":role_key", "ROLE#admins")],
            limit: 1,
        }
    );
    assert_eq!(
        db.query_roles_by_prefix("g", "Ad"),
        Some(StoreRequest::Query {
            table_name: "roles".to_string(),
            index_name: "role-name-index".to_string(),
            key_condition: "guild_id = :guild_id AND begins_with(role_name_key, :prefix)"
                .to_string(),
            values: vec![s(":guild_id", "g"), s(":prefix", "ROLE#ad")],
            limit: 25,
        })
    );
    assert_eq!(db.query_roles_by_prefix("g", ""), None);
}

#[test]
fn prefixed_layout_reads_items_like_the_plain_one() {
    let item = vec![s("role_name", "One"), s("role_id", "1"), s("role_name_key", "ROLE#one")];
    assert_eq!(RoleDb::role_from_answer(&Some(item.clone())), Some(entry("One", "1")));
    assert_eq!(RoleDb::role_from_answer(&None), None);
    assert_eq!(RoleDb::roles_from_items(&vec![item.clone(), vec![]]), vec![entry("One", "1")]);
    assert_eq!(RoleDb::role_from_items(&vec![item]), Some(entry("One", "1")));
    assert_eq!(RoleDb::role_from_items(&vec![]), None);
}

#[test]
fn secret_failures_have_their_texts() {
    assert_eq!(SecretError::NotJson.message("key"), "Failed to parse secret string as JSON");
    assert_eq!(
        SecretError::KeyNotFound.message("token"),
        "Key 'token' not found in secret JSON"
    );
    assert_eq!(
        SubscriptionError::AlreadyActive.message(),
        "Guild already has an active subscription"
    );
}

#[test]
fn secret_value_is_read_from_a_parsed_document() {
    let document: serde_json::Value = serde_json::from_str(r#"{"key":"abcdef","n":1}"#).unwrap();
    assert_eq!(SecretsReader::value_in_document(&document, "key"), Some("abcdef".to_string()));
    assert_eq!(SecretsReader::value_in_document(&document, "n"), None);
    assert_eq!(SecretsReader::value_in_document(&document, "x"), None);
}
