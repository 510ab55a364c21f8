use cybersage::registry::{RoleMapping, RoleRegistry};

fn entry(name: &str, id: &str) -> Option<(String, String)> {
    Some((name.to_string(), id.to_string()))
}

#[test]
fn empty_prefix_finds_nothing() {
    let mut registry = RoleRegistry::new();
    assert!(registry.query_by_prefix("guild", "").is_empty());
    registry.save("guild", "1", "Admins");
    registry.save("guild", "2", "");
    assert!(registry.query_by_prefix("guild", "").is_empty());
}

#[test]
fn saved_role_is_found_by_lower_case_name() {
    let mut registry = RoleRegistry::new();
    registry.save("guild", "123", "Admins");
    assert_eq!(registry.get_by_name("guild", "admins"), entry("Admins", "123"));
    assert_eq!(registry.get_by_name("guild", "ADMINS"), entry("Admins", "123"));
    assert_eq!(registry.get_by_name("guild", "Admins"), entry("Admins", "123"));
}

#[test]
fn renamed_role_is_found_by_its_new_name_only() {
    let mut registry = RoleRegistry::new();
    registry.save("guild", "123", "Admins");
    registry.save("guild", "123", "Mods");
    assert_eq!(registry.get_by_name("guild", "admins"), None);
    assert_eq!(registry.get_by_name("guild", "mods"), entry("Mods", "123"));
    assert_eq!(registry.get_by_id("guild", "123"), entry("Mods", "123"));
    assert_eq!(registry.len(), 1);
}

#[test]
fn saving_twice_changes_nothing() {
    let mut once = RoleRegistry::new();
    once.save("guild", "1", "One");
    once.save("guild", "2", "Two");
    let mut twice = once.clone();
    twice.save("guild", "2", "Two");
    assert_eq!(once, twice);
}

#[test]
fn lookup_by_id_finds_name_and_id() {
    let mut registry = RoleRegistry::new();
    registry.save("guild", "1", "One");
    registry.save("guild", "2", "Two");
    assert_eq!(registry.get_by_id("guild", "1"), entry("One", "1"));
    assert_eq!(registry.get_by_id("guild", "2"), entry("Two", "2"));
    assert_eq!(registry.get_by_id("guild", "3"), None);
}

#[test]
fn guilds_do_not_see_each_other() {
    let mut registry = RoleRegistry::new();
    registry.save("a", "1", "Admins");
    registry.save("b", "1", "Mods");
    assert_eq!(registry.get_by_name("a", "mods"), None);
    assert_eq!(registry.get_by_name("b", "mods"), entry("Mods", "1"));
    assert_eq!(registry.get_by_id("a", "1"), entry("Admins", "1"));
    assert_eq!(registry.get_by_id("b", "1"), entry("Mods", "1"));
    assert!(registry.query_by_prefix("c", "a").is_empty());
    assert_eq!(registry.len(), 2);
}

#[test]
fn prefix_search_ignores_case() {
    let mut registry = RoleRegistry::new();
    registry.save("guild", "1", "Admins");
    registry.save("guild", "2", "admirals");
    registry.save("guild", "3", "Mods");
    let found = registry.query_by_prefix("guild", "ADM");
    assert_eq!(
        found,
        vec![
            ("Admins".to_string(), "1".to_string()),
            ("admirals".to_string(), "2".to_string()),
        ]
    );
    assert!(registry.query_by_prefix("guild", "x").is_empty());
    assert_eq!(registry.query_by_prefix("guild", "mods").len(), 1);
    assert!(registry.query_by_prefix("guild", "modss").is_empty());
}

#[test]
fn prefix_search_is_capped_at_twenty_five() {
    let mut registry = RoleRegistry::new();
    for i in 0..40 {
        registry.save("guild", &i.to_string(), &format!("Role{}", i));
    }
    let found = registry.query_by_prefix("guild", "role");
    assert_eq!(found.len(), 25);
    assert_eq!(found[0], ("Role0".to_string(), "0".to_string()));
    assert_eq!(found[24], ("Role24".to_string(), "24".to_string()));
}

#[test]
fn latest_of_two_roles_with_one_name_is_found() {
    let mut registry = RoleRegistry::new();
    registry.save("guild", "1", "vip");
    registry.save("guild", "2", "VIP");
    assert_eq!(registry.get_by_name("guild", "Vip"), entry("VIP", "2"));
    registry.save("guild", "1", "vip");
    assert_eq!(registry.get_by_name("guild", "Vip"), entry("vip", "1"));
}

#[test]
fn names_beyond_ascii_are_normalized() {
    let mut registry = RoleRegistry::new();
    registry.save("guild", "1", "ÉLITE");
    assert_eq!(registry.get_by_name("guild", "élite"), entry("ÉLITE", "1"));
    assert_eq!(registry.query_by_prefix("guild", "Él").len(), 1);
}

#[test]
fn mapping_carries_its_normalized_name() {
    let mapping = RoleMapping::new("guild", "123", "Admins");
    assert_eq!(mapping.guild_id, "guild");
    assert_eq!(mapping.role_id, "123");
    assert_eq!(mapping.role_name, "Admins");
    assert_eq!(mapping.normalized_name, "admins");
    assert_eq!(mapping.entry(), ("Admins".to_string(), "123".to_string()));
}

#[test]
fn normalized_lookups_take_the_name_as_it_is() {
    let mut registry = RoleRegistry::new();
    registry.save("guild", "1", "Admins");
    assert_eq!(registry.find_named("guild", "admins"), entry("Admins", "1"));
    assert_eq!(registry.find_named("guild", "Admins"), None);
    assert_eq!(registry.find_beginning_with("guild", "adm").len(), 1);
    assert!(registry.find_beginning_with("guild", "Adm").is_empty());
    assert!(registry.find_beginning_with("guild", "").is_empty());
}

#[test]
fn inserted_mapping_replaces_the_one_under_its_key() {
    let mut registry = RoleRegistry::new();
    registry.insert(RoleMapping::new("guild", "1", "One"));
    registry.insert(RoleMapping::new("guild", "2", "Two"));
    registry.insert(RoleMapping {
        guild_id: "guild".to_string(),
        role_id: "1".to_string(),
        role_name: "Uno".to_string(),
        normalized_name: "uno".to_string(),
    });
    assert_eq!(registry.len(), 2);
    assert_eq!(registry.get_by_id("guild", "1"), entry("Uno", "1"));
    assert_eq!(registry.get_by_name("guild", "one"), None);
    assert_eq!(registry.get_by_name("guild", "UNO"), entry("Uno", "1"));
    assert_eq!(
        registry.query_by_prefix("guild", "u"),
        vec![("Uno".to_string(), "1".to_string())]
    );
    assert_eq!(
        registry.query_by_prefix("guild", "t"),
        vec![("Two".to_string(), "2".to_string())]
    );
}
