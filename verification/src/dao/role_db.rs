//! The role mappings of a guild in a table of the prefixed layout.
//!
//! In this layout a mapping is an item under the partition key `guild_id` and
//! the sort key `entity_key`, which is the role id behind `ROLE#`. The index
//! `role-name-index` orders the mappings of a guild by `role_name_key`, the
//! lower-case form of the role's name behind the same `ROLE#`. Items are read
//! as in the plain layout, by [`GuildDao`].

use crate::dao::guild_dao::{last_role_in, role_in_answer, roles_in, GuildDao};
use crate::store::{Attribute, AttributeModel, StoreRequest, StoreRequestModel};
use crate::text::{lowercased, to_lowercase};
use vstd::prelude::*;
use vstd::string::StringExecFns;

verus! {

/// The most items that a prefix query asks for.
pub const PREFIX_QUERY_LIMIT: i32 = 25;

/// A key of the prefixed layout: the text behind `ROLE#`.
pub open spec fn prefixed(text: Seq<char>) -> Seq<char> {
    "ROLE#"@ + text
}

/// The key of the mapping of a role of a guild.
pub open spec fn role_item_key(guild_id: Seq<char>, role_id: Seq<char>) -> Seq<AttributeModel> {
    seq![
        AttributeModel::text("guild_id"@, guild_id),
        AttributeModel::text("entity_key"@, prefixed(role_id)),
    ]
}

/// The item that holds the mapping of a role.
pub open spec fn role_item(guild_id: Seq<char>, role_id: Seq<char>, role_name: Seq<char>) -> Seq<
    AttributeModel,
> {
    seq![
        AttributeModel::text("guild_id"@, guild_id),
        AttributeModel::text("entity_key"@, prefixed(role_id)),
        AttributeModel::text("role_id"@, role_id),
        AttributeModel::text("role_name"@, role_name),
        AttributeModel::text("role_name_lower"@, lowercased(role_name)),
        AttributeModel::text("role_name_key"@, prefixed(lowercased(role_name))),
    ]
}

/// The request that reads the mapping of a role by its id.
pub open spec fn get_role_by_id_spec(
    table_name: Seq<char>,
    guild_id: Seq<char>,
    role_id: Seq<char>,
) -> StoreRequestModel {
    StoreRequestModel::GetItem { table_name, key: role_item_key(guild_id, role_id) }
}

/// The request that searches the roles of a guild by the beginning of their
/// names; none for the empty prefix, which matches nothing.
pub open spec fn query_roles_by_prefix_spec(
    table_name: Seq<char>,
    guild_id: Seq<char>,
    prefix: Seq<char>,
) -> Option<StoreRequestModel> {
    if prefix.len() == 0 {
        None
    } else {
        Some(
            StoreRequestModel::Query {
                table_name,
                index_name: "role-name-index"@,
                key_condition: "guild_id = :guild_id AND begins_with(role_name_key, :prefix)"@,
                values: seq![
                    AttributeModel::text(":guild_id"@, guild_id),
                    AttributeModel::text(":prefix"@, prefixed(lowercased(prefix))),
                ],
                limit: PREFIX_QUERY_LIMIT,
            },
        )
    }
}

/// The request that registers a role or renames it.
pub open spec fn save_role_spec(
    table_name: Seq<char>,
    guild_id: Seq<char>,
    role_id: Seq<char>,
    role_name: Seq<char>,
) -> StoreRequestModel {
    StoreRequestModel::PutItem { table_name, item: role_item(guild_id, role_id, role_name) }
}

/// The request that looks a role up by its name, in whatever case.
pub open spec fn get_role_by_name_spec(
    table_name: Seq<char>,
    guild_id: Seq<char>,
    role_name: Seq<char>,
) -> StoreRequestModel {
    StoreRequestModel::Query {
        table_name,
        index_name: "role-name-index"@,
        key_condition: "guild_id = :guild_id AND role_name_key = :role_key"@,
        values: seq![
            AttributeModel::text(":guild_id"@, guild_id),
            AttributeModel::text(":role_key"@, prefixed(lowercased(role_name))),
        ],
        limit: 1,
    }
}

/// Reads and writes the role mappings of one table of the prefixed layout.
#[derive(Debug, Clone, PartialEq, Eq)]
pub struct RoleDb {
    table_name: String,
}

impl RoleDb {
    /// The table that the requests go to.
    pub closed spec fn table(&self) -> Seq<char> {
        self.table_name@
    }

    /// Access to the table of the given name.
    pub fn new(table_name: String) -> (db: Self)
        ensures
            db.table() == table_name@,
    {
        RoleDb { table_name }
    }

    fn prefixed(text: &str) -> (key: String)
        ensures
            key@ == prefixed(text@),
    {
        String::from_str("ROLE#").concat(text)
    }

    /// The request that reads the mapping of a role by its id. Its answer is
    /// read by [`RoleDb::role_from_answer`].
    pub fn get_role_by_id(&self, guild_id: &str, role_id: &str) -> (request: StoreRequest)
        ensures
            request@ == get_role_by_id_spec(self.table(), guild_id@, role_id@),
    {
        let key = vec![
            Attribute::text("guild_id", guild_id),
            Attribute::text("entity_key", Self::prefixed(role_id).as_str()),
        ];
        assert(key.deep_view() =~= role_item_key(guild_id@, role_id@));
        StoreRequest::GetItem { table_name: self.table_name.clone(), key }
    }

    /// The request that searches the roles of a guild by a prefix of their
    /// names, or `None` for the empty prefix. Its answer is read by
    /// [`RoleDb::roles_from_items`].
    pub fn query_roles_by_prefix(&self, guild_id: &str, prefix: &str) -> (request: Option<
        StoreRequest,
    >)
        ensures
            request.deep_view() == query_roles_by_prefix_spec(self.table(), guild_id@, prefix@),
    {
        if prefix.is_empty() {
            return None;
        }
        let normalized = to_lowercase(prefix);
        let values = vec![
            Attribute::text(":guild_id", guild_id),
            Attribute::text(":prefix", Self::prefixed(normalized.as_str()).as_str()),
        ];
        assert(values.deep_view() =~= seq![
            AttributeModel::text(":guild_id"@, guild_id@),
            AttributeModel::text(":prefix"@, prefixed(lowercased(prefix@))),
        ]);
        Some(
            StoreRequest::Query {
                table_name: self.table_name.clone(),
                index_name: String::from_str("role-name-index"),
                key_condition: String::from_str(
                    "guild_id = :guild_id AND begins_with(role_name_key, :prefix)",
                ),
                values,
                limit: PREFIX_QUERY_LIMIT,
            },
        )
    }

    /// The request that registers a role or renames it.
    pub fn save_role(&self, guild_id: &str, role_id: &str, role_name: &str) -> (request:
        StoreRequest)
        ensures
            request@ == save_role_spec(self.table(), guild_id@, role_id@, role_name@),
    {
        let normalized = to_lowercase(role_name);
        let item = vec![
            Attribute::text("guild_id", guild_id),
            Attribute::text("entity_key", Self::prefixed(role_id).as_str()),
            Attribute::text("role_id", role_id),
            Attribute::text("role_name", role_name),
            Attribute::text("role_name_lower", normalized.as_str()),
            Attribute::text("role_name_key", Self::prefixed(normalized.as_str()).as_str()),
        ];
        assert(item.deep_view() =~= role_item(guild_id@, role_id@, role_name@));
        StoreRequest::PutItem { table_name: self.table_name.clone(), item }
    }

    /// The request that looks a role up by its name. Its answer is read by
    /// [`RoleDb::role_from_items`].
    pub fn get_role_by_name(&self, guild_id: &str, role_name: &str) -> (request: StoreRequest)
        ensures
            request@ == get_role_by_name_spec(self.table(), guild_id@, role_name@),
    {
        let normalized = to_lowercase(role_name);
        let values = vec![
            Attribute::text(":guild_id", guild_id),
            Attribute::text(":role_key", Self::prefixed(normalized.as_str()).as_str()),
        ];
        assert(values.deep_view() =~= seq![
            AttributeModel::text(":guild_id"@, guild_id@),
            AttributeModel::text(":role_key"@, prefixed(lowercased(role_name@))),
        ]);
        StoreRequest::Query {
            table_name: self.table_name.clone(),
            index_name: String::from_str("role-name-index"),
            key_condition: String::from_str("guild_id = :guild_id AND role_name_key = :role_key"),
            values,
            limit: 1,
        }
    }

    /// Reads the answer to [`RoleDb::get_role_by_id`].
    pub fn role_from_answer(item: &Option<Vec<Attribute>>) -> (role: Option<(String, String)>)
        ensures
            role.deep_view() == role_in_answer(item.deep_view()),
    {
        GuildDao::role_from_answer(item)
    }

    /// Reads the answer to [`RoleDb::query_roles_by_prefix`].
    pub fn roles_from_items(items: &Vec<Vec<Attribute>>) -> (roles: Vec<(String, String)>)
        ensures
            roles.deep_view() == roles_in(items.deep_view()),
    {
        GuildDao::roles_from_items(items)
    }

    /// Reads the answer to [`RoleDb::get_role_by_name`].
    pub fn role_from_items(items: &Vec<Vec<Attribute>>) -> (role: Option<(String, String)>)
        ensures
            role.deep_view() == last_role_in(items.deep_view()),
    {
        GuildDao::role_from_items(items)
    }
}

} // verus!
