//! The role mappings of a guild in the store.
//!
//! A mapping is an item under the partition key `guild_id` and the sort key
//! `mapping_key`, which is the role id behind `ROLE#`. The index
//! `GuildRoleNameIndex` orders the mappings of a guild by
//! `role_name_normalized`, the lower-case form of the role's name.

use crate::store::{
    read_text, text_attribute, Attribute, AttributeModel, StoreRequest, StoreRequestModel,
};
use crate::text::{blank, is_blank, lowercased, to_lowercase};
use vstd::prelude::*;
use vstd::string::StringExecFns;

verus! {

/// The most items that a prefix query asks for.
pub const PREFIX_QUERY_LIMIT: i32 = 25;

/// The sort key of a role: its id behind `ROLE#`.
pub open spec fn mapping_key(role_id: Seq<char>) -> Seq<char> {
    "ROLE#"@ + role_id
}

/// The key of the mapping of a role of a guild.
pub open spec fn role_item_key(guild_id: Seq<char>, role_id: Seq<char>) -> Seq<AttributeModel> {
    seq![
        AttributeModel::text("guild_id"@, guild_id),
        AttributeModel::text("mapping_key"@, mapping_key(role_id)),
    ]
}

/// The item that holds the mapping of a role.
pub open spec fn role_item(guild_id: Seq<char>, role_id: Seq<char>, role_name: Seq<char>) -> Seq<
    AttributeModel,
> {
    seq![
        AttributeModel::text("guild_id"@, guild_id),
        AttributeModel::text("mapping_key"@, mapping_key(role_id)),
        AttributeModel::text("role_id"@, role_id),
        AttributeModel::text("role_name"@, role_name),
        AttributeModel::text("role_name_normalized"@, lowercased(role_name)),
    ]
}

/// The request that reads the mapping of a role by its id.
pub open spec fn get_role_by_id_spec(
    table_name: Seq<char>,
    guild_id: Seq<char>,
    role_id: Seq<char>,
) -> StoreRequestModel {
    StoreRequestModel::GetItem { table_name, key: role_item_key(guild_id, role_id) }
}

/// The request that searches the roles of a guild by the beginning of their
/// names. There is none for a prefix that is empty or holds only white space:
/// it is taken to match nothing, and the store is not asked.
pub open spec fn query_roles_by_prefix_spec(
    table_name: Seq<char>,
    guild_id: Seq<char>,
    prefix: Seq<char>,
) -> Option<StoreRequestModel> {
    if blank(prefix) {
        None
    } else {
        Some(
            StoreRequestModel::Query {
                table_name,
                index_name: "GuildRoleNameIndex"@,
                key_condition: "guild_id = :guild_id AND begins_with(role_name_normalized, :prefix)"@,
                values: seq![
                    AttributeModel::text(":guild_id"@, guild_id),
                    AttributeModel::text(":prefix"@, lowercased(prefix)),
                ],
                limit: PREFIX_QUERY_LIMIT,
            },
        )
    }
}

/// The request that registers a role or renames it. The item replaces the
/// one under the same key, and with it the normalized name that the index
/// goes by.
pub open spec fn save_role_spec(
    table_name: Seq<char>,
    guild_id: Seq<char>,
    role_id: Seq<char>,
    role_name: Seq<char>,
) -> StoreRequestModel {
    StoreRequestModel::PutItem { table_name, item: role_item(guild_id, role_id, role_name) }
}

/// The request that looks a role up by its name, in whatever case.
pub open spec fn get_role_by_name_spec(
    table_name: Seq<char>,
    guild_id: Seq<char>,
    role_name: Seq<char>,
) -> StoreRequestModel {
    StoreRequestModel::Query {
        table_name,
        index_name: "GuildRoleNameIndex"@,
        key_condition: "guild_id = :guild_id AND role_name_normalized = :role_name"@,
        values: seq![
            AttributeModel::text(":guild_id"@, guild_id),
            AttributeModel::text(":role_name"@, lowercased(role_name)),
        ],
        limit: 1,
    }
}

/// The empty prefix asks the store nothing.
pub proof fn empty_prefix_asks_nothing(table_name: Seq<char>, guild_id: Seq<char>)
    ensures
        query_roles_by_prefix_spec(table_name, guild_id, Seq::empty()) is None,
{
}

/// The registry entry in an item: display name, then role id. Both must be
/// there as text.
pub open spec fn role_in(item: Seq<AttributeModel>) -> Option<(Seq<char>, Seq<char>)> {
    match (text_attribute(item, "role_name"@), text_attribute(item, "role_id"@)) {
        (Some(role_name), Some(role_id)) => Some((role_name, role_id)),
        _ => None,
    }
}

/// The registry entries in a list of items, in order. Items that hold no
/// entry are passed over.
pub open spec fn roles_in(items: Seq<Seq<AttributeModel>>) -> Seq<(Seq<char>, Seq<char>)>
    decreases items.len(),
{
    if items.len() == 0 {
        Seq::empty()
    } else {
        match role_in(items.last()) {
            Some(role) => roles_in(items.drop_last()).push(role),
            None => roles_in(items.drop_last()),
        }
    }
}

/// The registry entry in the last item of a list, if there is one.
pub open spec fn last_role_in(items: Seq<Seq<AttributeModel>>) -> Option<(Seq<char>, Seq<char>)> {
    if items.len() == 0 {
        None
    } else {
        role_in(items.last())
    }
}

/// The registry entry in the item that a read by key returned, if it
/// returned one.
pub open spec fn role_in_answer(item: Option<Seq<AttributeModel>>) -> Option<
    (Seq<char>, Seq<char>),
> {
    match item {
        Some(item) => role_in(item),
        None => None,
    }
}

/// Reads and writes the role mappings of one table.
#[derive(Debug, Clone, PartialEq, Eq)]
pub struct GuildDao {
    table_name: String,
}

impl GuildDao {
    /// The table that the requests go to.
    pub closed spec fn table(&self) -> Seq<char> {
        self.table_name@
    }

    /// Access to the table of the given name.
    pub fn new(table_name: String) -> (dao: Self)
        ensures
            dao.table() == table_name@,
    {
        GuildDao { table_name }
    }

    fn key(guild_id: &str, role_id: &str) -> (key: Vec<Attribute>)
        ensures
            key.deep_view() == role_item_key(guild_id@, role_id@),
    {
        let sort_key = String::from_str("ROLE#").concat(role_id);
        let key = vec![
            Attribute::text("guild_id", guild_id),
            Attribute::text("mapping_key", sort_key.as_str()),
        ];
        assert(key.deep_view() =~= role_item_key(guild_id@, role_id@));
        key
    }

    /// The request that reads the mapping of a role by its id.
    pub fn get_role_by_id(&self, guild_id: &str, role_id: &str) -> (request: StoreRequest)
        ensures
            request@ == get_role_by_id_spec(self.table(), guild_id@, role_id@),
    {
        StoreRequest::GetItem {
            table_name: self.table_name.clone(),
            key: Self::key(guild_id, role_id),
        }
    }

    /// The request that searches the roles of a guild by a prefix of their
    /// names, or `None` for a prefix that is empty or blank; see
    /// [`query_roles_by_prefix_spec`].
    pub fn query_roles_by_prefix(&self, guild_id: &str, prefix: &str) -> (request: Option<
        StoreRequest,
    >)
        ensures
            request.deep_view() == query_roles_by_prefix_spec(self.table(), guild_id@, prefix@),
    {
        if is_blank(prefix) {
            return None;
        }
        let normalized = to_lowercase(prefix);
        let values = vec![
            Attribute::text(":guild_id", guild_id),
            Attribute::text(":prefix", normalized.as_str()),
        ];
        assert(values.deep_view() =~= seq![
            AttributeModel::text(":guild_id"@, guild_id@),
            AttributeModel::text(":prefix"@, lowercased(prefix@)),
        ]);
        Some(
            StoreRequest::Query {
                table_name: self.table_name.clone(),
                index_name: String::from_str("GuildRoleNameIndex"),
                key_condition: String::from_str(
                    "guild_id = :guild_id AND begins_with(role_name_normalized, :prefix)",
                ),
                values,
                limit: PREFIX_QUERY_LIMIT,
            },
        )
    }

    /// The request that registers a role or renames it.
    pub fn save_role(&self, guild_id: &str, role_id: &str, role_name: &str) -> (request:
        StoreRequest)
        ensures
            request@ == save_role_spec(self.table(), guild_id@, role_id@, role_name@),
    {
        let sort_key = String::from_str("ROLE#").concat(role_id);
        let normalized = to_lowercase(role_name);
        let item = vec![
            Attribute::text("guild_id", guild_id),
            Attribute::text("mapping_key", sort_key.as_str()),
            Attribute::text("role_id", role_id),
            Attribute::text("role_name", role_name),
            Attribute::text("role_name_normalized", normalized.as_str()),
        ];
        assert(item.deep_view() =~= role_item(guild_id@, role_id@, role_name@));
        StoreRequest::PutItem { table_name: self.table_name.clone(), item }
    }

    /// The request that looks a role up by its name.
    pub fn get_role_by_name(&self, guild_id: &str, role_name: &str) -> (request: StoreRequest)
        ensures
            request@ == get_role_by_name_spec(self.table(), guild_id@, role_name@),
    {
        let normalized = to_lowercase(role_name);
        let values = vec![
            Attribute::text(":guild_id", guild_id),
            Attribute::text(":role_name", normalized.as_str()),
        ];
        assert(values.deep_view() =~= seq![
            AttributeModel::text(":guild_id"@, guild_id@),
            AttributeModel::text(":role_name"@, lowercased(role_name@)),
        ]);
        StoreRequest::Query {
            table_name: self.table_name.clone(),
            index_name: String::from_str("GuildRoleNameIndex"),
            key_condition: String::from_str(
                "guild_id = :guild_id AND role_name_normalized = :role_name",
            ),
            values,
            limit: 1,
        }
    }

    /// Reads the registry entry in an item; see [`role_in`].
    pub fn role_from_item(item: &Vec<Attribute>) -> (role: Option<(String, String)>)
        ensures
            role.deep_view() == role_in(item.deep_view()),
    {
        match read_text(item, "role_name") {
            Some(role_name) => match read_text(item, "role_id") {
                Some(role_id) => Some((role_name, role_id)),
                None => None,
            },
            None => None,
        }
    }

    /// Reads the answer to [`GuildDao::get_role_by_id`].
    pub fn role_from_answer(item: &Option<Vec<Attribute>>) -> (role: Option<(String, String)>)
        ensures
            role.deep_view() == role_in_answer(item.deep_view()),
    {
        match item {
            Some(item) => Self::role_from_item(item),
            None => None,
        }
    }

    /// Reads the answer to [`GuildDao::query_roles_by_prefix`]; see
    /// [`roles_in`].
    pub fn roles_from_items(items: &Vec<Vec<Attribute>>) -> (roles: Vec<(String, String)>)
        ensures
            roles.deep_view() == roles_in(items.deep_view()),
    {
        let mut roles: Vec<(String, String)> = Vec::new();
        let mut i: usize = 0;
        assert(items.deep_view().take(0) =~= Seq::<Seq<AttributeModel>>::empty());
        assert(roles.deep_view() =~= Seq::empty());
        while i < items.len()
            invariant
                i <= items.len(),
                roles.deep_view() == roles_in(items.deep_view().take(i as int)),
            decreases items.len() - i,
        {
            let ghost models = items.deep_view();
            assert(models.take(i + 1).drop_last() =~= models.take(i as int));
            assert(models.take(i + 1).last() == items@[i as int].deep_view());
            match Self::role_from_item(&items[i]) {
                Some(role) => {
                    let ghost before = roles.deep_view();
                    let ghost added = role.deep_view();
                    roles.push(role);
                    assert(roles.deep_view() =~= before.push(added));
                },
                None => {},
            }
            i += 1;
        }
        assert(items.deep_view().take(i as int) =~= items.deep_view());
        roles
    }

    /// Reads the answer to [`GuildDao::get_role_by_name`]; see
    /// [`last_role_in`].
    pub fn role_from_items(items: &Vec<Vec<Attribute>>) -> (role: Option<(String, String)>)
        ensures
            role.deep_view() == last_role_in(items.deep_view()),
    {
        if items.len() == 0 {
            None
        } else {
            assert(items.deep_view().last() == items@[items.len() - 1].deep_view());
            Self::role_from_item(&items[items.len() - 1])
        }
    }
}

} // verus!
