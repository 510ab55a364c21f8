//! The role registry: which roles of a guild its members may assign to
//! themselves.
//!
//! A role is registered under its guild and its id. Its display name is kept
//! beside a normalized, lower-case form, by which the role is found again
//! whatever the case in which the name is typed. Lookups answer with pairs of
//! display name and role id, in that order.

use crate::router::step::{Effect, EffectModel, Outcome, OutcomeModel};
use crate::text::{lowercased, same_text, starts_with, to_lowercase};
use vstd::prelude::*;

verus! {

/// The most entries that a prefix search returns.
pub const MAX_PREFIX_MATCHES: usize = 25;

/// One registered role.
#[derive(Debug, Clone, PartialEq, Eq)]
pub struct RoleMapping {
    pub guild_id: String,
    pub role_id: String,
    pub role_name: String,
    pub normalized_name: String,
}

/// Mathematical model of a [`RoleMapping`].
pub ghost struct RoleMappingModel {
    pub guild_id: Seq<char>,
    pub role_id: Seq<char>,
    pub role_name: Seq<char>,
    pub normalized_name: Seq<char>,
}

impl DeepView for RoleMapping {
    type V = RoleMappingModel;

    open spec fn deep_view(&self) -> RoleMappingModel {
        RoleMappingModel {
            guild_id: self.guild_id@,
            role_id: self.role_id@,
            role_name: self.role_name@,
            normalized_name: self.normalized_name@,
        }
    }
}

impl View for RoleMapping {
    type V = RoleMappingModel;

    open spec fn view(&self) -> RoleMappingModel {
        self.deep_view()
    }
}

impl RoleMappingModel {
    /// The mapping of a role, with the normalized form of its name.
    pub open spec fn of(guild_id: Seq<char>, role_id: Seq<char>, role_name: Seq<char>) -> Self {
        RoleMappingModel { guild_id, role_id, role_name, normalized_name: lowercased(role_name) }
    }

    /// Whether the normalized name is the lower-case form of the display name.
    pub open spec fn is_normalized(self) -> bool {
        self.normalized_name == lowercased(self.role_name)
    }

    /// Whether this is the mapping of the given role of the given guild.
    pub open spec fn has_key(self, guild_id: Seq<char>, role_id: Seq<char>) -> bool {
        self.guild_id == guild_id && self.role_id == role_id
    }

    /// Whether this mapping belongs to the guild and has the normalized name.
    pub open spec fn is_named(self, guild_id: Seq<char>, normalized: Seq<char>) -> bool {
        self.guild_id == guild_id && self.normalized_name == normalized
    }

    /// Whether this mapping belongs to the guild and its normalized name
    /// begins with the prefix.
    pub open spec fn begins_with(self, guild_id: Seq<char>, prefix: Seq<char>) -> bool {
        self.guild_id == guild_id && prefix.is_prefix_of(self.normalized_name)
    }

    /// What a lookup answers for this mapping: display name, then role id.
    pub open spec fn entry(self) -> (Seq<char>, Seq<char>) {
        (self.role_name, self.role_id)
    }
}

/// Whether no two mappings are of the same role of the same guild.
pub open spec fn unique_keys(mappings: Seq<RoleMappingModel>) -> bool {
    forall|i: int, j: int|
        0 <= i < j < mappings.len() ==> !(#[trigger] mappings[i]).has_key(
            (#[trigger] mappings[j]).guild_id,
            mappings[j].role_id,
        )
}

/// Whether every mapping carries the normalized form of its own name.
pub open spec fn all_normalized(mappings: Seq<RoleMappingModel>) -> bool {
    forall|i: int| 0 <= i < mappings.len() ==> (#[trigger] mappings[i]).is_normalized()
}

/// What holds of the contents of a registry that was filled by saving roles.
pub open spec fn valid_registry(mappings: Seq<RoleMappingModel>) -> bool {
    unique_keys(mappings) && all_normalized(mappings)
}

/// The entry of a role of a guild, if the role is registered.
pub open spec fn find_by_id(
    mappings: Seq<RoleMappingModel>,
    guild_id: Seq<char>,
    role_id: Seq<char>,
) -> Option<(Seq<char>, Seq<char>)>
    decreases mappings.len(),
{
    if mappings.len() == 0 {
        None
    } else if mappings.last().has_key(guild_id, role_id) {
        Some(mappings.last().entry())
    } else {
        find_by_id(mappings.drop_last(), guild_id, role_id)
    }
}

/// The entry of the role of a guild that has the given normalized name; where
/// several roles have it, the one saved last.
pub open spec fn find_by_name(
    mappings: Seq<RoleMappingModel>,
    guild_id: Seq<char>,
    normalized: Seq<char>,
) -> Option<(Seq<char>, Seq<char>)>
    decreases mappings.len(),
{
    if mappings.len() == 0 {
        None
    } else if mappings.last().is_named(guild_id, normalized) {
        Some(mappings.last().entry())
    } else {
        find_by_name(mappings.drop_last(), guild_id, normalized)
    }
}

/// The entries of the roles of a guild whose normalized names begin with the
/// prefix, in the order in which the roles were saved.
pub open spec fn find_by_prefix(
    mappings: Seq<RoleMappingModel>,
    guild_id: Seq<char>,
    prefix: Seq<char>,
) -> Seq<(Seq<char>, Seq<char>)>
    decreases mappings.len(),
{
    if mappings.len() == 0 {
        Seq::empty()
    } else if mappings.last().begins_with(guild_id, prefix) {
        find_by_prefix(mappings.drop_last(), guild_id, prefix).push(mappings.last().entry())
    } else {
        find_by_prefix(mappings.drop_last(), guild_id, prefix)
    }
}

/// The first [`MAX_PREFIX_MATCHES`] of a list of entries.
pub open spec fn capped(entries: Seq<(Seq<char>, Seq<char>)>) -> Seq<(Seq<char>, Seq<char>)> {
    if entries.len() <= MAX_PREFIX_MATCHES {
        entries
    } else {
        entries.take(MAX_PREFIX_MATCHES as int)
    }
}

/// What a search by a normalized prefix answers: nothing for the empty
/// prefix, and otherwise its first matches.
pub open spec fn prefix_matches(
    mappings: Seq<RoleMappingModel>,
    guild_id: Seq<char>,
    prefix: Seq<char>,
) -> Seq<(Seq<char>, Seq<char>)> {
    if prefix.len() == 0 {
        Seq::empty()
    } else {
        capped(find_by_prefix(mappings, guild_id, prefix))
    }
}

/// What a prefix search answers: nothing for the empty prefix, and otherwise
/// the first matches of the lower-cased prefix.
pub open spec fn query_spec(
    mappings: Seq<RoleMappingModel>,
    guild_id: Seq<char>,
    prefix: Seq<char>,
) -> Seq<(Seq<char>, Seq<char>)> {
    if prefix.len() == 0 {
        Seq::empty()
    } else {
        prefix_matches(mappings, guild_id, lowercased(prefix))
    }
}

/// The mappings without that of the given role of the given guild.
pub open spec fn without(
    mappings: Seq<RoleMappingModel>,
    guild_id: Seq<char>,
    role_id: Seq<char>,
) -> Seq<RoleMappingModel>
    decreases mappings.len(),
{
    if mappings.len() == 0 {
        mappings
    } else if mappings.last().has_key(guild_id, role_id) {
        without(mappings.drop_last(), guild_id, role_id)
    } else {
        without(mappings.drop_last(), guild_id, role_id).push(mappings.last())
    }
}

/// The mappings after one was put in: what was registered under its key is
/// gone, and the mapping stands last.
pub open spec fn inserted(
    mappings: Seq<RoleMappingModel>,
    mapping: RoleMappingModel,
) -> Seq<RoleMappingModel> {
    without(mappings, mapping.guild_id, mapping.role_id).push(mapping)
}

/// The mappings after a role was saved: what was registered under its key is
/// gone, and the role stands last, under its new name.
pub open spec fn saved(
    mappings: Seq<RoleMappingModel>,
    guild_id: Seq<char>,
    role_id: Seq<char>,
    role_name: Seq<char>,
) -> Seq<RoleMappingModel> {
    inserted(mappings, RoleMappingModel::of(guild_id, role_id, role_name))
}

/// Every mapping that is left after a removal was there before, none of them
/// has the removed key, and every other mapping is left.
pub proof fn without_keeps_the_rest(
    mappings: Seq<RoleMappingModel>,
    guild_id: Seq<char>,
    role_id: Seq<char>,
)
    ensures
        forall|i: int|
            0 <= i < without(mappings, guild_id, role_id).len() ==> mappings.contains(
                #[trigger] without(mappings, guild_id, role_id)[i],
            ) && !without(mappings, guild_id, role_id)[i].has_key(guild_id, role_id),
        forall|j: int|
            0 <= j < mappings.len() && !(#[trigger] mappings[j]).has_key(guild_id, role_id)
                ==> without(mappings, guild_id, role_id).contains(mappings[j]),
        unique_keys(mappings) ==> unique_keys(without(mappings, guild_id, role_id)),
        without(mappings, guild_id, role_id).len() <= mappings.len(),
    decreases mappings.len(),
{
    let rest = without(mappings, guild_id, role_id);
    if mappings.len() > 0 {
        let init = mappings.drop_last();
        let last = mappings.last();
        without_keeps_the_rest(init, guild_id, role_id);
        let shorter = without(init, guild_id, role_id);
        assert forall|i: int| 0 <= i < rest.len() implies mappings.contains(#[trigger] rest[i])
            && !rest[i].has_key(guild_id, role_id) by {
            if i < shorter.len() {
                assert(rest[i] == shorter[i]);
                assert(init.contains(shorter[i]));
                let k = choose|k: int| 0 <= k < init.len() && init[k] == shorter[i];
                assert(mappings[k] == rest[i]);
            } else {
                assert(rest[i] == last);
                assert(mappings[mappings.len() - 1] == last);
            }
        }
        assert forall|j: int|
            0 <= j < mappings.len() && !(#[trigger] mappings[j]).has_key(
                guild_id,
                role_id,
            ) implies rest.contains(mappings[j]) by {
            if j < init.len() {
                assert(init[j] == mappings[j]);
                assert(shorter.contains(init[j]));
                let k = choose|k: int| 0 <= k < shorter.len() && shorter[k] == init[j];
                assert(rest[k] == mappings[j]);
            } else {
                assert(rest[rest.len() - 1] == mappings[j]);
            }
        }
        if unique_keys(mappings) {
            assert(unique_keys(init)) by {
                assert forall|i: int, j: int| 0 <= i < j < init.len() implies !(
                #[trigger] init[i]).has_key((#[trigger] init[j]).guild_id, init[j].role_id) by {
                    assert(init[i] == mappings[i] && init[j] == mappings[j]);
                }
            }
            if !last.has_key(guild_id, role_id) {
                assert forall|i: int, j: int| 0 <= i < j < rest.len() implies !(
                #[trigger] rest[i]).has_key((#[trigger] rest[j]).guild_id, rest[j].role_id) by {
                    if j < shorter.len() {
                        assert(rest[i] == shorter[i] && rest[j] == shorter[j]);
                    } else {
                        assert(rest[j] == last);
                        assert(rest[i] == shorter[i]);
                        assert(init.contains(shorter[i]));
                        let k = choose|k: int| 0 <= k < init.len() && init[k] == rest[i];
                        assert(mappings[k] == rest[i]);
                        assert(mappings[mappings.len() - 1] == last);
                    }
                }
            }
        }
    }
}

/// Where no mapping has the key, a removal changes nothing.
pub proof fn without_absent_key(
    mappings: Seq<RoleMappingModel>,
    guild_id: Seq<char>,
    role_id: Seq<char>,
)
    requires
        forall|i: int|
            0 <= i < mappings.len() ==> !(#[trigger] mappings[i]).has_key(guild_id, role_id),
    ensures
        without(mappings, guild_id, role_id) == mappings,
    decreases mappings.len(),
{
    if mappings.len() > 0 {
        let init = mappings.drop_last();
        assert forall|i: int| 0 <= i < init.len() implies !(#[trigger] init[i]).has_key(
            guild_id,
            role_id,
        ) by {
            assert(init[i] == mappings[i]);
        }
        without_absent_key(init, guild_id, role_id);
        assert(!mappings[mappings.len() - 1].has_key(guild_id, role_id));
        assert(init.push(mappings.last()) =~= mappings);
    }
}

/// The matches of a prefix among the first mappings are the first of its
/// matches among all of them.
pub proof fn prefix_matches_grow(
    mappings: Seq<RoleMappingModel>,
    guild_id: Seq<char>,
    prefix: Seq<char>,
    count: int,
)
    requires
        0 <= count <= mappings.len(),
    ensures
        find_by_prefix(mappings.take(count), guild_id, prefix).is_prefix_of(
            find_by_prefix(mappings, guild_id, prefix),
        ),
    decreases mappings.len(),
{
    let all = find_by_prefix(mappings, guild_id, prefix);
    if count == mappings.len() {
        assert(mappings.take(count) =~= mappings);
        assert(all.subrange(0, all.len() as int) =~= all);
    } else {
        let init = mappings.drop_last();
        prefix_matches_grow(init, guild_id, prefix, count);
        assert(init.take(count) =~= mappings.take(count));
        let some = find_by_prefix(mappings.take(count), guild_id, prefix);
        let most = find_by_prefix(init, guild_id, prefix);
        assert(some =~= most.subrange(0, some.len() as int));
        assert(some =~= all.subrange(0, some.len() as int));
    }
}

/// Putting a mapping in keeps the keys unique, and keeps the names
/// normalized if the mapping's own name is.
pub proof fn inserted_is_valid(mappings: Seq<RoleMappingModel>, mapping: RoleMappingModel)
    ensures
        unique_keys(mappings) ==> unique_keys(inserted(mappings, mapping)),
        all_normalized(mappings) && mapping.is_normalized() ==> all_normalized(
            inserted(mappings, mapping),
        ),
{
    let rest = without(mappings, mapping.guild_id, mapping.role_id);
    let after = inserted(mappings, mapping);
    without_keeps_the_rest(mappings, mapping.guild_id, mapping.role_id);
    if all_normalized(mappings) && mapping.is_normalized() {
        assert forall|i: int| 0 <= i < after.len() implies (
        #[trigger] after[i]).is_normalized() by {
            if i < rest.len() {
                assert(after[i] == rest[i]);
                assert(mappings.contains(rest[i]));
                let k = choose|k: int| 0 <= k < mappings.len() && mappings[k] == rest[i];
                assert(mappings[k].is_normalized());
            }
        }
    }
    if unique_keys(mappings) {
        assert forall|i: int, j: int| 0 <= i < j < after.len() implies !(
        #[trigger] after[i]).has_key((#[trigger] after[j]).guild_id, after[j].role_id) by {
            if j < rest.len() {
                assert(after[i] == rest[i] && after[j] == rest[j]);
            } else {
                assert(after[i] == rest[i]);
                assert(!rest[i].has_key(mapping.guild_id, mapping.role_id));
            }
        }
    }
}

/// Saving keeps a registry valid.
pub proof fn saved_is_valid(
    mappings: Seq<RoleMappingModel>,
    guild_id: Seq<char>,
    role_id: Seq<char>,
    role_name: Seq<char>,
)
    requires
        valid_registry(mappings),
    ensures
        valid_registry(saved(mappings, guild_id, role_id, role_name)),
{
    inserted_is_valid(mappings, RoleMappingModel::of(guild_id, role_id, role_name));
}

/// A lookup by name finds nothing exactly when no mapping of the guild has
/// the name, and what it finds is the entry of a mapping that has it.
pub proof fn find_by_name_finds_a_mapping(
    mappings: Seq<RoleMappingModel>,
    guild_id: Seq<char>,
    normalized: Seq<char>,
)
    ensures
        find_by_name(mappings, guild_id, normalized) is None <==> forall|i: int|
            0 <= i < mappings.len() ==> !(#[trigger] mappings[i]).is_named(guild_id, normalized),
        find_by_name(mappings, guild_id, normalized) matches Some(entry) ==> exists|i: int|
            0 <= i < mappings.len() && (#[trigger] mappings[i]).is_named(guild_id, normalized)
                && mappings[i].entry() == entry,
    decreases mappings.len(),
{
    if mappings.len() > 0 {
        let init = mappings.drop_last();
        find_by_name_finds_a_mapping(init, guild_id, normalized);
        if mappings.last().is_named(guild_id, normalized) {
            assert(mappings[mappings.len() - 1].is_named(guild_id, normalized));
        } else {
            assert forall|i: int| 0 <= i < init.len() implies init[i] == mappings[i] by {}
            if find_by_name(init, guild_id, normalized) is Some {
                let i = choose|i: int|
                    0 <= i < init.len() && (#[trigger] init[i]).is_named(guild_id, normalized)
                        && init[i].entry() == find_by_name(init, guild_id, normalized)->0;
                assert(mappings[i].is_named(guild_id, normalized));
            } else {
                assert forall|i: int| 0 <= i < mappings.len() implies !(
                #[trigger] mappings[i]).is_named(guild_id, normalized) by {
                    if i < init.len() {
                        assert(init[i] == mappings[i]);
                    }
                }
            }
        }
    }
}

/// A prefix search with the empty prefix finds nothing, whatever is
/// registered.
pub proof fn empty_prefix_finds_nothing(mappings: Seq<RoleMappingModel>, guild_id: Seq<char>)
    ensures
        query_spec(mappings, guild_id, Seq::empty()) == Seq::<(Seq<char>, Seq<char>)>::empty(),
{
}

/// A prefix search never answers with more than [`MAX_PREFIX_MATCHES`]
/// entries.
pub proof fn prefix_search_is_capped(
    mappings: Seq<RoleMappingModel>,
    guild_id: Seq<char>,
    prefix: Seq<char>,
)
    ensures
        query_spec(mappings, guild_id, prefix).len() <= MAX_PREFIX_MATCHES,
{
}

/// After a role was saved, a lookup by its name finds it with the name as it
/// was saved and with its id, whatever the case in which the name is typed.
pub proof fn saved_role_is_found_by_name(
    mappings: Seq<RoleMappingModel>,
    guild_id: Seq<char>,
    role_id: Seq<char>,
    role_name: Seq<char>,
    typed: Seq<char>,
)
    requires
        lowercased(typed) == lowercased(role_name),
    ensures
        find_by_name(
            saved(mappings, guild_id, role_id, role_name),
            guild_id,
            lowercased(typed),
        ) == Some((role_name, role_id)),
{
}

/// After a role was saved, a lookup by its id finds it under its new name.
pub proof fn saved_role_is_found_by_id(
    mappings: Seq<RoleMappingModel>,
    guild_id: Seq<char>,
    role_id: Seq<char>,
    role_name: Seq<char>,
)
    ensures
        find_by_id(saved(mappings, guild_id, role_id, role_name), guild_id, role_id) == Some(
            (role_name, role_id),
        ),
{
}

/// After a role was saved, no name but its new one leads to it: a lookup by
/// name that answers with this role answers with the new name, and was asked
/// for the normalized form of that name.
pub proof fn stale_name_does_not_resolve(
    mappings: Seq<RoleMappingModel>,
    guild_id: Seq<char>,
    role_id: Seq<char>,
    role_name: Seq<char>,
    normalized: Seq<char>,
)
    ensures
        find_by_name(saved(mappings, guild_id, role_id, role_name), guild_id, normalized)
            matches Some(entry) ==> (entry.1 == role_id ==> entry.0 == role_name && normalized
            == lowercased(role_name)),
{
    let rest = without(mappings, guild_id, role_id);
    let after = saved(mappings, guild_id, role_id, role_name);
    without_keeps_the_rest(mappings, guild_id, role_id);
    find_by_name_finds_a_mapping(after, guild_id, normalized);
    let found = find_by_name(after, guild_id, normalized);
    if found is Some && found.unwrap().1 == role_id {
        let i = choose|i: int|
            0 <= i < after.len() && (#[trigger] after[i]).is_named(guild_id, normalized)
                && after[i].entry() == found.unwrap();
        if i < rest.len() {
            assert(after[i] == rest[i]);
            assert(!rest[i].has_key(guild_id, role_id));
        }
    }
}

/// Renaming a role: after it was saved under one name and then under
/// another, the first name finds nothing, provided that no other role of the
/// guild goes by it, and the second name finds the role.
pub proof fn renamed_role_is_found_by_new_name_only(
    mappings: Seq<RoleMappingModel>,
    guild_id: Seq<char>,
    role_id: Seq<char>,
    first_name: Seq<char>,
    second_name: Seq<char>,
)
    requires
        lowercased(first_name) != lowercased(second_name),
        forall|i: int|
            0 <= i < mappings.len() && (#[trigger] mappings[i]).is_named(
                guild_id,
                lowercased(first_name),
            ) ==> mappings[i].role_id == role_id,
    ensures
        ({
            let renamed = saved(
                saved(mappings, guild_id, role_id, first_name),
                guild_id,
                role_id,
                second_name,
            );
            &&& find_by_name(renamed, guild_id, lowercased(first_name)) is None
            &&& find_by_name(renamed, guild_id, lowercased(second_name)) == Some(
                (second_name, role_id),
            )
        }),
{
    let once = saved(mappings, guild_id, role_id, first_name);
    let renamed = saved(once, guild_id, role_id, second_name);
    let rest = without(once, guild_id, role_id);
    without_keeps_the_rest(mappings, guild_id, role_id);
    without_keeps_the_rest(once, guild_id, role_id);
    find_by_name_finds_a_mapping(renamed, guild_id, lowercased(first_name));
    assert forall|i: int| 0 <= i < renamed.len() implies !(#[trigger] renamed[i]).is_named(
        guild_id,
        lowercased(first_name),
    ) by {
        if i < rest.len() {
            let m = rest[i];
            assert(renamed[i] == m);
            assert(once.contains(m) && !m.has_key(guild_id, role_id));
            let k = choose|k: int| 0 <= k < once.len() && once[k] == m;
            let kept = without(mappings, guild_id, role_id);
            if k < kept.len() {
                assert(kept[k] == m);
                assert(mappings.contains(m));
                let j = choose|j: int| 0 <= j < mappings.len() && mappings[j] == m;
                if m.is_named(guild_id, lowercased(first_name)) {
                    assert(mappings[j].role_id == role_id);
                }
            }
        }
    }
}

/// Saving is idempotent: to save a role twice under one name leaves the
/// registry as the first save left it.
pub proof fn save_is_idempotent(
    mappings: Seq<RoleMappingModel>,
    guild_id: Seq<char>,
    role_id: Seq<char>,
    role_name: Seq<char>,
)
    ensures
        saved(saved(mappings, guild_id, role_id, role_name), guild_id, role_id, role_name)
            == saved(mappings, guild_id, role_id, role_name),
{
    let rest = without(mappings, guild_id, role_id);
    let once = saved(mappings, guild_id, role_id, role_name);
    without_keeps_the_rest(mappings, guild_id, role_id);
    without_absent_key(rest, guild_id, role_id);
    assert(once.drop_last() =~= rest);
}

/// The outcome of an effect that a registry carries out: the answer to a
/// search or a lookup, or the report of a save. Effects that do not reach
/// the registry have none.
pub open spec fn effect_outcome(mappings: Seq<RoleMappingModel>, effect: EffectModel) -> Option<
    OutcomeModel,
> {
    match effect {
        EffectModel::QueryRolesByPrefix { guild_id, prefix } => Some(
            OutcomeModel::RolesByPrefix(query_spec(mappings, guild_id, prefix)),
        ),
        EffectModel::GetRoleByName { guild_id, role_name } => Some(
            OutcomeModel::RoleByName(find_by_name(mappings, guild_id, lowercased(role_name))),
        ),
        EffectModel::SaveRole { .. } => Some(OutcomeModel::RoleSaved),
        _ => None,
    }
}

/// The mappings after an effect was carried out: only a save changes them.
pub open spec fn after_effect(
    mappings: Seq<RoleMappingModel>,
    effect: EffectModel,
) -> Seq<RoleMappingModel> {
    match effect {
        EffectModel::SaveRole { guild_id, role_id, role_name } => saved(
            mappings,
            guild_id,
            role_id,
            role_name,
        ),
        _ => mappings,
    }
}

/// A role that was saved through the router is found by the router under its
/// name, in whatever case the name is typed, until it is saved again.
pub proof fn saved_role_can_be_toggled(
    mappings: Seq<RoleMappingModel>,
    guild_id: Seq<char>,
    role_id: Seq<char>,
    role_name: Seq<char>,
    typed: Seq<char>,
)
    requires
        lowercased(typed) == lowercased(role_name),
    ensures
        effect_outcome(
            after_effect(mappings, EffectModel::SaveRole { guild_id, role_id, role_name }),
            EffectModel::GetRoleByName { guild_id, role_name: typed },
        ) == Some(OutcomeModel::RoleByName(Some((role_name, role_id)))),
{
}

impl RoleMapping {
    /// The mapping of a role, with the normalized form of its name.
    pub fn new(guild_id: &str, role_id: &str, role_name: &str) -> (mapping: Self)
        ensures
            mapping@ == RoleMappingModel::of(guild_id@, role_id@, role_name@),
    {
        RoleMapping {
            guild_id: guild_id.to_owned(),
            role_id: role_id.to_owned(),
            role_name: role_name.to_owned(),
            normalized_name: to_lowercase(role_name),
        }
    }

    /// What a lookup answers for this mapping: display name, then role id.
    pub fn entry(&self) -> (entry: (String, String))
        ensures
            entry.deep_view() == self@.entry(),
    {
        (self.role_name.clone(), self.role_id.clone())
    }
}

/// The registry of all guilds, held in memory in the order of saving.
#[derive(Debug, Clone, PartialEq, Eq)]
pub struct RoleRegistry {
    mappings: Vec<RoleMapping>,
}

impl View for RoleRegistry {
    type V = Seq<RoleMappingModel>;

    closed spec fn view(&self) -> Seq<RoleMappingModel> {
        self.mappings.deep_view()
    }
}

impl RoleRegistry {
    /// What a new registry has and every method keeps: no two mappings are of
    /// the same role of the same guild.
    pub open spec fn well_formed(&self) -> bool {
        unique_keys(self@)
    }

    /// A registry in which nothing is registered.
    pub fn new() -> (registry: Self)
        ensures
            registry@ == Seq::<RoleMappingModel>::empty(),
            registry.well_formed(),
    {
        let registry = RoleRegistry { mappings: Vec::new() };
        assert(registry.mappings.deep_view() =~= Seq::empty());
        registry
    }

    /// The number of roles registered, over all guilds.
    pub fn len(&self) -> (count: usize)
        ensures
            count == self@.len(),
    {
        self.mappings.len()
    }

    /// Looks a role up by its id.
    pub fn get_by_id(&self, guild_id: &str, role_id: &str) -> (found: Option<(String, String)>)
        ensures
            found.deep_view() == find_by_id(self@, guild_id@, role_id@),
    {
        let mut i: usize = self.mappings.len();
        assert(self@.take(i as int) =~= self@);
        while i > 0
            invariant
                i <= self.mappings.len(),
                find_by_id(self@, guild_id@, role_id@) == find_by_id(
                    self@.take(i as int),
                    guild_id@,
                    role_id@,
                ),
            decreases i,
        {
            i -= 1;
            let mapping = &self.mappings[i];
            assert(self@.take(i + 1).last() == mapping@);
            assert(self@.take(i + 1).drop_last() =~= self@.take(i as int));
            if same_text(mapping.guild_id.as_str(), guild_id) && same_text(
                mapping.role_id.as_str(),
                role_id,
            ) {
                return Some(mapping.entry());
            }
        }
        None
    }

    /// Looks a role up by the normalized form of its name. Where several
    /// roles of the guild have it, the one saved last is found.
    pub fn find_named(&self, guild_id: &str, normalized_name: &str) -> (found: Option<
        (String, String),
    >)
        ensures
            found.deep_view() == find_by_name(self@, guild_id@, normalized_name@),
    {
        let mut i: usize = self.mappings.len();
        assert(self@.take(i as int) =~= self@);
        while i > 0
            invariant
                i <= self.mappings.len(),
                find_by_name(self@, guild_id@, normalized_name@) == find_by_name(
                    self@.take(i as int),
                    guild_id@,
                    normalized_name@,
                ),
            decreases i,
        {
            i -= 1;
            let mapping = &self.mappings[i];
            assert(self@.take(i + 1).last() == mapping@);
            assert(self@.take(i + 1).drop_last() =~= self@.take(i as int));
            if same_text(mapping.guild_id.as_str(), guild_id) && same_text(
                mapping.normalized_name.as_str(),
                normalized_name,
            ) {
                return Some(mapping.entry());
            }
        }
        None
    }

    /// Looks a role up by its name, in whatever case the name is typed. Where
    /// several roles of the guild go by the name, the one saved last is found.
    pub fn get_by_name(&self, guild_id: &str, role_name: &str) -> (found: Option<(String, String)>)
        ensures
            found.deep_view() == find_by_name(self@, guild_id@, lowercased(role_name@)),
    {
        let normalized = to_lowercase(role_name);
        self.find_named(guild_id, normalized.as_str())
    }

    /// Searches the roles of a guild by the beginning of the normalized form
    /// of their names. The empty prefix finds nothing; no search answers with
    /// more than [`MAX_PREFIX_MATCHES`] entries.
    pub fn find_beginning_with(&self, guild_id: &str, normalized_prefix: &str) -> (found: Vec<
        (String, String),
    >)
        ensures
            found.deep_view() == prefix_matches(self@, guild_id@, normalized_prefix@),
    {
        let mut found: Vec<(String, String)> = Vec::new();
        assert(found.deep_view() =~= Seq::empty());
        if normalized_prefix.is_empty() {
            return found;
        }
        let mut i: usize = 0;
        assert(self@.take(0) =~= Seq::<RoleMappingModel>::empty());
        while i < self.mappings.len() && found.len() < MAX_PREFIX_MATCHES
            invariant
                i <= self.mappings.len(),
                found.len() <= MAX_PREFIX_MATCHES,
                found.deep_view() == find_by_prefix(
                    self@.take(i as int),
                    guild_id@,
                    normalized_prefix@,
                ),
            decreases self.mappings.len() - i,
        {
            let mapping = &self.mappings[i];
            assert(self@.take(i + 1).last() == mapping@);
            assert(self@.take(i + 1).drop_last() =~= self@.take(i as int));
            if same_text(mapping.guild_id.as_str(), guild_id) && starts_with(
                mapping.normalized_name.as_str(),
                normalized_prefix,
            ) {
                let ghost before = found.deep_view();
                let entry = mapping.entry();
                found.push(entry);
                assert(found.deep_view() =~= before.push(mapping@.entry()));
            }
            i += 1;
        }
        proof {
            let all = find_by_prefix(self@, guild_id@, normalized_prefix@);
            prefix_matches_grow(self@, guild_id@, normalized_prefix@, i as int);
            if i == self.mappings.len() {
                assert(self@.take(i as int) =~= self@);
            } else {
                assert(found.deep_view() =~= all.take(MAX_PREFIX_MATCHES as int));
            }
        }
        found
    }

    /// Searches the roles of a guild by the beginning of their names, in
    /// whatever case it is typed. The empty prefix finds nothing; no search
    /// answers with more than [`MAX_PREFIX_MATCHES`] entries.
    pub fn query_by_prefix(&self, guild_id: &str, prefix: &str) -> (found: Vec<(String, String)>)
        ensures
            found.deep_view() == query_spec(self@, guild_id@, prefix@),
    {
        if prefix.is_empty() {
            let found: Vec<(String, String)> = Vec::new();
            assert(found.deep_view() =~= Seq::empty());
            return found;
        }
        let normalized = to_lowercase(prefix);
        self.find_beginning_with(guild_id, normalized.as_str())
    }

    /// Puts a mapping in, in place of whatever stands under the same guild
    /// and role id. The mapping is taken as it is, its normalized name
    /// included: lookups by name go by that field. [`RoleRegistry::save`]
    /// makes the normalized name from the name.
    pub fn insert(&mut self, mapping: RoleMapping)
        ensures
            final(self)@ == inserted(old(self)@, mapping@),
            old(self).well_formed() ==> final(self).well_formed(),
    {
        let ghost before = self@;
        let ghost guild_id = mapping@.guild_id;
        let ghost role_id = mapping@.role_id;
        let ghost done: int = 0;
        let mut i: usize = 0;
        assert(before.take(0) =~= Seq::<RoleMappingModel>::empty());
        assert(before.skip(0) =~= before);
        while i < self.mappings.len()
            invariant
                0 <= done <= before.len(),
                guild_id == mapping@.guild_id,
                role_id == mapping@.role_id,
                i == without(before.take(done), guild_id, role_id).len(),
                self@ == without(before.take(done), guild_id, role_id) + before.skip(done),
            decreases before.len() - done,
        {
            let ghost kept = without(before.take(done), guild_id, role_id);
            assert(self@[i as int] == before.skip(done)[0]);
            assert(before.take(done + 1).drop_last() =~= before.take(done));
            assert(before.take(done + 1).last() == before[done]);
            if same_text(self.mappings[i].guild_id.as_str(), mapping.guild_id.as_str())
                && same_text(self.mappings[i].role_id.as_str(), mapping.role_id.as_str()) {
                let ghost current = self@;
                self.mappings.remove(i);
                assert(self@ =~= current.remove(i as int));
                assert(self@ =~= kept + before.skip(done + 1));
            } else {
                assert(self@ =~= kept.push(before[done]) + before.skip(done + 1));
                i += 1;
            }
            proof {
                done = done + 1;
            }
        }
        proof {
            assert(before.take(done) =~= before);
            assert(self@ =~= without(before, guild_id, role_id));
            inserted_is_valid(before, mapping@);
        }
        let ghost rest = self.mappings.deep_view();
        self.mappings.push(mapping);
        assert(self.mappings.deep_view() =~= rest.push(mapping@));
    }

    /// Carries out an effect of the router on this registry, if it is one
    /// that reaches the registry; see [`effect_outcome`] and [`after_effect`].
    pub fn perform(&mut self, effect: &Effect) -> (outcome: Option<Outcome>)
        ensures
            outcome.deep_view() == effect_outcome(old(self)@, effect.deep_view()),
            final(self)@ == after_effect(old(self)@, effect.deep_view()),
            old(self).well_formed() ==> final(self).well_formed(),
    {
        match effect {
            Effect::QueryRolesByPrefix { guild_id, prefix } => Some(
                Outcome::RolesByPrefix(self.query_by_prefix(guild_id.as_str(), prefix.as_str())),
            ),
            Effect::GetRoleByName { guild_id, role_name } => Some(
                Outcome::RoleByName(self.get_by_name(guild_id.as_str(), role_name.as_str())),
            ),
            Effect::SaveRole { guild_id, role_id, role_name } => {
                self.save(guild_id.as_str(), role_id.as_str(), role_name.as_str());
                Some(Outcome::RoleSaved)
            },
            _ => None,
        }
    }

    /// Registers a role, or gives a registered role a new name. What was
    /// registered under the role's id is replaced, so that its old name leads
    /// to it no longer.
    pub fn save(&mut self, guild_id: &str, role_id: &str, role_name: &str)
        ensures
            final(self)@ == saved(old(self)@, guild_id@, role_id@, role_name@),
            old(self).well_formed() ==> final(self).well_formed(),
            all_normalized(old(self)@) ==> all_normalized(final(self)@),
    {
        proof {
            inserted_is_valid(self@, RoleMappingModel::of(guild_id@, role_id@, role_name@));
        }
        self.insert(RoleMapping::new(guild_id, role_id, role_name));
    }
}

} // verus!
