//! Decoding of interactions from their JSON text.
//!
//! The three fields `id`, `application_id` and `type` are required. Every
//! other field may be absent; a field that is present must have the form it
//! is meant to have. Fields that this crate does not know are passed over.
//! A `type` number that this crate does not know decodes to
//! `InteractionType::Unknown`.

use crate::json::{
    distinct_names, field_models_of, fields, json_of, member, models_of, parse, parsed_json, Json,
};
use crate::model::interaction_request::{
    ApplicationCommandData, CommandModel, CommandOption, InteractionRequest,
    InteractionType, Member, MemberModel, OptionModel, OptionValue, OptionValueModel,
    RequestModel, ResolvedData, ResolvedModel, ResolvedRole, ResolvedRoleModel, User, UserModel,
};
use vstd::prelude::*;

verus! {

/// How many levels of options are decoded: the subcommand and its options.
/// Options below that are passed over.
pub const OPTION_LEVELS: u8 = 2;

/// Why a body is not an interaction.
#[derive(Debug, Clone, Copy, PartialEq, Eq, Structural)]
pub enum DecodeError {
    /// The body is not a JSON text.
    Syntax,
    /// A required field is absent, or a field does not have the form it is
    /// meant to have.
    Shape,
}

/// A field that must be present and hold text.
pub open spec fn required_text(object: Json, key: Seq<char>) -> Option<Seq<char>> {
    match object.member(key) {
        Some(value) => value.text(),
        None => None,
    }
}

/// A field that may be absent or `null`, and otherwise must hold text. The
/// outer `None` stands for a field of another form.
pub open spec fn optional_text(object: Json, key: Seq<char>) -> Option<Option<Seq<char>>> {
    match object.member(key) {
        None => Some(None),
        Some(Json::Null) => Some(None),
        Some(Json::Text(text)) => Some(Some(text)),
        Some(_) => None,
    }
}

/// The kind of interaction: the field `type` must hold an integer from 0 to
/// 255, of which every value stands for a kind.
pub open spec fn decoded_kind(object: Json) -> Option<InteractionType> {
    match object.member("type"@) {
        Some(Json::Natural(n)) => if n <= 255 {
            Some(InteractionType::from_wire_spec(n as u8))
        } else {
            None
        },
        _ => None,
    }
}

/// The scalar of an option: text is kept, anything else is `Other`.
pub open spec fn decoded_value(value: Json) -> OptionValueModel {
    match value {
        Json::Text(text) => OptionValueModel::Text(text),
        _ => OptionValueModel::Other,
    }
}

/// A list of texts: every element must be text.
pub open spec fn decoded_texts(items: Seq<Json>) -> Option<Seq<Seq<char>>>
    decreases items.len(),
{
    if items.len() == 0 {
        Some(Seq::empty())
    } else {
        match (decoded_texts(items.drop_last()), items.last().text()) {
            (Some(texts), Some(text)) => Some(texts.push(text)),
            _ => None,
        }
    }
}

/// One option, with the options below it as far as `levels` reaches: its
/// `name` is required, its `value` is kept unless absent or `null`, and its
/// `options`, where present, must be an array of options.
pub open spec fn decoded_option(value: Json, levels: nat) -> Option<OptionModel>
    decreases levels, 0nat,
{
    match required_text(value, "name"@) {
        Some(name) => {
            let scalar = match value.member("value"@) {
                None => None,
                Some(Json::Null) => None,
                Some(v) => Some(decoded_value(v)),
            };
            if levels <= 1 {
                Some(OptionModel { name, value: scalar, options: Seq::empty() })
            } else {
                match decoded_option_list(value, (levels - 1) as nat) {
                    Some(options) => Some(OptionModel { name, value: scalar, options }),
                    None => None,
                }
            }
        },
        None => None,
    }
}

/// The field `options` of an object: no options where it is absent, and
/// otherwise an array of options.
pub open spec fn decoded_option_list(object: Json, levels: nat) -> Option<Seq<OptionModel>>
    decreases levels, 2nat,
{
    if levels == 0 {
        Some(Seq::empty())
    } else {
        match object.member("options"@) {
            None => Some(Seq::empty()),
            Some(Json::Array(items)) => decoded_options(items, levels),
            Some(_) => None,
        }
    }
}

/// A list of options: every element must be an option.
pub open spec fn decoded_options(items: Seq<Json>, levels: nat) -> Option<Seq<OptionModel>>
    decreases levels, 1nat, items.len(),
{
    if items.len() == 0 {
        Some(Seq::empty())
    } else {
        match (decoded_options(items.drop_last(), levels), decoded_option(items.last(), levels)) {
            (Some(options), Some(option)) => Some(options.push(option)),
            _ => None,
        }
    }
}

/// A resolved role: `id` and `name` are required.
pub open spec fn decoded_role(value: Json) -> Option<ResolvedRoleModel> {
    match (required_text(value, "id"@), required_text(value, "name"@)) {
        (Some(id), Some(name)) => Some(ResolvedRoleModel { id, name }),
        _ => None,
    }
}

/// The resolved roles, each under the key it is filed under: every value
/// must be a resolved role.
pub open spec fn decoded_roles(fields: Seq<(Seq<char>, Json)>) -> Option<
    Seq<(Seq<char>, ResolvedRoleModel)>,
>
    decreases fields.len(),
{
    if fields.len() == 0 {
        Some(Seq::empty())
    } else {
        match (decoded_roles(fields.drop_last()), decoded_role(fields.last().1)) {
            (Some(roles), Some(role)) => Some(roles.push((fields.last().0, role))),
            _ => None,
        }
    }
}

/// The resolved entities: `roles`, where present, must be an object.
pub open spec fn decoded_resolved(value: Json) -> Option<ResolvedModel> {
    match value {
        Json::Object(_) => match value.member("roles"@) {
            None => Some(ResolvedModel { roles: Seq::empty() }),
            Some(Json::Object(fields)) => match decoded_roles(fields) {
                Some(roles) => Some(ResolvedModel { roles }),
                None => None,
            },
            Some(_) => None,
        },
        _ => None,
    }
}

/// The payload of a command: `id` and `name` are required; `resolved` may be
/// absent or `null`.
pub open spec fn decoded_command(value: Json) -> Option<CommandModel> {
    match (
        required_text(value, "id"@),
        required_text(value, "name"@),
        decoded_option_list(value, OPTION_LEVELS as nat),
    ) {
        (Some(id), Some(name), Some(options)) => match value.member("resolved"@) {
            None => Some(CommandModel { id, name, options, resolved: None }),
            Some(Json::Null) => Some(CommandModel { id, name, options, resolved: None }),
            Some(entities) => match decoded_resolved(entities) {
                Some(resolved) => Some(CommandModel { id, name, options, resolved: Some(resolved) }),
                None => None,
            },
        },
        _ => None,
    }
}

/// The invoking member: `user` with its `id` is required; `roles`, where
/// present, must be an array of texts.
pub open spec fn decoded_member(value: Json) -> Option<MemberModel> {
    match value.member("user"@) {
        Some(user) => match required_text(user, "id"@) {
            Some(id) => match value.member("roles"@) {
                None => Some(MemberModel { user: UserModel { id }, roles: Seq::empty() }),
                Some(Json::Array(items)) => match decoded_texts(items) {
                    Some(roles) => Some(MemberModel { user: UserModel { id }, roles }),
                    None => None,
                },
                Some(_) => None,
            },
            None => None,
        },
        None => None,
    }
}

/// The interaction that a JSON document stands for, if it stands for one.
pub open spec fn decoded_request(document: Json) -> Option<RequestModel> {
    match (
        required_text(document, "id"@),
        required_text(document, "application_id"@),
        decoded_kind(document),
        optional_text(document, "guild_id"@),
    ) {
        (Some(id), Some(application_id), Some(interaction_type), Some(guild_id)) => {
            let data = match document.member("data"@) {
                None => Some(None),
                Some(Json::Null) => Some(None),
                Some(payload) => match decoded_command(payload) {
                    Some(command) => Some(Some(command)),
                    None => None,
                },
            };
            let member = match document.member("member"@) {
                None => Some(None),
                Some(Json::Null) => Some(None),
                Some(invoker) => match decoded_member(invoker) {
                    Some(member) => Some(Some(member)),
                    None => None,
                },
            };
            match (data, member) {
                (Some(data), Some(member)) => Some(
                    RequestModel { id, application_id, interaction_type, data, guild_id, member },
                ),
                _ => None,
            }
        },
        _ => None,
    }
}

/// What decoding a body gives: the interaction it stands for, or why it
/// stands for none.
pub open spec fn decode_spec(body: Seq<char>) -> Result<RequestModel, DecodeError> {
    match parsed_json(body) {
        None => Err(DecodeError::Syntax),
        Some(document) => match decoded_request(document) {
            Some(request) => Ok(request),
            None => Err(DecodeError::Shape),
        },
    }
}

/// The model of the outcome of decoding.
pub open spec fn decode_model(outcome: Result<InteractionRequest, DecodeError>) -> Result<
    RequestModel,
    DecodeError,
> {
    match outcome {
        Ok(request) => Ok(request@),
        Err(e) => Err(e),
    }
}

/// An interaction whose `type` is a number from 0 to 255 that stands for no
/// known kind still has a kind: `Unknown`.
pub proof fn unknown_kind_still_decodes(document: Json, n: u64)
    requires
        document.member("type"@) == Some(Json::Natural(n)),
        n <= 255,
        n != 1 && n != 2 && n != 4,
    ensures
        decoded_kind(document) == Some(InteractionType::Unknown),
{
}

/// Reads a field that must hold text; see [`required_text`].
pub(crate) fn text_field(object: &serde_json::Value, key: &str) -> (text: Option<String>)
    ensures
        text.deep_view() == required_text(json_of(*object), key@),
{
    match member(object, key) {
        Some(value) => match value.as_str() {
            Some(text) => Some(text.to_owned()),
            None => None,
        },
        None => None,
    }
}

fn optional_text_field(object: &serde_json::Value, key: &str) -> (text: Option<Option<String>>)
    ensures
        text.deep_view() == optional_text(json_of(*object), key@),
{
    match member(object, key) {
        None => Some(None),
        Some(value) => {
            if value.is_null() {
                Some(None)
            } else {
                match value.as_str() {
                    Some(text) => Some(Some(text.to_owned())),
                    None => None,
                }
            }
        },
    }
}

fn decode_kind(object: &serde_json::Value) -> (kind: Option<InteractionType>)
    ensures
        kind == decoded_kind(json_of(*object)),
{
    match member(object, "type") {
        Some(value) => match value.as_u64() {
            Some(n) => if n <= 255 {
                Some(InteractionType::from_wire(n as u8))
            } else {
                None
            },
            None => None,
        },
        None => None,
    }
}

fn decode_value(value: &serde_json::Value) -> (scalar: OptionValue)
    ensures
        scalar.deep_view() == decoded_value(json_of(*value)),
{
    match value.as_str() {
        Some(text) => OptionValue::Text(text.to_owned()),
        None => OptionValue::Other,
    }
}

/// Reads a list of texts; see [`decoded_texts`].
pub(crate) fn decode_texts(items: &Vec<serde_json::Value>) -> (texts: Option<Vec<String>>)
    ensures
        texts.deep_view() == decoded_texts(models_of(items@)),
{
    let ghost models = models_of(items@);
    let mut texts: Vec<String> = Vec::new();
    let mut i: usize = 0;
    assert(models.take(0) =~= Seq::<Json>::empty());
    assert(texts.deep_view() =~= Seq::empty());
    while i < items.len()
        invariant
            i <= items.len(),
            models == models_of(items@),
            decoded_texts(models.take(i as int)) == Some(texts.deep_view()),
        decreases items.len() - i,
    {
        assert(models.take(i + 1).drop_last() =~= models.take(i as int));
        assert(models.take(i + 1).last() == json_of(items@[i as int]));
        match items[i].as_str() {
            Some(text) => {
                let ghost before = texts.deep_view();
                texts.push(text.to_owned());
                assert(texts.deep_view() =~= before.push(text@));
            },
            None => {
                proof {
                    texts_fail_for_good(models, i + 1);
                }
                return None;
            },
        }
        i += 1;
    }
    assert(models.take(i as int) =~= models);
    Some(texts)
}

/// Once an element is no text, the whole list is no list of texts.
proof fn texts_fail_for_good(items: Seq<Json>, count: int)
    requires
        0 <= count <= items.len(),
        decoded_texts(items.take(count)) is None,
    ensures
        decoded_texts(items) is None,
    decreases items.len() - count,
{
    if count < items.len() {
        assert(items.take(count + 1).drop_last() =~= items.take(count));
        texts_fail_for_good(items, count + 1);
    } else {
        assert(items.take(count) =~= items);
    }
}

/// Once an element is no option, the whole list is no list of options.
proof fn options_fail_for_good(items: Seq<Json>, levels: nat, count: int)
    requires
        0 <= count <= items.len(),
        decoded_options(items.take(count), levels) is None,
    ensures
        decoded_options(items, levels) is None,
    decreases items.len() - count,
{
    if count < items.len() {
        assert(items.take(count + 1).drop_last() =~= items.take(count));
        options_fail_for_good(items, levels, count + 1);
    } else {
        assert(items.take(count) =~= items);
    }
}

/// Once a value is no resolved role, the whole map is no map of roles.
proof fn roles_fail_for_good(entries: Seq<(Seq<char>, Json)>, count: int)
    requires
        0 <= count <= entries.len(),
        decoded_roles(entries.take(count)) is None,
    ensures
        decoded_roles(entries) is None,
    decreases entries.len() - count,
{
    if count < entries.len() {
        assert(entries.take(count + 1).drop_last() =~= entries.take(count));
        roles_fail_for_good(entries, count + 1);
    } else {
        assert(entries.take(count) =~= entries);
    }
}

fn decode_option(value: &serde_json::Value, levels: u8) -> (option: Option<CommandOption>)
    ensures
        option.deep_view() == decoded_option(json_of(*value), levels as nat),
    decreases levels, 0nat,
{
    let name = match text_field(value, "name") {
        Some(name) => name,
        None => {
            return None;
        },
    };
    let scalar = match member(value, "value") {
        None => None,
        Some(v) => if v.is_null() {
            None
        } else {
            Some(decode_value(v))
        },
    };
    if levels <= 1 {
        let options: Vec<CommandOption> = Vec::new();
        assert(options.deep_view() =~= Seq::empty());
        let option = CommandOption { name, value: scalar, options };
        assert(option.deep_view().options =~= Seq::<OptionModel>::empty());
        Some(option)
    } else {
        match decode_option_list(value, levels - 1) {
            Some(options) => {
                let option = CommandOption { name, value: scalar, options };
                assert(option.deep_view().options =~= option.options.deep_view());
                Some(option)
            },
            None => None,
        }
    }
}

fn decode_option_list(object: &serde_json::Value, levels: u8) -> (options: Option<
    Vec<CommandOption>,
>)
    ensures
        options.deep_view() == decoded_option_list(json_of(*object), levels as nat),
    decreases levels, 2nat,
{
    if levels == 0 {
        let options: Vec<CommandOption> = Vec::new();
        assert(options.deep_view() =~= Seq::empty());
        return Some(options);
    }
    match member(object, "options") {
        None => {
            let options: Vec<CommandOption> = Vec::new();
            assert(options.deep_view() =~= Seq::empty());
            Some(options)
        },
        Some(list) => match list.as_array() {
            Some(items) => decode_options(items, levels),
            None => None,
        },
    }
}

fn decode_options(items: &Vec<serde_json::Value>, levels: u8) -> (options: Option<
    Vec<CommandOption>,
>)
    ensures
        options.deep_view() == decoded_options(models_of(items@), levels as nat),
    decreases levels, 1nat,
{
    let ghost models = models_of(items@);
    let mut options: Vec<CommandOption> = Vec::new();
    let mut i: usize = 0;
    assert(models.take(0) =~= Seq::<Json>::empty());
    assert(options.deep_view() =~= Seq::empty());
    while i < items.len()
        invariant
            i <= items.len(),
            models == models_of(items@),
            decoded_options(models.take(i as int), levels as nat) == Some(options.deep_view()),
        decreases items.len() - i,
    {
        assert(models.take(i + 1).drop_last() =~= models.take(i as int));
        assert(models.take(i + 1).last() == json_of(items@[i as int]));
        match decode_option(&items[i], levels) {
            Some(option) => {
                let ghost before = options.deep_view();
                let ghost added = option.deep_view();
                options.push(option);
                assert(options.deep_view() =~= before.push(added));
            },
            None => {
                proof {
                    options_fail_for_good(models, levels as nat, i + 1);
                }
                return None;
            },
        }
        i += 1;
    }
    assert(models.take(i as int) =~= models);
    Some(options)
}

fn decode_role(value: &serde_json::Value) -> (role: Option<ResolvedRole>)
    ensures
        role.deep_view() == decoded_role(json_of(*value)),
{
    match text_field(value, "id") {
        Some(id) => match text_field(value, "name") {
            Some(name) => Some(ResolvedRole { id, name }),
            None => None,
        },
        None => None,
    }
}

/// Resolved roles are filed under the names of the fields they were read
/// from, in the same order.
proof fn decoded_roles_keep_their_keys(fields: Seq<(Seq<char>, Json)>)
    ensures
        match decoded_roles(fields) {
            Some(roles) => roles.len() == fields.len() && forall|i: int|
                0 <= i < roles.len() ==> (#[trigger] roles[i]).0 == fields[i].0,
            None => true,
        },
    decreases fields.len(),
{
    if fields.len() > 0 {
        decoded_roles_keep_their_keys(fields.drop_last());
    }
}

fn decode_roles(entries: &Vec<(&String, &serde_json::Value)>) -> (roles: Option<
    Vec<(String, ResolvedRole)>,
>)
    ensures
        roles.deep_view() == decoded_roles(field_models_of(entries@)),
{
    let ghost models = field_models_of(entries@);
    let mut roles: Vec<(String, ResolvedRole)> = Vec::new();
    let mut i: usize = 0;
    assert(models.take(0) =~= Seq::<(Seq<char>, Json)>::empty());
    assert(roles.deep_view() =~= Seq::empty());
    while i < entries.len()
        invariant
            i <= entries.len(),
            models == field_models_of(entries@),
            decoded_roles(models.take(i as int)) == Some(roles.deep_view()),
        decreases entries.len() - i,
    {
        assert(models.take(i + 1).drop_last() =~= models.take(i as int));
        assert(models.take(i + 1).last() == (entries@[i as int].0@, json_of(*entries@[i as int].1)));
        match decode_role(entries[i].1) {
            Some(role) => {
                let ghost before = roles.deep_view();
                let ghost added = (entries@[i as int].0@, role.deep_view());
                roles.push((entries[i].0.clone(), role));
                assert(roles.deep_view() =~= before.push(added));
            },
            None => {
                proof {
                    roles_fail_for_good(models, i + 1);
                }
                return None;
            },
        }
        i += 1;
    }
    assert(models.take(i as int) =~= models);
    Some(roles)
}

fn decode_resolved(value: &serde_json::Value) -> (resolved: Option<ResolvedData>)
    ensures
        resolved.deep_view() == decoded_resolved(json_of(*value)),
        match resolved {
            Some(entities) => entities.deep_view().is_map(),
            None => true,
        },
{
    if fields(value).is_none() {
        return None;
    }
    match member(value, "roles") {
        None => {
            let roles: Vec<(String, ResolvedRole)> = Vec::new();
            assert(roles.deep_view() =~= Seq::empty());
            Some(ResolvedData { roles })
        },
        Some(map) => match fields(map) {
            Some(entries) => match decode_roles(&entries) {
                Some(roles) => {
                    proof {
                        decoded_roles_keep_their_keys(field_models_of(entries@));
                    }
                    Some(ResolvedData { roles })
                },
                None => None,
            },
            None => None,
        },
    }
}

fn decode_command(value: &serde_json::Value) -> (command: Option<ApplicationCommandData>)
    ensures
        command.deep_view() == decoded_command(json_of(*value)),
        match command {
            Some(payload) => payload.deep_view().resolved_is_map(),
            None => true,
        },
{
    let id = match text_field(value, "id") {
        Some(id) => id,
        None => {
            return None;
        },
    };
    let name = match text_field(value, "name") {
        Some(name) => name,
        None => {
            return None;
        },
    };
    let options = match decode_option_list(value, OPTION_LEVELS) {
        Some(options) => options,
        None => {
            return None;
        },
    };
    match member(value, "resolved") {
        None => Some(ApplicationCommandData { id, name, options, resolved: None }),
        Some(entities) => {
            if entities.is_null() {
                Some(ApplicationCommandData { id, name, options, resolved: None })
            } else {
                match decode_resolved(entities) {
                    Some(resolved) => Some(
                        ApplicationCommandData { id, name, options, resolved: Some(resolved) },
                    ),
                    None => None,
                }
            }
        },
    }
}

fn decode_member(value: &serde_json::Value) -> (invoker: Option<Member>)
    ensures
        invoker.deep_view() == decoded_member(json_of(*value)),
{
    let user = match member(value, "user") {
        Some(user) => user,
        None => {
            return None;
        },
    };
    let id = match text_field(user, "id") {
        Some(id) => id,
        None => {
            return None;
        },
    };
    match member(value, "roles") {
        None => {
            let roles: Vec<String> = Vec::new();
            assert(roles.deep_view() =~= Seq::empty());
            Some(Member { user: User { id }, roles })
        },
        Some(list) => match list.as_array() {
            Some(items) => match decode_texts(items) {
                Some(roles) => Some(Member { user: User { id }, roles }),
                None => None,
            },
            None => None,
        },
    }
}

/// Reads an interaction from a parsed JSON document. The resolved entities
/// of what is read are a map.
pub fn decode_document(document: &serde_json::Value) -> (request: Option<InteractionRequest>)
    ensures
        request.deep_view() == decoded_request(json_of(*document)),
        match request {
            Some(interaction) => interaction@.resolved_is_map(),
            None => true,
        },
{
    let id = match text_field(document, "id") {
        Some(id) => id,
        None => {
            return None;
        },
    };
    let application_id = match text_field(document, "application_id") {
        Some(application_id) => application_id,
        None => {
            return None;
        },
    };
    let interaction_type = match decode_kind(document) {
        Some(kind) => kind,
        None => {
            return None;
        },
    };
    let guild_id = match optional_text_field(document, "guild_id") {
        Some(guild_id) => guild_id,
        None => {
            return None;
        },
    };
    let data = match member(document, "data") {
        None => None,
        Some(payload) => {
            if payload.is_null() {
                None
            } else {
                match decode_command(payload) {
                    Some(command) => Some(command),
                    None => {
                        return None;
                    },
                }
            }
        },
    };
    let invoker = match member(document, "member") {
        None => None,
        Some(invoker) => {
            if invoker.is_null() {
                None
            } else {
                match decode_member(invoker) {
                    Some(invoker) => Some(invoker),
                    None => {
                        return None;
                    },
                }
            }
        },
    };
    Some(
        InteractionRequest {
            id,
            application_id,
            interaction_type,
            data,
            guild_id,
            member: invoker,
        },
    )
}

/// Decodes the body of a request into an interaction; see [`decode_spec`].
/// The resolved entities of a decoded interaction are a map.
pub fn decode(body: &str) -> (outcome: Result<InteractionRequest, DecodeError>)
    ensures
        decode_model(outcome) == decode_spec(body@),
        match outcome {
            Ok(interaction) => interaction@.resolved_is_map(),
            Err(_) => true,
        },
{
    match parse(body) {
        Some(document) => match decode_document(&document) {
            Some(request) => Ok(request),
            None => Err(DecodeError::Shape),
        },
        None => Err(DecodeError::Syntax),
    }
}

} // verus!
