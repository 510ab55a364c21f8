//! An inbound interaction, as the router reads it.

use vstd::prelude::*;

verus! {

/// Kind of interaction. Wire numbers that this crate does not know decode to
/// `Unknown`, so that new kinds do not break decoding.
#[derive(Debug, Clone, Copy, PartialEq, Eq, Structural)]
pub enum InteractionType {
    Ping,
    ApplicationCommand,
    ApplicationCommandAutocomplete,
    Unknown,
}

impl InteractionType {
    /// The kind that a wire number stands for.
    pub open spec fn from_wire_spec(n: u8) -> InteractionType {
        if n == 1 {
            InteractionType::Ping
        } else if n == 2 {
            InteractionType::ApplicationCommand
        } else if n == 4 {
            InteractionType::ApplicationCommandAutocomplete
        } else {
            InteractionType::Unknown
        }
    }

    /// Reads the kind from its wire number; never fails.
    pub fn from_wire(n: u8) -> (kind: InteractionType)
        ensures
            kind == Self::from_wire_spec(n),
    {
        if n == 1 {
            InteractionType::Ping
        } else if n == 2 {
            InteractionType::ApplicationCommand
        } else if n == 4 {
            InteractionType::ApplicationCommandAutocomplete
        } else {
            InteractionType::Unknown
        }
    }
}

/// Scalar carried by an option. Only text is read by the commands of this
/// crate; every other scalar is kept as `Other`.
#[derive(Debug, Clone, PartialEq, Eq)]
pub enum OptionValue {
    Text(String),
    Other,
}

/// Mathematical model of an [`OptionValue`].
pub ghost enum OptionValueModel {
    Text(Seq<char>),
    Other,
}

impl DeepView for OptionValue {
    type V = OptionValueModel;

    open spec fn deep_view(&self) -> OptionValueModel {
        match self {
            OptionValue::Text(s) => OptionValueModel::Text(s@),
            OptionValue::Other => OptionValueModel::Other,
        }
    }
}

/// One node of the option tree of a command: a subcommand with nested
/// options, or a leaf with a value.
#[derive(Debug, PartialEq, Eq)]
pub struct CommandOption {
    pub name: String,
    pub value: Option<OptionValue>,
    pub options: Vec<CommandOption>,
}

/// Mathematical model of a [`CommandOption`].
pub ghost struct OptionModel {
    pub name: Seq<char>,
    pub value: Option<OptionValueModel>,
    pub options: Seq<OptionModel>,
}

/// The model of an option and, recursively, of the options below it.
pub open spec fn option_model(option: CommandOption) -> OptionModel
    decreases option,
{
    OptionModel {
        name: option.name@,
        value: option.value.deep_view(),
        options: Seq::new(
            option.options@.len(),
            |i: int|
                if 0 <= i < option.options@.len() {
                    option_model(option.options@[i])
                } else {
                    arbitrary()
                },
        ),
    }
}

impl DeepView for CommandOption {
    type V = OptionModel;

    open spec fn deep_view(&self) -> OptionModel {
        option_model(*self)
    }
}

/// A role that the platform resolved for the command.
#[derive(Debug, Clone, PartialEq, Eq)]
pub struct ResolvedRole {
    pub id: String,
    pub name: String,
}

/// Mathematical model of a [`ResolvedRole`].
pub ghost struct ResolvedRoleModel {
    pub id: Seq<char>,
    pub name: Seq<char>,
}

impl DeepView for ResolvedRole {
    type V = ResolvedRoleModel;

    open spec fn deep_view(&self) -> ResolvedRoleModel {
        ResolvedRoleModel { id: self.id@, name: self.name@ }
    }
}

/// Entities that the options of a command refer to, each under the id by
/// which an option names it. The entries stand for a map: in data that was
/// decoded no id occurs twice (see [`ResolvedModel::is_map`]), and a lookup
/// takes the first entry under an id.
#[derive(Debug, Clone, PartialEq, Eq)]
pub struct ResolvedData {
    pub roles: Vec<(String, ResolvedRole)>,
}

/// Mathematical model of a [`ResolvedData`].
pub ghost struct ResolvedModel {
    pub roles: Seq<(Seq<char>, ResolvedRoleModel)>,
}

impl ResolvedModel {
    /// Whether no two entries are filed under the same id.
    pub open spec fn is_map(self) -> bool {
        forall|i: int, j: int| 0 <= i < j < self.roles.len() ==> self.roles[i].0 != self.roles[j].0
    }
}

impl DeepView for ResolvedData {
    type V = ResolvedModel;

    open spec fn deep_view(&self) -> ResolvedModel {
        ResolvedModel { roles: self.roles.deep_view() }
    }
}

/// The payload of a command invocation or of an autocomplete query.
#[derive(Debug, PartialEq, Eq)]
pub struct ApplicationCommandData {
    pub id: String,
    pub name: String,
    pub options: Vec<CommandOption>,
    pub resolved: Option<ResolvedData>,
}

/// Mathematical model of an [`ApplicationCommandData`].
pub ghost struct CommandModel {
    pub id: Seq<char>,
    pub name: Seq<char>,
    pub options: Seq<OptionModel>,
    pub resolved: Option<ResolvedModel>,
}

impl DeepView for ApplicationCommandData {
    type V = CommandModel;

    open spec fn deep_view(&self) -> CommandModel {
        CommandModel {
            id: self.id@,
            name: self.name@,
            options: self.options.deep_view(),
            resolved: self.resolved.deep_view(),
        }
    }
}

/// The account behind a guild member.
#[derive(Debug, Clone, PartialEq, Eq)]
pub struct User {
    pub id: String,
}

/// Mathematical model of a [`User`].
pub ghost struct UserModel {
    pub id: Seq<char>,
}

impl DeepView for User {
    type V = UserModel;

    open spec fn deep_view(&self) -> UserModel {
        UserModel { id: self.id@ }
    }
}

/// The guild member who invoked the interaction, with the ids of the roles
/// held when the interaction was sent.
#[derive(Debug, Clone, PartialEq, Eq)]
pub struct Member {
    pub user: User,
    pub roles: Vec<String>,
}

/// Mathematical model of a [`Member`].
pub ghost struct MemberModel {
    pub user: UserModel,
    pub roles: Seq<Seq<char>>,
}

impl DeepView for Member {
    type V = MemberModel;

    open spec fn deep_view(&self) -> MemberModel {
        MemberModel { user: self.user.deep_view(), roles: self.roles.deep_view() }
    }
}

/// One inbound webhook event.
#[derive(Debug, PartialEq, Eq)]
pub struct InteractionRequest {
    pub id: String,
    pub application_id: String,
    pub interaction_type: InteractionType,
    pub data: Option<ApplicationCommandData>,
    pub guild_id: Option<String>,
    pub member: Option<Member>,
}

/// Mathematical model of an [`InteractionRequest`].
pub ghost struct RequestModel {
    pub id: Seq<char>,
    pub application_id: Seq<char>,
    pub interaction_type: InteractionType,
    pub data: Option<CommandModel>,
    pub guild_id: Option<Seq<char>>,
    pub member: Option<MemberModel>,
}

impl DeepView for InteractionRequest {
    type V = RequestModel;

    open spec fn deep_view(&self) -> RequestModel {
        RequestModel {
            id: self.id@,
            application_id: self.application_id@,
            interaction_type: self.interaction_type,
            data: self.data.deep_view(),
            guild_id: self.guild_id.deep_view(),
            member: self.member.deep_view(),
        }
    }
}

impl CommandModel {
    /// Whether the resolved entities, if there are any, are a map.
    pub open spec fn resolved_is_map(self) -> bool {
        match self.resolved {
            Some(resolved) => resolved.is_map(),
            None => true,
        }
    }
}

impl RequestModel {
    /// Whether the resolved entities of the payload, if there are any, are a
    /// map.
    pub open spec fn resolved_is_map(self) -> bool {
        match self.data {
            Some(command) => command.resolved_is_map(),
            None => true,
        }
    }
}

impl View for InteractionRequest {
    type V = RequestModel;

    open spec fn view(&self) -> RequestModel {
        self.deep_view()
    }
}

/// The text carried by the first of `options`, or the empty text when there
/// is no first option or it carries no text.
pub open spec fn first_text(options: Seq<OptionModel>) -> Seq<char> {
    if options.len() > 0 {
        match options[0].value {
            Some(OptionValueModel::Text(text)) => text,
            _ => Seq::empty(),
        }
    } else {
        Seq::empty()
    }
}

/// The display name resolved for `role_id`: that of the first entry filed
/// under this id.
pub open spec fn resolved_name(
    roles: Seq<(Seq<char>, ResolvedRoleModel)>,
    role_id: Seq<char>,
) -> Option<Seq<char>>
    decreases roles.len(),
{
    if roles.len() == 0 {
        None
    } else if roles[0].0 == role_id {
        Some(roles[0].1.name)
    } else {
        resolved_name(roles.drop_first(), role_id)
    }
}

/// Reads the text carried by the first of `options`; see [`first_text`].
pub fn first_option_text(options: &Vec<CommandOption>) -> (text: String)
    ensures
        text@ == first_text(options.deep_view()),
{
    if options.len() > 0 {
        assert(options.deep_view()[0] == options@[0].deep_view());
        match &options[0].value {
            Some(OptionValue::Text(text)) => text.clone(),
            _ => String::new(),
        }
    } else {
        String::new()
    }
}

impl ResolvedData {
    /// Looks up the display name resolved for `role_id`; see
    /// [`resolved_name`].
    pub fn role_name(&self, role_id: &str) -> (name: Option<String>)
        ensures
            name.deep_view() == resolved_name(self.deep_view().roles, role_id@),
    {
        let mut i: usize = 0;
        assert(self.deep_view().roles.skip(0) =~= self.deep_view().roles);
        while i < self.roles.len()
            invariant
                i <= self.roles.len(),
                resolved_name(self.deep_view().roles, role_id@) == resolved_name(
                    self.deep_view().roles.skip(i as int),
                    role_id@,
                ),
            decreases self.roles.len() - i,
        {
            let ghost rest = self.deep_view().roles.skip(i as int);
            assert(rest[0] == self.roles@[i as int].deep_view());
            assert(rest.drop_first() =~= self.deep_view().roles.skip(i + 1));
            if crate::text::same_text(self.roles[i].0.as_str(), role_id) {
                return Some(self.roles[i].1.name.clone());
            }
            i += 1;
        }
        None
    }
}

} // verus!
