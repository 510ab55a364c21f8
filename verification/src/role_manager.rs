//! The remote guild-membership API: which request changes or reads a member's
//! roles, and what each answer of the platform means.
//!
//! Nothing here touches the network. A caller sends the [`RemoteRequest`]
//! that it is given and hands back the status code and body that came.

use crate::decimal::{decimal_text, format_i64};
use crate::decoder::{decode_texts, decoded_texts};
use crate::json::{json_of, member, parse, parsed_json, Json};
use vstd::prelude::*;
use vstd::string::StringExecFns;

verus! {

/// What to do with one role of one member.
#[derive(Debug, Clone, Copy, PartialEq, Eq, Structural)]
pub enum RoleAction {
    Add,
    Remove,
}

/// HTTP method of a request to the platform.
#[derive(Debug, Clone, Copy, PartialEq, Eq, Structural)]
pub enum HttpMethod {
    Get,
    Put,
    Delete,
}

/// A request to the platform, ready to be sent.
#[derive(Debug, Clone, PartialEq, Eq)]
pub struct RemoteRequest {
    pub method: HttpMethod,
    pub url: String,
    /// Value of the `Authorization` header.
    pub authorization: String,
}

/// Mathematical model of a [`RemoteRequest`].
pub ghost struct RemoteRequestModel {
    pub method: HttpMethod,
    pub url: Seq<char>,
    pub authorization: Seq<char>,
}

impl View for RemoteRequest {
    type V = RemoteRequestModel;

    open spec fn view(&self) -> RemoteRequestModel {
        RemoteRequestModel {
            method: self.method,
            url: self.url@,
            authorization: self.authorization@,
        }
    }
}

/// Why the platform did not do what was asked.
#[derive(Debug, Clone, PartialEq, Eq)]
pub enum RoleError {
    /// The member, or the role, does not exist in the guild (404).
    NotFound,
    /// The bot may not do this, most often because the role ranks above its
    /// own (403).
    Forbidden,
    /// The platform asked to slow down (429). The request is not repeated.
    RateLimited,
    /// Any other refusal, with the status code and the body that came with it.
    Remote { status: u16, body: String },
    /// The answer was accepted but its body is not a member record.
    MalformedBody,
    /// No answer came at all.
    Unreachable,
}

/// Mathematical model of a [`RoleError`].
pub ghost enum RoleErrorModel {
    NotFound,
    Forbidden,
    RateLimited,
    Remote { status: u16, body: Seq<char> },
    MalformedBody,
    Unreachable,
}

impl DeepView for RoleError {
    type V = RoleErrorModel;

    open spec fn deep_view(&self) -> RoleErrorModel {
        match self {
            RoleError::NotFound => RoleErrorModel::NotFound,
            RoleError::Forbidden => RoleErrorModel::Forbidden,
            RoleError::RateLimited => RoleErrorModel::RateLimited,
            RoleError::Remote { status, body } => RoleErrorModel::Remote {
                status: *status,
                body: body@,
            },
            RoleError::MalformedBody => RoleErrorModel::MalformedBody,
            RoleError::Unreachable => RoleErrorModel::Unreachable,
        }
    }
}

/// Which of the two calls to the platform an error came from.
#[derive(Debug, Clone, Copy, PartialEq, Eq, Structural)]
pub enum RemoteCall {
    FetchMemberRoles,
    ModifyUserRole,
}

/// The text that `reqwest::StatusCode` displays for a status code: the number
/// and its reason phrase. `None` for a number that is no status code.
pub uninterp spec fn status_display(status: u16) -> Option<Seq<char>>;

/// Writes a status code as `reqwest::StatusCode` displays it, made with
/// `reqwest::StatusCode::from_u16`, which refuses numbers that are no status
/// codes. The text depends on the number alone.
#[verifier::external_body]
pub(crate) fn display_status(status: u16) -> (text: Option<String>)
    ensures
        text.deep_view() == status_display(status),
{
    match reqwest::StatusCode::from_u16(status) {
        Ok(code) => Some(format!("{}", code)),
        Err(_) => None,
    }
}

/// How a status code is written in an error text: as the platform's client
/// displays it, or as the bare number where it is no status code.
pub open spec fn status_text(status: u16) -> Seq<char> {
    match status_display(status) {
        Some(text) => text,
        None => decimal_text(status as int),
    }
}

/// The text that tells of an error of the given call.
pub open spec fn role_error_message(error: RoleErrorModel, call: RemoteCall) -> Seq<char> {
    match error {
        RoleErrorModel::NotFound => match call {
            RemoteCall::FetchMemberRoles => "Member not found in guild"@,
            RemoteCall::ModifyUserRole => "Role or user not found"@,
        },
        RoleErrorModel::Forbidden => match call {
            RemoteCall::FetchMemberRoles => "Bot lacks permission to fetch member"@,
            RemoteCall::ModifyUserRole =>
                "Bot lacks permission to modify role (check role hierarchy)"@,
        },
        RoleErrorModel::RateLimited => "Rate limited by Discord API"@,
        RoleErrorModel::Remote { status, .. } => match call {
            RemoteCall::FetchMemberRoles => "Discord returned error while fetching member"@,
            RemoteCall::ModifyUserRole => "Discord API error: "@ + status_text(status),
        },
        RoleErrorModel::MalformedBody => "Failed to deserialize GuildMember"@,
        RoleErrorModel::Unreachable => match call {
            RemoteCall::FetchMemberRoles => "Failed to send fetch_member_roles request"@,
            RemoteCall::ModifyUserRole => "Failed to send modify_user_role request"@,
        },
    }
}

impl RoleError {
    /// The text that tells of this error, for the call it came from; see
    /// [`role_error_message`]. The body of a refusal is kept out of the text.
    pub fn message(&self, call: RemoteCall) -> (text: String)
        ensures
            text@ == role_error_message(self.deep_view(), call),
    {
        match self {
            RoleError::NotFound => match call {
                RemoteCall::FetchMemberRoles => String::from_str("Member not found in guild"),
                RemoteCall::ModifyUserRole => String::from_str("Role or user not found"),
            },
            RoleError::Forbidden => match call {
                RemoteCall::FetchMemberRoles => String::from_str(
                    "Bot lacks permission to fetch member",
                ),
                RemoteCall::ModifyUserRole => String::from_str(
                    "Bot lacks permission to modify role (check role hierarchy)",
                ),
            },
            RoleError::RateLimited => String::from_str("Rate limited by Discord API"),
            RoleError::Remote { status, .. } => match call {
                RemoteCall::FetchMemberRoles => String::from_str(
                    "Discord returned error while fetching member",
                ),
                RemoteCall::ModifyUserRole => {
                    let written = match display_status(*status) {
                        Some(text) => text,
                        None => format_i64(*status as i64),
                    };
                    String::from_str("Discord API error: ").concat(written.as_str())
                },
            },
            RoleError::MalformedBody => String::from_str("Failed to deserialize GuildMember"),
            RoleError::Unreachable => match call {
                RemoteCall::FetchMemberRoles => String::from_str(
                    "Failed to send fetch_member_roles request",
                ),
                RemoteCall::ModifyUserRole => String::from_str(
                    "Failed to send modify_user_role request",
                ),
            },
        }
    }
}

/// The address of a member record.
pub open spec fn member_url(guild_id: Seq<char>, user_id: Seq<char>) -> Seq<char> {
    "https://discord.com/api/v10/guilds/"@ + guild_id + "/members/"@ + user_id
}

/// The address of one role of a member.
pub open spec fn member_role_url(
    guild_id: Seq<char>,
    user_id: Seq<char>,
    role_id: Seq<char>,
) -> Seq<char> {
    member_url(guild_id, user_id) + "/roles/"@ + role_id
}

/// The `Authorization` header that identifies the bot.
pub open spec fn bot_authorization(token: Seq<char>) -> Seq<char> {
    "Bot "@ + token
}

/// The method that carries out an action: `PUT` adds, `DELETE` removes.
pub open spec fn method_of(action: RoleAction) -> HttpMethod {
    match action {
        RoleAction::Add => HttpMethod::Put,
        RoleAction::Remove => HttpMethod::Delete,
    }
}

/// Whether a status code is in the success class, 200 to 299.
pub open spec fn is_success(status: u16) -> bool {
    200 <= status <= 299
}

/// Whether a status code reports a client or server error, 400 to 599.
pub open spec fn is_error_status(status: u16) -> bool {
    400 <= status <= 599
}

/// What the answer to a role change means.
pub open spec fn modification_outcome_spec(status: u16, body: Seq<char>) -> Result<
    (),
    RoleErrorModel,
> {
    if is_success(status) {
        Ok(())
    } else if status == 403 {
        Err(RoleErrorModel::Forbidden)
    } else if status == 404 {
        Err(RoleErrorModel::NotFound)
    } else if status == 429 {
        Err(RoleErrorModel::RateLimited)
    } else {
        Err(RoleErrorModel::Remote { status, body })
    }
}

/// The role ids in a member record: the field `roles` must be an array of
/// texts. Other fields of the record are passed over.
pub open spec fn member_roles_of(record: Json) -> Option<Seq<Seq<char>>> {
    match record.member("roles"@) {
        Some(Json::Array(items)) => decoded_texts(items),
        _ => None,
    }
}

/// The role ids in the body of an answer, if the body is a member record.
pub open spec fn member_roles_in(body: Seq<char>) -> Option<Seq<Seq<char>>> {
    match parsed_json(body) {
        Some(record) => member_roles_of(record),
        None => None,
    }
}

/// What the answer to a request for a member record means.
pub open spec fn member_roles_spec(status: u16, body: Seq<char>) -> Result<
    Seq<Seq<char>>,
    RoleErrorModel,
> {
    if status == 404 {
        Err(RoleErrorModel::NotFound)
    } else if status == 403 {
        Err(RoleErrorModel::Forbidden)
    } else if is_error_status(status) {
        Err(RoleErrorModel::Remote { status, body })
    } else {
        match member_roles_in(body) {
            Some(roles) => Ok(roles),
            None => Err(RoleErrorModel::MalformedBody),
        }
    }
}

/// The model of the outcome of reading a member's roles.
pub open spec fn roles_model(outcome: Result<Vec<String>, RoleError>) -> Result<
    Seq<Seq<char>>,
    RoleErrorModel,
> {
    match outcome {
        Ok(roles) => Ok(roles.deep_view()),
        Err(e) => Err(e.deep_view()),
    }
}

/// The model of the outcome of a role change.
pub open spec fn outcome_model(outcome: Result<(), RoleError>) -> Result<(), RoleErrorModel> {
    match outcome {
        Ok(()) => Ok(()),
        Err(e) => Err(e.deep_view()),
    }
}

/// Builds requests to the membership API on behalf of one bot.
#[derive(Debug, Clone, PartialEq, Eq)]
pub struct RoleManager {
    bot_token: String,
}

impl RoleManager {
    /// The credential that every request carries.
    pub closed spec fn token(&self) -> Seq<char> {
        self.bot_token@
    }

    /// A manager that signs its requests with `bot_token`.
    pub fn new(bot_token: String) -> (manager: Self)
        ensures
            manager.token() == bot_token@,
    {
        RoleManager { bot_token }
    }

    fn authorization(&self) -> (header: String)
        ensures
            header@ == bot_authorization(self.token()),
    {
        String::from_str("Bot ").concat(self.bot_token.as_str())
    }

    fn member_address(guild_id: &str, user_id: &str) -> (url: String)
        ensures
            url@ == member_url(guild_id@, user_id@),
    {
        String::from_str("https://discord.com/api/v10/guilds/").concat(guild_id).concat(
            "/members/",
        ).concat(user_id)
    }

    /// The request that reads the roles of a member.
    pub fn fetch_member_roles(&self, guild_id: &str, user_id: &str) -> (request: RemoteRequest)
        ensures
            request@ == (RemoteRequestModel {
                method: HttpMethod::Get,
                url: member_url(guild_id@, user_id@),
                authorization: bot_authorization(self.token()),
            }),
    {
        RemoteRequest {
            method: HttpMethod::Get,
            url: Self::member_address(guild_id, user_id),
            authorization: self.authorization(),
        }
    }

    /// The request that adds a role to a member or removes it. Both are
    /// idempotent on the platform's side, so one request is all that is sent.
    pub fn modify_user_role(
        &self,
        guild_id: &str,
        user_id: &str,
        role_id: &str,
        action: RoleAction,
    ) -> (request: RemoteRequest)
        ensures
            request@ == (RemoteRequestModel {
                method: method_of(action),
                url: member_role_url(guild_id@, user_id@, role_id@),
                authorization: bot_authorization(self.token()),
            }),
    {
        let method = match action {
            RoleAction::Add => HttpMethod::Put,
            RoleAction::Remove => HttpMethod::Delete,
        };
        RemoteRequest {
            method,
            url: Self::member_address(guild_id, user_id).concat("/roles/").concat(role_id),
            authorization: self.authorization(),
        }
    }

    /// Reads the answer to a request for a member record: the role ids in the
    /// record, or the refusal that the status code stands for.
    pub fn member_roles_from_response(status: u16, body: &str) -> (outcome: Result<
        Vec<String>,
        RoleError,
    >)
        ensures
            roles_model(outcome) == member_roles_spec(status, body@),
    {
        if status == 404 {
            return Err(RoleError::NotFound);
        }
        if status == 403 {
            return Err(RoleError::Forbidden);
        }
        if 400 <= status && status <= 599 {
            return Err(RoleError::Remote { status, body: body.to_owned() });
        }
        let record = match parse(body) {
            Some(record) => record,
            None => {
                return Err(RoleError::MalformedBody);
            },
        };
        match Self::member_roles_in_record(&record) {
            Some(roles) => Ok(roles),
            None => Err(RoleError::MalformedBody),
        }
    }

    /// Reads the role ids out of a member record; see [`member_roles_of`].
    pub fn member_roles_in_record(record: &serde_json::Value) -> (roles: Option<Vec<String>>)
        ensures
            roles.deep_view() == member_roles_of(json_of(*record)),
    {
        match member(record, "roles") {
            Some(list) => match list.as_array() {
                Some(items) => decode_texts(items),
                None => None,
            },
            None => None,
        }
    }

    /// Classifies the answer to a role change: success for 200 to 299, and
    /// otherwise the refusal that the status code stands for. The body is kept
    /// only where the status code alone says nothing.
    pub fn modification_outcome(status: u16, body: String) -> (outcome: Result<(), RoleError>)
        ensures
            outcome_model(outcome) == modification_outcome_spec(status, body@),
    {
        if 200 <= status && status <= 299 {
            Ok(())
        } else if status == 403 {
            Err(RoleError::Forbidden)
        } else if status == 404 {
            Err(RoleError::NotFound)
        } else if status == 429 {
            Err(RoleError::RateLimited)
        } else {
            Err(RoleError::Remote { status, body })
        }
    }
}

} // verus!
