//! The webhook as a whole: from the raw request to the reply, through
//! authentication, decoding, the subscription gate and the router, in that
//! order.
//!
//! The handler does no outside work. Where the router needs some, the handler
//! is suspended: the caller carries out the effect and resumes the session
//! with its outcome, until a reply comes out. Every request ends in a reply.

use crate::auth::verify::{
    authentication, stale_timestamp_is_rejected, AuthManager, MAX_AGE_SECONDS, MAX_FUTURE_SKEW,
};
use crate::decimal::decimal_i64;
use crate::decoder::{decode, decode_spec};
use crate::json::{Document, Json};
use crate::model::interaction_request::{InteractionRequest, InteractionType, RequestModel};
use crate::model::interaction_response::{
    response_document, InteractionResponse, ResponseModel,
};
use crate::router::command_router::CommandRouter;
use crate::router::interaction_router::{advance_spec, route_spec, InteractionRouter};
use crate::router::step::{
    Effect, EffectModel, Outcome, OutcomeModel, Pending, PendingModel, Step, StepModel,
};
use crate::subscription::SubscriptionManager;
use crate::text::text_from_utf8;
use vstd::prelude::*;
use vstd::string::StringExecFns;
use vstd::utf8::{decode_utf8, valid_utf8};

verus! {

/// Status of every reply that the webhook itself decides on, declines and
/// command errors included.
pub const STATUS_OK: u16 = 200;

/// Status of the reply to a body that is no interaction.
pub const STATUS_BAD_REQUEST: u16 = 400;

/// Status of the reply to a request that is not authenticated.
pub const STATUS_UNAUTHORIZED: u16 = 401;

/// Status of the reply when configuration is missing or a dependency fails.
pub const STATUS_SERVER_ERROR: u16 = 500;

/// What a reply carries. Both are sent as JSON: an error as an object with
/// the one field `error`, an interaction response in its wire form.
#[derive(Debug, Clone, PartialEq, Eq)]
pub enum ReplyBody {
    Error(String),
    Interaction(InteractionResponse),
}

/// Mathematical model of a [`ReplyBody`].
pub ghost enum ReplyBodyModel {
    Error(Seq<char>),
    Interaction(ResponseModel),
}

impl DeepView for ReplyBody {
    type V = ReplyBodyModel;

    open spec fn deep_view(&self) -> ReplyBodyModel {
        match self {
            ReplyBody::Error(message) => ReplyBodyModel::Error(message@),
            ReplyBody::Interaction(response) => ReplyBodyModel::Interaction(response@),
        }
    }
}

/// The HTTP reply to a webhook request.
#[derive(Debug, Clone, PartialEq, Eq)]
pub struct HttpReply {
    pub status: u16,
    pub body: ReplyBody,
}

/// Mathematical model of an [`HttpReply`].
pub ghost struct HttpReplyModel {
    pub status: u16,
    pub body: ReplyBodyModel,
}

impl DeepView for HttpReply {
    type V = HttpReplyModel;

    open spec fn deep_view(&self) -> HttpReplyModel {
        HttpReplyModel { status: self.status, body: self.body.deep_view() }
    }
}

impl View for HttpReply {
    type V = HttpReplyModel;

    open spec fn view(&self) -> HttpReplyModel {
        self.deep_view()
    }
}

impl HttpReplyModel {
    /// An error reply.
    pub open spec fn error(status: u16, message: Seq<char>) -> HttpReplyModel {
        HttpReplyModel { status, body: ReplyBodyModel::Error(message) }
    }

    /// The reply that carries an interaction response.
    pub open spec fn interaction(response: ResponseModel) -> HttpReplyModel {
        HttpReplyModel { status: STATUS_OK, body: ReplyBodyModel::Interaction(response) }
    }

    /// The reply when configuration is missing. It tells nothing of what is
    /// missing.
    pub open spec fn misconfigured() -> HttpReplyModel {
        Self::error(STATUS_SERVER_ERROR, "Server misconfiguration"@)
    }

    /// The reply to a request that is not authenticated.
    pub open spec fn unauthorized() -> HttpReplyModel {
        Self::error(STATUS_UNAUTHORIZED, "Invalid request signature"@)
    }

    /// The reply to a body that is no interaction.
    pub open spec fn bad_request() -> HttpReplyModel {
        Self::error(STATUS_BAD_REQUEST, "Invalid JSON"@)
    }
}

/// The JSON document that the body of a reply is sent as.
pub open spec fn body_document(body: ReplyBodyModel) -> Json {
    match body {
        ReplyBodyModel::Error(message) => Json::Object(seq![("error"@, Json::Text(message))]),
        ReplyBodyModel::Interaction(response) => response_document(response),
    }
}

impl ReplyBody {
    /// Writes the body as the JSON document it is sent as; see
    /// [`body_document`].
    pub fn to_document(&self) -> (document: Document)
        ensures
            document@ == body_document(self.deep_view()),
    {
        match self {
            ReplyBody::Error(message) => {
                let fields = vec![(String::from_str("error"), Document::text(message.as_str()))];
                assert(fields.deep_view() =~= seq![("error"@, Json::Text(message@))]);
                Document::object(fields)
            },
            ReplyBody::Interaction(response) => response.to_document(),
        }
    }
}

/// Makes a reply with the given status and body.
pub fn json_response(status: u16, body: ReplyBody) -> (reply: HttpReply)
    ensures
        reply@ == (HttpReplyModel { status, body: body.deep_view() }),
{
    HttpReply { status, body }
}

/// Makes the reply that shows a message to the invoking user only.
pub fn ephemeral_response(content: &str) -> (reply: HttpReply)
    ensures
        reply@ == HttpReplyModel::interaction(ResponseModel::ephemeral(content@)),
{
    json_response(
        STATUS_OK,
        ReplyBody::Interaction(InteractionResponse::ephemeral(content.to_owned())),
    )
}

/// Makes an error reply.
pub fn error_response(status: u16, message: &str) -> (reply: HttpReply)
    ensures
        reply@ == HttpReplyModel::error(status, message@),
{
    json_response(status, ReplyBody::Error(message.to_owned()))
}

/// An interaction that waits for the outcome of an effect.
#[derive(Debug, PartialEq, Eq)]
pub struct Session {
    pub interaction: InteractionRequest,
    pub pending: Pending,
}

/// Mathematical model of a [`Session`].
pub ghost struct SessionModel {
    pub interaction: RequestModel,
    pub pending: PendingModel,
}

impl DeepView for Session {
    type V = SessionModel;

    open spec fn deep_view(&self) -> SessionModel {
        SessionModel { interaction: self.interaction@, pending: self.pending.deep_view() }
    }
}

/// Where the handling of a request stands.
#[derive(Debug, PartialEq, Eq)]
pub enum Handling {
    /// The request is answered.
    Reply(HttpReply),
    /// The caller is to carry out `effect` and resume `session` with its
    /// outcome.
    Suspended { session: Session, effect: Effect },
}

/// Mathematical model of a [`Handling`].
pub ghost enum HandlingModel {
    Reply(HttpReplyModel),
    Suspended { session: SessionModel, effect: EffectModel },
}

impl DeepView for Handling {
    type V = HandlingModel;

    open spec fn deep_view(&self) -> HandlingModel {
        match self {
            Handling::Reply(reply) => HandlingModel::Reply(reply@),
            Handling::Suspended { session, effect } => HandlingModel::Suspended {
                session: session.deep_view(),
                effect: effect.deep_view(),
            },
        }
    }
}

impl View for Handling {
    type V = HandlingModel;

    open spec fn view(&self) -> HandlingModel {
        self.deep_view()
    }
}

/// Where handling stands after a step of the router: a final response goes
/// out with status 200, an effect suspends the interaction.
pub open spec fn after_step(interaction: RequestModel, step: StepModel) -> HandlingModel {
    match step {
        StepModel::Respond(response) => HandlingModel::Reply(HttpReplyModel::interaction(response)),
        StepModel::Perform { effect, then } => HandlingModel::Suspended {
            session: SessionModel { interaction, pending: then },
            effect,
        },
    }
}

/// Where the handling of a request stands after its first stages. The public
/// key is `None` where the configuration does not give one.
///
/// A request that is not authenticated at `now` is answered with 401 and its
/// body is not read. A body that is no interaction is answered with 400.
/// Every other request is routed.
pub open spec fn handler_spec(
    signature: Seq<char>,
    timestamp: Seq<char>,
    body: Seq<u8>,
    public_key: Option<Seq<char>>,
    now: int,
) -> HandlingModel {
    match public_key {
        None => HandlingModel::Reply(HttpReplyModel::misconfigured()),
        Some(key) => if authentication(signature, timestamp, body, key, now) is Err {
            HandlingModel::Reply(HttpReplyModel::unauthorized())
        } else if !valid_utf8(body) {
            HandlingModel::Reply(HttpReplyModel::bad_request())
        } else {
            match decode_spec(decode_utf8(body)) {
                Ok(interaction) => after_step(interaction, route_spec(interaction)),
                Err(_) => HandlingModel::Reply(HttpReplyModel::bad_request()),
            }
        },
    }
}

/// Where handling stands after the outcome of the effect that a session
/// waited for.
pub open spec fn resume_spec(session: SessionModel, outcome: OutcomeModel) -> HandlingModel {
    after_step(
        session.interaction,
        advance_spec(session.interaction, session.pending, outcome),
    )
}

fn settle(interaction: InteractionRequest, step: Step) -> (handling: Handling)
    ensures
        handling@ == after_step(interaction@, step@),
{
    match step {
        Step::Respond(response) => Handling::Reply(
            json_response(STATUS_OK, ReplyBody::Interaction(response)),
        ),
        Step::Perform { effect, then } => Handling::Suspended {
            session: Session { interaction, pending: then },
            effect,
        },
    }
}

/// Handles a webhook request up to its reply or its first effect; see
/// [`handler_spec`].
pub fn function_handler(
    signature: &str,
    timestamp: &str,
    body: &[u8],
    public_key: &Option<String>,
    now: i64,
) -> (handling: Handling)
    ensures
        handling@ == handler_spec(
            signature@,
            timestamp@,
            body@,
            public_key.deep_view(),
            now as int,
        ),
{
    let key = match public_key {
        Some(key) => key,
        None => {
            return Handling::Reply(error_response(STATUS_SERVER_ERROR, "Server misconfiguration"));
        },
    };
    let auth = AuthManager::new(SubscriptionManager::new());
    if auth.verify_signature_at(signature, timestamp, body, key.as_str(), now).is_err() {
        return Handling::Reply(error_response(STATUS_UNAUTHORIZED, "Invalid request signature"));
    }
    let text = match text_from_utf8(body) {
        Some(text) => text,
        None => {
            return Handling::Reply(error_response(STATUS_BAD_REQUEST, "Invalid JSON"));
        },
    };
    let interaction = match decode(text) {
        Ok(interaction) => interaction,
        Err(_) => {
            return Handling::Reply(error_response(STATUS_BAD_REQUEST, "Invalid JSON"));
        },
    };
    let step = InteractionRouter::new(CommandRouter::new()).route(&interaction);
    settle(interaction, step)
}

impl Session {
    /// Resumes the interaction with the outcome of the effect it waited for;
    /// see [`resume_spec`].
    pub fn resume(self, outcome: Outcome) -> (handling: Handling)
        ensures
            handling@ == resume_spec(self.deep_view(), outcome.deep_view()),
    {
        let step = InteractionRouter::new(CommandRouter::new()).resume(
            &self.interaction,
            self.pending,
            outcome,
        );
        settle(self.interaction, step)
    }
}

/// A request that is not authenticated gets status 401 and causes no effect,
/// whatever its body holds.
pub proof fn unauthenticated_request_is_rejected(
    signature: Seq<char>,
    timestamp: Seq<char>,
    body: Seq<u8>,
    public_key: Seq<char>,
    now: int,
)
    requires
        authentication(signature, timestamp, body, public_key, now) is Err,
    ensures
        handler_spec(signature, timestamp, body, Some(public_key), now) == HandlingModel::Reply(
            HttpReplyModel::unauthorized(),
        ),
{
}

/// A request whose timestamp lies outside the freshness window gets status
/// 401, whatever its signature and its body.
pub proof fn stale_request_is_rejected(
    signature: Seq<char>,
    timestamp: Seq<char>,
    body: Seq<u8>,
    public_key: Seq<char>,
    now: int,
)
    requires
        decimal_i64(timestamp) matches Some(sent) && (now - sent > MAX_AGE_SECONDS || sent > now
            + MAX_FUTURE_SKEW),
    ensures
        handler_spec(signature, timestamp, body, Some(public_key), now) == HandlingModel::Reply(
            HttpReplyModel::unauthorized(),
        ),
{
    stale_timestamp_is_rejected(signature, timestamp, body, public_key, now);
}

/// An authenticated ping is answered with status 200 and a pong without data,
/// whatever else its body holds, and causes no effect.
pub proof fn ping_is_answered_with_pong(
    signature: Seq<char>,
    timestamp: Seq<char>,
    body: Seq<u8>,
    public_key: Seq<char>,
    now: int,
)
    requires
        authentication(signature, timestamp, body, public_key, now) is Ok,
        valid_utf8(body),
        decode_spec(decode_utf8(body)) matches Ok(interaction) && interaction.interaction_type
            == InteractionType::Ping,
    ensures
        handler_spec(signature, timestamp, body, Some(public_key), now) == HandlingModel::Reply(
            HttpReplyModel::interaction(ResponseModel::pong()),
        ),
        body_document(ReplyBodyModel::Interaction(ResponseModel::pong())) == Json::Object(
            seq![("type"@, Json::Natural(1))],
        ),
{
    assert(response_document(ResponseModel::pong())->Object_0 =~= seq![
        ("type"@, Json::Natural(1)),
    ]);
}

/// Every reply has one of four statuses, and every reply that the router
/// made has status 200.
pub proof fn replies_are_well_formed(
    signature: Seq<char>,
    timestamp: Seq<char>,
    body: Seq<u8>,
    public_key: Option<Seq<char>>,
    now: int,
    session: SessionModel,
    outcome: OutcomeModel,
)
    ensures
        handler_spec(signature, timestamp, body, public_key, now) matches HandlingModel::Reply(
            reply,
        ) ==> (reply.status == STATUS_OK && reply.body is Interaction) || ((reply.status
            == STATUS_BAD_REQUEST || reply.status == STATUS_UNAUTHORIZED || reply.status
            == STATUS_SERVER_ERROR) && reply.body is Error),
        resume_spec(session, outcome) matches HandlingModel::Reply(reply) ==> reply.status
            == STATUS_OK && reply.body is Interaction,
{
}

/// A suspended session comes to its reply after at most four effects: each
/// resumption either replies or leaves fewer effects to go.
pub proof fn sessions_end(session: SessionModel, outcome: OutcomeModel)
    ensures
        resume_spec(session, outcome) matches HandlingModel::Suspended { session: next, .. }
            ==> next.pending.steps_left() < session.pending.steps_left()
            && next.interaction == session.interaction,
        session.pending.steps_left() <= 4,
{
    crate::router::interaction_router::every_step_makes_progress(
        session.interaction,
        session.pending,
        outcome,
    );
}

} // verus!
