//! The reply to an interaction.

use crate::json::{Document, Json};
use vstd::prelude::*;
use vstd::string::StringExecFns;

verus! {

/// Message flag that makes a reply visible to the invoking user only (bit 6).
pub const EPHEMERAL_FLAG: u64 = 64;

/// Kind of reply, as the platform numbers it on the wire.
#[derive(Debug, Clone, Copy, PartialEq, Eq, Structural)]
pub enum InteractionCallbackType {
    Pong,
    ChannelMessageWithSource,
    ApplicationCommandAutocompleteResult,
}

impl InteractionCallbackType {
    /// The number that stands for this kind in the `type` field of a reply.
    pub open spec fn wire_value_spec(self) -> u8 {
        match self {
            InteractionCallbackType::Pong => 1,
            InteractionCallbackType::ChannelMessageWithSource => 4,
            InteractionCallbackType::ApplicationCommandAutocompleteResult => 8,
        }
    }

    /// The number that stands for this kind in the `type` field of a reply.
    pub fn wire_value(self) -> (n: u8)
        ensures
            n == self.wire_value_spec(),
    {
        match self {
            InteractionCallbackType::Pong => 1,
            InteractionCallbackType::ChannelMessageWithSource => 4,
            InteractionCallbackType::ApplicationCommandAutocompleteResult => 8,
        }
    }
}

/// One suggestion offered while the user types an option.
#[derive(Debug, Clone, PartialEq, Eq)]
pub struct ApplicationCommandOptionChoice {
    pub name: String,
    pub value: String,
}

/// Mathematical model of an [`ApplicationCommandOptionChoice`].
pub ghost struct ChoiceModel {
    pub name: Seq<char>,
    pub value: Seq<char>,
}

impl DeepView for ApplicationCommandOptionChoice {
    type V = ChoiceModel;

    open spec fn deep_view(&self) -> ChoiceModel {
        ChoiceModel { name: self.name@, value: self.value@ }
    }
}

/// Payload of a reply; every part is optional on the wire.
#[derive(Debug, Clone, PartialEq, Eq)]
pub struct InteractionCallbackData {
    pub content: Option<String>,
    pub flags: Option<u64>,
    pub choices: Option<Vec<ApplicationCommandOptionChoice>>,
}

/// Mathematical model of an [`InteractionCallbackData`].
pub ghost struct CallbackDataModel {
    pub content: Option<Seq<char>>,
    pub flags: Option<u64>,
    pub choices: Option<Seq<ChoiceModel>>,
}

impl DeepView for InteractionCallbackData {
    type V = CallbackDataModel;

    open spec fn deep_view(&self) -> CallbackDataModel {
        CallbackDataModel {
            content: self.content.deep_view(),
            flags: self.flags,
            choices: self.choices.deep_view(),
        }
    }
}

/// A complete reply to one interaction.
#[derive(Debug, Clone, PartialEq, Eq)]
pub struct InteractionResponse {
    pub kind: InteractionCallbackType,
    pub data: Option<InteractionCallbackData>,
}

/// Mathematical model of an [`InteractionResponse`].
pub ghost struct ResponseModel {
    pub kind: InteractionCallbackType,
    pub data: Option<CallbackDataModel>,
}

impl DeepView for InteractionResponse {
    type V = ResponseModel;

    open spec fn deep_view(&self) -> ResponseModel {
        ResponseModel { kind: self.kind, data: self.data.deep_view() }
    }
}

impl View for InteractionResponse {
    type V = ResponseModel;

    open spec fn view(&self) -> ResponseModel {
        self.deep_view()
    }
}

impl ResponseModel {
    /// The acknowledgement of a ping: kind `Pong`, no payload.
    pub open spec fn pong() -> ResponseModel {
        ResponseModel { kind: InteractionCallbackType::Pong, data: None }
    }

    /// A message that everyone in the channel can see.
    pub open spec fn message(content: Seq<char>) -> ResponseModel {
        ResponseModel {
            kind: InteractionCallbackType::ChannelMessageWithSource,
            data: Some(CallbackDataModel { content: Some(content), flags: None, choices: None }),
        }
    }

    /// A message that only the invoking user can see.
    pub open spec fn ephemeral(content: Seq<char>) -> ResponseModel {
        ResponseModel {
            kind: InteractionCallbackType::ChannelMessageWithSource,
            data: Some(
                CallbackDataModel {
                    content: Some(content),
                    flags: Some(EPHEMERAL_FLAG),
                    choices: None,
                },
            ),
        }
    }

    /// A list of suggestions for the option being typed.
    pub open spec fn autocomplete(choices: Seq<ChoiceModel>) -> ResponseModel {
        ResponseModel {
            kind: InteractionCallbackType::ApplicationCommandAutocompleteResult,
            data: Some(CallbackDataModel { content: None, flags: None, choices: Some(choices) }),
        }
    }

    /// Whether the reply is a message marked for the invoking user only.
    pub open spec fn is_ephemeral_message(self) -> bool {
        &&& self.kind == InteractionCallbackType::ChannelMessageWithSource
        &&& self.data matches Some(d)
        &&& d.flags == Some(EPHEMERAL_FLAG)
        &&& d.content is Some
        &&& d.choices is None
    }
}

/// The wire form of a suggestion: an object with `name` and `value`.
pub open spec fn choice_document(choice: ChoiceModel) -> Json {
    Json::Object(seq![("name"@, Json::Text(choice.name)), ("value"@, Json::Text(choice.value))])
}

/// The wire forms of a list of suggestions.
pub open spec fn choice_documents(choices: Seq<ChoiceModel>) -> Seq<Json> {
    Seq::new(choices.len(), |i: int| choice_document(choices[i]))
}

/// The field that is written for a part of a payload: none where the part is
/// absent.
pub open spec fn optional_field(name: Seq<char>, value: Option<Json>) -> Seq<(Seq<char>, Json)> {
    match value {
        Some(value) => seq![(name, value)],
        None => Seq::empty(),
    }
}

/// The wire form of a payload: an object with `content`, `flags` and
/// `choices`, in that order, of which the absent ones are left out.
pub open spec fn data_document(data: CallbackDataModel) -> Json {
    Json::Object(
        optional_field(
            "content"@,
            match data.content {
                Some(content) => Some(Json::Text(content)),
                None => None,
            },
        ) + optional_field(
            "flags"@,
            match data.flags {
                Some(flags) => Some(Json::Natural(flags)),
                None => None,
            },
        ) + optional_field(
            "choices"@,
            match data.choices {
                Some(choices) => Some(Json::Array(choice_documents(choices))),
                None => None,
            },
        ),
    )
}

/// The wire form of a reply: an object with `type`, the number of its kind,
/// and with `data` where the reply has a payload.
pub open spec fn response_document(response: ResponseModel) -> Json {
    Json::Object(
        seq![("type"@, Json::Natural(response.kind.wire_value_spec() as u64))] + optional_field(
            "data"@,
            match response.data {
                Some(data) => Some(data_document(data)),
                None => None,
            },
        ),
    )
}

impl ApplicationCommandOptionChoice {
    /// Writes the suggestion in its wire form; see [`choice_document`].
    pub fn to_document(&self) -> (document: Document)
        ensures
            document@ == choice_document(self.deep_view()),
    {
        let fields = vec![
            (String::from_str("name"), Document::text(self.name.as_str())),
            (String::from_str("value"), Document::text(self.value.as_str())),
        ];
        assert(fields.deep_view() =~= seq![
            ("name"@, Json::Text(self.name@)),
            ("value"@, Json::Text(self.value@)),
        ]);
        Document::object(fields)
    }
}

impl InteractionCallbackData {
    /// Writes the payload in its wire form; see [`data_document`].
    pub fn to_document(&self) -> (document: Document)
        ensures
            document@ == data_document(self.deep_view()),
    {
        let mut fields: Vec<(String, Document)> = Vec::new();
        assert(fields.deep_view() =~= Seq::empty());
        match &self.content {
            Some(content) => {
                fields.push((String::from_str("content"), Document::text(content.as_str())));
            },
            None => {},
        }
        assert(fields.deep_view() =~= optional_field(
            "content"@,
            match self.deep_view().content {
                Some(content) => Some(Json::Text(content)),
                None => None,
            },
        ));
        let ghost first = fields.deep_view();
        match self.flags {
            Some(flags) => {
                fields.push((String::from_str("flags"), Document::Natural(flags)));
            },
            None => {},
        }
        assert(fields.deep_view() =~= first + optional_field(
            "flags"@,
            match self.flags {
                Some(flags) => Some(Json::Natural(flags)),
                None => None,
            },
        ));
        let ghost second = fields.deep_view();
        match &self.choices {
            Some(choices) => {
                let mut items: Vec<Document> = Vec::new();
                let mut i: usize = 0;
                while i < choices.len()
                    invariant
                        i <= choices.len(),
                        items.len() == i,
                        forall|j: int|
                            0 <= j < i ==> (#[trigger] items@[j])@ == choice_document(
                                choices@[j].deep_view(),
                            ),
                    decreases choices.len() - i,
                {
                    items.push(choices[i].to_document());
                    i += 1;
                }
                assert(items.deep_view() =~= choice_documents(choices.deep_view()));
                fields.push((String::from_str("choices"), Document::array(items)));
            },
            None => {},
        }
        assert(fields.deep_view() =~= second + optional_field(
            "choices"@,
            match self.deep_view().choices {
                Some(choices) => Some(Json::Array(choice_documents(choices))),
                None => None,
            },
        ));
        Document::object(fields)
    }
}

impl InteractionResponse {
    /// Writes the reply in its wire form; see [`response_document`].
    pub fn to_document(&self) -> (document: Document)
        ensures
            document@ == response_document(self@),
    {
        let mut fields = vec![
            (String::from_str("type"), Document::Natural(self.kind.wire_value() as u64)),
        ];
        assert(fields.deep_view() =~= seq![
            ("type"@, Json::Natural(self.kind.wire_value_spec() as u64)),
        ]);
        let ghost first = fields.deep_view();
        match &self.data {
            Some(data) => {
                fields.push((String::from_str("data"), data.to_document()));
            },
            None => {},
        }
        assert(fields.deep_view() =~= first + optional_field(
            "data"@,
            match self@.data {
                Some(data) => Some(data_document(data)),
                None => None,
            },
        ));
        Document::object(fields)
    }

    /// Acknowledges a ping.
    pub fn pong() -> (r: Self)
        ensures
            r@ == ResponseModel::pong(),
    {
        InteractionResponse { kind: InteractionCallbackType::Pong, data: None }
    }

    /// Builds a message visible to the whole channel.
    pub fn message(content: String) -> (r: Self)
        ensures
            r@ == ResponseModel::message(content@),
    {
        InteractionResponse {
            kind: InteractionCallbackType::ChannelMessageWithSource,
            data: Some(
                InteractionCallbackData { content: Some(content), flags: None, choices: None },
            ),
        }
    }

    /// Builds a message visible to the invoking user only.
    pub fn ephemeral(content: String) -> (r: Self)
        ensures
            r@ == ResponseModel::ephemeral(content@),
            r@.is_ephemeral_message(),
    {
        InteractionResponse {
            kind: InteractionCallbackType::ChannelMessageWithSource,
            data: Some(
                InteractionCallbackData {
                    content: Some(content),
                    flags: Some(EPHEMERAL_FLAG),
                    choices: None,
                },
            ),
        }
    }

    /// Builds the reply to an autocomplete query.
    pub fn autocomplete(choices: Vec<ApplicationCommandOptionChoice>) -> (r: Self)
        ensures
            r@ == ResponseModel::autocomplete(choices.deep_view()),
    {
        InteractionResponse {
            kind: InteractionCallbackType::ApplicationCommandAutocompleteResult,
            data: Some(
                InteractionCallbackData { content: None, flags: None, choices: Some(choices) },
            ),
        }
    }
}

} // verus!
