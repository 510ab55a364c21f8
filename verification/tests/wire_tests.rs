use cybersage::http_handler::{error_response, ReplyBody};
use cybersage::json::Document;
use cybersage::model::interaction_response::{
    ApplicationCommandOptionChoice, InteractionCallbackData, InteractionCallbackType,
    InteractionResponse,
};

fn field(name: &str, value: Document) -> (String, Document) {
    (name.to_string(), value)
}

fn text(value: &str) -> Document {
    Document::Text(value.to_string())
}

fn to_value(document: &Document) -> serde_json::Value {
    match document {
        Document::Null => serde_json::Value::Null,
        Document::Bool(b) => serde_json::Value::Bool(*b),
        Document::Natural(n) => serde_json::Value::from(*n),
        Document::Text(text) => serde_json::Value::String(text.clone()),
        Document::Array(items) => serde_json::Value::Array(items.iter().map(to_value).collect()),
        Document::Object(fields) => serde_json::Value::Object(
            fields.iter().map(|(name, value)| (name.clone(), to_value(value))).collect(),
        ),
    }
}

#[test]
fn pong_is_only_its_type() {
    assert_eq!(
        InteractionResponse::pong().to_document(),
        Document::Object(vec![field("type", Document::Natural(1))])
    );
    assert_eq!(
        serde_json::to_string(&to_value(&InteractionResponse::pong().to_document())).unwrap(),
        r#"{"type":1}"#
    );
}

#[test]
fn ephemeral_message_carries_content_and_flag() {
    assert_eq!(
        InteractionResponse::ephemeral("hi".to_string()).to_document(),
        Document::Object(vec![
            field("type", Document::Natural(4)),
            field(
                "data",
                Document::Object(vec![field("content", text("hi")), field("flags", Document::Natural(64))])
            ),
        ])
    );
}

#[test]
fn plain_message_carries_no_flag() {
    assert_eq!(
        InteractionResponse::message("hi".to_string()).to_document(),
        Document::Object(vec![
            field("type", Document::Natural(4)),
            field("data", Document::Object(vec![field("content", text("hi"))])),
        ])
    );
}

#[test]
fn autocomplete_carries_its_choices() {
    let choices = vec![
        ApplicationCommandOptionChoice { name: "Admins".to_string(), value: "Admins".to_string() },
        ApplicationCommandOptionChoice { name: "B".to_string(), value: "b".to_string() },
    ];
    let document = InteractionResponse::autocomplete(choices).to_document();
    assert_eq!(
        document,
        Document::Object(vec![
            field("type", Document::Natural(8)),
            field(
                "data",
                Document::Object(vec![field(
                    "choices",
                    Document::Array(vec![
                        Document::Object(vec![field("name", text("Admins")), field("value", text("Admins"))]),
                        Document::Object(vec![field("name", text("B")), field("value", text("b"))]),
                    ])
                )])
            ),
        ])
    );
    assert_eq!(
        serde_json::to_string(&to_value(&document)).unwrap(),
        r#"{"data":{"choices":[{"name":"Admins","value":"Admins"},{"name":"B","value":"b"}]},"type":8}"#
    );
}

#[test]
fn empty_choices_are_written_as_an_empty_array() {
    assert_eq!(
        InteractionResponse::autocomplete(vec![]).to_document(),
        Document::Object(vec![
            field("type", Document::Natural(8)),
            field("data", Document::Object(vec![field("choices", Document::Array(vec![]))])),
        ])
    );
}

#[test]
fn payload_without_parts_is_an_empty_object() {
    let data = InteractionCallbackData { content: None, flags: None, choices: None };
    assert_eq!(data.to_document(), Document::Object(vec![]));
    let response = InteractionResponse {
        kind: InteractionCallbackType::ChannelMessageWithSource,
        data: Some(data),
    };
    assert_eq!(
        response.to_document(),
        Document::Object(vec![
            field("type", Document::Natural(4)),
            field("data", Document::Object(vec![])),
        ])
    );
}

#[test]
fn kinds_have_their_wire_numbers() {
    assert_eq!(InteractionCallbackType::Pong.wire_value(), 1);
    assert_eq!(InteractionCallbackType::ChannelMessageWithSource.wire_value(), 4);
    assert_eq!(InteractionCallbackType::ApplicationCommandAutocompleteResult.wire_value(), 8);
}

#[test]
fn error_body_is_an_object_with_the_message() {
    assert_eq!(
        error_response(401, "Invalid request signature").body.to_document(),
        Document::Object(vec![field("error", text("Invalid request signature"))])
    );
    assert_eq!(
        ReplyBody::Interaction(InteractionResponse::pong()).to_document(),
        InteractionResponse::pong().to_document()
    );
}

#[test]
fn documents_are_built_from_parts() {
    assert_eq!(Document::text("a"), text("a"));
    assert_eq!(Document::array(vec![Document::Null]), Document::Array(vec![Document::Null]));
    assert_eq!(
        Document::object(vec![field("a", Document::Bool(true))]),
        Document::Object(vec![field("a", Document::Bool(true))])
    );
}
