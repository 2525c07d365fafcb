//! Protocol values as plain data, and the calls into `rmcp` and `serde_json` that make
//! them.

use vstd::prelude::*;

verus! {

/// A block of content in a tool's result.
pub enum ContentBlock {
    Text(String),
    /// An image, a sound or a resource.
    Other,
}

/// The result of a tool call.
pub struct CallToolResult {
    pub content: Vec<ContentBlock>,
    pub is_error: Option<bool>,
}

impl CallToolResult {
    /// A successful result that holds one text.
    pub open spec fn is_success(self, text: Seq<char>) -> bool {
        &&& self.content@.len() == 1
        &&& self.content@[0] matches ContentBlock::Text(block) && block@ == text
        &&& self.is_error == Some(false)
    }
}

/// A protocol error, with no further data.
pub struct ErrorData {
    pub code: i32,
    pub message: String,
}

/// The code of an internal error.
pub const INTERNAL_ERROR: i32 = -32603;

impl ErrorData {
    /// The internal error with the given message.
    pub open spec fn is_internal(self, message: Seq<char>) -> bool {
        &&& self.code == INTERNAL_ERROR
        &&& self.message@ == message
    }
}

/// What the server can do with its tools.
#[derive(Clone, Copy, Debug, PartialEq, Eq, Structural)]
pub struct ToolsCapability {
    pub list_changed: Option<bool>,
}

/// What the server advertises. Of everything but the tools only whether it is there.
#[derive(Clone, Copy, Debug, PartialEq, Eq, Structural)]
pub struct ServerCapabilities {
    pub completions: bool,
    pub experimental: bool,
    pub extensions: bool,
    pub logging: bool,
    pub prompts: bool,
    pub resources: bool,
    pub tasks: bool,
    pub tools: Option<ToolsCapability>,
}

/// Name and version of the server.
pub struct Implementation {
    pub name: String,
    pub version: String,
}

/// What a client is told when it connects.
pub struct ServerInfo {
    pub instructions: Option<String>,
    pub capabilities: ServerCapabilities,
    pub server_info: Implementation,
}

/// `rmcp::model::CallToolResult::success` on the one block that
/// `rmcp::model::ContentBlock::text` makes of the text: that block is all the content, and
/// the result is marked as no error.
#[verifier::external_body]
pub(crate) fn success_result(text: String) -> (result: CallToolResult)
    ensures
        result.is_success(text@),
{
    let made = rmcp::model::CallToolResult::success(vec![rmcp::model::ContentBlock::text(text)]);
    let content = made.content.into_iter().map(
        |block| match block {
            rmcp::model::ContentBlock::Text(block) => ContentBlock::Text(block.text),
            _ => ContentBlock::Other,
        },
    ).collect();
    CallToolResult { content, is_error: made.is_error }
}

/// `rmcp::ErrorData::internal_error` without data: the code of an internal error, and the
/// message unchanged.
#[verifier::external_body]
pub(crate) fn internal_error(message: String) -> (error: ErrorData)
    ensures
        error.is_internal(message@),
{
    let made = rmcp::ErrorData::internal_error(message, None);
    ErrorData { code: made.code.0, message: made.message.into_owned() }
}

/// `rmcp::model::ServerCapabilities::builder` with `enable_tools` and `build`: the tools,
/// without a notice of changes to their list, and nothing else.
#[verifier::external_body]
pub(crate) fn tools_only() -> (capabilities: ServerCapabilities)
    ensures
        capabilities == (ServerCapabilities {
            completions: false,
            experimental: false,
            extensions: false,
            logging: false,
            prompts: false,
            resources: false,
            tasks: false,
            tools: Some(ToolsCapability { list_changed: None }),
        }),
{
    let made = rmcp::model::ServerCapabilities::builder().enable_tools().build();
    ServerCapabilities {
        completions: made.completions.is_some(),
        experimental: made.experimental.is_some(),
        extensions: made.extensions.is_some(),
        logging: made.logging.is_some(),
        prompts: made.prompts.is_some(),
        resources: made.resources.is_some(),
        tasks: made.tasks.is_some(),
        tools: made.tools.map(|tools| ToolsCapability { list_changed: tools.list_changed }),
    }
}

/// `rmcp::model::Implementation::new`: the name and the version, each unchanged.
#[verifier::external_body]
pub(crate) fn implementation(name: &str, version: &str) -> (made: Implementation)
    ensures
        made.name@ == name@,
        made.version@ == version@,
{
    let made = rmcp::model::Implementation::new(name, version);
    Implementation { name: made.name, version: made.version }
}

/// The error of `serde_json`.
#[verifier::external_type_specification]
#[verifier::external_body]
pub struct ExJsonError(serde_json::Error);

/// The JSON text of an object with a number under one key and a text, or null, under the
/// other, as `serde_json::to_string` writes it.
pub uninterp spec fn json_object_text(
    number_key: Seq<char>,
    number: u32,
    text_key: Seq<char>,
    text: Option<Seq<char>>,
) -> Seq<char>;

/// A text that may be absent.
pub open spec fn text_view(text: Option<&str>) -> Option<Seq<char>> {
    match text {
        Some(text) => Some(text@),
        None => None,
    }
}

/// `serde_json::to_string` on an object with a number and a text, or null, in it. It fails
/// only where a key is no string or a `Serialize` impl fails, and neither occurs in such an
/// object. What it writes depends on the keys and the values alone, and stands in braces;
/// how it orders and escapes them is left unsaid.
#[verifier::external_body]
pub(crate) fn object_to_json(
    number_key: &str,
    number: u32,
    text_key: &str,
    text: Option<&str>,
) -> (json: Result<String, serde_json::Error>)
    ensures
        json is Ok,
        json matches Ok(json) ==> {
            &&& json@ == json_object_text(number_key@, number, text_key@, text_view(text))
            &&& json@.len() >= 2
            &&& json@.first() == '{'
            &&& json@.last() == '}'
        },
{
    let mut object = serde_json::Map::new();
    object.insert(number_key.to_string(), serde_json::Value::from(number));
    object.insert(text_key.to_string(), serde_json::Value::from(text));
    serde_json::to_string(&serde_json::Value::Object(object))
}

} // verus!
