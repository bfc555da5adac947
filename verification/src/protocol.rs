//! The wire protocol: request and response envelopes, the four error
//! categories with their fixed codes, and the JSON text of each envelope.
use crate::text::{decimal, decimal_i32};
use vstd::prelude::*;

verus! {

/// The protocol-version tag every envelope carries.
pub const JSONRPC_VERSION: &'static str = "2.0";

/// The one method the daemon serves.
pub const METHOD_INPUT: &'static str = "chitin.input";

/// The action type of every success payload.
pub const ACTION_REFILL: &'static str = "refill";

/// Malformed envelope, wrong version, empty body or read timeout.
pub const INVALID_REQUEST: i32 = -32600;

/// Method name not recognised.
pub const METHOD_NOT_FOUND: i32 = -32601;

/// A required parameter is missing or empty.
pub const INVALID_PARAMS: i32 = -32602;

/// The backend invocation failed.
pub const INTERNAL_ERROR: i32 = -32603;

/// The sixteen hexadecimal digits, by value, in lower case.
pub open spec fn hex_digits() -> Seq<char> {
    seq!['0', '1', '2', '3', '4', '5', '6', '7', '8', '9', 'a', 'b', 'c', 'd', 'e', 'f']
}

/// How one character stands inside a JSON string literal: quote and
/// backslash are escaped with a backslash, the control characters below
/// U+0020 by their short form or as `\u00XX`, and every other character
/// stands for itself.
pub open spec fn escaped_char(c: char) -> Seq<char> {
    if c == '"' {
        seq!['\\', '"']
    } else if c == '\\' {
        seq!['\\', '\\']
    } else if c == '\u{8}' {
        seq!['\\', 'b']
    } else if c == '\t' {
        seq!['\\', 't']
    } else if c == '\n' {
        seq!['\\', 'n']
    } else if c == '\u{c}' {
        seq!['\\', 'f']
    } else if c == '\r' {
        seq!['\\', 'r']
    } else if ' ' > c {
        seq!['\\', 'u', '0', '0', hex_digits()[(c as int) / 16], hex_digits()[(c as int) % 16]]
    } else {
        seq![c]
    }
}

/// The characters of `text`, each as it stands inside a JSON string literal.
pub open spec fn escaped(text: Seq<char>) -> Seq<char>
    decreases text.len(),
{
    if text.len() == 0 {
        Seq::empty()
    } else {
        escaped(text.drop_last()) + escaped_char(text.last())
    }
}

/// `text` as a JSON string literal: its escaped characters between quotes.
pub open spec fn json_string(text: Seq<char>) -> Seq<char> {
    seq!['"'] + escaped(text) + seq!['"']
}

/// Renders `text` as a JSON string literal.
///
/// Calls `serde_json::to_string` on a `str`.  Trusted: the result is the
/// text between double quotes with `"` and `\` escaped by a backslash, the
/// control characters below U+0020 written as `\b`, `\t`, `\n`, `\f`, `\r`
/// or `\u00XX` in lower-case hexadecimal, and every other character
/// unchanged; and writing a `str` into memory does not fail.
#[verifier::external_body]
fn quote(text: &str) -> (literal: String)
    ensures
        literal@ == json_string(text@),
{
    serde_json::to_string(text).unwrap_or_default()
}

/// A JSON value carried verbatim, as its compact text.
///
/// Request identifiers are opaque to the daemon and are echoed back exactly
/// as they came.
#[derive(Debug)]
pub struct RawJson {
    text: String,
}

impl View for RawJson {
    type V = Seq<char>;

    closed spec fn view(&self) -> Seq<char> {
        self.text@
    }
}

impl RawJson {
    /// The JSON value `null`.
    pub fn null() -> (value: RawJson)
        ensures
            value@ == "null"@,
    {
        RawJson { text: String::from_str("null") }
    }

    /// The JSON string with the contents `text`.
    pub fn string(text: &str) -> (value: RawJson)
        ensures
            value@ == json_string(text@),
    {
        RawJson { text: quote(text) }
    }

    /// Wraps `text`, which the caller knows to be the compact text of one
    /// JSON value.
    pub fn from_text(text: String) -> (value: RawJson)
        ensures
            value@ == text@,
    {
        RawJson { text }
    }

    /// The compact JSON text of this value.
    pub fn as_str(&self) -> (text: &str)
        ensures
            text@ == self@,
    {
        self.text.as_str()
    }

    /// A copy of this value.
    pub fn duplicate(&self) -> (copy: RawJson)
        ensures
            copy@ == self@,
    {
        RawJson { text: self.text.clone() }
    }
}

/// The parameters of `chitin.input`.
#[derive(Debug)]
pub struct InputParams {
    pub prompt: String,
    pub pwd: String,
    pub session_id: String,
}

/// A request envelope.
#[derive(Debug)]
pub struct JsonRpcRequest {
    pub jsonrpc: String,
    pub id: RawJson,
    pub method: String,
    pub params: InputParams,
}

/// A request envelope as mathematical values.
pub struct RequestView {
    pub jsonrpc: Seq<char>,
    pub id: Seq<char>,
    pub method: Seq<char>,
    pub prompt: Seq<char>,
    pub pwd: Seq<char>,
    pub session_id: Seq<char>,
}

impl View for JsonRpcRequest {
    type V = RequestView;

    open spec fn view(&self) -> RequestView {
        RequestView {
            jsonrpc: self.jsonrpc@,
            id: self.id@,
            method: self.method@,
            prompt: self.params.prompt@,
            pwd: self.params.pwd@,
            session_id: self.params.session_id@,
        }
    }
}

/// The success payload: what the client should do with the command.
#[derive(Debug)]
pub struct ResponseAction {
    pub action_type: String,
    pub command: String,
}

/// A success payload as mathematical values.
pub struct ResponseActionView {
    pub action_type: Seq<char>,
    pub command: Seq<char>,
}

impl View for ResponseAction {
    type V = ResponseActionView;

    open spec fn view(&self) -> ResponseActionView {
        ResponseActionView { action_type: self.action_type@, command: self.command@ }
    }
}

/// The error object of a response.
#[derive(Debug)]
pub struct JsonRpcError {
    pub code: i32,
    pub message: String,
    pub data: Option<RawJson>,
}

/// An error object as mathematical values.
pub struct ErrorView {
    pub code: int,
    pub message: Seq<char>,
    pub data: Option<Seq<char>>,
}

impl View for JsonRpcError {
    type V = ErrorView;

    open spec fn view(&self) -> ErrorView {
        ErrorView {
            code: self.code as int,
            message: self.message@,
            data: match self.data {
                Some(data) => Some(data@),
                None => None,
            },
        }
    }
}

/// A response envelope.
#[derive(Debug)]
pub struct JsonRpcResponse {
    pub jsonrpc: String,
    pub id: RawJson,
    pub result: Option<ResponseAction>,
    pub error: Option<JsonRpcError>,
}

/// A response envelope as mathematical values.
pub struct ResponseView {
    pub jsonrpc: Seq<char>,
    pub id: Seq<char>,
    pub result: Option<ResponseActionView>,
    pub error: Option<ErrorView>,
}

impl View for JsonRpcResponse {
    type V = ResponseView;

    open spec fn view(&self) -> ResponseView {
        ResponseView {
            jsonrpc: self.jsonrpc@,
            id: self.id@,
            result: match self.result {
                Some(action) => Some(action@),
                None => None,
            },
            error: match self.error {
                Some(error) => Some(error@),
                None => None,
            },
        }
    }
}

/// The success envelope for `id` carrying `action`.
pub open spec fn success_view(id: Seq<char>, action: ResponseActionView) -> ResponseView {
    ResponseView { jsonrpc: JSONRPC_VERSION@, id, result: Some(action), error: None }
}

/// The error envelope for `id` with the given code, message and data.
pub open spec fn error_view(
    id: Seq<char>,
    code: int,
    message: Seq<char>,
    data: Option<Seq<char>>,
) -> ResponseView {
    ResponseView {
        jsonrpc: JSONRPC_VERSION@,
        id,
        result: None,
        error: Some(ErrorView { code, message, data }),
    }
}

impl JsonRpcResponse {
    /// A success envelope echoing `id`.
    pub fn success(id: RawJson, action: ResponseAction) -> (response: JsonRpcResponse)
        ensures
            response@ == success_view(id@, action@),
    {
        JsonRpcResponse {
            jsonrpc: String::from_str(JSONRPC_VERSION),
            id,
            result: Some(action),
            error: None,
        }
    }

    /// An error envelope echoing `id`.
    pub fn error(id: RawJson, code: i32, message: &str, data: Option<RawJson>) -> (response:
        JsonRpcResponse)
        ensures
            response@ == error_view(
                id@,
                code as int,
                message@,
                match data {
                    Some(data) => Some(data@),
                    None => None,
                },
            ),
    {
        JsonRpcResponse {
            jsonrpc: String::from_str(JSONRPC_VERSION),
            id,
            result: None,
            error: Some(JsonRpcError { code, message: String::from_str(message), data }),
        }
    }
}

/// The envelope could not be understood: code -32600.
pub fn invalid_request(id: RawJson, message: &str) -> (response: JsonRpcResponse)
    ensures
        response@ == error_view(id@, INVALID_REQUEST as int, message@, None),
{
    JsonRpcResponse::error(id, INVALID_REQUEST, message, None)
}

/// The method is not one the daemon serves: code -32601.
pub fn method_not_found(id: RawJson, message: &str) -> (response: JsonRpcResponse)
    ensures
        response@ == error_view(id@, METHOD_NOT_FOUND as int, message@, None),
{
    JsonRpcResponse::error(id, METHOD_NOT_FOUND, message, None)
}

/// A required parameter is missing or empty: code -32602.
pub fn invalid_params(id: RawJson, message: &str) -> (response: JsonRpcResponse)
    ensures
        response@ == error_view(id@, INVALID_PARAMS as int, message@, None),
{
    JsonRpcResponse::error(id, INVALID_PARAMS, message, None)
}

/// The backend failed: code -32603.
pub fn internal_error(id: RawJson, message: &str) -> (response: JsonRpcResponse)
    ensures
        response@ == error_view(id@, INTERNAL_ERROR as int, message@, None),
{
    JsonRpcResponse::error(id, INTERNAL_ERROR, message, None)
}

/// The JSON text of a success payload.
pub open spec fn action_json(action: ResponseActionView) -> Seq<char> {
    "{\"type\":"@ + json_string(action.action_type) + ",\"command\":"@ + json_string(
        action.command,
    ) + "}"@
}

/// The JSON text of an error object; `data` is left out where there is none.
pub open spec fn error_json(error: ErrorView) -> Seq<char> {
    "{\"code\":"@ + decimal(error.code) + ",\"message\":"@ + json_string(error.message) + (
    match error.data {
        Some(data) => ",\"data\":"@ + data,
        None => Seq::empty(),
    }) + "}"@
}

/// The JSON text of a response envelope: version, identifier, then the
/// result and the error, each left out where there is none.
pub open spec fn response_json(response: ResponseView) -> Seq<char> {
    "{\"jsonrpc\":"@ + json_string(response.jsonrpc) + ",\"id\":"@ + response.id + (
    match response.result {
        Some(action) => ",\"result\":"@ + action_json(action),
        None => Seq::empty(),
    }) + (match response.error {
        Some(error) => ",\"error\":"@ + error_json(error),
        None => Seq::empty(),
    }) + "}"@
}

/// The JSON text of a request envelope.
pub open spec fn request_json(request: RequestView) -> Seq<char> {
    "{\"jsonrpc\":"@ + json_string(request.jsonrpc) + ",\"id\":"@ + request.id
        + ",\"method\":"@ + json_string(request.method) + ",\"params\":{\"prompt\":"@
        + json_string(request.prompt) + ",\"pwd\":"@ + json_string(request.pwd)
        + ",\"session_id\":"@ + json_string(request.session_id) + "}}"@
}

impl ResponseAction {
    /// The JSON text of this payload.
    pub fn encode(&self) -> (json: String)
        ensures
            json@ == action_json(self@),
    {
        let mut json = String::from_str("{\"type\":");
        json.append(quote(self.action_type.as_str()).as_str());
        json.append(",\"command\":");
        json.append(quote(self.command.as_str()).as_str());
        json.append("}");
        json
    }
}

impl JsonRpcError {
    /// The JSON text of this error object.
    pub fn encode(&self) -> (json: String)
        ensures
            json@ == error_json(self@),
    {
        let mut json = String::from_str("{\"code\":");
        json.append(decimal_i32(self.code).as_str());
        json.append(",\"message\":");
        json.append(quote(self.message.as_str()).as_str());
        match &self.data {
            Some(data) => {
                json.append(",\"data\":");
                json.append(data.as_str());
            },
            None => {
                assert(json@ + Seq::<char>::empty() =~= json@);
            },
        }
        json.append("}");
        json
    }
}

impl JsonRpcResponse {
    /// The JSON text of this envelope.  Every envelope has one.
    pub fn encode(&self) -> (json: String)
        ensures
            json@ == response_json(self@),
    {
        let mut json = String::from_str("{\"jsonrpc\":");
        json.append(quote(self.jsonrpc.as_str()).as_str());
        json.append(",\"id\":");
        json.append(self.id.as_str());
        match &self.result {
            Some(action) => {
                json.append(",\"result\":");
                json.append(action.encode().as_str());
            },
            None => {
                assert(json@ + Seq::<char>::empty() =~= json@);
            },
        }
        match &self.error {
            Some(error) => {
                json.append(",\"error\":");
                json.append(error.encode().as_str());
            },
            None => {
                assert(json@ + Seq::<char>::empty() =~= json@);
            },
        }
        json.append("}");
        json
    }
}

impl JsonRpcRequest {
    /// The JSON text of this envelope.
    pub fn encode(&self) -> (json: String)
        ensures
            json@ == request_json(self@),
    {
        let mut json = String::from_str("{\"jsonrpc\":");
        json.append(quote(self.jsonrpc.as_str()).as_str());
        json.append(",\"id\":");
        json.append(self.id.as_str());
        json.append(",\"method\":");
        json.append(quote(self.method.as_str()).as_str());
        json.append(",\"params\":{\"prompt\":");
        json.append(quote(self.params.prompt.as_str()).as_str());
        json.append(",\"pwd\":");
        json.append(quote(self.params.pwd.as_str()).as_str());
        json.append(",\"session_id\":");
        json.append(quote(self.params.session_id.as_str()).as_str());
        json.append("}}");
        json
    }
}

} // verus!
