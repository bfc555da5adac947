//! The client side of one exchange: the request it sends and what it makes
//! of the daemon's answer.
use crate::protocol::{
    json_string, InputParams, JsonRpcRequest, JsonRpcResponse, RawJson, RequestView,
    ResponseView, JSONRPC_VERSION, METHOD_INPUT,
};
use crate::session::option_view;
use crate::text::{decimal_nat, decimal_u128};
use vstd::prelude::*;

verus! {

/// The session key used where the environment names none.
pub const DEFAULT_SESSION_ID: &'static str = "default";

/// The session key of a client: the value of `CHITIN_SESSION_ID`, else the
/// user's name, else `default`.
pub open spec fn session_key(chitin: Option<Seq<char>>, user: Option<Seq<char>>) -> Seq<char> {
    match chitin {
        Some(key) => key,
        None => match user {
            Some(name) => name,
            None => DEFAULT_SESSION_ID@,
        },
    }
}

/// Picks the session key from the values of `CHITIN_SESSION_ID` and
/// `USER`.
pub fn resolve_session_id(chitin: Option<String>, user: Option<String>) -> (key: String)
    ensures
        key@ == session_key(option_view(chitin), option_view(user)),
{
    match chitin {
        Some(key) => key,
        None => match user {
            Some(name) => name,
            None => String::from_str(DEFAULT_SESSION_ID),
        },
    }
}

/// The request identifier for a request made `millis` milliseconds after
/// the Unix epoch: that number in decimal.
pub fn time_id(millis: u128) -> (id: String)
    ensures
        id@ == decimal_nat(millis as nat),
{
    decimal_u128(millis)
}

/// The envelope that asks for a command for `prompt`.
pub open spec fn input_request(
    request_id: Seq<char>,
    prompt: Seq<char>,
    pwd: Seq<char>,
    session_id: Seq<char>,
) -> RequestView {
    RequestView {
        jsonrpc: JSONRPC_VERSION@,
        id: json_string(request_id),
        method: METHOD_INPUT@,
        prompt,
        pwd,
        session_id,
    }
}

/// Builds the envelope that asks for a command for `prompt`; its
/// identifier is the JSON string `request_id`.
pub fn build_request(request_id: &str, prompt: String, pwd: String, session_id: String) -> (request:
    JsonRpcRequest)
    ensures
        request@ == input_request(request_id@, prompt@, pwd@, session_id@),
{
    JsonRpcRequest {
        jsonrpc: String::from_str(JSONRPC_VERSION),
        id: RawJson::string(request_id),
        method: String::from_str(METHOD_INPUT),
        params: InputParams { prompt, pwd, session_id },
    }
}

/// The complaint about a daemon that is not listening at `socket_path`.
pub fn daemon_not_running(socket_path: &str) -> (message: String)
    ensures
        message@ == "Chitin daemon is not running (socket not found at "@ + socket_path@ + ")"@,
{
    let mut message = String::from_str("Chitin daemon is not running (socket not found at ");
    message.append(socket_path);
    message.append(")");
    message
}

/// What the client does with the daemon's answer.
pub enum ClientOutcome {
    /// Print the command for the shell to pick up.
    Command(String),
    /// Report the daemon's error and exit with failure.
    Failure(String),
    /// The answer held neither a result nor an error: do nothing.
    Nothing,
}

/// A client outcome as mathematical values.
pub enum OutcomeView {
    Command(Seq<char>),
    Failure(Seq<char>),
    Nothing,
}

impl View for ClientOutcome {
    type V = OutcomeView;

    open spec fn view(&self) -> OutcomeView {
        match self {
            ClientOutcome::Command(command) => OutcomeView::Command(command@),
            ClientOutcome::Failure(message) => OutcomeView::Failure(message@),
            ClientOutcome::Nothing => OutcomeView::Nothing,
        }
    }
}

/// What a response asks the client to do: an error is reported, whatever
/// else the response holds; else the command of the result is printed.
pub open spec fn outcome_of(response: ResponseView) -> OutcomeView {
    match response.error {
        Some(error) => OutcomeView::Failure(error.message),
        None => match response.result {
            Some(action) => OutcomeView::Command(action.command),
            None => OutcomeView::Nothing,
        },
    }
}

/// What the client makes of `len` bytes of answer decoded as `decoded`: an
/// empty answer and an undecodable one are failures of the exchange.
pub open spec fn interpretation(len: nat, decoded: Result<ResponseView, Seq<char>>) -> Result<
    OutcomeView,
    Seq<char>,
> {
    if len == 0 {
        Err("Empty response from daemon"@)
    } else {
        match decoded {
            Err(reason) => Err(reason),
            Ok(response) => Ok(outcome_of(response)),
        }
    }
}

/// The view of a decoded response.
pub open spec fn decoded_view(decoded: Result<JsonRpcResponse, String>) -> Result<
    ResponseView,
    Seq<char>,
> {
    match decoded {
        Ok(response) => Ok(response@),
        Err(reason) => Err(reason@),
    }
}

/// The view of an interpreted answer.
pub open spec fn interpreted_view(outcome: Result<ClientOutcome, String>) -> Result<
    OutcomeView,
    Seq<char>,
> {
    match outcome {
        Ok(outcome) => Ok(outcome@),
        Err(reason) => Err(reason@),
    }
}

/// Decides what to do with the daemon's answer of `len` bytes, decoded as
/// `decoded`.
pub fn interpret_response(len: usize, decoded: Result<JsonRpcResponse, String>) -> (outcome:
    Result<ClientOutcome, String>)
    ensures
        interpreted_view(outcome) == interpretation(len as nat, decoded_view(decoded)),
{
    if len == 0 {
        return Err(String::from_str("Empty response from daemon"));
    }
    match decoded {
        Err(reason) => Err(reason),
        Ok(response) => match response.error {
            Some(error) => Ok(ClientOutcome::Failure(error.message)),
            None => match response.result {
                Some(action) => Ok(ClientOutcome::Command(action.command)),
                None => Ok(ClientOutcome::Nothing),
            },
        },
    }
}

} // verus!
