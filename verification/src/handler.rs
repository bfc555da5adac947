//! The per-connection state machine.
//!
//! A connection waits for one request, validates it, enriches it with the
//! session's state, waits for the backend, records the outcome and answers
//! once.  The transport and the backend are driven from outside: they report
//! what happened as an [`Event`], and [`Connection::step`] says what to do
//! next.
use crate::protocol::{
    error_view, internal_error, invalid_params, invalid_request, method_not_found, success_view,
    ResponseActionView, JsonRpcRequest, JsonRpcResponse, RawJson, RequestView, ResponseAction,
    ResponseView, ACTION_REFILL, INTERNAL_ERROR, INVALID_PARAMS, INVALID_REQUEST, JSONRPC_VERSION,
    METHOD_INPUT, METHOD_NOT_FOUND,
};
use crate::provider::{Context, ContextView};
use crate::session::{session_of, with_input, with_output, SessionStore, SessionView};
use crate::text::{blank, is_blank, same};
use vstd::prelude::*;

verus! {

/// The answer owed to a request that fails validation, if it does: the
/// version is checked first, then the method, then the prompt, which must
/// hold more than white space.
pub open spec fn validation_error(request: RequestView) -> Option<ResponseView> {
    if request.jsonrpc != JSONRPC_VERSION@ {
        Some(error_view(request.id, INVALID_REQUEST as int, "jsonrpc must be 2.0"@, None))
    } else if request.method != METHOD_INPUT@ {
        Some(error_view(request.id, METHOD_NOT_FOUND as int, "unknown method"@, None))
    } else if is_blank(request.prompt) {
        Some(error_view(request.id, INVALID_PARAMS as int, "prompt is required"@, None))
    } else {
        None
    }
}

/// The view of an optional response.
pub open spec fn response_option_view(response: Option<JsonRpcResponse>) -> Option<ResponseView> {
    match response {
        Some(response) => Some(response@),
        None => None,
    }
}

/// Checks version, method and prompt, in that order, and returns the error
/// response owed for the first that fails.
pub fn validate(request: &JsonRpcRequest) -> (rejection: Option<JsonRpcResponse>)
    ensures
        response_option_view(rejection) == validation_error(request@),
{
    if !same(request.jsonrpc.as_str(), JSONRPC_VERSION) {
        Some(invalid_request(request.id.duplicate(), "jsonrpc must be 2.0"))
    } else if !same(request.method.as_str(), METHOD_INPUT) {
        Some(method_not_found(request.id.duplicate(), "unknown method"))
    } else if blank(request.params.prompt.as_str()) {
        Some(invalid_params(request.id.duplicate(), "prompt is required"))
    } else {
        None
    }
}

/// The context a backend is given for `request` once its prompt has been
/// recorded: the session's history then ends with that prompt.
pub open spec fn enriched(
    request: RequestView,
    sessions: Map<Seq<char>, SessionView>,
    limit: nat,
) -> ContextView {
    let session = session_of(
        with_input(sessions, limit, request.session_id, request.prompt),
        request.session_id,
    );
    ContextView {
        prompt: request.prompt,
        pwd: request.pwd,
        session_id: request.session_id,
        history: session.history,
        last_command: session.last_command,
    }
}

/// Records the prompt of `request` in its session, then builds the context
/// from the session as it stands after that.
pub fn enrich(request: &JsonRpcRequest, sessions: &mut SessionStore) -> (context: Context)
    ensures
        final(sessions).limit() == old(sessions).limit(),
        final(sessions)@ == with_input(
            old(sessions)@,
            old(sessions).limit(),
            request@.session_id,
            request@.prompt,
        ),
        context@ == enriched(request@, old(sessions)@, old(sessions).limit()),
{
    sessions.record_input(request.params.session_id.as_str(), request.params.prompt.as_str());
    let snapshot = sessions.snapshot(request.params.session_id.as_str());
    Context {
        prompt: request.params.prompt.clone(),
        pwd: request.params.pwd.clone(),
        session_id: request.params.session_id.clone(),
        history: snapshot.history,
        last_command: snapshot.last_command,
    }
}

/// The view of what a backend came back with.
pub open spec fn generated_view(generated: Result<String, String>) -> Result<Seq<char>, Seq<char>> {
    match generated {
        Ok(command) => Ok(command@),
        Err(cause) => Err(cause@),
    }
}

/// The answer to request `id` once the backend is done: the command as a
/// `refill` action, or the cause of the failure as an internal error.
pub open spec fn completion(id: Seq<char>, generated: Result<Seq<char>, Seq<char>>) -> ResponseView {
    match generated {
        Ok(command) => success_view(id, ResponseActionView { action_type: ACTION_REFILL@, command }),
        Err(cause) => error_view(id, INTERNAL_ERROR as int, cause, None),
    }
}

/// The sessions once the backend is done: a command becomes the last
/// command of `session_id`, a failure changes nothing.
pub open spec fn completed_sessions(
    sessions: Map<Seq<char>, SessionView>,
    session_id: Seq<char>,
    generated: Result<Seq<char>, Seq<char>>,
) -> Map<Seq<char>, SessionView> {
    match generated {
        Ok(command) => with_output(sessions, session_id, command),
        Err(_) => sessions,
    }
}

/// Records a generated command as the session's last command and answers
/// with it; answers a failed generation with its cause and records nothing.
pub fn record_and_respond(
    id: RawJson,
    session_id: &str,
    generated: Result<String, String>,
    sessions: &mut SessionStore,
) -> (response: JsonRpcResponse)
    ensures
        final(sessions).limit() == old(sessions).limit(),
        final(sessions)@ == completed_sessions(
            old(sessions)@,
            session_id@,
            generated_view(generated),
        ),
        response@ == completion(id@, generated_view(generated)),
{
    match generated {
        Ok(command) => {
            sessions.record_output(session_id, command.as_str());
            JsonRpcResponse::success(
                id,
                ResponseAction { action_type: String::from_str(ACTION_REFILL), command },
            )
        },
        Err(cause) => internal_error(id, cause.as_str()),
    }
}

/// How long a connection may take to deliver its request, in milliseconds.
pub const HANDSHAKE_TIMEOUT_MS: u64 = 200;

/// Where a connection stands.
pub enum Connection {
    /// Nothing has been read yet.
    AwaitRequest,
    /// The request was accepted and the backend is working on it.
    Generate { id: RawJson, session_id: String },
    /// The one response was handed over; nothing more will happen.
    Closed,
}

/// What the transport or the backend reports.
pub enum Event {
    /// The handshake time ran out before the peer finished sending.
    TimedOut,
    /// The peer sent `len` bytes and closed its sending side; `decoded` is
    /// the envelope read from them, or why none could be.
    Received { len: usize, decoded: Result<JsonRpcRequest, String> },
    /// The backend returned a command, or failed for the given cause.
    Generated(Result<String, String>),
}

/// What the driver of a connection has to do next.
pub enum Action {
    /// Invoke the active backend with this context and report the outcome.
    Generate(Context),
    /// Write this response and close the sending side.
    Respond(JsonRpcResponse),
    /// Nothing.
    Nothing,
}

/// A connection state as mathematical values.
pub enum ConnectionView {
    AwaitRequest,
    Generate { id: Seq<char>, session_id: Seq<char> },
    Closed,
}

/// An event as mathematical values.
pub enum EventView {
    TimedOut,
    Received { len: nat, decoded: Result<RequestView, Seq<char>> },
    Generated(Result<Seq<char>, Seq<char>>),
}

/// An action as mathematical values.
pub enum ActionView {
    Generate(ContextView),
    Respond(ResponseView),
    Nothing,
}

impl View for Connection {
    type V = ConnectionView;

    open spec fn view(&self) -> ConnectionView {
        match self {
            Connection::AwaitRequest => ConnectionView::AwaitRequest,
            Connection::Generate { id, session_id } => ConnectionView::Generate {
                id: id@,
                session_id: session_id@,
            },
            Connection::Closed => ConnectionView::Closed,
        }
    }
}

impl View for Event {
    type V = EventView;

    open spec fn view(&self) -> EventView {
        match self {
            Event::TimedOut => EventView::TimedOut,
            Event::Received { len, decoded } => EventView::Received {
                len: *len as nat,
                decoded: match decoded {
                    Ok(request) => Ok(request@),
                    Err(reason) => Err(reason@),
                },
            },
            Event::Generated(generated) => EventView::Generated(generated_view(*generated)),
        }
    }
}

impl View for Action {
    type V = ActionView;

    open spec fn view(&self) -> ActionView {
        match self {
            Action::Generate(context) => ActionView::Generate(context@),
            Action::Respond(response) => ActionView::Respond(response@),
            Action::Nothing => ActionView::Nothing,
        }
    }
}

/// One move of a connection: where it goes, what is to be done, and the
/// sessions afterwards.
pub struct Transition {
    pub state: ConnectionView,
    pub action: ActionView,
    pub sessions: Map<Seq<char>, SessionView>,
}

/// The rejection of a request that never became an envelope: it has no
/// identifier to echo, so the identifier is `null`.
pub open spec fn unreadable(message: Seq<char>) -> ResponseView {
    error_view("null"@, INVALID_REQUEST as int, message, None)
}

/// The move a connection in `state` makes on `event`.
///
/// A waiting connection rejects a timeout, an empty request and an
/// undecodable one; it rejects an envelope that fails validation; otherwise
/// it records the prompt and asks for a command.  A generating connection
/// records the command and answers, or answers with the failure.  Each of
/// these answers closes the connection.  An event the state does not wait
/// for is ignored.
pub open spec fn transition(
    state: ConnectionView,
    event: EventView,
    sessions: Map<Seq<char>, SessionView>,
    limit: nat,
) -> Transition {
    match (state, event) {
        (ConnectionView::AwaitRequest, EventView::TimedOut) => Transition {
            state: ConnectionView::Closed,
            action: ActionView::Respond(unreadable("timeout waiting for request"@)),
            sessions,
        },
        (ConnectionView::AwaitRequest, EventView::Received { len, decoded }) => {
            if len == 0 {
                Transition {
                    state: ConnectionView::Closed,
                    action: ActionView::Respond(unreadable("empty request"@)),
                    sessions,
                }
            } else {
                match decoded {
                    Err(reason) => Transition {
                        state: ConnectionView::Closed,
                        action: ActionView::Respond(unreadable("invalid json: "@ + reason)),
                        sessions,
                    },
                    Ok(request) => match validation_error(request) {
                        Some(rejection) => Transition {
                            state: ConnectionView::Closed,
                            action: ActionView::Respond(rejection),
                            sessions,
                        },
                        None => Transition {
                            state: ConnectionView::Generate {
                                id: request.id,
                                session_id: request.session_id,
                            },
                            action: ActionView::Generate(enriched(request, sessions, limit)),
                            sessions: with_input(
                                sessions,
                                limit,
                                request.session_id,
                                request.prompt,
                            ),
                        },
                    },
                }
            }
        },
        (ConnectionView::Generate { id, session_id }, EventView::Generated(generated)) => Transition {
            state: ConnectionView::Closed,
            action: ActionView::Respond(completion(id, generated)),
            sessions: completed_sessions(sessions, session_id, generated),
        },
        _ => Transition { state, action: ActionView::Nothing, sessions },
    }
}

impl Connection {
    /// A connection that has just been accepted.
    pub fn new() -> (connection: Connection)
        ensures
            connection@ == ConnectionView::AwaitRequest,
    {
        Connection::AwaitRequest
    }

    /// Whether the connection has nothing more to do.
    pub fn is_closed(&self) -> (closed: bool)
        ensures
            closed == (self@ == ConnectionView::Closed),
    {
        match self {
            Connection::Closed => true,
            _ => false,
        }
    }

    /// Takes `event` and returns the next state with what is to be done.
    pub fn step(self, event: Event, sessions: &mut SessionStore) -> (next: (Connection, Action))
        ensures
            final(sessions).limit() == old(sessions).limit(),
            next.0@ == transition(self@, event@, old(sessions)@, old(sessions).limit()).state,
            next.1@ == transition(self@, event@, old(sessions)@, old(sessions).limit()).action,
            final(sessions)@ == transition(
                self@,
                event@,
                old(sessions)@,
                old(sessions).limit(),
            ).sessions,
    {
        match (self, event) {
            (Connection::AwaitRequest, Event::TimedOut) => {
                let response = invalid_request(RawJson::null(), "timeout waiting for request");
                (Connection::Closed, Action::Respond(response))
            },
            (Connection::AwaitRequest, Event::Received { len, decoded }) => {
                if len == 0 {
                    let response = invalid_request(RawJson::null(), "empty request");
                    (Connection::Closed, Action::Respond(response))
                } else {
                    match decoded {
                        Err(reason) => {
                            let mut message = String::from_str("invalid json: ");
                            message.append(reason.as_str());
                            let response = invalid_request(RawJson::null(), message.as_str());
                            (Connection::Closed, Action::Respond(response))
                        },
                        Ok(request) => match validate(&request) {
                            Some(rejection) => (Connection::Closed, Action::Respond(rejection)),
                            None => {
                                let context = enrich(&request, sessions);
                                (
                                    Connection::Generate {
                                        id: request.id,
                                        session_id: request.params.session_id,
                                    },
                                    Action::Generate(context),
                                )
                            },
                        },
                    }
                }
            },
            (Connection::Generate { id, session_id }, Event::Generated(generated)) => {
                let response = record_and_respond(id, session_id.as_str(), generated, sessions);
                (Connection::Closed, Action::Respond(response))
            },
            (state, _) => (state, Action::Nothing),
        }
    }
}

/// How writing the response failed.
pub enum WriteFailure {
    /// The peer had closed its end.
    BrokenPipe,
    /// The peer reset the connection.
    ConnectionReset,
    /// Any other failure.
    Other,
}

/// Whether a failed write only means that the peer has gone away, which is
/// no fault of the connection.
pub fn is_broken_pipe(failure: &WriteFailure) -> (benign: bool)
    ensures
        benign == (failure is BrokenPipe || failure is ConnectionReset),
{
    match failure {
        WriteFailure::BrokenPipe => true,
        WriteFailure::ConnectionReset => true,
        WriteFailure::Other => false,
    }
}

/// The error code of the response that `action` sends, if it sends an
/// error.
pub open spec fn error_code(action: ActionView) -> Option<int> {
    match action {
        ActionView::Respond(response) => match response.error {
            Some(error) => Some(error.code),
            None => None,
        },
        _ => None,
    }
}

/// What a waiting connection does with the envelope `request` read from
/// `len` bytes.
pub open spec fn received(
    request: RequestView,
    len: nat,
    sessions: Map<Seq<char>, SessionView>,
    limit: nat,
) -> Transition {
    transition(
        ConnectionView::AwaitRequest,
        EventView::Received { len, decoded: Ok(request) },
        sessions,
        limit,
    )
}

/// A request whose version tag is not `2.0` is answered with an invalid
/// request error, and changes no session.
pub proof fn wrong_version_is_invalid_request(
    request: RequestView,
    len: nat,
    sessions: Map<Seq<char>, SessionView>,
    limit: nat,
)
    requires
        request.jsonrpc != JSONRPC_VERSION@,
    ensures
        error_code(received(request, len, sessions, limit).action) == Some(INVALID_REQUEST as int),
        received(request, len, sessions, limit).state == ConnectionView::Closed,
        received(request, len, sessions, limit).sessions == sessions,
{
}

/// A request of the right version for a method other than `chitin.input`
/// is answered with a method-not-found error, and changes no session.
pub proof fn unknown_method_is_method_not_found(
    request: RequestView,
    len: nat,
    sessions: Map<Seq<char>, SessionView>,
    limit: nat,
)
    requires
        len > 0,
        request.jsonrpc == JSONRPC_VERSION@,
        request.method != METHOD_INPUT@,
    ensures
        error_code(received(request, len, sessions, limit).action) == Some(
            METHOD_NOT_FOUND as int,
        ),
        received(request, len, sessions, limit).state == ConnectionView::Closed,
        received(request, len, sessions, limit).sessions == sessions,
{
}

/// A request of the right version and method whose prompt is empty or all
/// white space is answered with an invalid-parameters error, and changes
/// no session.
pub proof fn blank_prompt_is_invalid_params(
    request: RequestView,
    len: nat,
    sessions: Map<Seq<char>, SessionView>,
    limit: nat,
)
    requires
        len > 0,
        request.jsonrpc == JSONRPC_VERSION@,
        request.method == METHOD_INPUT@,
        is_blank(request.prompt),
    ensures
        error_code(received(request, len, sessions, limit).action) == Some(INVALID_PARAMS as int),
        received(request, len, sessions, limit).state == ConnectionView::Closed,
        received(request, len, sessions, limit).sessions == sessions,
{
}

/// A valid request records its prompt once and asks the backend, with a
/// context whose history ends with that prompt.
pub proof fn valid_request_is_enriched(
    request: RequestView,
    len: nat,
    sessions: Map<Seq<char>, SessionView>,
    limit: nat,
)
    requires
        len > 0,
        limit > 0,
        validation_error(request) is None,
    ensures
        received(request, len, sessions, limit).action matches ActionView::Generate(context)
            && context.history.len() > 0 && context.history.last() == request.prompt,
        received(request, len, sessions, limit).sessions == with_input(
            sessions,
            limit,
            request.session_id,
            request.prompt,
        ),
{
}

/// A backend failure is answered with an internal error that carries the
/// cause, and changes no session: the last command stays what it was.
pub proof fn backend_failure_is_internal_error(
    id: Seq<char>,
    session_id: Seq<char>,
    cause: Seq<char>,
    sessions: Map<Seq<char>, SessionView>,
    limit: nat,
)
    ensures
        ({
            let step = transition(
                ConnectionView::Generate { id, session_id },
                EventView::Generated(Err(cause)),
                sessions,
                limit,
            );
            &&& step.action == ActionView::Respond(
                error_view(id, INTERNAL_ERROR as int, cause, None),
            )
            &&& step.state == ConnectionView::Closed
            &&& step.sessions == sessions
        }),
{
}

/// A generated command becomes the session's last command and is sent as
/// a `refill` action under the request's identifier; the history stays.
pub proof fn generated_command_is_recorded(
    id: Seq<char>,
    session_id: Seq<char>,
    command: Seq<char>,
    sessions: Map<Seq<char>, SessionView>,
    limit: nat,
)
    ensures
        ({
            let step = transition(
                ConnectionView::Generate { id, session_id },
                EventView::Generated(Ok(command)),
                sessions,
                limit,
            );
            &&& step.action == ActionView::Respond(
                success_view(
                    id,
                    ResponseActionView { action_type: ACTION_REFILL@, command },
                ),
            )
            &&& step.state == ConnectionView::Closed
            &&& session_of(step.sessions, session_id).last_command == Some(command)
            &&& session_of(step.sessions, session_id).history == session_of(
                sessions,
                session_id,
            ).history
        }),
{
}

/// Of two requests that follow each other on one session, the context of
/// the second holds the prompt of the first just before its own, where the
/// history may hold two prompts.
pub proof fn context_holds_previous_prompt(
    first: RequestView,
    second: RequestView,
    generated: Result<Seq<char>, Seq<char>>,
    sessions: Map<Seq<char>, SessionView>,
    limit: nat,
)
    requires
        limit >= 2,
        first.session_id == second.session_id,
    ensures
        ({
            let after_first = completed_sessions(
                with_input(sessions, limit, first.session_id, first.prompt),
                first.session_id,
                generated,
            );
            let history = enriched(second, after_first, limit).history;
            &&& history.len() >= 2
            &&& history[history.len() - 2] == first.prompt
            &&& history.last() == second.prompt
        }),
{
}

/// A closed connection stays closed and asks for nothing more: a
/// connection sends at most one response.
pub proof fn closed_stays_closed(
    event: EventView,
    sessions: Map<Seq<char>, SessionView>,
    limit: nat,
)
    ensures
        transition(ConnectionView::Closed, event, sessions, limit) == (Transition {
            state: ConnectionView::Closed,
            action: ActionView::Nothing,
            sessions,
        }),
{
}

/// Where a move sends a response, it closes the connection.
pub proof fn response_closes(
    state: ConnectionView,
    event: EventView,
    sessions: Map<Seq<char>, SessionView>,
    limit: nat,
)
    ensures
        transition(state, event, sessions, limit).action is Respond ==> transition(
            state,
            event,
            sessions,
            limit,
        ).state == ConnectionView::Closed,
{
}

} // verus!
