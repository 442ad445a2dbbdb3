//! The dispatch engine: it reads a message, finds the action that its method
//! names, runs it on the server's state, and replies.

use vstd::prelude::*;
use std::marker::PhantomData;
use vstd::string::StringExecFns;
use crate::actions::notifications::{
    Cancel, DidChange, DidChangeWatchedFiles, DidOpen, DidSave, Initialized,
};
use crate::actions::requests::{Completion, ResolveCompletion};
use crate::actions::ActionContext;
use crate::json::{
    as_string, json_document, json_kind, json_member, json_string, kind_of, member, parse_value,
    render, JsonKind,
};
use crate::lsp_data::{
    decode_initialize_params, decoded_initialize_params, initialize_result_text,
    render_initialize_result, CompletionOptions, CompletionOptionsView, InitializationOptions,
    InitializeParams, InitializeResult, ServerCapabilities, ServerCapabilitiesView,
    TextDocumentSyncKind,
};
use crate::rpc::{
    failure_text, parse_usize, parsed_usize, success_envelope, Id, IdView, RpcError,
};
use crate::server::io::{failure, success, MessageReader, Output, Sink};
use crate::span::{path_from, path_text};
use crate::text::same_text;
use crate::vfs::Change;

pub mod io;
pub mod laws;

verus! {

/// The answer to a request that asks for nothing but to be acknowledged.
#[derive(Debug, Clone, Copy, PartialEq, Eq, Structural)]
pub struct Ack;

/// The parameters of an action that takes none. Whatever a message holds in
/// their place is accepted and ignored.
#[derive(Debug, Clone, Copy, PartialEq, Eq, Structural)]
pub struct NoParams;

/// What the server remembers of the protocol's life cycle.
#[derive(Debug, Clone, Copy, PartialEq, Eq, Structural)]
pub struct LsState {
    /// Whether `shutdown` was requested.
    pub shut_down: bool,
}

/// Whether the loop goes on after a message.
#[derive(Eq, PartialEq, Debug, Clone, Copy, Structural)]
pub enum ServerStateChange {
    Continue,
    Break,
}

/// A break of the protocol by the client that the server does not survive.
#[derive(Debug, Clone, Copy, PartialEq, Eq, Structural)]
pub enum Fault {
    /// An action that needs the workspace came before `initialize`.
    NotInitialized,
    /// `initialize` came twice.
    AlreadyInitialized,
    /// `initialize` named no root path.
    NoRootPath,
}

impl Fault {
    pub fn description(&self) -> (text: &'static str)
        ensures
            text@ == match self {
                Fault::NotInitialized => "ActionContext not initialized"@,
                Fault::AlreadyInitialized => "ActionContext already initialized"@,
                Fault::NoRootPath => "No root path"@,
            },
    {
        match self {
            Fault::NotInitialized => "ActionContext not initialized",
            Fault::AlreadyInitialized => "ActionContext already initialized",
            Fault::NoRootPath => "No root path",
        }
    }
}

/// Why an action did not do its work.
#[derive(Debug, Clone, Copy, PartialEq, Eq, Structural)]
pub enum ActionError {
    /// The action gave up on the message. The connection goes on, a request
    /// stays without an answer, and the caller is left to take note.
    Failure,
    /// The client broke the protocol.
    Violation(Fault),
}

/// What a message leaves for the caller to do, once the engine is done with it.
#[derive(Debug, PartialEq, Eq)]
pub enum Effect {
    /// Nothing.
    Nothing,
    /// Nothing but to take note: the action gave up on the message.
    Failed,
    /// Nothing but to take note: the method of the message names no action.
    MethodNotFound,
    /// Set the text of a file in the store.
    SetFile { path: std::path::PathBuf, text: String },
    /// Hand the changes to a file to the store, all or none of them.
    Changes { file: std::path::PathBuf, changes: Vec<Change> },
    /// Tell the store that a file was saved.
    FileSaved { path: std::path::PathBuf },
    /// End the process with this exit code.
    Exit(i32),
    /// Give up the connection: the client broke the protocol.
    Abort(Fault),
}

/// What an action has in common with every other: the method that names it
/// on the wire, and the shape of its parameters.
pub trait Action: Sized {
    type Params;

    /// The method that names the action in a message.
    spec fn method() -> Seq<char>;

    /// The parameters that the JSON text `params` holds, or `None` where it
    /// holds none of the action's shape.
    spec fn decoded(params: Seq<char>) -> Option<Self::Params>;

    fn method_name() -> (name: &'static str)
        ensures
            name@ == Self::method(),
    ;

    fn decode(params: &str) -> (res: Option<Self::Params>)
        ensures
            res == Self::decoded(params@),
    ;

    fn new() -> Self;
}

/// An action that is not answered.
pub trait NotificationAction: Action {
    /// Whether `handle` may turn the state `state` and the context `ctx`
    /// into `new_state` and `new_ctx` and return `res` for `params`.
    spec fn handled(
        params: Self::Params,
        state: LsState,
        ctx: ActionContext,
        new_state: LsState,
        new_ctx: ActionContext,
        res: Result<Effect, ActionError>,
    ) -> bool;

    /// Acts on the notification. It sends nothing.
    fn handle<O: Output>(
        &mut self,
        params: Self::Params,
        state: &mut LsState,
        ctx: &mut ActionContext,
        out: &mut Sink<O>,
    ) -> (res: Result<Effect, ActionError>)
        ensures
            final(out).sent() == old(out).sent(),
            Self::handled(params, *old(state), *old(ctx), *final(state), *final(ctx), res),
    ;
}

/// An action that is answered.
pub trait RequestAction: Action {
    type Response;

    /// Whether `handle` may turn the state, the context and the replies sent
    /// so far into the new ones and return `res` for the request `id` with
    /// `params`.
    spec fn handled(
        id: usize,
        params: Self::Params,
        state: LsState,
        ctx: ActionContext,
        sent: Seq<Seq<char>>,
        new_state: LsState,
        new_ctx: ActionContext,
        new_sent: Seq<Seq<char>>,
        res: Result<Self::Response, ActionError>,
    ) -> bool;

    /// The JSON text of a response, or `None` for a response that the
    /// engine does not send: the action has answered by itself.
    spec fn rendered(response: Self::Response) -> Option<Seq<char>>;

    fn render(response: &Self::Response) -> (text: Option<String>)
        ensures
            match text {
                Some(t) => Self::rendered(*response) == Some(t@),
                None => Self::rendered(*response) is None,
            },
    ;

    /// Answers the request, or leaves the answer to the engine.
    fn handle<O: Output>(
        &mut self,
        id: usize,
        params: Self::Params,
        state: &mut LsState,
        ctx: &mut ActionContext,
        out: &mut Sink<O>,
    ) -> (res: Result<Self::Response, ActionError>)
        ensures
            Self::handled(
                id,
                params,
                *old(state),
                *old(ctx),
                old(out).sent(),
                *final(state),
                *final(ctx),
                final(out).sent(),
                res,
            ),
    ;
}

/// A request that was read from a message, ready to be handled.
pub struct Request<A: RequestAction> {
    pub id: usize,
    pub params: A::Params,
    pub _action: PhantomData<A>,
}

/// A notification that was read from a message, ready to be handled.
pub struct Notification<A: NotificationAction> {
    pub params: A::Params,
    pub _action: PhantomData<A>,
}

/// The replies after the engine has dealt with what `handle` returned for
/// the request `id`: the text of the response is sent, where it has one.
pub open spec fn replied<A: RequestAction>(
    id: usize,
    sent: Seq<Seq<char>>,
    res: Result<A::Response, ActionError>,
) -> Seq<Seq<char>> {
    match res {
        Ok(response) => match A::rendered(response) {
            Some(text) => sent.push(success_envelope(id as nat, text)),
            None => sent,
        },
        Err(_) => sent,
    }
}

impl<A: RequestAction> Request<A> {
    /// Runs the action and sends its response.
    pub fn dispatch<O: Output>(
        self,
        state: &mut LsState,
        ctx: &mut ActionContext,
        out: &mut Sink<O>,
    ) -> (res: Result<A::Response, ActionError>)
        ensures
            exists|handler_sent: Seq<Seq<char>>|
                {
                    &&& #[trigger] A::handled(
                        self.id,
                        self.params,
                        *old(state),
                        *old(ctx),
                        old(out).sent(),
                        *final(state),
                        *final(ctx),
                        handler_sent,
                        res,
                    )
                    &&& final(out).sent() == replied::<A>(self.id, handler_sent, res)
                },
    {
        let mut action = A::new();
        let result = action.handle(self.id, self.params, state, ctx, out);
        let ghost handler_sent = out.sent();
        match result {
            Ok(response) => {
                match A::render(&response) {
                    Some(text) => success(out, self.id, text.as_str()),
                    None => {},
                }
                Ok(response)
            },
            Err(e) => Err(e),
        }
    }
}

impl<A: NotificationAction> Notification<A> {
    /// Runs the action.
    pub fn dispatch<O: Output>(
        self,
        state: &mut LsState,
        ctx: &mut ActionContext,
        out: &mut Sink<O>,
    ) -> (res: Result<Effect, ActionError>)
        ensures
            final(out).sent() == old(out).sent(),
            A::handled(self.params, *old(state), *old(ctx), *final(state), *final(ctx), res),
    {
        let mut action = A::new();
        action.handle(self.params, state, ctx, out)
    }
}

/// `shutdown`: the client is about to leave.
pub struct ShutdownRequest;

impl Action for ShutdownRequest {
    type Params = NoParams;

    open spec fn method() -> Seq<char> {
        "shutdown"@
    }

    open spec fn decoded(params: Seq<char>) -> Option<NoParams> {
        Some(NoParams)
    }

    fn method_name() -> (name: &'static str) {
        "shutdown"
    }

    fn decode(params: &str) -> (res: Option<NoParams>) {
        Some(NoParams)
    }

    fn new() -> Self {
        ShutdownRequest
    }
}

impl RequestAction for ShutdownRequest {
    type Response = Ack;

    open spec fn handled(
        id: usize,
        params: NoParams,
        state: LsState,
        ctx: ActionContext,
        sent: Seq<Seq<char>>,
        new_state: LsState,
        new_ctx: ActionContext,
        new_sent: Seq<Seq<char>>,
        res: Result<Ack, ActionError>,
    ) -> bool {
        &&& new_state.shut_down
        &&& new_ctx == ctx
        &&& new_sent == sent
        &&& res == Ok::<_, ActionError>(Ack)
    }

    open spec fn rendered(response: Ack) -> Option<Seq<char>> {
        Some("null"@)
    }

    fn render(response: &Ack) -> (text: Option<String>) {
        Some(String::from_str("null"))
    }

    /// Remembers that the client asked to shut down.
    fn handle<O: Output>(
        &mut self,
        _id: usize,
        _params: NoParams,
        state: &mut LsState,
        ctx: &mut ActionContext,
        out: &mut Sink<O>,
    ) -> (res: Result<Ack, ActionError>) {
        state.shut_down = true;
        Ok(Ack)
    }
}

/// `exit`: the client has left.
#[derive(Debug)]
pub struct ExitNotification;

impl ExitNotification {
    /// The exit code of the process: 0 after `shutdown`, 1 without it.
    pub open spec fn exit_code(state: LsState) -> i32 {
        if state.shut_down {
            0
        } else {
            1
        }
    }
}

impl Action for ExitNotification {
    type Params = NoParams;

    open spec fn method() -> Seq<char> {
        "exit"@
    }

    open spec fn decoded(params: Seq<char>) -> Option<NoParams> {
        Some(NoParams)
    }

    fn method_name() -> (name: &'static str) {
        "exit"
    }

    fn decode(params: &str) -> (res: Option<NoParams>) {
        Some(NoParams)
    }

    fn new() -> Self {
        ExitNotification
    }
}

impl NotificationAction for ExitNotification {
    open spec fn handled(
        params: NoParams,
        state: LsState,
        ctx: ActionContext,
        new_state: LsState,
        new_ctx: ActionContext,
        res: Result<Effect, ActionError>,
    ) -> bool {
        &&& new_state == state
        &&& new_ctx == ctx
        &&& res == Ok::<_, ActionError>(Effect::Exit(Self::exit_code(state)))
    }

    /// Asks for the end of the process.
    fn handle<O: Output>(
        &mut self,
        _params: NoParams,
        state: &mut LsState,
        ctx: &mut ActionContext,
        out: &mut Sink<O>,
    ) -> (res: Result<Effect, ActionError>) {
        let code: i32 = if state.shut_down {
            0
        } else {
            1
        };
        Ok(Effect::Exit(code))
    }
}

/// `initialize`: the first request of a client.
pub struct InitializeRequest;

impl InitializeRequest {
    /// What the server advertises: documents are synced by their changes;
    /// completion is offered, is triggered by `.` and `:`, and its items can
    /// be resolved.
    pub open spec fn advertised() -> ServerCapabilitiesView {
        ServerCapabilitiesView {
            text_document_sync: Some(TextDocumentSyncKind::Incremental),
            completion_provider: Some(
                CompletionOptionsView {
                    resolve_provider: Some(true),
                    trigger_characters: seq!["."@, ":"@],
                },
            ),
        }
    }

    /// The capabilities of the server.
    pub fn capabilities() -> (res: ServerCapabilities)
        ensures
            res@ == Self::advertised(),
    {
        let mut trigger_characters: Vec<String> = Vec::new();
        trigger_characters.push(String::from_str("."));
        trigger_characters.push(String::from_str(":"));
        let options = CompletionOptions { resolve_provider: Some(true), trigger_characters };
        proof {
            assert(options@.trigger_characters =~= seq!["."@, ":"@]);
        }
        ServerCapabilities {
            text_document_sync: Some(TextDocumentSyncKind::Incremental),
            completion_provider: Some(options),
        }
    }

    /// The text of the answer to the request `id`.
    pub open spec fn answer(id: usize) -> Seq<char> {
        success_envelope(id as nat, initialize_result_text(Self::advertised()))
    }
}

impl Action for InitializeRequest {
    type Params = InitializeParams;

    open spec fn method() -> Seq<char> {
        "initialize"@
    }

    open spec fn decoded(params: Seq<char>) -> Option<InitializeParams> {
        decoded_initialize_params(params)
    }

    fn method_name() -> (name: &'static str) {
        "initialize"
    }

    fn decode(params: &str) -> (res: Option<InitializeParams>) {
        decode_initialize_params(params)
    }

    fn new() -> Self {
        InitializeRequest
    }
}

impl RequestAction for InitializeRequest {
    type Response = ();

    open spec fn handled(
        id: usize,
        params: InitializeParams,
        state: LsState,
        ctx: ActionContext,
        sent: Seq<Seq<char>>,
        new_state: LsState,
        new_ctx: ActionContext,
        new_sent: Seq<Seq<char>>,
        res: Result<(), ActionError>,
    ) -> bool {
        &&& new_state == state
        &&& new_sent == sent.push(Self::answer(id))
        &&& match params.root_path {
            None => new_ctx == ctx && res == Err::<(), _>(
                ActionError::Violation(Fault::NoRootPath),
            ),
            Some(root) => if ctx.is_init() {
                new_ctx == ctx && res == Err::<(), _>(
                    ActionError::Violation(Fault::AlreadyInitialized),
                )
            } else {
                &&& new_ctx matches ActionContext::Init(workspace)
                &&& path_text(workspace.current_project) == root@
                &&& res == Ok::<_, ActionError>(())
            },
        }
    }

    open spec fn rendered(response: ()) -> Option<Seq<char>> {
        None
    }

    fn render(response: &()) -> (text: Option<String>) {
        None
    }

    /// Answers with the capabilities of the server, then takes the root
    /// path of the workspace into the context. The answer is sent first, so
    /// that it is sent whatever becomes of the rest.
    fn handle<O: Output>(
        &mut self,
        id: usize,
        params: InitializeParams,
        state: &mut LsState,
        ctx: &mut ActionContext,
        out: &mut Sink<O>,
    ) -> (res: Result<(), ActionError>) {
        let init_options = match &params.initialization_options {
            Some(options) => InitializationOptions::from_json(options),
            None => InitializationOptions::default(),
        };
        let result = InitializeResult { capabilities: InitializeRequest::capabilities() };
        let text = render_initialize_result(&result);
        success(out, id, text.as_str());
        let root_path = match params.root_path {
            Some(root) => path_from(root),
            None => {
                return Err(ActionError::Violation(Fault::NoRootPath));
            },
        };
        if ctx.initialized() {
            return Err(ActionError::Violation(Fault::AlreadyInitialized));
        }
        ctx.init(root_path, &init_options);
        Ok(())
    }
}

/// A message as it was read: its method, its id where it has one that can
/// be told, and the compact JSON text of its parameters, `null` where it has
/// none.
#[derive(Debug, PartialEq, Eq)]
pub struct RawMessage {
    pub method: String,
    pub id: Option<Id>,
    pub params: String,
}

/// What a `RawMessage` holds.
pub struct RawMessageView {
    pub method: Seq<char>,
    pub id: Option<IdView>,
    pub params: Seq<char>,
}

impl View for RawMessage {
    type V = RawMessageView;

    open spec fn view(&self) -> RawMessageView {
        RawMessageView {
            method: self.method@,
            id: match self.id {
                Some(id) => Some(id@),
                None => None,
            },
            params: self.params@,
        }
    }
}

/// The parameters of the message `doc`: the member `params` where it is an
/// object or an array, `null` where it is `null` or missing, and `None`
/// where it is anything else.
pub open spec fn parsed_params(doc: Seq<char>) -> Option<Seq<char>> {
    match json_member(doc, "params"@) {
        None => Some("null"@),
        Some(params) => match json_kind(params) {
            JsonKind::Object => Some(params),
            JsonKind::Array => Some(params),
            JsonKind::Null => Some("null"@),
            _ => None,
        },
    }
}

/// The id of the message `doc`: what the member `id` holds, where it is
/// there and an id can be read from it.
pub open spec fn parsed_id(doc: Seq<char>) -> Option<IdView> {
    match json_member(doc, "id"@) {
        None => None,
        Some(id) => Id::read_from(id),
    }
}

/// What a message's text is read as. Text that is no JSON is a parse error.
/// A document without a member `method` is an answer of the client and is
/// passed over: `Ok(None)`. A method that is no string, and parameters that
/// are neither an object, an array nor `null`, make an invalid request.
pub open spec fn parsed_message(text: Seq<char>) -> Result<Option<RawMessageView>, RpcError> {
    match json_document(text) {
        None => Err(RpcError::ParseError),
        Some(doc) => match json_member(doc, "method"@) {
            None => Ok(None),
            Some(method) => match json_string(method) {
                None => Err(RpcError::InvalidRequest),
                Some(name) => match parsed_params(doc) {
                    None => Err(RpcError::InvalidRequest),
                    Some(params) => Ok(
                        Some(RawMessageView { method: name, id: parsed_id(doc), params }),
                    ),
                },
            },
        },
    }
}

/// The number that a request is answered under: a numeric id, or a string
/// id that spells a number in base 10. A message without such an id is no
/// request.
pub open spec fn numeric_id(id: Option<IdView>) -> Option<usize> {
    match id {
        Some(IdView::Num(n)) => Some(n as usize),
        Some(IdView::Str(s)) => parsed_usize(s),
        _ => None,
    }
}

impl RawMessage {
    /// Reads the message as a request of the action `T`: its id must be a
    /// number, and its parameters of the action's shape.
    pub fn parse_as_request<T: RequestAction>(&self) -> (res: Result<Request<T>, RpcError>)
        ensures
            match (numeric_id(self@.id), T::decoded(self@.params)) {
                (Some(id), Some(params)) => res is Ok && res->Ok_0.id == id && res->Ok_0.params
                    == params,
                _ => res is Err && res->Err_0 == RpcError::InvalidRequest,
            },
    {
        let parsed_numeric_id = match &self.id {
            Some(Id::Num(n)) => Some(#[verifier::truncate] (*n as usize)),
            Some(Id::Str(s)) => parse_usize(s.as_str()),
            _ => None,
        };
        let params = match T::decode(self.params.as_str()) {
            Some(params) => params,
            None => {
                return Err(RpcError::InvalidRequest);
            },
        };
        match parsed_numeric_id {
            Some(id) => Ok(Request { id, params, _action: PhantomData }),
            None => Err(RpcError::InvalidRequest),
        }
    }

    /// Reads the message as a notification of the action `T`: its
    /// parameters must be of the action's shape.
    pub fn parse_as_notification<T: NotificationAction>(&self) -> (res: Result<
        Notification<T>,
        RpcError,
    >)
        ensures
            match T::decoded(self@.params) {
                Some(params) => res is Ok && res->Ok_0.params == params,
                None => res is Err && res->Err_0 == RpcError::InvalidRequest,
            },
    {
        match T::decode(self.params.as_str()) {
            Some(params) => Ok(Notification { params, _action: PhantomData }),
            None => Err(RpcError::InvalidRequest),
        }
    }
}

/// What is left to do after an action has returned `res`: the effect that
/// it asks for, a note where it gave up, and the end of the connection
/// where the client broke the protocol.
pub open spec fn effect_of(res: Result<Effect, ActionError>) -> Effect {
    match res {
        Ok(effect) => effect,
        Err(ActionError::Failure) => Effect::Failed,
        Err(ActionError::Violation(fault)) => Effect::Abort(fault),
    }
}

/// The same for a request, whose response leaves nothing to do.
pub open spec fn verdict_of<T>(res: Result<T, ActionError>) -> Effect {
    match res {
        Ok(_) => Effect::Nothing,
        Err(ActionError::Failure) => Effect::Failed,
        Err(ActionError::Violation(fault)) => Effect::Abort(fault),
    }
}

/// Whether the engine may turn the state, the context and the replies into
/// the new ones and return `res` when it takes `msg` for a notification of
/// the action `A`. Nothing is sent. Parameters of another shape are an
/// invalid request, and the action is not run.
pub open spec fn notified<A: NotificationAction>(
    msg: RawMessageView,
    state: LsState,
    ctx: ActionContext,
    sent: Seq<Seq<char>>,
    new_state: LsState,
    new_ctx: ActionContext,
    new_sent: Seq<Seq<char>>,
    res: Result<Effect, RpcError>,
) -> bool {
    &&& new_sent == sent
    &&& match A::decoded(msg.params) {
        None => {
            &&& new_state == state
            &&& new_ctx == ctx
            &&& res == Err::<Effect, _>(RpcError::InvalidRequest)
        },
        Some(params) => exists|r: Result<Effect, ActionError>|
            {
                &&& #[trigger] A::handled(params, state, ctx, new_state, new_ctx, r)
                &&& res == Ok::<_, RpcError>(effect_of(r))
            },
    }
}

/// The same for a request of the action `A`. Its response is sent under the
/// id of the request. A message without an id that is a number, or with
/// parameters of another shape, is an invalid request, and the action is not
/// run.
pub open spec fn requested<A: RequestAction>(
    msg: RawMessageView,
    state: LsState,
    ctx: ActionContext,
    sent: Seq<Seq<char>>,
    new_state: LsState,
    new_ctx: ActionContext,
    new_sent: Seq<Seq<char>>,
    res: Result<Effect, RpcError>,
) -> bool {
    match (numeric_id(msg.id), A::decoded(msg.params)) {
        (Some(id), Some(params)) => exists|
            handler_sent: Seq<Seq<char>>,
            r: Result<A::Response, ActionError>,
        |
            {
                &&& #[trigger] A::handled(
                    id,
                    params,
                    state,
                    ctx,
                    sent,
                    new_state,
                    new_ctx,
                    handler_sent,
                    r,
                )
                &&& new_sent == replied::<A>(id, handler_sent, r)
                &&& res == Ok::<_, RpcError>(verdict_of(r))
            },
        _ => {
            &&& new_state == state
            &&& new_ctx == ctx
            &&& new_sent == sent
            &&& res == Err::<Effect, _>(RpcError::InvalidRequest)
        },
    }
}

/// Whether the engine may turn the state, the context and the replies into
/// the new ones and return `res` when it dispatches `msg`: the message goes
/// to the action that its method names. A method that names no action
/// changes nothing and is noted.
pub open spec fn dispatched(
    msg: RawMessageView,
    state: LsState,
    ctx: ActionContext,
    sent: Seq<Seq<char>>,
    new_state: LsState,
    new_ctx: ActionContext,
    new_sent: Seq<Seq<char>>,
    res: Result<Effect, RpcError>,
) -> bool {
    if msg.method == ExitNotification::method() {
        notified::<ExitNotification>(msg, state, ctx, sent, new_state, new_ctx, new_sent, res)
    } else if msg.method == Initialized::method() {
        notified::<Initialized>(msg, state, ctx, sent, new_state, new_ctx, new_sent, res)
    } else if msg.method == DidOpen::method() {
        notified::<DidOpen>(msg, state, ctx, sent, new_state, new_ctx, new_sent, res)
    } else if msg.method == DidChange::method() {
        notified::<DidChange>(msg, state, ctx, sent, new_state, new_ctx, new_sent, res)
    } else if msg.method == Cancel::method() {
        notified::<Cancel>(msg, state, ctx, sent, new_state, new_ctx, new_sent, res)
    } else if msg.method == DidSave::method() {
        notified::<DidSave>(msg, state, ctx, sent, new_state, new_ctx, new_sent, res)
    } else if msg.method == DidChangeWatchedFiles::method() {
        notified::<DidChangeWatchedFiles>(
            msg,
            state,
            ctx,
            sent,
            new_state,
            new_ctx,
            new_sent,
            res,
        )
    } else if msg.method == ShutdownRequest::method() {
        requested::<ShutdownRequest>(msg, state, ctx, sent, new_state, new_ctx, new_sent, res)
    } else if msg.method == InitializeRequest::method() {
        requested::<InitializeRequest>(msg, state, ctx, sent, new_state, new_ctx, new_sent, res)
    } else if msg.method == Completion::method() {
        requested::<Completion>(msg, state, ctx, sent, new_state, new_ctx, new_sent, res)
    } else if msg.method == ResolveCompletion::method() {
        requested::<ResolveCompletion>(msg, state, ctx, sent, new_state, new_ctx, new_sent, res)
    } else {
        &&& new_state == state
        &&& new_ctx == ctx
        &&& new_sent == sent
        &&& res == Ok::<_, RpcError>(Effect::MethodNotFound)
    }
}

/// Whether the method names a notification.
pub open spec fn is_notification(method: Seq<char>) -> bool {
    ||| method == ExitNotification::method()
    ||| method == Initialized::method()
    ||| method == DidOpen::method()
    ||| method == DidChange::method()
    ||| method == Cancel::method()
    ||| method == DidSave::method()
    ||| method == DidChangeWatchedFiles::method()
}

/// The id that a failure is reported under: that of the message, or `null`.
pub open spec fn id_or_null(id: Option<IdView>) -> IdView {
    match id {
        Some(id) => id,
        None => IdView::Null,
    }
}

/// Whether the loop goes on after a message that leaves `effect` to do: it
/// ends where the process is to exit and where the connection is given up.
pub open spec fn change_after(effect: Effect) -> ServerStateChange {
    match effect {
        Effect::Exit(_) => ServerStateChange::Break,
        Effect::Abort(_) => ServerStateChange::Break,
        _ => ServerStateChange::Continue,
    }
}

/// Whether the engine may turn the state, the context and the replies into
/// the new ones, leave `effect` to do and return `change` when the reader
/// hands it `msg`.
///
/// Where there is no message, a parse error is reported under the id `null`
/// and the loop ends. Where the message cannot be read, the error that tells
/// why is reported under the id `null` and the loop ends: a parse error for
/// text that is no JSON, an invalid request for a method or parameters of a
/// wrong shape. An answer of the client is passed over. After `shutdown`,
/// every message but `exit` is passed over. Any other message is
/// dispatched; where that fails, the failure is reported under the id of the
/// message and the loop ends.
pub open spec fn stepped(
    msg: Option<Seq<char>>,
    state: LsState,
    ctx: ActionContext,
    sent: Seq<Seq<char>>,
    new_state: LsState,
    new_ctx: ActionContext,
    new_sent: Seq<Seq<char>>,
    effect: Effect,
    change: ServerStateChange,
) -> bool {
    let unread = |error: RpcError|
        {
            &&& new_state == state
            &&& new_ctx == ctx
            &&& new_sent == sent.push(failure_text(IdView::Null, error))
            &&& effect == Effect::Nothing
            &&& change == ServerStateChange::Break
        };
    let passed_over = {
        &&& new_state == state
        &&& new_ctx == ctx
        &&& new_sent == sent
        &&& effect == Effect::Nothing
        &&& change == ServerStateChange::Continue
    };
    match msg {
        None => unread(RpcError::ParseError),
        Some(text) => match parsed_message(text) {
            Err(error) => unread(error),
            Ok(None) => passed_over,
            Ok(Some(m)) => if state.shut_down && m.method != ExitNotification::method() {
                passed_over
            } else {
                exists|res: Result<Effect, RpcError>, dispatch_sent: Seq<Seq<char>>|
                    {
                        &&& #[trigger] dispatched(
                            m,
                            state,
                            ctx,
                            sent,
                            new_state,
                            new_ctx,
                            dispatch_sent,
                            res,
                        )
                        &&& match res {
                            Ok(left) => {
                                &&& new_sent == dispatch_sent
                                &&& effect == left
                                &&& change == change_after(left)
                            },
                            Err(e) => {
                                &&& new_sent == dispatch_sent.push(
                                    failure_text(id_or_null(m.id), e),
                                )
                                &&& effect == Effect::Nothing
                                &&& change == ServerStateChange::Break
                            },
                        }
                    }
            },
        },
    }
}

/// The server: the two ends of the connection, the context of the actions,
/// and the state of the protocol's life cycle.
pub struct LsService<R: MessageReader, O: Output> {
    pub msg_reader: R,
    pub output: Sink<O>,
    pub ctx: ActionContext,
    pub state: LsState,
    /// What the last message left for the caller to do.
    pub effect: Effect,
}

impl<R: MessageReader, O: Output> LsService<R, O> {
    /// A server that was neither initialized nor shut down.
    pub fn new(reader: R, output: O) -> (service: LsService<R, O>)
        ensures
            service.msg_reader == reader,
            service.output.out == output,
            service.output.sent().len() == 0,
            !service.ctx.is_init(),
            !service.state.shut_down,
            service.effect == Effect::Nothing,
    {
        LsService {
            msg_reader: reader,
            output: Sink::new(output),
            ctx: ActionContext::new(),
            state: LsState { shut_down: false },
            effect: Effect::Nothing,
        }
    }

    /// Reads a message from its text.
    pub fn parse_message(&self, msg: &str) -> (res: Result<Option<RawMessage>, RpcError>)
        ensures
            match res {
                Ok(Some(m)) => parsed_message(msg@) == Ok::<_, RpcError>(Some(m@)),
                Ok(None) => parsed_message(msg@) == Ok::<Option<RawMessageView>, RpcError>(None),
                Err(e) => parsed_message(msg@) == Err::<Option<RawMessageView>, _>(e),
            },
    {
        let ls_command = match parse_value(msg) {
            Ok(value) => value,
            Err(_) => {
                return Err(RpcError::ParseError);
            },
        };
        let id = match member(&ls_command, "id") {
            Some(id) => Id::read(id),
            None => None,
        };
        let method = match member(&ls_command, "method") {
            Some(method) => method,
            None => {
                return Ok(None);
            },
        };
        let method = match as_string(method) {
            Some(name) => String::from_str(name),
            None => {
                return Err(RpcError::InvalidRequest);
            },
        };
        let params = match member(&ls_command, "params") {
            Some(params) => match kind_of(params) {
                JsonKind::Object => render(params),
                JsonKind::Array => render(params),
                JsonKind::Null => String::from_str("null"),
                _ => {
                    return Err(RpcError::InvalidRequest);
                },
            },
            None => String::from_str("null"),
        };
        Ok(Some(RawMessage { method, id, params }))
    }

    fn notify<A: NotificationAction>(&mut self, msg: &RawMessage) -> (res: Result<
        Effect,
        RpcError,
    >)
        ensures
            notified::<A>(
                msg@,
                old(self).state,
                old(self).ctx,
                old(self).output.sent(),
                final(self).state,
                final(self).ctx,
                final(self).output.sent(),
                res,
            ),
            final(self).msg_reader == old(self).msg_reader,
            final(self).effect == old(self).effect,
    {
        let notification = match msg.parse_as_notification::<A>() {
            Ok(notification) => notification,
            Err(e) => {
                return Err(e);
            },
        };
        match notification.dispatch(&mut self.state, &mut self.ctx, &mut self.output) {
            Ok(effect) => Ok(effect),
            Err(ActionError::Failure) => Ok(Effect::Failed),
            Err(ActionError::Violation(fault)) => Ok(Effect::Abort(fault)),
        }
    }

    fn request<A: RequestAction>(&mut self, msg: &RawMessage) -> (res: Result<Effect, RpcError>)
        ensures
            requested::<A>(
                msg@,
                old(self).state,
                old(self).ctx,
                old(self).output.sent(),
                final(self).state,
                final(self).ctx,
                final(self).output.sent(),
                res,
            ),
            final(self).msg_reader == old(self).msg_reader,
            final(self).effect == old(self).effect,
    {
        let request = match msg.parse_as_request::<A>() {
            Ok(request) => request,
            Err(e) => {
                return Err(e);
            },
        };
        match request.dispatch(&mut self.state, &mut self.ctx, &mut self.output) {
            Ok(_) => Ok(Effect::Nothing),
            Err(ActionError::Failure) => Ok(Effect::Failed),
            Err(ActionError::Violation(fault)) => Ok(Effect::Abort(fault)),
        }
    }

    /// Hands the message to the action that its method names. A
    /// notification never sends anything.
    pub fn dispatch_message(&mut self, msg: &RawMessage) -> (res: Result<Effect, RpcError>)
        ensures
            dispatched(
                msg@,
                old(self).state,
                old(self).ctx,
                old(self).output.sent(),
                final(self).state,
                final(self).ctx,
                final(self).output.sent(),
                res,
            ),
            is_notification(msg@.method) ==> final(self).output.sent() == old(self).output.sent(),
            final(self).msg_reader == old(self).msg_reader,
            final(self).effect == old(self).effect,
    {
        let method = msg.method.as_str();
        if same_text(method, ExitNotification::method_name()) {
            self.notify::<ExitNotification>(msg)
        } else if same_text(method, Initialized::method_name()) {
            self.notify::<Initialized>(msg)
        } else if same_text(method, DidOpen::method_name()) {
            self.notify::<DidOpen>(msg)
        } else if same_text(method, DidChange::method_name()) {
            self.notify::<DidChange>(msg)
        } else if same_text(method, Cancel::method_name()) {
            self.notify::<Cancel>(msg)
        } else if same_text(method, DidSave::method_name()) {
            self.notify::<DidSave>(msg)
        } else if same_text(method, DidChangeWatchedFiles::method_name()) {
            self.notify::<DidChangeWatchedFiles>(msg)
        } else if same_text(method, ShutdownRequest::method_name()) {
            self.request::<ShutdownRequest>(msg)
        } else if same_text(method, InitializeRequest::method_name()) {
            self.request::<InitializeRequest>(msg)
        } else if same_text(method, Completion::method_name()) {
            self.request::<Completion>(msg)
        } else if same_text(method, ResolveCompletion::method_name()) {
            self.request::<ResolveCompletion>(msg)
        } else {
            Ok(Effect::MethodNotFound)
        }
    }

    /// Deals with one message, or with the lack of one, from the reader.
    pub fn process(&mut self, msg: Option<String>) -> (change: ServerStateChange)
        ensures
            stepped(
                match msg {
                    Some(text) => Some(text@),
                    None => None,
                },
                old(self).state,
                old(self).ctx,
                old(self).output.sent(),
                final(self).state,
                final(self).ctx,
                final(self).output.sent(),
                final(self).effect,
                change,
            ),
            final(self).msg_reader == old(self).msg_reader,
    {
        self.effect = Effect::Nothing;
        let msg_string = match msg {
            Some(text) => text,
            None => {
                failure(&mut self.output, &Id::Null, RpcError::ParseError);
                return ServerStateChange::Break;
            },
        };
        let raw_message = match self.parse_message(msg_string.as_str()) {
            Ok(Some(raw_message)) => raw_message,
            Ok(None) => {
                return ServerStateChange::Continue;
            },
            Err(e) => {
                failure(&mut self.output, &Id::Null, e);
                return ServerStateChange::Break;
            },
        };
        if self.state.shut_down && !same_text(
            raw_message.method.as_str(),
            ExitNotification::method_name(),
        ) {
            return ServerStateChange::Continue;
        }
        match self.dispatch_message(&raw_message) {
            Ok(effect) => {
                let change = match effect {
                    Effect::Exit(_) => ServerStateChange::Break,
                    Effect::Abort(_) => ServerStateChange::Break,
                    _ => ServerStateChange::Continue,
                };
                self.effect = effect;
                change
            },
            Err(e) => {
                match &raw_message.id {
                    Some(id) => failure(&mut self.output, id, e),
                    None => failure(&mut self.output, &Id::Null, e),
                }
                ServerStateChange::Break
            },
        }
    }

    /// Reads the next message and deals with it. Whatever the reader hands
    /// over, the engine deals with it as `process` does.
    pub fn handle_message(&mut self) -> (change: ServerStateChange)
        ensures
            exists|msg: Option<Seq<char>>| #[trigger]
                stepped(
                    msg,
                    old(self).state,
                    old(self).ctx,
                    old(self).output.sent(),
                    final(self).state,
                    final(self).ctx,
                    final(self).output.sent(),
                    final(self).effect,
                    change,
                ),
    {
        let msg = self.msg_reader.read_message();
        self.process(msg)
    }
}

} // verus!
