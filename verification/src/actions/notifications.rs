//! The notifications: messages that are acted on and never answered.

use vstd::prelude::*;
use crate::actions::ActionContext;
use crate::lsp_data::ls_util::{range_as_span, range_to_span};
use crate::lsp_data::{
    decode_cancel_params, decode_did_change_params, decode_did_open_params,
    decode_did_save_params, decode_watched_files_params, decoded_cancel_params,
    decoded_did_change_params, decoded_did_open_params, decoded_did_save_params,
    decoded_watched_files_params, file_path_of, parse_file_path, CancelParams,
    DidChangeTextDocumentParams, DidChangeWatchedFilesParams, DidOpenTextDocumentParams,
    DidSaveTextDocumentParams, Span, TextDocumentContentChangeEvent, UrlFileParseError,
};
use crate::server::io::{Output, Sink};
use crate::server::{Action, ActionError, Effect, Fault, LsState, NoParams, NotificationAction};
use crate::vfs::Change;

verus! {

/// `initialized`: the client has taken in the answer to `initialize`.
#[derive(Debug, PartialEq)]
pub struct Initialized;

impl Action for Initialized {
    type Params = NoParams;

    open spec fn method() -> Seq<char> {
        "initialized"@
    }

    open spec fn decoded(params: Seq<char>) -> Option<NoParams> {
        Some(NoParams)
    }

    fn method_name() -> (name: &'static str) {
        "initialized"
    }

    fn decode(params: &str) -> (res: Option<NoParams>) {
        Some(NoParams)
    }

    fn new() -> Self {
        Initialized
    }
}

impl NotificationAction for Initialized {
    open spec fn handled(
        params: NoParams,
        state: LsState,
        ctx: ActionContext,
        new_state: LsState,
        new_ctx: ActionContext,
        res: Result<Effect, ActionError>,
    ) -> bool {
        &&& new_state == state
        &&& new_ctx == ctx
        &&& res == Ok::<_, ActionError>(Effect::Nothing)
    }

    /// Nothing is done: this is where the server would register what it
    /// offers beyond its capabilities.
    fn handle<O: Output>(
        &mut self,
        _params: NoParams,
        state: &mut LsState,
        ctx: &mut ActionContext,
        out: &mut Sink<O>,
    ) -> (res: Result<Effect, ActionError>) {
        Ok(Effect::Nothing)
    }
}

/// `textDocument/didOpen`: the client has opened a document.
#[derive(Debug)]
pub struct DidOpen;

impl DidOpen {
    /// What opening a document comes to, once its URI was resolved: its text
    /// goes to the store under the path.
    pub open spec fn opened(
        path: Result<std::path::PathBuf, UrlFileParseError>,
        text: String,
    ) -> Result<Effect, ActionError> {
        match path {
            Ok(path) => Ok((Effect::SetFile { path, text })),
            Err(_) => Err(ActionError::Failure),
        }
    }

    /// Sets the text of the file, where the document is one.
    pub fn open(path: Result<std::path::PathBuf, UrlFileParseError>, text: String) -> (res: Result<
        Effect,
        ActionError,
    >)
        ensures
            res == Self::opened(path, text),
    {
        match path {
            Ok(path) => Ok(Effect::SetFile { path, text }),
            Err(_) => Err(ActionError::Failure),
        }
    }
}

impl Action for DidOpen {
    type Params = DidOpenTextDocumentParams;

    open spec fn method() -> Seq<char> {
        "textDocument/didOpen"@
    }

    open spec fn decoded(params: Seq<char>) -> Option<DidOpenTextDocumentParams> {
        decoded_did_open_params(params)
    }

    fn method_name() -> (name: &'static str) {
        "textDocument/didOpen"
    }

    fn decode(params: &str) -> (res: Option<DidOpenTextDocumentParams>) {
        decode_did_open_params(params)
    }

    fn new() -> Self {
        DidOpen
    }
}

impl NotificationAction for DidOpen {
    open spec fn handled(
        params: DidOpenTextDocumentParams,
        state: LsState,
        ctx: ActionContext,
        new_state: LsState,
        new_ctx: ActionContext,
        res: Result<Effect, ActionError>,
    ) -> bool {
        &&& new_state == state
        &&& new_ctx == ctx
        &&& if !ctx.is_init() {
            res == Err::<Effect, _>(ActionError::Violation(Fault::NotInitialized))
        } else {
            res == Self::opened(file_path_of(params.uri), params.text)
        }
    }

    fn handle<O: Output>(
        &mut self,
        params: DidOpenTextDocumentParams,
        state: &mut LsState,
        ctx: &mut ActionContext,
        out: &mut Sink<O>,
    ) -> (res: Result<Effect, ActionError>) {
        if !ctx.initialized() {
            return Err(ActionError::Violation(Fault::NotInitialized));
        }
        let file_path = parse_file_path(&params.uri);
        DidOpen::open(file_path, params.text)
    }
}

/// `textDocument/didChange`: the client has changed a document.
#[derive(Debug)]
pub struct DidChange;

/// The change to the file at `path` that a change to its document asks for:
/// new text for a span, or for the whole file where no range is given.
pub open spec fn change_of(event: TextDocumentContentChangeEvent, path: std::path::PathBuf) -> Change {
    match event.range {
        Some(range) => Change::ReplaceText {
            span: Span { file: path, range: range_as_span(range) },
            len: event.range_length,
            text: event.text,
        },
        None => Change::AddFile { file: path, text: event.text },
    }
}

impl DidChange {
    /// The changes to the file at `path` that the changes to its document
    /// ask for, in their order.
    pub fn changes(events: &Vec<TextDocumentContentChangeEvent>, path: &std::path::PathBuf) -> (res:
        Vec<Change>)
        ensures
            res@ == events@.map_values(|e: TextDocumentContentChangeEvent| change_of(e, *path)),
    {
        let mut changes: Vec<Change> = Vec::new();
        let mut i: usize = 0;
        while i < events.len()
            invariant
                0 <= i <= events.len(),
                changes@ == events@.take(i as int).map_values(
                    |e: TextDocumentContentChangeEvent| change_of(e, *path),
                ),
            decreases events.len() - i,
        {
            let event = &events[i];
            let change = match event.range {
                Some(range) => Change::ReplaceText {
                    span: Span::from_range(range_to_span(range), path.clone()),
                    len: event.range_length,
                    text: event.text.clone(),
                },
                None => Change::AddFile { file: path.clone(), text: event.text.clone() },
            };
            changes.push(change);
            proof {
                assert(events@.take(i + 1).drop_last() =~= events@.take(i as int));
                assert(changes@ =~= events@.take(i + 1).map_values(
                    |e: TextDocumentContentChangeEvent| change_of(e, *path),
                ));
            }
            i = i + 1;
        }
        proof {
            assert(events@.take(i as int) =~= events@);
        }
        changes
    }

    /// Whether `res` is what changing a document comes to, once its URI
    /// was resolved: the changes to the file at the path, in their order and
    /// in one batch, or a failure where the URI names no local file.
    pub open spec fn changed(
        path: Result<std::path::PathBuf, UrlFileParseError>,
        events: Seq<TextDocumentContentChangeEvent>,
        res: Result<Effect, ActionError>,
    ) -> bool {
        match path {
            Ok(file) => match res {
                Ok(Effect::Changes { file: to, changes }) => to == file && changes@
                    == events.map_values(|e: TextDocumentContentChangeEvent| change_of(e, file)),
                _ => false,
            },
            Err(_) => res == Err::<Effect, _>(ActionError::Failure),
        }
    }

    /// What changing a document comes to, once its URI was resolved: the
    /// changes go to the store in one batch.
    pub fn change(
        path: Result<std::path::PathBuf, UrlFileParseError>,
        events: &Vec<TextDocumentContentChangeEvent>,
    ) -> (res: Result<Effect, ActionError>)
        ensures
            Self::changed(path, events@, res),
    {
        match path {
            Ok(file) => {
                let changes = DidChange::changes(events, &file);
                Ok(Effect::Changes { file, changes })
            },
            Err(_) => Err(ActionError::Failure),
        }
    }
}

impl Action for DidChange {
    type Params = DidChangeTextDocumentParams;

    open spec fn method() -> Seq<char> {
        "textDocument/didChange"@
    }

    open spec fn decoded(params: Seq<char>) -> Option<DidChangeTextDocumentParams> {
        decoded_did_change_params(params)
    }

    fn method_name() -> (name: &'static str) {
        "textDocument/didChange"
    }

    fn decode(params: &str) -> (res: Option<DidChangeTextDocumentParams>) {
        decode_did_change_params(params)
    }

    fn new() -> Self {
        DidChange
    }
}

impl NotificationAction for DidChange {
    open spec fn handled(
        params: DidChangeTextDocumentParams,
        state: LsState,
        ctx: ActionContext,
        new_state: LsState,
        new_ctx: ActionContext,
        res: Result<Effect, ActionError>,
    ) -> bool {
        &&& new_state == state
        &&& new_ctx == ctx
        &&& if !ctx.is_init() {
            res == Err::<Effect, _>(ActionError::Violation(Fault::NotInitialized))
        } else {
            Self::changed(file_path_of(params.uri), params.content_changes@, res)
        }
    }

    fn handle<O: Output>(
        &mut self,
        params: DidChangeTextDocumentParams,
        state: &mut LsState,
        ctx: &mut ActionContext,
        out: &mut Sink<O>,
    ) -> (res: Result<Effect, ActionError>) {
        if !ctx.initialized() {
            return Err(ActionError::Violation(Fault::NotInitialized));
        }
        let file_path = parse_file_path(&params.uri);
        DidChange::change(file_path, &params.content_changes)
    }
}

/// `$/cancelRequest`: the client no longer waits for an answer.
#[derive(Debug)]
pub struct Cancel;

impl Action for Cancel {
    type Params = CancelParams;

    open spec fn method() -> Seq<char> {
        "$/cancelRequest"@
    }

    open spec fn decoded(params: Seq<char>) -> Option<CancelParams> {
        decoded_cancel_params(params)
    }

    fn method_name() -> (name: &'static str) {
        "$/cancelRequest"
    }

    fn decode(params: &str) -> (res: Option<CancelParams>) {
        decode_cancel_params(params)
    }

    fn new() -> Self {
        Cancel
    }
}

impl NotificationAction for Cancel {
    open spec fn handled(
        params: CancelParams,
        state: LsState,
        ctx: ActionContext,
        new_state: LsState,
        new_ctx: ActionContext,
        res: Result<Effect, ActionError>,
    ) -> bool {
        &&& new_state == state
        &&& new_ctx == ctx
        &&& res == Ok::<_, ActionError>(Effect::Nothing)
    }

    /// Nothing is done: every request is answered before the next message
    /// is read, so there is never one to cancel.
    fn handle<O: Output>(
        &mut self,
        _params: CancelParams,
        state: &mut LsState,
        ctx: &mut ActionContext,
        out: &mut Sink<O>,
    ) -> (res: Result<Effect, ActionError>) {
        Ok(Effect::Nothing)
    }
}

/// `textDocument/didSave`: the client has saved a document.
#[derive(Debug)]
pub struct DidSave;

impl DidSave {
    /// What saving a document comes to, once its URI was resolved: the
    /// store is told that the file was saved.
    pub open spec fn saved(path: Result<std::path::PathBuf, UrlFileParseError>) -> Result<
        Effect,
        ActionError,
    > {
        match path {
            Ok(path) => Ok((Effect::FileSaved { path })),
            Err(_) => Err(ActionError::Failure),
        }
    }

    /// Tells the store that the file was saved, where the document is one.
    pub fn save(path: Result<std::path::PathBuf, UrlFileParseError>) -> (res: Result<
        Effect,
        ActionError,
    >)
        ensures
            res == Self::saved(path),
    {
        match path {
            Ok(path) => Ok(Effect::FileSaved { path }),
            Err(_) => Err(ActionError::Failure),
        }
    }
}

impl Action for DidSave {
    type Params = DidSaveTextDocumentParams;

    open spec fn method() -> Seq<char> {
        "textDocument/didSave"@
    }

    open spec fn decoded(params: Seq<char>) -> Option<DidSaveTextDocumentParams> {
        decoded_did_save_params(params)
    }

    fn method_name() -> (name: &'static str) {
        "textDocument/didSave"
    }

    fn decode(params: &str) -> (res: Option<DidSaveTextDocumentParams>) {
        decode_did_save_params(params)
    }

    fn new() -> Self {
        DidSave
    }
}

impl NotificationAction for DidSave {
    open spec fn handled(
        params: DidSaveTextDocumentParams,
        state: LsState,
        ctx: ActionContext,
        new_state: LsState,
        new_ctx: ActionContext,
        res: Result<Effect, ActionError>,
    ) -> bool {
        &&& new_state == state
        &&& new_ctx == ctx
        &&& if !ctx.is_init() {
            res == Err::<Effect, _>(ActionError::Violation(Fault::NotInitialized))
        } else {
            res == Self::saved(file_path_of(params.uri))
        }
    }

    fn handle<O: Output>(
        &mut self,
        params: DidSaveTextDocumentParams,
        state: &mut LsState,
        ctx: &mut ActionContext,
        out: &mut Sink<O>,
    ) -> (res: Result<Effect, ActionError>) {
        if !ctx.initialized() {
            return Err(ActionError::Violation(Fault::NotInitialized));
        }
        let file_path = parse_file_path(&params.uri);
        DidSave::save(file_path)
    }
}

/// `workspace/didChangeWatchedFiles`: files that the client watches have changed.
#[derive(Debug)]
pub struct DidChangeWatchedFiles;

impl Action for DidChangeWatchedFiles {
    type Params = DidChangeWatchedFilesParams;

    open spec fn method() -> Seq<char> {
        "workspace/didChangeWatchedFiles"@
    }

    open spec fn decoded(params: Seq<char>) -> Option<DidChangeWatchedFilesParams> {
        decoded_watched_files_params(params)
    }

    fn method_name() -> (name: &'static str) {
        "workspace/didChangeWatchedFiles"
    }

    fn decode(params: &str) -> (res: Option<DidChangeWatchedFilesParams>) {
        decode_watched_files_params(params)
    }

    fn new() -> Self {
        DidChangeWatchedFiles
    }
}

impl NotificationAction for DidChangeWatchedFiles {
    open spec fn handled(
        params: DidChangeWatchedFilesParams,
        state: LsState,
        ctx: ActionContext,
        new_state: LsState,
        new_ctx: ActionContext,
        res: Result<Effect, ActionError>,
    ) -> bool {
        &&& new_state == state
        &&& new_ctx == ctx
        &&& res == Ok::<_, ActionError>(Effect::Nothing)
    }

    /// Nothing is done: the engine keeps nothing that such a change could make stale.
    fn handle<O: Output>(
        &mut self,
        _params: DidChangeWatchedFilesParams,
        state: &mut LsState,
        ctx: &mut ActionContext,
        out: &mut Sink<O>,
    ) -> (res: Result<Effect, ActionError>) {
        Ok(Effect::Nothing)
    }
}

} // verus!
