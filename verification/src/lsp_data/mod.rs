//! The protocol's data as the engine reads it: positions and ranges, the
//! parameters of each action, file URIs, and the conversions between the
//! protocol's positions and spans.

use vstd::prelude::*;
use crate::json::{as_boolean, json_bool, json_member, member, value_text};

pub mod ls_util;
use crate::span;
use crate::text::same_text;

verus! {

#[verifier::external_type_specification]
#[verifier::external_body]
pub struct ExUrl(url::Url);

/// A range in a file.
pub type Span = span::Span;

pub const NOTIFICATION_DIAGNOSTICS_BEGIN: &'static str = "akkadiaDocument/diagnosticsBegin";

pub const NOTIFICATION_DIAGNOSTICS_END: &'static str = "akkadiaDocument/diagnosticsEnd";

pub const NOTIFICATION_BUILD_BEGIN: &'static str = "akkadiaDocument/beginBuild";

/// Why a URI names no local file.
#[derive(Clone, Copy, Debug, PartialEq, Eq, Structural)]
pub enum UrlFileParseError {
    InvalidScheme,
    InvalidFilePath,
}

impl UrlFileParseError {
    pub fn description(&self) -> (text: &'static str)
        ensures
            text@ == match self {
                UrlFileParseError::InvalidScheme => "URI scheme is not `file`"@,
                UrlFileParseError::InvalidFilePath => "Invalid file path in URI"@,
            },
    {
        match *self {
            UrlFileParseError::InvalidScheme => "URI scheme is not `file`",
            UrlFileParseError::InvalidFilePath => "Invalid file path in URI",
        }
    }
}

/// The scheme of a URI: the part before the first colon, in lower case.
pub uninterp spec fn url_scheme(uri: url::Url) -> Seq<char>;

/// Calls `Url::scheme`.
#[verifier::external_body]
fn scheme_of(uri: &url::Url) -> (scheme: &str)
    ensures
        scheme@ == url_scheme(*uri),
{
    uri.scheme()
}

/// The path of the local file that a URI names by the rules of the
/// platform, or `None` where it names none: its host is another machine, or
/// its path cannot be one of a file.
pub uninterp spec fn url_file_path(uri: url::Url) -> Option<std::path::PathBuf>;

/// Calls `Url::to_file_path`, which reads the URI and nothing else.
#[verifier::external_body]
fn to_file_path(uri: &url::Url) -> (res: Result<std::path::PathBuf, ()>)
    ensures
        match res {
            Ok(path) => url_file_path(*uri) == Some(path),
            Err(_) => url_file_path(*uri) is None,
        },
{
    uri.to_file_path()
}

/// The local path that a URI names: a URI of another scheme than `file` is
/// refused for its scheme, and one of that scheme that names no local file
/// for its path.
pub open spec fn file_path_of(uri: url::Url) -> Result<std::path::PathBuf, UrlFileParseError> {
    if url_scheme(uri) != "file"@ {
        Err(UrlFileParseError::InvalidScheme)
    } else {
        match url_file_path(uri) {
            Some(path) => Ok(path),
            None => Err(UrlFileParseError::InvalidFilePath),
        }
    }
}

/// What becomes of the platform's answer for a URI of the `file` scheme.
pub fn file_path_outcome(converted: Result<std::path::PathBuf, ()>) -> (res: Result<
    std::path::PathBuf,
    UrlFileParseError,
>)
    ensures
        res == match converted {
            Ok(path) => Ok::<_, UrlFileParseError>(path),
            Err(_) => Err(UrlFileParseError::InvalidFilePath),
        },
{
    match converted {
        Ok(path) => Ok(path),
        Err(_) => Err(UrlFileParseError::InvalidFilePath),
    }
}

/// The local path that a URI names.
pub fn parse_file_path(uri: &url::Url) -> (res: Result<std::path::PathBuf, UrlFileParseError>)
    ensures
        res == file_path_of(*uri),
{
    if !same_text(scheme_of(uri), "file") {
        Err(UrlFileParseError::InvalidScheme)
    } else {
        file_path_outcome(to_file_path(uri))
    }
}

/// The options that the `initialize` request may carry under
/// `initializationOptions`.
#[derive(Clone, Copy, Debug, PartialEq, Eq, Structural)]
pub struct InitializationOptions {
    /// Whether the build is left out that would follow `initialize`.
    pub omit_init_build: bool,
}

impl Default for InitializationOptions {
    fn default() -> (res: Self)
        ensures
            !res.omit_init_build,
    {
        InitializationOptions { omit_init_build: false }
    }
}

impl InitializationOptions {
    /// The options that the JSON value with the compact text `doc` sets:
    /// `omitInitBuild` where the value is an object with that member and the
    /// member is `true`. Other members are not looked at.
    pub open spec fn read(doc: Seq<char>) -> InitializationOptions {
        InitializationOptions {
            omit_init_build: match json_member(doc, "omitInitBuild"@) {
                Some(m) => json_bool(m) == Some(true),
                None => false,
            },
        }
    }

    /// Reads the options from a JSON value. A value that sets none is read
    /// as the default.
    pub fn from_json(options: &serde_json::Value) -> (res: InitializationOptions)
        ensures
            res == Self::read(value_text(*options)),
    {
        let omit = match member(options, "omitInitBuild") {
            Some(m) => match as_boolean(m) {
                Some(b) => b,
                None => false,
            },
            None => false,
        };
        InitializationOptions { omit_init_build: omit }
    }
}

/// A cursor in a document, by line and character, both counted from zero.
#[derive(Clone, Copy, Debug, PartialEq, Eq, Structural)]
pub struct Position {
    pub line: u64,
    pub character: u64,
}

impl Position {
    pub fn new(line: u64, character: u64) -> (p: Position)
        ensures
            p.line == line,
            p.character == character,
    {
        Position { line, character }
    }
}

/// The text between two cursors, the second one excluded.
#[derive(Clone, Copy, Debug, PartialEq, Eq, Structural)]
pub struct Range {
    pub start: Position,
    pub end: Position,
}

/// A range in the document that a URI names.
pub struct Location {
    pub uri: url::Url,
    pub range: Range,
}

/// The id of a request, as a cancellation names it.
#[derive(Clone, Debug, PartialEq, Eq)]
pub enum NumberOrString {
    Number(u64),
    String(String),
}

/// The parameters of `$/cancelRequest`.
#[derive(Debug, PartialEq, Eq)]
pub struct CancelParams {
    pub id: NumberOrString,
}

/// What the engine reads of the parameters of `initialize`.
#[derive(Debug, PartialEq)]
pub struct InitializeParams {
    pub root_path: Option<String>,
    pub initialization_options: Option<serde_json::Value>,
}

/// What the engine reads of the parameters of `textDocument/didOpen`.
#[derive(Debug, PartialEq)]
pub struct DidOpenTextDocumentParams {
    pub uri: url::Url,
    pub text: String,
}

/// One change to a document: new text for a range, or for the whole
/// document where no range is given.
#[derive(Debug, PartialEq)]
pub struct TextDocumentContentChangeEvent {
    pub range: Option<Range>,
    pub range_length: Option<u64>,
    pub text: String,
}

/// What the engine reads of the parameters of `textDocument/didChange`.
#[derive(Debug, PartialEq)]
pub struct DidChangeTextDocumentParams {
    pub uri: url::Url,
    pub content_changes: Vec<TextDocumentContentChangeEvent>,
}

/// What the engine reads of the parameters of `textDocument/didSave`.
#[derive(Debug, PartialEq)]
pub struct DidSaveTextDocumentParams {
    pub uri: url::Url,
}

/// What happened to a watched file.
#[derive(Clone, Copy, Debug, PartialEq, Eq, Structural)]
pub enum FileChangeType {
    Created,
    Changed,
    Deleted,
}

/// A change to a watched file.
#[derive(Debug, PartialEq)]
pub struct FileEvent {
    pub uri: url::Url,
    pub typ: FileChangeType,
}

/// The parameters of `workspace/didChangeWatchedFiles`.
#[derive(Debug, PartialEq)]
pub struct DidChangeWatchedFilesParams {
    pub changes: Vec<FileEvent>,
}

/// A document and a cursor in it.
#[derive(Debug, PartialEq)]
pub struct TextDocumentPositionParams {
    pub uri: url::Url,
    pub position: Position,
}

/// The parameters of `initialize` that the text `params` holds, as
/// `serde_json` reads them by the protocol's schema, or `None` where the text
/// does not fit the schema.
pub uninterp spec fn decoded_initialize_params(params: Seq<char>) -> Option<InitializeParams>;

/// The same for `textDocument/didOpen`.
pub uninterp spec fn decoded_did_open_params(params: Seq<char>) -> Option<
    DidOpenTextDocumentParams,
>;

/// The same for `textDocument/didChange`.
pub uninterp spec fn decoded_did_change_params(params: Seq<char>) -> Option<
    DidChangeTextDocumentParams,
>;

/// The same for `textDocument/didSave`.
pub uninterp spec fn decoded_did_save_params(params: Seq<char>) -> Option<
    DidSaveTextDocumentParams,
>;

/// The same for `$/cancelRequest`.
pub uninterp spec fn decoded_cancel_params(params: Seq<char>) -> Option<CancelParams>;

/// The same for `workspace/didChangeWatchedFiles`.
pub uninterp spec fn decoded_watched_files_params(params: Seq<char>) -> Option<
    DidChangeWatchedFilesParams,
>;

/// The same for `textDocument/completion`.
pub uninterp spec fn decoded_position_params(params: Seq<char>) -> Option<
    TextDocumentPositionParams,
>;

/// Calls `serde_json::from_str` for `languageserver_types::InitializeParams`
/// and keeps the root path and the initialization options.
#[verifier::external_body]
pub(crate) fn decode_initialize_params(params: &str) -> (res: Option<InitializeParams>)
    ensures
        res == decoded_initialize_params(params@),
{
    let p = serde_json::from_str::<languageserver_types::InitializeParams>(params).ok()?;
    Some(InitializeParams { root_path: p.root_path, initialization_options: p.initialization_options })
}

/// Calls `serde_json::from_str` for
/// `languageserver_types::DidOpenTextDocumentParams` and keeps the document's
/// URI and text.
#[verifier::external_body]
pub(crate) fn decode_did_open_params(params: &str) -> (res: Option<DidOpenTextDocumentParams>)
    ensures
        res == decoded_did_open_params(params@),
{
    let p = serde_json::from_str::<languageserver_types::DidOpenTextDocumentParams>(params).ok()?;
    Some(DidOpenTextDocumentParams { uri: p.text_document.uri, text: p.text_document.text })
}

/// Calls `serde_json::from_str` for
/// `languageserver_types::DidChangeTextDocumentParams` and keeps the
/// document's URI and the changes, field by field.
#[verifier::external_body]
pub(crate) fn decode_did_change_params(params: &str) -> (res: Option<DidChangeTextDocumentParams>)
    ensures
        res == decoded_did_change_params(params@),
{
    let p = serde_json::from_str::<languageserver_types::DidChangeTextDocumentParams>(params).ok()?;
    let content_changes = p.content_changes.into_iter().map(|c| TextDocumentContentChangeEvent {
        range: c.range.map(|r| Range {
            start: Position { line: r.start.line, character: r.start.character },
            end: Position { line: r.end.line, character: r.end.character },
        }),
        range_length: c.range_length,
        text: c.text,
    }).collect();
    Some(DidChangeTextDocumentParams { uri: p.text_document.uri, content_changes })
}

/// Calls `serde_json::from_str` for
/// `languageserver_types::DidSaveTextDocumentParams` and keeps the document's
/// URI.
#[verifier::external_body]
pub(crate) fn decode_did_save_params(params: &str) -> (res: Option<DidSaveTextDocumentParams>)
    ensures
        res == decoded_did_save_params(params@),
{
    let p = serde_json::from_str::<languageserver_types::DidSaveTextDocumentParams>(params).ok()?;
    Some(DidSaveTextDocumentParams { uri: p.text_document.uri })
}

/// Calls `serde_json::from_str` for `languageserver_types::CancelParams`.
#[verifier::external_body]
pub(crate) fn decode_cancel_params(params: &str) -> (res: Option<CancelParams>)
    ensures
        res == decoded_cancel_params(params@),
{
    let p = serde_json::from_str::<languageserver_types::CancelParams>(params).ok()?;
    Some(CancelParams {
        id: match p.id {
            languageserver_types::NumberOrString::Number(n) => NumberOrString::Number(n),
            languageserver_types::NumberOrString::String(s) => NumberOrString::String(s),
        },
    })
}

/// Calls `serde_json::from_str` for
/// `languageserver_types::DidChangeWatchedFilesParams` and keeps the file
/// events, field by field.
#[verifier::external_body]
pub(crate) fn decode_watched_files_params(params: &str) -> (res: Option<
    DidChangeWatchedFilesParams,
>)
    ensures
        res == decoded_watched_files_params(params@),
{
    let p = serde_json::from_str::<languageserver_types::DidChangeWatchedFilesParams>(params).ok()?;
    let changes = p.changes.into_iter().map(|e| FileEvent {
        uri: e.uri,
        typ: match e.typ {
            languageserver_types::FileChangeType::Created => FileChangeType::Created,
            languageserver_types::FileChangeType::Changed => FileChangeType::Changed,
            languageserver_types::FileChangeType::Deleted => FileChangeType::Deleted,
        },
    }).collect();
    Some(DidChangeWatchedFilesParams { changes })
}

/// Calls `serde_json::from_str` for
/// `languageserver_types::TextDocumentPositionParams` and keeps the
/// document's URI and the position.
#[verifier::external_body]
pub(crate) fn decode_position_params(params: &str) -> (res: Option<TextDocumentPositionParams>)
    ensures
        res == decoded_position_params(params@),
{
    let p = serde_json::from_str::<languageserver_types::TextDocumentPositionParams>(params).ok()?;
    let position = Position { line: p.position.line, character: p.position.character };
    Some(TextDocumentPositionParams { uri: p.text_document.uri, position })
}

/// How the client is to send the changes of a document.
#[derive(Clone, Copy, Debug, PartialEq, Eq, Structural)]
pub enum TextDocumentSyncKind {
    /// Not at all.
    NotSynced,
    /// The whole document on every change.
    Full,
    /// The whole document when it is opened, then the changes only.
    Incremental,
}

/// What the server offers for completion.
#[derive(Debug, PartialEq, Eq)]
pub struct CompletionOptions {
    pub resolve_provider: Option<bool>,
    pub trigger_characters: Vec<String>,
}

/// What `CompletionOptions` holds.
pub struct CompletionOptionsView {
    pub resolve_provider: Option<bool>,
    pub trigger_characters: Seq<Seq<char>>,
}

impl View for CompletionOptions {
    type V = CompletionOptionsView;

    open spec fn view(&self) -> CompletionOptionsView {
        CompletionOptionsView {
            resolve_provider: self.resolve_provider,
            trigger_characters: self.trigger_characters@.map_values(|s: String| s@),
        }
    }
}

/// The capabilities that the server advertises.
#[derive(Debug, PartialEq, Eq)]
pub struct ServerCapabilities {
    pub text_document_sync: Option<TextDocumentSyncKind>,
    pub completion_provider: Option<CompletionOptions>,
}

/// What `ServerCapabilities` holds.
pub struct ServerCapabilitiesView {
    pub text_document_sync: Option<TextDocumentSyncKind>,
    pub completion_provider: Option<CompletionOptionsView>,
}

impl View for ServerCapabilities {
    type V = ServerCapabilitiesView;

    open spec fn view(&self) -> ServerCapabilitiesView {
        ServerCapabilitiesView {
            text_document_sync: self.text_document_sync,
            completion_provider: match self.completion_provider {
                Some(options) => Some(options@),
                None => None,
            },
        }
    }
}

/// The result of `initialize`.
#[derive(Debug, PartialEq, Eq)]
pub struct InitializeResult {
    pub capabilities: ServerCapabilities,
}

/// The JSON text of the result of `initialize` that advertises
/// `capabilities` and nothing else, as `serde_json` prints it by the
/// protocol's schema.
pub uninterp spec fn initialize_result_text(capabilities: ServerCapabilitiesView) -> Seq<char>;

/// Builds a `languageserver_types::InitializeResult` that holds the two
/// capabilities, field by field, and the defaults for every other one, and
/// prints it with `serde_json::to_string`.
#[verifier::external_body]
pub(crate) fn render_initialize_result(result: &InitializeResult) -> (text: String)
    ensures
        text@ == initialize_result_text(result.capabilities@),
{
    let capabilities = languageserver_types::ServerCapabilities {
        text_document_sync: result.capabilities.text_document_sync.map(|kind| match kind {
            TextDocumentSyncKind::NotSynced => languageserver_types::TextDocumentSyncKind::None,
            TextDocumentSyncKind::Full => languageserver_types::TextDocumentSyncKind::Full,
            TextDocumentSyncKind::Incremental => languageserver_types::TextDocumentSyncKind::Incremental,
        }),
        completion_provider: result.capabilities.completion_provider.as_ref().map(|options|
            languageserver_types::CompletionOptions {
                resolve_provider: options.resolve_provider,
                trigger_characters: options.trigger_characters.clone(),
            }),
        ..Default::default()
    };
    serde_json::to_string(&languageserver_types::InitializeResult { capabilities }).unwrap_or_default()
}

#[verifier::external_type_specification]
#[verifier::external_body]
pub struct ExCompletionItem(languageserver_types::CompletionItem);

/// The JSON text of a completion item, as `serde_json` prints it by the
/// protocol's schema.
pub uninterp spec fn completion_item_text(item: languageserver_types::CompletionItem) -> Seq<char>;

/// The JSON text of the completion item that has the label and the detail
/// given and nothing else.
pub uninterp spec fn simple_item_text(label: Seq<char>, detail: Seq<char>) -> Seq<char>;

/// The completion item that the text `params` holds, or `None` where the
/// text does not fit the schema of one.
pub uninterp spec fn decoded_completion_item(params: Seq<char>) -> Option<
    languageserver_types::CompletionItem,
>;

/// Calls `CompletionItem::new_simple`.
#[verifier::external_body]
pub(crate) fn new_simple_item(label: String, detail: String) -> (item:
    languageserver_types::CompletionItem)
    ensures
        completion_item_text(item) == simple_item_text(label@, detail@),
{
    languageserver_types::CompletionItem::new_simple(label, detail)
}

/// Calls `serde_json::from_str` for `languageserver_types::CompletionItem`.
#[verifier::external_body]
pub(crate) fn decode_completion_item(params: &str) -> (res: Option<
    languageserver_types::CompletionItem,
>)
    ensures
        res == decoded_completion_item(params@),
{
    serde_json::from_str::<languageserver_types::CompletionItem>(params).ok()
}

/// Calls `serde_json::to_string` on the item.
#[verifier::external_body]
pub(crate) fn render_completion_item(item: &languageserver_types::CompletionItem) -> (text: String)
    ensures
        text@ == completion_item_text(*item),
{
    serde_json::to_string(item).unwrap_or_default()
}

/// The texts of the items of a list.
pub open spec fn item_texts(items: Seq<languageserver_types::CompletionItem>) -> Seq<Seq<char>> {
    items.map_values(|item: languageserver_types::CompletionItem| completion_item_text(item))
}

/// The elements, each followed by a comma but the last.
pub open spec fn comma_separated(texts: Seq<Seq<char>>) -> Seq<char>
    decreases texts.len(),
{
    if texts.len() == 0 {
        Seq::empty()
    } else if texts.len() == 1 {
        texts[0]
    } else {
        comma_separated(texts.drop_last()) + ","@ + texts.last()
    }
}

/// The compact text of the JSON array of the elements with the texts given.
pub open spec fn json_array(texts: Seq<Seq<char>>) -> Seq<char> {
    "["@ + comma_separated(texts) + "]"@
}

/// Calls `serde_json::to_string` on the list, which prints the items between
/// square brackets, with a comma between two of them.
#[verifier::external_body]
pub(crate) fn render_completion_items(items: &Vec<languageserver_types::CompletionItem>) -> (text:
    String)
    ensures
        text@ == json_array(item_texts(items@)),
{
    serde_json::to_string(items).unwrap_or_default()
}

/// New text for a range of a document.
#[derive(Clone, Debug, PartialEq, Eq)]
pub struct TextEdit {
    pub range: Range,
    pub new_text: String,
}

/// Edits to the documents of a workspace: for each document, by its URI,
/// the edits to it.
#[derive(Debug, PartialEq)]
pub struct WorkspaceEdit {
    pub changes: Vec<(url::Url, Vec<TextEdit>)>,
}

/// The edit that puts `new_text` in the place of `location`: one edit to
/// one document.
pub fn make_workspace_edit(location: Location, new_text: String) -> (edit: WorkspaceEdit)
    ensures
        edit.changes@.len() == 1,
        edit.changes@[0].0 == location.uri,
        edit.changes@[0].1@ == seq![(TextEdit { range: location.range, new_text })],
{
    let mut edits: Vec<TextEdit> = Vec::new();
    edits.push(TextEdit { range: location.range, new_text });
    proof {
        assert(edits@ =~= seq![TextEdit { range: location.range, new_text }]);
    }
    let mut changes: Vec<(url::Url, Vec<TextEdit>)> = Vec::new();
    changes.push((location.uri, edits));
    WorkspaceEdit { changes }
}

/// Calls `Value::Object` on a map with one member, put there by
/// `Map::insert` under the key given as the boolean given: the JSON object
/// that has this member and no other.
#[verifier::external_body]
fn object_of_bool(key: &str, flag: bool) -> (value: serde_json::Value)
    ensures
        json_member(value_text(value), key@) is Some,
        json_bool(json_member(value_text(value), key@)->0) == Some(flag),
{
    let mut members = serde_json::Map::new();
    members.insert(String::from(key), serde_json::Value::Bool(flag));
    serde_json::Value::Object(members)
}

impl InitializationOptions {
    /// The JSON value that sets these options: it is read back as the same.
    pub fn to_json(&self) -> (value: serde_json::Value)
        ensures
            Self::read(value_text(value)) == *self,
    {
        object_of_bool("omitInitBuild", self.omit_init_build)
    }
}

#[verifier::external_type_specification]
#[verifier::external_body]
pub struct ExPublishDiagnosticsParams(languageserver_types::PublishDiagnosticsParams);

/// The version of the protocol that the server speaks.
pub const JSONRPC_VERSION: &'static str = "2.0";

/// A message of the server that asks for no answer.
#[derive(Debug)]
pub struct NotificationMessage {
    pub jsonrpc: &'static str,
    pub method: &'static str,
    pub params: Option<languageserver_types::PublishDiagnosticsParams>,
}

impl NotificationMessage {
    pub fn new(
        method: &'static str,
        params: Option<languageserver_types::PublishDiagnosticsParams>,
    ) -> (message: Self)
        ensures
            message.jsonrpc@ == JSONRPC_VERSION@,
            message.method == method,
            message.params == params,
    {
        NotificationMessage { jsonrpc: JSONRPC_VERSION, method, params }
    }
}

/// A request of the server to the client.
#[derive(Debug)]
pub struct RequestMessage<T> {
    pub jsonrpc: &'static str,
    pub id: u32,
    pub method: String,
    pub params: T,
}

impl<T> RequestMessage<T> {
    pub fn new(id: u32, method: String, params: T) -> (message: Self)
        ensures
            message.jsonrpc@ == JSONRPC_VERSION@,
            message.id == id,
            message.method == method,
            message.params == params,
    {
        RequestMessage { jsonrpc: JSONRPC_VERSION, id, method, params }
    }
}

} // verus!
