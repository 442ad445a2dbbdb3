//! The requests: messages that are answered.

use vstd::prelude::*;
use vstd::string::StringExecFns;
use crate::actions::ActionContext;
use crate::lsp_data::{
    completion_item_text, decode_completion_item, decode_position_params,
    decoded_completion_item, decoded_position_params, file_path_of, item_texts, json_array,
    new_simple_item,
    parse_file_path, render_completion_item, render_completion_items, simple_item_text,
    TextDocumentPositionParams, UrlFileParseError,
};
use crate::server::io::{Output, Sink};
use crate::server::{Action, ActionError, Fault, LsState, RequestAction};

verus! {

/// `textDocument/completion`: what could stand at the cursor.
pub struct Completion;

impl Completion {
    /// Whether `items` is the list that every completion is answered with:
    /// one item, with the label `completion` and the detail `test completion`.
    pub open spec fn is_canned(items: Vec<languageserver_types::CompletionItem>) -> bool {
        &&& items@.len() == 1
        &&& completion_item_text(items@[0]) == simple_item_text(
            "completion"@,
            "test completion"@,
        )
    }

    /// What a completion comes to, once the document's URI was resolved: the
    /// list, where the document is a local file.
    pub fn complete(path: Result<std::path::PathBuf, UrlFileParseError>) -> (res: Result<
        Vec<languageserver_types::CompletionItem>,
        ActionError,
    >)
        ensures
            match path {
                Ok(_) => res is Ok && Self::is_canned(res->Ok_0),
                Err(_) => res is Err && res->Err_0 == ActionError::Failure,
            },
    {
        match path {
            Ok(_) => {
                let item = new_simple_item(
                    String::from_str("completion"),
                    String::from_str("test completion"),
                );
                let mut items: Vec<languageserver_types::CompletionItem> = Vec::new();
                items.push(item);
                Ok(items)
            },
            Err(_) => Err(ActionError::Failure),
        }
    }
}

impl Action for Completion {
    type Params = TextDocumentPositionParams;

    open spec fn method() -> Seq<char> {
        "textDocument/completion"@
    }

    open spec fn decoded(params: Seq<char>) -> Option<TextDocumentPositionParams> {
        decoded_position_params(params)
    }

    fn method_name() -> (name: &'static str) {
        "textDocument/completion"
    }

    fn decode(params: &str) -> (res: Option<TextDocumentPositionParams>) {
        decode_position_params(params)
    }

    fn new() -> Self {
        Completion
    }
}

impl RequestAction for Completion {
    type Response = Vec<languageserver_types::CompletionItem>;

    open spec fn handled(
        id: usize,
        params: TextDocumentPositionParams,
        state: LsState,
        ctx: ActionContext,
        sent: Seq<Seq<char>>,
        new_state: LsState,
        new_ctx: ActionContext,
        new_sent: Seq<Seq<char>>,
        res: Result<Vec<languageserver_types::CompletionItem>, ActionError>,
    ) -> bool {
        &&& new_state == state
        &&& new_ctx == ctx
        &&& new_sent == sent
        &&& if !ctx.is_init() {
            res is Err && res->Err_0 == ActionError::Violation(Fault::NotInitialized)
        } else {
            match res {
                Ok(items) => file_path_of(params.uri) is Ok && Self::is_canned(items),
                Err(e) => file_path_of(params.uri) is Err && e == ActionError::Failure,
            }
        }
    }

    open spec fn rendered(response: Vec<languageserver_types::CompletionItem>) -> Option<
        Seq<char>,
    > {
        Some(json_array(item_texts(response@)))
    }

    fn render(response: &Vec<languageserver_types::CompletionItem>) -> (text: Option<String>) {
        Some(render_completion_items(response))
    }

    /// Answers with the same list at every position of every local file.
    fn handle<O: Output>(
        &mut self,
        _id: usize,
        params: TextDocumentPositionParams,
        state: &mut LsState,
        ctx: &mut ActionContext,
        out: &mut Sink<O>,
    ) -> (res: Result<Vec<languageserver_types::CompletionItem>, ActionError>) {
        if !ctx.initialized() {
            return Err(ActionError::Violation(Fault::NotInitialized));
        }
        let file_path = parse_file_path(&params.uri);
        Completion::complete(file_path)
    }
}

/// `completionItem/resolve`: more about one item of a completion.
pub struct ResolveCompletion;

impl Action for ResolveCompletion {
    type Params = languageserver_types::CompletionItem;

    open spec fn method() -> Seq<char> {
        "completionItem/resolve"@
    }

    open spec fn decoded(params: Seq<char>) -> Option<languageserver_types::CompletionItem> {
        decoded_completion_item(params)
    }

    fn method_name() -> (name: &'static str) {
        "completionItem/resolve"
    }

    fn decode(params: &str) -> (res: Option<languageserver_types::CompletionItem>) {
        decode_completion_item(params)
    }

    fn new() -> Self {
        ResolveCompletion
    }
}

impl RequestAction for ResolveCompletion {
    type Response = languageserver_types::CompletionItem;

    open spec fn handled(
        id: usize,
        params: languageserver_types::CompletionItem,
        state: LsState,
        ctx: ActionContext,
        sent: Seq<Seq<char>>,
        new_state: LsState,
        new_ctx: ActionContext,
        new_sent: Seq<Seq<char>>,
        res: Result<languageserver_types::CompletionItem, ActionError>,
    ) -> bool {
        &&& new_state == state
        &&& new_ctx == ctx
        &&& new_sent == sent
        &&& res is Ok
        &&& res->Ok_0 == params
    }

    open spec fn rendered(response: languageserver_types::CompletionItem) -> Option<Seq<char>> {
        Some(completion_item_text(response))
    }

    fn render(response: &languageserver_types::CompletionItem) -> (text: Option<String>) {
        Some(render_completion_item(response))
    }

    /// Hands the item back as it came: a completion already holds all that
    /// is known of its items.
    fn handle<O: Output>(
        &mut self,
        _id: usize,
        params: languageserver_types::CompletionItem,
        state: &mut LsState,
        ctx: &mut ActionContext,
        out: &mut Sink<O>,
    ) -> (res: Result<languageserver_types::CompletionItem, ActionError>) {
        Ok(params)
    }
}

} // verus!
