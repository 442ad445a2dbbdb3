//! What holds of the engine whatever the messages are.

use vstd::prelude::*;
use crate::actions::notifications::{
    Cancel, DidChange, DidChangeWatchedFiles, DidOpen, DidSave, Initialized,
};
use crate::actions::requests::Completion;
use crate::actions::requests::ResolveCompletion;
use crate::actions::ActionContext;
use crate::json::json_document;
use crate::lsp_data::{
    completion_item_text, decoded_completion_item, decoded_did_open_params,
    decoded_initialize_params, decoded_position_params, file_path_of, item_texts, json_array,
    simple_item_text,
};
use crate::rpc::{
    all_digits, failure_text, is_digit, parsed_usize, success_envelope, IdView, RpcError,
};
use crate::server::{
    dispatched, id_or_null, is_notification, numeric_id, parsed_message, stepped, Action, Effect,
    ExitNotification, InitializeRequest, LsState, RawMessageView, ServerStateChange,
    ShutdownRequest,
};

verus! {

/// Whether the method names a request.
pub open spec fn is_request(method: Seq<char>) -> bool {
    ||| method == ShutdownRequest::method()
    ||| method == InitializeRequest::method()
    ||| method == Completion::method()
    ||| method == ResolveCompletion::method()
}

/// No two actions share a method.
pub proof fn methods_differ()
    ensures
        ExitNotification::method().len() == 4,
        Initialized::method().len() == 11,
        DidOpen::method().len() == 20,
        DidChange::method().len() == 22,
        Cancel::method().len() == 15,
        DidSave::method().len() == 20,
        DidChangeWatchedFiles::method().len() == 31,
        ShutdownRequest::method().len() == 8,
        InitializeRequest::method().len() == 10,
        Completion::method().len() == 23,
        ResolveCompletion::method().len() == 22,
        DidOpen::method() != DidSave::method(),
        DidChange::method() != ResolveCompletion::method(),
        forall|method: Seq<char>| !(is_notification(method) && is_request(method)),
{
    reveal_strlit("exit");
    reveal_strlit("initialized");
    reveal_strlit("textDocument/didOpen");
    reveal_strlit("textDocument/didChange");
    reveal_strlit("$/cancelRequest");
    reveal_strlit("textDocument/didSave");
    reveal_strlit("workspace/didChangeWatchedFiles");
    reveal_strlit("shutdown");
    reveal_strlit("initialize");
    reveal_strlit("textDocument/completion");
    reveal_strlit("completionItem/resolve");
    assert(DidOpen::method()[16] != DidSave::method()[16]);
    assert(DidChange::method()[0] != ResolveCompletion::method()[0]);
}

/// A notification never sends anything: whatever a message of a
/// notification's method holds, dispatching it leaves the replies as they are.
pub proof fn notification_sends_nothing(
    msg: RawMessageView,
    state: LsState,
    ctx: ActionContext,
    sent: Seq<Seq<char>>,
    new_state: LsState,
    new_ctx: ActionContext,
    new_sent: Seq<Seq<char>>,
    res: Result<Effect, RpcError>,
)
    requires
        is_notification(msg.method),
        dispatched(msg, state, ctx, sent, new_state, new_ctx, new_sent, res),
    ensures
        new_sent == sent,
{
    methods_differ();
}

/// A text is no number where one of its characters is no digit, unless that
/// character is a `+` at the front.
pub proof fn text_with_another_character_is_no_number(s: Seq<char>, at: int)
    requires
        0 <= at < s.len(),
        !is_digit(s[at]),
        at > 0 || s[0] != '+',
    ensures
        parsed_usize(s) is None,
{
    let digits = if s.len() > 0 && s[0] == '+' {
        s.skip(1)
    } else {
        s
    };
    if s[0] == '+' {
        assert(!is_digit(digits[at - 1]));
    } else {
        assert(!is_digit(digits[at]));
    }
    assert(!all_digits(digits));
}

/// A request whose id is a string that spells no number is refused as an
/// invalid request before its action runs: nothing changes and nothing is
/// sent.
pub proof fn request_with_unreadable_id_is_refused(
    msg: RawMessageView,
    state: LsState,
    ctx: ActionContext,
    sent: Seq<Seq<char>>,
    new_state: LsState,
    new_ctx: ActionContext,
    new_sent: Seq<Seq<char>>,
    res: Result<Effect, RpcError>,
)
    requires
        is_request(msg.method),
        numeric_id(msg.id) is None,
        dispatched(msg, state, ctx, sent, new_state, new_ctx, new_sent, res),
    ensures
        res == Err::<Effect, _>(RpcError::InvalidRequest),
        new_state == state,
        new_ctx == ctx,
        new_sent == sent,
{
    methods_differ();
}

/// The same for the loop: the failure is reported under the id of the
/// message, and the loop ends.
pub proof fn request_with_unreadable_id_ends_the_loop(
    text: Seq<char>,
    msg: RawMessageView,
    state: LsState,
    ctx: ActionContext,
    sent: Seq<Seq<char>>,
    new_state: LsState,
    new_ctx: ActionContext,
    new_sent: Seq<Seq<char>>,
    effect: Effect,
    change: ServerStateChange,
)
    requires
        parsed_message(text) == Ok::<_, RpcError>(Some(msg)),
        is_request(msg.method),
        numeric_id(msg.id) is None,
        !state.shut_down,
        stepped(Some(text), state, ctx, sent, new_state, new_ctx, new_sent, effect, change),
    ensures
        new_state == state,
        new_ctx == ctx,
        new_sent == sent.push(failure_text(id_or_null(msg.id), RpcError::InvalidRequest)),
        effect == Effect::Nothing,
        change == ServerStateChange::Break,
{
    methods_differ();
}

/// A message that cannot be read is answered with the error that tells why,
/// under the id `null`, and the loop ends. Nothing else changes.
pub proof fn unreadable_message_ends_the_loop(
    text: Seq<char>,
    error: RpcError,
    state: LsState,
    ctx: ActionContext,
    sent: Seq<Seq<char>>,
    new_state: LsState,
    new_ctx: ActionContext,
    new_sent: Seq<Seq<char>>,
    effect: Effect,
    change: ServerStateChange,
)
    requires
        parsed_message(text) == Err::<Option<RawMessageView>, _>(error),
        stepped(Some(text), state, ctx, sent, new_state, new_ctx, new_sent, effect, change),
    ensures
        new_state == state,
        new_ctx == ctx,
        new_sent == sent.push(failure_text(IdView::Null, error)),
        effect == Effect::Nothing,
        change == ServerStateChange::Break,
{
}

/// Text that is no JSON is answered with a parse error under the id `null`,
/// and the loop ends. Nothing else changes.
pub proof fn malformed_json_ends_the_loop(
    text: Seq<char>,
    state: LsState,
    ctx: ActionContext,
    sent: Seq<Seq<char>>,
    new_state: LsState,
    new_ctx: ActionContext,
    new_sent: Seq<Seq<char>>,
    effect: Effect,
    change: ServerStateChange,
)
    requires
        json_document(text) is None,
        stepped(Some(text), state, ctx, sent, new_state, new_ctx, new_sent, effect, change),
    ensures
        new_state == state,
        new_ctx == ctx,
        new_sent == sent.push(failure_text(IdView::Null, RpcError::ParseError)),
        effect == Effect::Nothing,
        change == ServerStateChange::Break,
{
}

/// `shutdown` twice in a row is acknowledged twice, each time under the id
/// of the request, and the server stays shut down.
pub proof fn shutdown_twice_is_acknowledged_twice(
    first: RawMessageView,
    second: RawMessageView,
    state: LsState,
    ctx: ActionContext,
    sent: Seq<Seq<char>>,
    mid_state: LsState,
    mid_ctx: ActionContext,
    mid_sent: Seq<Seq<char>>,
    mid_res: Result<Effect, RpcError>,
    new_state: LsState,
    new_ctx: ActionContext,
    new_sent: Seq<Seq<char>>,
    res: Result<Effect, RpcError>,
)
    requires
        first.method == ShutdownRequest::method(),
        second.method == ShutdownRequest::method(),
        numeric_id(first.id) is Some,
        numeric_id(second.id) is Some,
        dispatched(first, state, ctx, sent, mid_state, mid_ctx, mid_sent, mid_res),
        dispatched(second, mid_state, mid_ctx, mid_sent, new_state, new_ctx, new_sent, res),
    ensures
        mid_state.shut_down,
        new_state.shut_down,
        new_ctx == ctx,
        new_sent == sent.push(
            success_envelope(numeric_id(first.id)->0 as nat, "null"@),
        ).push(success_envelope(numeric_id(second.id)->0 as nat, "null"@)),
        mid_res == Ok::<_, RpcError>(Effect::Nothing),
        res == Ok::<_, RpcError>(Effect::Nothing),
{
    methods_differ();
}

/// After `shutdown`, a message of any method but `exit`, and an answer of
/// the client, changes nothing and sends nothing, and the loop goes on.
pub proof fn after_shutdown_all_but_exit_is_passed_over(
    text: Seq<char>,
    state: LsState,
    ctx: ActionContext,
    sent: Seq<Seq<char>>,
    new_state: LsState,
    new_ctx: ActionContext,
    new_sent: Seq<Seq<char>>,
    effect: Effect,
    change: ServerStateChange,
)
    requires
        state.shut_down,
        match parsed_message(text) {
            Ok(Some(msg)) => msg.method != ExitNotification::method(),
            Ok(None) => true,
            Err(_) => false,
        },
        stepped(Some(text), state, ctx, sent, new_state, new_ctx, new_sent, effect, change),
    ensures
        new_state == state,
        new_ctx == ctx,
        new_sent == sent,
        effect == Effect::Nothing,
        change == ServerStateChange::Continue,
{
}

/// Whether the method names a request that the engine answers with the
/// response of its action.
pub open spec fn has_response(method: Seq<char>) -> bool {
    ||| method == ShutdownRequest::method()
    ||| method == Completion::method()
    ||| method == ResolveCompletion::method()
}

/// The text of the list that every completion is answered with.
pub open spec fn canned_completion() -> Seq<char> {
    json_array(seq![simple_item_text("completion"@, "test completion"@)])
}

/// The text of the result that a request of a method with a response is
/// answered with: `null` for `shutdown`, the item as it came for
/// `completionItem/resolve`, and the list for `textDocument/completion`.
pub open spec fn response_text(msg: RawMessageView) -> Seq<char> {
    if msg.method == ShutdownRequest::method() {
        "null"@
    } else if msg.method == ResolveCompletion::method() {
        completion_item_text(decoded_completion_item(msg.params)->0)
    } else {
        canned_completion()
    }
}

/// Whether the message is a well-formed request of a method with a
/// response: its id is a number, and its parameters are of the shape of its
/// action.
pub open spec fn is_request_with_response(msg: RawMessageView) -> bool {
    &&& has_response(msg.method)
    &&& numeric_id(msg.id) is Some
    &&& msg.method == Completion::method() ==> decoded_position_params(msg.params) is Some
    &&& msg.method == ResolveCompletion::method() ==> decoded_completion_item(msg.params) is Some
}

proof fn lemma_canned_list()
    ensures
        forall|items: Vec<languageserver_types::CompletionItem>|
            Completion::is_canned(items) ==> json_array(#[trigger] item_texts(items@))
                == canned_completion(),
{
    assert forall|items: Vec<languageserver_types::CompletionItem>|
        Completion::is_canned(items) implies json_array(#[trigger] item_texts(items@))
        == canned_completion() by {
        assert(item_texts(items@) =~= seq![simple_item_text("completion"@, "test completion"@)]);
    }
}

/// Whether the request is one that its action answers: every request of a
/// method with a response but the completion for a document that is no
/// local file.
pub open spec fn is_answered(msg: RawMessageView) -> bool {
    msg.method == Completion::method() ==> file_path_of(
        decoded_position_params(msg.params)->0.uri,
    ) is Ok
}

/// A well-formed request of a method with a response is answered under its
/// own id, by one reply that carries the response; the context and the
/// replies before it stay as they are. The one that is not answered is the
/// completion for a document that is no local file: nothing is sent, and
/// the failure is noted. A completion before `initialize` is left out: it
/// breaks the protocol.
pub proof fn request_is_answered_under_its_id(
    msg: RawMessageView,
    state: LsState,
    ctx: ActionContext,
    sent: Seq<Seq<char>>,
    new_state: LsState,
    new_ctx: ActionContext,
    new_sent: Seq<Seq<char>>,
    res: Result<Effect, RpcError>,
)
    requires
        is_request_with_response(msg),
        msg.method == Completion::method() ==> ctx.is_init(),
        dispatched(msg, state, ctx, sent, new_state, new_ctx, new_sent, res),
    ensures
        new_ctx == ctx,
        is_answered(msg) ==> res == Ok::<_, RpcError>(Effect::Nothing) && new_sent == sent.push(
            success_envelope(numeric_id(msg.id)->0 as nat, response_text(msg)),
        ),
        !is_answered(msg) ==> res == Ok::<_, RpcError>(Effect::Failed) && new_sent == sent,
{
    methods_differ();
    lemma_canned_list();
}

/// On a server that was not initialized, an `initialize` request and then a
/// well-formed request of a method with a response are answered by two
/// replies, in this order, each under the id of its request. The loop goes
/// on after both.
///
/// The completion for a document that is no local file is left out: that
/// request stays without a reply.
pub proof fn initialize_then_request_gives_two_replies(
    first_text: Seq<char>,
    first: RawMessageView,
    second_text: Seq<char>,
    second: RawMessageView,
    state: LsState,
    ctx: ActionContext,
    sent: Seq<Seq<char>>,
    mid_state: LsState,
    mid_ctx: ActionContext,
    mid_sent: Seq<Seq<char>>,
    mid_effect: Effect,
    mid_change: ServerStateChange,
    new_state: LsState,
    new_ctx: ActionContext,
    new_sent: Seq<Seq<char>>,
    effect: Effect,
    change: ServerStateChange,
)
    requires
        !state.shut_down,
        !ctx.is_init(),
        parsed_message(first_text) == Ok::<_, RpcError>(Some(first)),
        first.method == InitializeRequest::method(),
        numeric_id(first.id) is Some,
        decoded_initialize_params(first.params) is Some,
        decoded_initialize_params(first.params)->0.root_path is Some,
        parsed_message(second_text) == Ok::<_, RpcError>(Some(second)),
        is_request_with_response(second),
        is_answered(second),
        stepped(
            Some(first_text),
            state,
            ctx,
            sent,
            mid_state,
            mid_ctx,
            mid_sent,
            mid_effect,
            mid_change,
        ),
        stepped(
            Some(second_text),
            mid_state,
            mid_ctx,
            mid_sent,
            new_state,
            new_ctx,
            new_sent,
            effect,
            change,
        ),
    ensures
        mid_change == ServerStateChange::Continue,
        change == ServerStateChange::Continue,
        mid_effect == Effect::Nothing,
        effect == Effect::Nothing,
        new_sent == sent.push(InitializeRequest::answer(numeric_id(first.id)->0)).push(
            success_envelope(numeric_id(second.id)->0 as nat, response_text(second)),
        ),
{
    methods_differ();
    lemma_canned_list();
    assert(mid_state == state);
    assert(mid_ctx.is_init());
    assert(mid_sent == sent.push(InitializeRequest::answer(numeric_id(first.id)->0)));
}

/// On a server that was initialized, opening a document and then asking
/// for a completion in it never gives up the connection, whatever the text
/// of the document and the position are: the loop goes on after both and
/// the context stays as it is. The text of a document that is a local file
/// is left for the store, and the completion for such a document is
/// answered with the list; one that is no local file leaves a note each
/// time, and no reply.
pub proof fn open_then_completion_goes_on(
    first_text: Seq<char>,
    first: RawMessageView,
    second_text: Seq<char>,
    second: RawMessageView,
    state: LsState,
    ctx: ActionContext,
    sent: Seq<Seq<char>>,
    mid_state: LsState,
    mid_ctx: ActionContext,
    mid_sent: Seq<Seq<char>>,
    mid_effect: Effect,
    mid_change: ServerStateChange,
    new_state: LsState,
    new_ctx: ActionContext,
    new_sent: Seq<Seq<char>>,
    effect: Effect,
    change: ServerStateChange,
)
    requires
        !state.shut_down,
        ctx.is_init(),
        parsed_message(first_text) == Ok::<_, RpcError>(Some(first)),
        first.method == DidOpen::method(),
        decoded_did_open_params(first.params) is Some,
        parsed_message(second_text) == Ok::<_, RpcError>(Some(second)),
        second.method == Completion::method(),
        numeric_id(second.id) is Some,
        decoded_position_params(second.params) is Some,
        stepped(
            Some(first_text),
            state,
            ctx,
            sent,
            mid_state,
            mid_ctx,
            mid_sent,
            mid_effect,
            mid_change,
        ),
        stepped(
            Some(second_text),
            mid_state,
            mid_ctx,
            mid_sent,
            new_state,
            new_ctx,
            new_sent,
            effect,
            change,
        ),
    ensures
        mid_change == ServerStateChange::Continue,
        change == ServerStateChange::Continue,
        new_state == state,
        new_ctx == ctx,
        mid_sent == sent,
        mid_effect == match file_path_of(decoded_did_open_params(first.params)->0.uri) {
            Ok(path) => (Effect::SetFile {
                path,
                text: decoded_did_open_params(first.params)->0.text,
            }),
            Err(_) => Effect::Failed,
        },
        is_answered(second) ==> effect == Effect::Nothing && new_sent == sent.push(
            success_envelope(numeric_id(second.id)->0 as nat, canned_completion()),
        ),
        !is_answered(second) ==> effect == Effect::Failed && new_sent == sent,
{
    methods_differ();
    lemma_canned_list();
}

/// A well-formed notification leaves the replies as they are, and so does
/// the loop that deals with it.
pub proof fn notification_step_sends_nothing(
    text: Seq<char>,
    msg: RawMessageView,
    state: LsState,
    ctx: ActionContext,
    sent: Seq<Seq<char>>,
    new_state: LsState,
    new_ctx: ActionContext,
    new_sent: Seq<Seq<char>>,
    effect: Effect,
    change: ServerStateChange,
)
    requires
        parsed_message(text) == Ok::<_, RpcError>(Some(msg)),
        is_notification(msg.method),
        msg.method == Initialized::method() ==> Initialized::decoded(msg.params) is Some,
        msg.method == DidOpen::method() ==> DidOpen::decoded(msg.params) is Some,
        msg.method == DidChange::method() ==> DidChange::decoded(msg.params) is Some,
        msg.method == Cancel::method() ==> Cancel::decoded(msg.params) is Some,
        msg.method == DidSave::method() ==> DidSave::decoded(msg.params) is Some,
        msg.method == DidChangeWatchedFiles::method() ==> DidChangeWatchedFiles::decoded(
            msg.params,
        ) is Some,
        stepped(Some(text), state, ctx, sent, new_state, new_ctx, new_sent, effect, change),
    ensures
        new_sent == sent,
{
    methods_differ();
}

/// A message is answered by one reply at most, and the replies that were
/// sent before it stay as they are and where they are: the replies stand in
/// the order of the messages that they answer.
pub proof fn step_sends_one_reply_at_most(
    msg: Option<Seq<char>>,
    state: LsState,
    ctx: ActionContext,
    sent: Seq<Seq<char>>,
    new_state: LsState,
    new_ctx: ActionContext,
    new_sent: Seq<Seq<char>>,
    effect: Effect,
    change: ServerStateChange,
)
    requires
        stepped(msg, state, ctx, sent, new_state, new_ctx, new_sent, effect, change),
    ensures
        new_sent == sent || new_sent.len() == sent.len() + 1 && new_sent.drop_last() == sent,
{
    methods_differ();
    assert forall|reply: Seq<char>| (#[trigger] sent.push(reply)).drop_last() == sent by {
        assert(sent.push(reply).drop_last() =~= sent);
    }
}

/// The context is initialized once: only `initialize` initializes it, and
/// once it is, no message changes it.
pub proof fn context_is_initialized_once(
    text: Seq<char>,
    state: LsState,
    ctx: ActionContext,
    sent: Seq<Seq<char>>,
    new_state: LsState,
    new_ctx: ActionContext,
    new_sent: Seq<Seq<char>>,
    effect: Effect,
    change: ServerStateChange,
)
    requires
        stepped(Some(text), state, ctx, sent, new_state, new_ctx, new_sent, effect, change),
    ensures
        ctx.is_init() ==> new_ctx == ctx,
        new_ctx != ctx ==> new_ctx.is_init() && parsed_message(text) is Ok && parsed_message(
            text,
        )->Ok_0 is Some && parsed_message(text)->Ok_0->0.method == InitializeRequest::method(),
{
    methods_differ();
}

/// The server is shut down once: only `shutdown` shuts it down, and once it
/// is, it stays so.
pub proof fn server_stays_shut_down(
    text: Seq<char>,
    state: LsState,
    ctx: ActionContext,
    sent: Seq<Seq<char>>,
    new_state: LsState,
    new_ctx: ActionContext,
    new_sent: Seq<Seq<char>>,
    effect: Effect,
    change: ServerStateChange,
)
    requires
        stepped(Some(text), state, ctx, sent, new_state, new_ctx, new_sent, effect, change),
    ensures
        state.shut_down ==> new_state.shut_down,
        new_state != state ==> new_state.shut_down && parsed_message(text) is Ok
            && parsed_message(text)->Ok_0 is Some && parsed_message(text)->Ok_0->0.method
            == ShutdownRequest::method(),
{
    methods_differ();
}

/// The process is asked to exit by `exit` alone, with the code 0 after
/// `shutdown` and the code 1 without it.
pub proof fn exit_code_tells_of_shutdown(
    text: Seq<char>,
    state: LsState,
    ctx: ActionContext,
    sent: Seq<Seq<char>>,
    new_state: LsState,
    new_ctx: ActionContext,
    new_sent: Seq<Seq<char>>,
    effect: Effect,
    change: ServerStateChange,
)
    requires
        stepped(Some(text), state, ctx, sent, new_state, new_ctx, new_sent, effect, change),
    ensures
        parsed_message(text) is Ok && parsed_message(text)->Ok_0 is Some && parsed_message(
            text,
        )->Ok_0->0.method == ExitNotification::method() ==> effect == Effect::Exit(
            ExitNotification::exit_code(state),
        ) && change == ServerStateChange::Break && new_sent == sent,
        effect is Exit ==> parsed_message(text) is Ok && parsed_message(text)->Ok_0 is Some
            && parsed_message(text)->Ok_0->0.method == ExitNotification::method(),
{
    methods_differ();
}

} // verus!
