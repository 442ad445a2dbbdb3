use akkadia::harness::{MockMsgReader, RecordOutput};
use akkadia::rpc::{Id, RpcError};
use akkadia::server::{Effect, Fault, LsService, RawMessage, ServerStateChange};
use akkadia::span::{Column, Range, Row, Span};
use akkadia::vfs::Change;
use std::path::PathBuf;

type Service = LsService<MockMsgReader, RecordOutput>;

const PARSE_ERROR: &str =
    r#"{"jsonrpc":"2.0","error":{"code":-32700,"message":"Parse error"},"id":null}"#;

const CAPABILITIES: &str = r#"{"capabilities":{"textDocumentSync":2,"completionProvider":{"resolveProvider":true,"triggerCharacters":[".",":"]}}}"#;

fn service() -> Service {
    LsService::new(MockMsgReader::new(vec![]), RecordOutput::new())
}

fn step(service: &mut Service, text: &str) -> ServerStateChange {
    service.process(Some(text.to_owned()))
}

fn initialized() -> Service {
    let mut service = service();
    let change = step(
        &mut service,
        r#"{"jsonrpc":"2.0","id":0,"method":"initialize","params":{"rootPath":"/work","capabilities":{}}}"#,
    );
    assert_eq!(change, ServerStateChange::Continue);
    service.output.out.output.clear();
    service
}

fn did_open(uri: &str, text: &str) -> String {
    let mut document = serde_json::Map::new();
    document.insert("uri".to_owned(), serde_json::Value::from(uri));
    document.insert("text".to_owned(), serde_json::Value::from(text));
    let mut params = serde_json::Map::new();
    params.insert("textDocument".to_owned(), serde_json::Value::Object(document));
    let mut message = serde_json::Map::new();
    message.insert("jsonrpc".to_owned(), serde_json::Value::from("2.0"));
    message.insert("method".to_owned(), serde_json::Value::from("textDocument/didOpen"));
    message.insert("params".to_owned(), serde_json::Value::Object(params));
    serde_json::Value::Object(message).to_string()
}

fn completion(id: u64, uri: &str, line: u64, character: u64) -> String {
    format!(
        r#"{{"jsonrpc":"2.0","id":{},"method":"textDocument/completion","params":{{"textDocument":{{"uri":"{}"}},"position":{{"line":{},"character":{}}}}}}}"#,
        id, uri, line, character
    )
}

#[test]
fn initialize_answers_with_the_capabilities() {
    let mut service = service();
    let change = step(
        &mut service,
        r#"{"jsonrpc":"2.0","id":5,"method":"initialize","params":{"rootPath":"/work","capabilities":{}}}"#,
    );
    assert_eq!(change, ServerStateChange::Continue);
    assert_eq!(service.effect, Effect::Nothing);
    assert_eq!(
        service.output.out.output,
        vec![format!(r#"{{"jsonrpc":"2.0","id":5,"result":{}}}"#, CAPABILITIES)]
    );
    assert!(service.ctx.initialized());
    assert_eq!(service.ctx.inited().current_project, PathBuf::from("/work"));
}

#[test]
fn initialize_takes_options_it_does_not_know() {
    let mut service = service();
    let change = step(
        &mut service,
        r#"{"jsonrpc":"2.0","id":1,"method":"initialize","params":{"rootPath":"/work","capabilities":{},"initializationOptions":{"omitInitBuild":true,"other":[1]}}}"#,
    );
    assert_eq!(change, ServerStateChange::Continue);
    assert_eq!(service.output.out.output.len(), 1);
    assert!(service.ctx.initialized());
}

#[test]
fn initialize_then_completion_gives_two_replies_in_order() {
    let mut service = service();
    step(
        &mut service,
        r#"{"jsonrpc":"2.0","id":3,"method":"initialize","params":{"rootPath":"/work","capabilities":{}}}"#,
    );
    let change = step(&mut service, &completion(4, "file:///work/src/main.slang", 0, 13));
    assert_eq!(change, ServerStateChange::Continue);
    assert_eq!(
        service.output.out.output,
        vec![
            format!(r#"{{"jsonrpc":"2.0","id":3,"result":{}}}"#, CAPABILITIES),
            r#"{"jsonrpc":"2.0","id":4,"result":[{"label":"completion","detail":"test completion"}]}"#.to_owned(),
        ]
    );
}

#[test]
fn initialize_then_resolve_gives_two_replies_in_order() {
    let mut service = service();
    step(
        &mut service,
        r#"{"jsonrpc":"2.0","id":1,"method":"initialize","params":{"rootPath":"/work","capabilities":{}}}"#,
    );
    let change = step(
        &mut service,
        r#"{"jsonrpc":"2.0","id":2,"method":"completionItem/resolve","params":{"label":"x","detail":"y","sortText":"z"}}"#,
    );
    assert_eq!(change, ServerStateChange::Continue);
    assert_eq!(service.output.out.output.len(), 2);
    assert_eq!(
        service.output.out.output[1],
        r#"{"jsonrpc":"2.0","id":2,"result":{"label":"x","detail":"y","sortText":"z"}}"#
    );
}

#[test]
fn initialize_then_shutdown_gives_two_replies_in_order() {
    let mut service = service();
    step(
        &mut service,
        r#"{"jsonrpc":"2.0","id":8,"method":"initialize","params":{"rootPath":"/work","capabilities":{}}}"#,
    );
    let change = step(&mut service, r#"{"jsonrpc":"2.0","id":9,"method":"shutdown"}"#);
    assert_eq!(change, ServerStateChange::Continue);
    assert_eq!(service.output.out.output.len(), 2);
    assert_eq!(service.output.out.output[1], r#"{"jsonrpc":"2.0","id":9,"result":null}"#);
    assert!(service.state.shut_down);
}

#[test]
fn notifications_send_nothing() {
    let mut service = initialized();
    let messages = [
        r#"{"jsonrpc":"2.0","method":"initialized"}"#.to_owned(),
        r#"{"jsonrpc":"2.0","method":"initialized","params":{"any":"thing"}}"#.to_owned(),
        did_open("file:///work/a.slang", "text"),
        r#"{"jsonrpc":"2.0","method":"textDocument/didChange","params":{"textDocument":{"uri":"file:///work/a.slang","version":2},"contentChanges":[{"text":"new"}]}}"#.to_owned(),
        r#"{"jsonrpc":"2.0","method":"$/cancelRequest","params":{"id":3}}"#.to_owned(),
        r#"{"jsonrpc":"2.0","method":"$/cancelRequest","params":{"id":"three"}}"#.to_owned(),
        r#"{"jsonrpc":"2.0","method":"textDocument/didSave","params":{"textDocument":{"uri":"file:///work/a.slang"}}}"#.to_owned(),
        r#"{"jsonrpc":"2.0","method":"workspace/didChangeWatchedFiles","params":{"changes":[{"uri":"file:///work/a.slang","type":2}]}}"#.to_owned(),
    ];
    for message in messages.iter() {
        assert_eq!(step(&mut service, message), ServerStateChange::Continue, "{}", message);
        assert!(service.output.out.output.is_empty(), "{}", message);
    }
}

#[test]
fn did_open_sets_the_file() {
    let mut service = initialized();
    let change = step(&mut service, &did_open("file:///work/a.slang", "fn main() {}\n"));
    assert_eq!(change, ServerStateChange::Continue);
    assert_eq!(
        service.effect,
        Effect::SetFile { path: PathBuf::from("/work/a.slang"), text: "fn main() {}\n".to_owned() }
    );
}

#[test]
fn did_change_hands_over_the_changes_in_order() {
    let mut service = initialized();
    let change = step(
        &mut service,
        r#"{"jsonrpc":"2.0","method":"textDocument/didChange","params":{"textDocument":{"uri":"file:///work/a.slang","version":2},"contentChanges":[{"range":{"start":{"line":1,"character":2},"end":{"line":3,"character":4}},"rangeLength":9,"text":"new"},{"text":"whole"},{"range":{"start":{"line":4294967297,"character":0},"end":{"line":0,"character":4294967300}},"text":""}]}}"#,
    );
    assert_eq!(change, ServerStateChange::Continue);
    let file = PathBuf::from("/work/a.slang");
    let range = |row_start, col_start, row_end, col_end| Range {
        row_start: Row(row_start),
        row_end: Row(row_end),
        col_start: Column(col_start),
        col_end: Column(col_end),
    };
    assert_eq!(
        service.effect,
        Effect::Changes {
            file: file.clone(),
            changes: vec![
                Change::ReplaceText {
                    span: Span { file: file.clone(), range: range(1, 2, 3, 4) },
                    len: Some(9),
                    text: "new".to_owned(),
                },
                Change::AddFile { file: file.clone(), text: "whole".to_owned() },
                Change::ReplaceText {
                    span: Span { file: file.clone(), range: range(1, 0, 0, 4) },
                    len: None,
                    text: "".to_owned(),
                },
            ],
        }
    );
}

#[test]
fn did_change_without_changes_hands_over_none() {
    let mut service = initialized();
    step(
        &mut service,
        r#"{"jsonrpc":"2.0","method":"textDocument/didChange","params":{"textDocument":{"uri":"file:///work/a.slang","version":2},"contentChanges":[]}}"#,
    );
    assert_eq!(
        service.effect,
        Effect::Changes { file: PathBuf::from("/work/a.slang"), changes: vec![] }
    );
}

#[test]
fn did_save_marks_the_file_saved() {
    let mut service = initialized();
    let change = step(
        &mut service,
        r#"{"jsonrpc":"2.0","method":"textDocument/didSave","params":{"textDocument":{"uri":"file:///work/a.slang"}}}"#,
    );
    assert_eq!(change, ServerStateChange::Continue);
    assert_eq!(service.effect, Effect::FileSaved { path: PathBuf::from("/work/a.slang") });
}

#[test]
fn a_uri_of_another_scheme_is_passed_over() {
    let mut service = initialized();
    assert_eq!(
        step(&mut service, &did_open("git://work/a.slang", "text")),
        ServerStateChange::Continue
    );
    assert_eq!(service.effect, Effect::Failed);
    assert_eq!(
        step(&mut service, &completion(2, "http://example.com/a.slang", 0, 0)),
        ServerStateChange::Continue
    );
    assert_eq!(service.effect, Effect::Failed);
    assert_eq!(
        step(&mut service, &completion(3, "file://example.com/work/a.slang", 0, 0)),
        ServerStateChange::Continue
    );
    assert_eq!(service.effect, Effect::Failed);
    assert!(service.output.out.output.is_empty());
}

#[test]
fn an_effect_does_not_outlive_its_message() {
    let mut service = initialized();
    step(&mut service, &did_open("file:///work/a.slang", "text"));
    assert!(service.effect != Effect::Nothing);
    step(&mut service, r#"{"jsonrpc":"2.0","method":"initialized"}"#);
    assert_eq!(service.effect, Effect::Nothing);
}

#[test]
fn did_open_then_completion_works_whatever_the_text() {
    for text in ["", "\u{0}", "fn main() {", "\"}]", "😀\r\n\t", "struct Def {\n    a: Int,\n}\n"] {
        let mut service = initialized();
        assert_eq!(
            step(&mut service, &did_open("file:///work/a.slang", text)),
            ServerStateChange::Continue
        );
        assert_eq!(
            service.effect,
            Effect::SetFile { path: PathBuf::from("/work/a.slang"), text: text.to_owned() }
        );
        for (line, character) in [(0, 0), (7, 3), (u64::MAX, u64::MAX)] {
            service.output.out.output.clear();
            assert_eq!(
                step(&mut service, &completion(1, "file:///work/a.slang", line, character)),
                ServerStateChange::Continue
            );
            assert_eq!(
                service.output.out.output,
                vec![r#"{"jsonrpc":"2.0","id":1,"result":[{"label":"completion","detail":"test completion"}]}"#.to_owned()]
            );
        }
    }
}

#[test]
fn shutdown_twice_is_acknowledged_twice() {
    let mut service = service();
    let shutdown = |id: u64| RawMessage {
        method: "shutdown".to_owned(),
        id: Some(Id::Num(id)),
        params: "null".to_owned(),
    };
    assert_eq!(service.dispatch_message(&shutdown(1)), Ok(Effect::Nothing));
    assert!(service.state.shut_down);
    assert_eq!(service.dispatch_message(&shutdown(2)), Ok(Effect::Nothing));
    assert!(service.state.shut_down);
    assert_eq!(
        service.output.out.output,
        vec![
            r#"{"jsonrpc":"2.0","id":1,"result":null}"#.to_owned(),
            r#"{"jsonrpc":"2.0","id":2,"result":null}"#.to_owned(),
        ]
    );
}

#[test]
fn after_shutdown_every_message_but_exit_is_passed_over() {
    let mut service = initialized();
    step(&mut service, r#"{"jsonrpc":"2.0","id":1,"method":"shutdown"}"#);
    assert!(service.state.shut_down);
    service.output.out.output.clear();
    let messages = [
        r#"{"jsonrpc":"2.0","id":2,"method":"shutdown"}"#.to_owned(),
        r#"{"jsonrpc":"2.0","id":3,"method":"initialize","params":{"rootPath":"/other","capabilities":{}}}"#.to_owned(),
        did_open("file:///work/a.slang", "text"),
        completion(4, "file:///work/a.slang", 0, 0),
        r#"{"jsonrpc":"2.0","id":"abc","method":"textDocument/completion"}"#.to_owned(),
        r#"{"jsonrpc":"2.0","method":"unknown"}"#.to_owned(),
        r#"{"jsonrpc":"2.0","id":5,"result":null}"#.to_owned(),
    ];
    for message in messages.iter() {
        assert_eq!(step(&mut service, message), ServerStateChange::Continue, "{}", message);
        assert!(service.output.out.output.is_empty(), "{}", message);
        assert_eq!(service.effect, Effect::Nothing, "{}", message);
        assert!(service.state.shut_down);
        assert_eq!(service.ctx.inited().current_project, PathBuf::from("/work"));
    }
}

#[test]
fn exit_after_shutdown_ends_with_code_zero() {
    let mut service = service();
    step(&mut service, r#"{"jsonrpc":"2.0","id":1,"method":"shutdown"}"#);
    let change = step(&mut service, r#"{"jsonrpc":"2.0","method":"exit"}"#);
    assert_eq!(change, ServerStateChange::Break);
    assert_eq!(service.effect, Effect::Exit(0));
}

#[test]
fn exit_without_shutdown_ends_with_code_one() {
    let mut service = service();
    let change = step(&mut service, r#"{"jsonrpc":"2.0","method":"exit"}"#);
    assert_eq!(change, ServerStateChange::Break);
    assert_eq!(service.effect, Effect::Exit(1));
    assert!(service.output.out.output.is_empty());
}

#[test]
fn malformed_json_is_refused_and_ends_the_loop() {
    for text in ["{", "", "not json", "{\"method\":\"shutdown\",\"id\":1"] {
        let mut service = service();
        assert_eq!(step(&mut service, text), ServerStateChange::Break);
        assert_eq!(service.output.out.output, vec![PARSE_ERROR.to_owned()]);
        assert_eq!(service.effect, Effect::Nothing);
        assert!(!service.state.shut_down);
    }
}

#[test]
fn malformed_json_is_refused_after_shutdown_too() {
    let mut service = service();
    step(&mut service, r#"{"jsonrpc":"2.0","id":1,"method":"shutdown"}"#);
    service.output.out.output.clear();
    assert_eq!(step(&mut service, "exit"), ServerStateChange::Break);
    assert_eq!(service.output.out.output, vec![PARSE_ERROR.to_owned()]);
}

#[test]
fn the_loop_ends_at_malformed_json_with_messages_left() {
    let reader = MockMsgReader::new(vec![
        r#"{"jsonrpc":"2.0","method":"initialized"}"#.to_owned(),
        "{".to_owned(),
        r#"{"jsonrpc":"2.0","id":1,"method":"shutdown"}"#.to_owned(),
    ]);
    let mut service = LsService::new(reader, RecordOutput::new());
    let mut steps = 0;
    while service.handle_message() == ServerStateChange::Continue {
        steps += 1;
    }
    assert_eq!(steps, 1);
    assert_eq!(service.msg_reader.cur, 2);
    assert_eq!(service.output.out.output, vec![PARSE_ERROR.to_owned()]);
    assert!(!service.state.shut_down);
}

#[test]
fn the_end_of_the_messages_is_a_parse_error() {
    let mut service = service();
    assert_eq!(service.handle_message(), ServerStateChange::Break);
    assert_eq!(service.output.out.output, vec![PARSE_ERROR.to_owned()]);
    let mut service = self::service();
    assert_eq!(service.process(None), ServerStateChange::Break);
    assert_eq!(service.output.out.output, vec![PARSE_ERROR.to_owned()]);
}

#[test]
fn a_message_of_a_wrong_shape_is_reported_as_an_invalid_request() {
    for text in [
        r#"{"method":7,"id":1}"#,
        r#"{"jsonrpc":"2.0","method":5}"#,
        r#"{"method":null}"#,
        r#"{"method":"shutdown","id":1,"params":7}"#,
        r#"{"method":"shutdown","id":1,"params":"text"}"#,
    ] {
        let mut service = service();
        assert_eq!(step(&mut service, text), ServerStateChange::Break, "{}", text);
        assert_eq!(
            service.output.out.output,
            vec![r#"{"jsonrpc":"2.0","error":{"code":-32600,"message":"Invalid request"},"id":null}"#.to_owned()],
            "{}",
            text
        );
        assert_eq!(service.effect, Effect::Nothing);
        assert!(!service.state.shut_down);
    }
}

#[test]
fn a_method_that_is_no_string_ends_the_loop_with_an_invalid_request() {
    let reader = MockMsgReader::new(vec![r#"{"jsonrpc":"2.0","method":5}"#.to_owned()]);
    let mut service = LsService::new(reader, RecordOutput::new());
    assert_eq!(service.handle_message(), ServerStateChange::Break);
    assert_eq!(service.output.out.output.len(), 1);
    let reply: serde_json::Value = serde_json::from_str(&service.output.out.output[0]).unwrap();
    assert_eq!(reply["error"]["code"].as_i64(), Some(-32600));
    assert_eq!(reply["jsonrpc"].as_str(), Some("2.0"));
    assert!(reply["id"].is_null());
}

#[test]
fn a_request_with_a_string_id_that_is_no_number_is_refused() {
    let mut service = service();
    let change = step(&mut service, r#"{"jsonrpc":"2.0","id":"abc","method":"shutdown"}"#);
    assert_eq!(change, ServerStateChange::Break);
    assert_eq!(
        service.output.out.output,
        vec![r#"{"jsonrpc":"2.0","error":{"code":-32600,"message":"Invalid request"},"id":"abc"}"#.to_owned()]
    );
    assert!(!service.state.shut_down);
    assert_eq!(service.effect, Effect::Nothing);
}

#[test]
fn a_request_without_a_usable_id_leaves_the_context_alone() {
    for id in [r#""abc""#, "null", "[1]", "1.5", "-3", r#""""#, r#""1 ""#] {
        let mut service = service();
        let text = format!(
            r#"{{"jsonrpc":"2.0","id":{},"method":"initialize","params":{{"rootPath":"/work","capabilities":{{}}}}}}"#,
            id
        );
        assert_eq!(step(&mut service, &text), ServerStateChange::Break, "{}", id);
        assert!(!service.ctx.initialized(), "{}", id);
        assert_eq!(service.output.out.output.len(), 1, "{}", id);
        assert!(service.output.out.output[0].contains("-32600"), "{}", id);
    }
}

#[test]
fn a_request_without_an_id_is_refused_under_null() {
    let mut service = service();
    let change = step(&mut service, r#"{"jsonrpc":"2.0","method":"shutdown"}"#);
    assert_eq!(change, ServerStateChange::Break);
    assert_eq!(
        service.output.out.output,
        vec![r#"{"jsonrpc":"2.0","error":{"code":-32600,"message":"Invalid request"},"id":null}"#.to_owned()]
    );
}

#[test]
fn a_string_id_that_spells_a_number_is_answered_under_the_number() {
    let mut service = service();
    let change = step(&mut service, r#"{"jsonrpc":"2.0","id":"12","method":"shutdown"}"#);
    assert_eq!(change, ServerStateChange::Continue);
    assert_eq!(service.output.out.output, vec![r#"{"jsonrpc":"2.0","id":12,"result":null}"#.to_owned()]);
}

#[test]
fn parameters_of_another_shape_are_an_invalid_request() {
    let mut service = initialized();
    let change = step(
        &mut service,
        r#"{"jsonrpc":"2.0","method":"textDocument/didOpen","params":{"textDocument":{"uri":"file:///work/a.slang"}}}"#,
    );
    assert_eq!(change, ServerStateChange::Break);
    assert_eq!(
        service.output.out.output,
        vec![r#"{"jsonrpc":"2.0","error":{"code":-32600,"message":"Invalid request"},"id":null}"#.to_owned()]
    );
    assert_eq!(service.effect, Effect::Nothing);

    let mut service = initialized();
    let change = step(
        &mut service,
        r#"{"jsonrpc":"2.0","id":6,"method":"textDocument/completion","params":[1]}"#,
    );
    assert_eq!(change, ServerStateChange::Break);
    assert_eq!(
        service.output.out.output,
        vec![r#"{"jsonrpc":"2.0","error":{"code":-32600,"message":"Invalid request"},"id":6}"#.to_owned()]
    );
}

#[test]
fn an_unknown_method_changes_nothing() {
    let mut service = service();
    assert_eq!(
        step(&mut service, r#"{"jsonrpc":"2.0","id":1,"method":"textDocument/hover","params":{}}"#),
        ServerStateChange::Continue
    );
    assert_eq!(
        step(&mut service, r#"{"jsonrpc":"2.0","method":"Exit"}"#),
        ServerStateChange::Continue
    );
    assert!(service.output.out.output.is_empty());
    assert_eq!(service.effect, Effect::MethodNotFound);
    assert!(!service.ctx.initialized());
}

#[test]
fn an_answer_of_the_client_is_passed_over() {
    let mut service = service();
    assert_eq!(
        step(&mut service, r#"{"jsonrpc":"2.0","id":3735928559,"result":{}}"#),
        ServerStateChange::Continue
    );
    assert!(service.output.out.output.is_empty());
}

#[test]
fn an_action_before_initialize_gives_up_the_connection() {
    let messages = [
        did_open("file:///work/a.slang", "text"),
        r#"{"jsonrpc":"2.0","method":"textDocument/didChange","params":{"textDocument":{"uri":"file:///work/a.slang","version":2},"contentChanges":[]}}"#.to_owned(),
        r#"{"jsonrpc":"2.0","method":"textDocument/didSave","params":{"textDocument":{"uri":"file:///work/a.slang"}}}"#.to_owned(),
        completion(1, "file:///work/a.slang", 0, 0),
    ];
    for message in messages.iter() {
        let mut service = service();
        assert_eq!(step(&mut service, message), ServerStateChange::Break, "{}", message);
        assert_eq!(service.effect, Effect::Abort(Fault::NotInitialized), "{}", message);
        assert!(service.output.out.output.is_empty(), "{}", message);
    }
}

#[test]
fn initialize_twice_answers_and_gives_up_the_connection() {
    let mut service = initialized();
    let change = step(
        &mut service,
        r#"{"jsonrpc":"2.0","id":2,"method":"initialize","params":{"rootPath":"/other","capabilities":{}}}"#,
    );
    assert_eq!(change, ServerStateChange::Break);
    assert_eq!(service.effect, Effect::Abort(Fault::AlreadyInitialized));
    assert_eq!(
        service.output.out.output,
        vec![format!(r#"{{"jsonrpc":"2.0","id":2,"result":{}}}"#, CAPABILITIES)]
    );
    assert_eq!(service.ctx.inited().current_project, PathBuf::from("/work"));
}

#[test]
fn initialize_without_a_root_path_answers_and_gives_up_the_connection() {
    let mut service = service();
    let change = step(
        &mut service,
        r#"{"jsonrpc":"2.0","id":2,"method":"initialize","params":{"capabilities":{}}}"#,
    );
    assert_eq!(change, ServerStateChange::Break);
    assert_eq!(service.effect, Effect::Abort(Fault::NoRootPath));
    assert_eq!(service.output.out.output.len(), 1);
    assert!(!service.ctx.initialized());
}

#[test]
fn faults_are_described() {
    assert_eq!(Fault::NotInitialized.description(), "ActionContext not initialized");
    assert_eq!(Fault::AlreadyInitialized.description(), "ActionContext already initialized");
    assert_eq!(Fault::NoRootPath.description(), "No root path");
}

#[test]
fn a_failure_names_its_error() {
    let mut service = service();
    let message = RawMessage {
        method: "textDocument/didOpen".to_owned(),
        id: None,
        params: "null".to_owned(),
    };
    assert_eq!(service.dispatch_message(&message), Err(RpcError::InvalidRequest));
    assert!(service.output.out.output.is_empty());
}

#[test]
fn every_notification_checks_the_shape_of_its_parameters() {
    let messages = [
        r#"{"jsonrpc":"2.0","method":"$/cancelRequest","params":{"id":[1]}}"#,
        r#"{"jsonrpc":"2.0","method":"$/cancelRequest"}"#,
        r#"{"jsonrpc":"2.0","method":"workspace/didChangeWatchedFiles","params":{"changes":[{"uri":"file:///work/a.slang","type":4}]}}"#,
        r#"{"jsonrpc":"2.0","method":"workspace/didChangeWatchedFiles","params":{"changes":[{"uri":"not a uri","type":1}]}}"#,
        r#"{"jsonrpc":"2.0","method":"textDocument/didChange","params":{"textDocument":{"uri":"file:///work/a.slang"},"contentChanges":[]}}"#,
        r#"{"jsonrpc":"2.0","method":"textDocument/didSave","params":{"textDocument":{}}}"#,
        r#"{"jsonrpc":"2.0","method":"textDocument/didOpen","params":[]}"#,
    ];
    for message in messages.iter() {
        let mut service = initialized();
        assert_eq!(step(&mut service, message), ServerStateChange::Break, "{}", message);
        assert_eq!(
            service.output.out.output,
            vec![r#"{"jsonrpc":"2.0","error":{"code":-32600,"message":"Invalid request"},"id":null}"#.to_owned()],
            "{}",
            message
        );
        assert_eq!(service.effect, Effect::Nothing, "{}", message);
    }
}

#[test]
fn an_action_without_parameters_takes_whatever_stands_in_their_place() {
    for params in ["[1,2]", r#"{"any":"thing"}"#, "null"] {
        let mut service = service();
        let text = format!(r#"{{"jsonrpc":"2.0","id":1,"method":"shutdown","params":{}}}"#, params);
        assert_eq!(step(&mut service, &text), ServerStateChange::Continue, "{}", params);
        assert!(service.state.shut_down);
        let text = format!(r#"{{"jsonrpc":"2.0","method":"exit","params":{}}}"#, params);
        assert_eq!(step(&mut service, &text), ServerStateChange::Break, "{}", params);
        assert_eq!(service.effect, Effect::Exit(0));
    }
}

#[test]
fn a_notification_may_carry_an_id() {
    let mut service = initialized();
    let change = step(&mut service, r#"{"jsonrpc":"2.0","id":4,"method":"initialized"}"#);
    assert_eq!(change, ServerStateChange::Continue);
    assert!(service.output.out.output.is_empty());
}

#[test]
fn a_failure_after_an_unreadable_id_is_reported_under_null() {
    let mut service = service();
    let change = step(&mut service, r#"{"jsonrpc":"2.0","id":[1],"method":"shutdown"}"#);
    assert_eq!(change, ServerStateChange::Break);
    assert_eq!(
        service.output.out.output,
        vec![r#"{"jsonrpc":"2.0","error":{"code":-32600,"message":"Invalid request"},"id":null}"#.to_owned()]
    );
}

#[test]
fn replies_keep_the_order_of_their_requests() {
    let mut service = initialized();
    for id in [5u64, 3, 9, 3] {
        step(&mut service, &completion(id, "file:///work/a.slang", 0, 0));
    }
    let ids: Vec<u64> = service
        .output
        .out
        .output
        .iter()
        .map(|reply| {
            serde_json::from_str::<serde_json::Value>(reply).unwrap()["id"].as_u64().unwrap()
        })
        .collect();
    assert_eq!(ids, vec![5, 3, 9, 3]);
}

#[test]
fn resolve_hands_the_item_back_as_it_came() {
    for item in [
        r#"{"label":"a"}"#,
        r#"{"label":"a","kind":3,"detail":"b","documentation":"c","insertText":"d","data":{"k":[1,null]}}"#,
        r#"{"label":""}"#,
    ] {
        for mut service in [service(), initialized()] {
            let text = format!(
                r#"{{"jsonrpc":"2.0","id":21,"method":"completionItem/resolve","params":{}}}"#,
                item
            );
            assert_eq!(step(&mut service, &text), ServerStateChange::Continue, "{}", item);
            assert_eq!(service.effect, Effect::Nothing);
            assert_eq!(
                service.output.out.output,
                vec![format!(r#"{{"jsonrpc":"2.0","id":21,"result":{}}}"#, item)],
                "{}",
                item
            );
        }
    }
}

#[test]
fn a_handler_that_gives_up_is_noted() {
    let mut service = initialized();
    let message = RawMessage {
        method: "textDocument/didSave".to_owned(),
        id: None,
        params: r#"{"textDocument":{"uri":"http://example.com/a"}}"#.to_owned(),
    };
    assert_eq!(service.dispatch_message(&message), Ok(Effect::Failed));
    let message = RawMessage {
        method: "textDocument/hover".to_owned(),
        id: Some(Id::Num(1)),
        params: "null".to_owned(),
    };
    assert_eq!(service.dispatch_message(&message), Ok(Effect::MethodNotFound));
    assert!(service.output.out.output.is_empty());
}

#[test]
fn a_file_on_another_host_is_no_local_file() {
    let messages = [
        did_open("file://example.com/work/a.slang", "text"),
        r#"{"jsonrpc":"2.0","method":"textDocument/didChange","params":{"textDocument":{"uri":"file://example.com/work/a.slang","version":2},"contentChanges":[{"text":"new"}]}}"#.to_owned(),
        r#"{"jsonrpc":"2.0","method":"textDocument/didSave","params":{"textDocument":{"uri":"file://example.com/work/a.slang"}}}"#.to_owned(),
        completion(8, "file://example.com/work/a.slang", 0, 0),
    ];
    for message in messages.iter() {
        let mut service = initialized();
        assert_eq!(step(&mut service, message), ServerStateChange::Continue, "{}", message);
        assert_eq!(service.effect, Effect::Failed, "{}", message);
        assert!(service.output.out.output.is_empty(), "{}", message);
    }
}

#[test]
fn every_document_action_acts_on_the_path_of_its_uri() {
    let mut service = initialized();
    step(&mut service, &did_open("file:///work/dir/a%20b.slang", "text"));
    assert_eq!(
        service.effect,
        Effect::SetFile { path: PathBuf::from("/work/dir/a b.slang"), text: "text".to_owned() }
    );
    step(
        &mut service,
        r#"{"jsonrpc":"2.0","method":"textDocument/didSave","params":{"textDocument":{"uri":"file://localhost/work/dir/c.slang"}}}"#,
    );
    assert_eq!(service.effect, Effect::FileSaved { path: PathBuf::from("/work/dir/c.slang") });
    step(
        &mut service,
        r#"{"jsonrpc":"2.0","method":"textDocument/didChange","params":{"textDocument":{"uri":"file:///work/dir/d.slang","version":1},"contentChanges":[{"text":"x"}]}}"#,
    );
    let file = PathBuf::from("/work/dir/d.slang");
    assert_eq!(
        service.effect,
        Effect::Changes {
            file: file.clone(),
            changes: vec![Change::AddFile { file, text: "x".to_owned() }],
        }
    );
}
