use akkadia::harness::{expect_messages, initialize, request, src, Environment, ExpectedMessage};
use akkadia::actions::requests::Completion;
use akkadia::lsp_data::{Position, TextDocumentPositionParams};
use akkadia::server::{Effect, InitializeRequest, Request, ServerStateChange};
use std::path::{Path, PathBuf};
use url::Url;

fn value_of<T: serde::Serialize>(value: &T) -> serde_json::Value {
    serde_json::to_value(value).unwrap()
}

fn message(id: usize, method: &str, params: serde_json::Value) -> String {
    let mut object = serde_json::Map::new();
    object.insert("jsonrpc".to_owned(), serde_json::Value::from("2.0"));
    object.insert("id".to_owned(), serde_json::Value::from(id as u64));
    object.insert("method".to_owned(), serde_json::Value::from(method));
    object.insert("params".to_owned(), params);
    serde_json::Value::Object(object).to_string()
}

fn initialize_text(request: &Request<InitializeRequest>) -> String {
    let params = languageserver_types::InitializeParams {
        process_id: None,
        root_path: request.params.root_path.clone(),
        root_uri: None,
        initialization_options: request.params.initialization_options.clone(),
        capabilities: languageserver_types::ClientCapabilities {
            workspace: None,
            text_document: None,
            experimental: None,
        },
        trace: languageserver_types::TraceOption::Off,
    };
    message(request.id, "initialize", value_of(&params))
}

fn completion_text(request: &Request<Completion>) -> String {
    let params = languageserver_types::TextDocumentPositionParams {
        text_document: languageserver_types::TextDocumentIdentifier::new(
            request.params.uri.clone(),
        ),
        position: languageserver_types::Position::new(
            request.params.position.line,
            request.params.position.character,
        ),
    };
    message(request.id, "textDocument/completion", value_of(&params))
}

#[test]
fn test_completion() {
    let project = PathBuf::from("/workspace/test_data/common");
    let mut env = Environment::new(project.clone(), PathBuf::from("/workspace/target/tests/0"));

    let source_file_path = Path::new("src").join("main.slang");

    let root_path = env.cache.base_path.clone();
    let url = Url::from_file_path(env.cache.base_path.join(&source_file_path))
        .expect("couldn't convert file path to URL");

    let line = "fn main() -> Int {";
    let position = env.cache.mk_ls_position(src(&source_file_path, 1, "Int"), line);
    assert_eq!(position, Position::new(0, 13));

    let messages = vec![
        initialize_text(&initialize(0, root_path.as_os_str().to_str().map(|x| x.to_owned()))),
        completion_text(&request::<Completion>(
            11,
            TextDocumentPositionParams { uri: url.clone(), position },
        )),
    ];

    let mut server = env.mock_server(messages);
    // Initialise and build.
    assert_eq!(server.handle_message(), ServerStateChange::Continue);
    assert_eq!(server.effect, Effect::Nothing);
    assert!(expect_messages(
        &mut server.output.out.output,
        &[ExpectedMessage::new(Some(0)).expect_contains("capabilities")],
    ));

    assert_eq!(server.handle_message(), ServerStateChange::Continue);
    assert!(expect_messages(
        &mut server.output.out.output,
        &[ExpectedMessage::new(Some(11))
            .expect_contains(r#"[{"label":"completion","detail":"test completion"}]"#)],
    ));
}
