//! What a test of the engine is made of: a reader that plays back a list of
//! messages, a sink that records the replies, and what is expected of them.

use vstd::prelude::*;
use vstd::string::StringExecFns;
use crate::json::{
    as_string, as_unsigned, json_document, json_member, json_string, json_u64, member,
    parse_value,
};
use crate::lsp_data::{InitializationOptions, InitializeParams, Position};
use crate::json::value_text;
use crate::text::{find_text, occurs_at};
use vstd::string::StrSliceExecFns;
use vstd::string::StringSliceAdditionalSpecFns;
use vstd::utf8::{encode_utf8, is_char_boundary};
use crate::server::io::{MessageReader, Output};
use crate::server::{InitializeRequest, LsService, Request, RequestAction};
use crate::text::{contains_text, occurs_in, same_text};
use std::marker::PhantomData;

verus! {

/// A reader that hands over the messages of a list, one by one.
pub struct MockMsgReader {
    pub messages: Vec<String>,
    pub cur: usize,
}

impl MockMsgReader {
    pub fn new(messages: Vec<String>) -> (reader: MockMsgReader)
        ensures
            reader.messages == messages,
            reader.cur == 0,
    {
        MockMsgReader { messages, cur: 0 }
    }
}

impl MessageReader for MockMsgReader {
    /// The next message of the list, or `None` when all were handed over.
    fn read_message(&mut self) -> (res: Option<String>)
        ensures
            final(self).messages == old(self).messages,
            old(self).cur < old(self).messages.len() ==> final(self).cur == old(self).cur + 1
                && res == Some(old(self).messages[old(self).cur as int]),
            old(self).cur >= old(self).messages.len() ==> final(self).cur == old(self).cur && res
                is None,
    {
        let index = self.cur;
        if index >= self.messages.len() {
            return None;
        }
        self.cur = index + 1;
        Some(self.messages[index].clone())
    }
}

/// The id under which the recording sink sends the server's own requests.
pub const SERVER_REQUEST_ID: u32 = 0xDEADBEEF;

/// Whether the reply with this text is a request of the server itself: its
/// id is a number whose low 32 bits are the id that the sink provides.
pub open spec fn is_server_request(text: Seq<char>) -> bool {
    match json_document(text) {
        Some(doc) => match json_member(doc, "id"@) {
            Some(id) => match json_u64(id) {
                Some(n) => n as u32 == SERVER_REQUEST_ID,
                None => false,
            },
            None => false,
        },
        None => false,
    }
}

/// A sink that keeps the replies for a test to look at.
pub struct RecordOutput {
    pub output: Vec<String>,
}

impl RecordOutput {
    pub fn new() -> (out: RecordOutput)
        ensures
            out.output@.len() == 0,
    {
        RecordOutput { output: Vec::new() }
    }

    /// The texts of the replies that were kept.
    pub open spec fn kept(&self) -> Seq<Seq<char>> {
        self.output@.map_values(|text: String| text@)
    }
}

impl Output for RecordOutput {
    /// Keeps the reply, unless it is a request of the server itself.
    fn response(&mut self, output: String)
        ensures
            final(self).kept() == if is_server_request(output@) {
                old(self).kept()
            } else {
                old(self).kept().push(output@)
            },
    {
        let own = match parse_value(output.as_str()) {
            Ok(value) => match member(&value, "id") {
                Some(id) => match as_unsigned(id) {
                    Some(n) => #[verifier::truncate] (n as u32) == SERVER_REQUEST_ID,
                    None => false,
                },
                None => false,
            },
            Err(_) => false,
        };
        if !own {
            self.output.push(output);
            proof {
                assert(self.kept() =~= old(self).kept().push(output@));
            }
        }
    }

    fn provide_id(&mut self) -> (id: u32)
        ensures
            id == SERVER_REQUEST_ID,
    {
        SERVER_REQUEST_ID
    }
}

/// What a test expects of one reply.
#[derive(Clone, Debug)]
pub struct ExpectedMessage {
    pub id: Option<u64>,
    pub contains: Vec<String>,
}

impl ExpectedMessage {
    /// A reply under the id given, or under any id.
    pub fn new(id: Option<u64>) -> (expected: ExpectedMessage)
        ensures
            expected.id == id,
            expected.contains@.len() == 0,
    {
        ExpectedMessage { id, contains: Vec::new() }
    }

    /// Expects the text `s` somewhere in the reply, too.
    pub fn expect_contains(&mut self, s: &str) -> (this: &mut ExpectedMessage)
        ensures
            this.id == old(self).id,
            this.texts() == old(self).texts().push(s@),
            *final(self) == *final(this),
    {
        self.contains.push(String::from_str(s));
        proof {
            assert(self.texts() =~= old(self).texts().push(s@));
        }
        self
    }

    /// The texts that are expected in the reply.
    pub open spec fn texts(&self) -> Seq<Seq<char>> {
        self.contains@.map_values(|text: String| text@)
    }

    /// Whether the reply `found` is as expected: it is a JSON document, its
    /// member `jsonrpc` is the string `2.0`, its id is the number expected,
    /// where one is, and each of the texts stands in it.
    pub open spec fn met_by(&self, found: Seq<char>) -> bool {
        match json_document(found) {
            None => false,
            Some(doc) => {
                &&& match json_member(doc, "jsonrpc"@) {
                    Some(version) => json_string(version) == Some("2.0"@),
                    None => false,
                }
                &&& match self.id {
                    Some(id) => match json_member(doc, "id"@) {
                        Some(found_id) => json_u64(found_id) == Some(id),
                        None => false,
                    },
                    None => true,
                }
                &&& forall|i: int|
                    0 <= i < self.texts().len() ==> occurs_in(found, #[trigger] self.texts()[i])
            },
        }
    }

    /// Holds a reply against what is expected of it.
    pub fn check(&self, found: &str) -> (ok: bool)
        ensures
            ok == self.met_by(found@),
    {
        let values = match parse_value(found) {
            Ok(values) => values,
            Err(_) => {
                return false;
            },
        };
        let version_ok = match member(&values, "jsonrpc") {
            Some(version) => match as_string(version) {
                Some(version) => same_text(version, "2.0"),
                None => false,
            },
            None => false,
        };
        if !version_ok {
            return false;
        }
        let id_ok = match self.id {
            Some(id) => match member(&values, "id") {
                Some(found_id) => match as_unsigned(found_id) {
                    Some(n) => n == id,
                    None => false,
                },
                None => false,
            },
            None => true,
        };
        if !id_ok {
            return false;
        }
        let mut i: usize = 0;
        while i < self.contains.len()
            invariant
                0 <= i <= self.contains@.len(),
                forall|j: int| 0 <= j < i ==> occurs_in(found@, #[trigger] self.texts()[j]),
            decreases self.contains@.len() - i,
        {
            if !contains_text(found, self.contains[i].as_str()) {
                proof {
                    assert(self.texts()[i as int] == self.contains@[i as int]@);
                }
                return false;
            }
            i = i + 1;
        }
        true
    }
}

/// Whether the replies are as expected, one for one and in order.
pub open spec fn all_met(results: Seq<String>, expected: Seq<&ExpectedMessage>) -> bool {
    &&& results.len() == expected.len()
    &&& forall|i: int| 0 <= i < results.len() ==> (#[trigger] expected[i]).met_by(results[i]@)
}

/// Holds the replies that were recorded against what is expected of them,
/// one for one and in order. Where they are as expected, the record is
/// emptied for the next message; where not, it is left for inspection.
pub fn expect_messages(results: &mut Vec<String>, expected: &[&ExpectedMessage]) -> (ok: bool)
    ensures
        ok == all_met(old(results)@, expected@),
        ok ==> final(results)@.len() == 0,
        !ok ==> final(results)@ == old(results)@,
{
    if results.len() != expected.len() {
        return false;
    }
    let mut i: usize = 0;
    while i < results.len()
        invariant
            *results == *old(results),
            results@.len() == expected@.len(),
            0 <= i <= results@.len(),
            forall|j: int| 0 <= j < i ==> (#[trigger] expected@[j]).met_by(results@[j]@),
        decreases results@.len() - i,
    {
        if !expected[i].check(results[i].as_str()) {
            return false;
        }
        i = i + 1;
    }
    results.clear();
    true
}

/// A name in a line of a source file.
#[derive(Clone, Copy, Debug)]
pub struct Src<'a, 'b> {
    pub file_name: &'a std::path::PathBuf,
    /// The line, counted from 1.
    pub line: usize,
    pub name: &'b str,
}

pub fn src<'a, 'b>(file_name: &'a std::path::PathBuf, line: usize, name: &'b str) -> (res: Src<
    'a,
    'b,
>)
    ensures
        res.file_name == file_name,
        res.line == line,
        res.name == name,
{
    Src { file_name, line, name }
}

/// The source files of a test project.
pub struct Cache {
    pub base_path: std::path::PathBuf,
}

impl Cache {
    pub fn new(base_path: std::path::PathBuf) -> (cache: Cache)
        ensures
            cache.base_path == base_path,
    {
        Cache { base_path }
    }

    /// The position of the name `src` in its file, where `line` is the text
    /// of the line that `src` names: the first place of the line where the
    /// name stands.
    pub fn mk_ls_position(&self, src: Src, line: &str) -> (position: Position)
        requires
            src.line >= 1,
            occurs_in(line@, src.name@),
        ensures
            position.line == src.line - 1,
            occurs_at(line@, src.name@, position.character as int),
            forall|before: int|
                0 <= before < position.character ==> !occurs_at(line@, src.name@, before),
    {
        let col = match find_text(line, src.name) {
            Some(col) => col,
            None => {
                proof {
                    assert(false);
                }
                0
            },
        };
        Position::new((src.line - 1) as u64, col as u64)
    }
}

/// The number of characters that stand before the byte `byte` of `s`, which
/// is the first byte of a character.
pub fn char_of_byte_index(s: &str, byte: usize) -> (index: usize)
    requires
        byte < s.spec_bytes().len(),
        is_char_boundary(s.spec_bytes(), byte as int),
    ensures
        index < s@.len(),
        encode_utf8(s@.take(index as int)) == s.spec_bytes().subrange(0, byte as int),
{
    broadcast use vstd::utf8::encode_utf8_decode_utf8;
    broadcast use vstd::utf8::encode_utf8_valid_utf8;
    broadcast use vstd::utf8::decode_utf8_split;
    broadcast use vstd::utf8::valid_utf8_split;

    let (before, rest) = s.split_at(byte);
    let index = before.unicode_len();
    proof {
        let bytes = s.spec_bytes();
        assert(vstd::utf8::decode_utf8(bytes) == s@);
        assert(vstd::utf8::decode_utf8(before.spec_bytes()) == before@);
        assert(vstd::utf8::decode_utf8(rest.spec_bytes()) == rest@);
        assert(s@ =~= before@ + rest@);
        assert(s@.take(index as int) =~= before@);
        assert(rest.spec_bytes().len() > 0);
        assert(rest@.len() > 0) by {
            if rest@.len() == 0 {
                assert(rest@ =~= Seq::<char>::empty());
                assert(encode_utf8(Seq::<char>::empty()).len() == 0);
            }
        }
    }
    index
}

/// A test project and the directory that a test of it may write to.
pub struct Environment {
    pub cache: Cache,
    pub target_path: std::path::PathBuf,
}

impl Environment {
    /// The environment of the project at `project_path`.
    pub fn new(project_path: std::path::PathBuf, target_path: std::path::PathBuf) -> (env:
        Environment)
        ensures
            env.cache.base_path == project_path,
            env.target_path == target_path,
    {
        Environment { cache: Cache::new(project_path), target_path }
    }

    /// A server that reads `messages` and records its replies.
    pub fn mock_server(&mut self, messages: Vec<String>) -> (server: LsService<
        MockMsgReader,
        RecordOutput,
    >)
        ensures
            *final(self) == *old(self),
            server.msg_reader.messages == messages,
            server.msg_reader.cur == 0,
            server.output.out.output@.len() == 0,
            server.output.sent().len() == 0,
            !server.ctx.is_init(),
            !server.state.shut_down,
    {
        let reader = MockMsgReader::new(messages);
        let output = RecordOutput::new();
        LsService::new(reader, output)
    }
}

/// The `initialize` request of a client with the workspace at `root_path`.
pub fn initialize(id: usize, root_path: Option<String>) -> (request: Request<InitializeRequest>)
    ensures
        request.id == id,
        request.params.root_path == root_path,
        request.params.initialization_options is None,
{
    initialize_with_opts(id, root_path, None)
}

/// The same with initialization options.
pub fn initialize_with_opts(
    id: usize,
    root_path: Option<String>,
    initialization_options: Option<InitializationOptions>,
) -> (request: Request<InitializeRequest>)
    ensures
        request.id == id,
        request.params.root_path == root_path,
        match initialization_options {
            Some(options) => request.params.initialization_options is Some
                && InitializationOptions::read(
                value_text(request.params.initialization_options->0),
            ) == options,
            None => request.params.initialization_options is None,
        },
{
    let init_opts = match initialization_options {
        Some(options) => Some(options.to_json()),
        None => None,
    };
    Request {
        id,
        params: InitializeParams { root_path, initialization_options: init_opts },
        _action: PhantomData,
    }
}

/// The request of the action `T` with the id and the parameters given.
pub fn request<T: RequestAction>(id: usize, params: T::Params) -> (request: Request<T>)
    ensures
        request.id == id,
        request.params == params,
{
    Request { id, params, _action: PhantomData }
}

} // verus!
