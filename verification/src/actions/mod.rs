//! The context that actions run in, and the word locator used to turn a
//! cursor position into the span of the identifier under it.

use vstd::prelude::*;
use vstd::std_specs::iter::IteratorSpec;
use crate::lsp_data::ls_util::{position_as_span, position_to_span};
use crate::lsp_data::{InitializationOptions, Position, Span};
use crate::span;
use crate::span::Column;

pub mod notifications;
pub mod requests;

verus! {

/// What the actions share: nothing before `initialize`, the workspace after it.
#[derive(Debug, PartialEq, Eq)]
pub enum ActionContext {
    Init(InitActionContext),
    Uninit(UninitActionContext),
}

/// The context after `initialize`.
#[derive(Debug, PartialEq, Eq)]
pub struct InitActionContext {
    pub current_project: std::path::PathBuf,
}

/// The context before `initialize`.
#[derive(Debug, PartialEq, Eq)]
pub struct UninitActionContext {}

impl ActionContext {
    /// The context of a server that was not initialized yet.
    pub fn new() -> (ctx: ActionContext)
        ensures
            ctx == ActionContext::Uninit((UninitActionContext {  })),
    {
        ActionContext::Uninit(UninitActionContext::new())
    }

    /// Whether `initialize` was carried out.
    pub open spec fn is_init(&self) -> bool {
        self is Init
    }

    #[verifier::when_used_as_spec(is_init)]
    pub fn initialized(&self) -> (b: bool)
        ensures
            b == self.is_init(),
    {
        match self {
            ActionContext::Init(_) => true,
            ActionContext::Uninit(_) => false,
        }
    }

    /// Carries out `initialize`: the context holds the workspace from now
    /// on. This is done once; a context that was initialized cannot be
    /// initialized again.
    pub fn init(&mut self, current_project: std::path::PathBuf, init_options: &InitializationOptions)
        requires
            !old(self).is_init(),
        ensures
            *final(self) == ActionContext::Init((InitActionContext { current_project })),
    {
        *self = ActionContext::Init(InitActionContext::new(current_project));
    }

    /// The initialized context. There is none before `initialize`.
    pub fn inited(&self) -> (ctx: &InitActionContext)
        requires
            self.is_init(),
        ensures
            *self == ActionContext::Init(*ctx),
    {
        match self {
            ActionContext::Uninit(_) => unreached(),
            ActionContext::Init(ctx) => ctx,
        }
    }
}

impl UninitActionContext {
    fn new() -> (ctx: UninitActionContext) {
        UninitActionContext {  }
    }
}

impl InitActionContext {
    fn new(current_project: std::path::PathBuf) -> (ctx: InitActionContext)
        ensures
            ctx.current_project == current_project,
    {
        InitActionContext { current_project }
    }

    /// The span of the word that the cursor `pos` touches, where `line` is
    /// the text of the line of `file_path` that the cursor is in.
    pub fn convert_pos_to_span(
        &self,
        file_path: std::path::PathBuf,
        pos: Position,
        line: &str,
    ) -> (res: Span)
        requires
            line@.len() <= u32::MAX,
        ensures
            res.file == file_path,
            res.range.row_start == position_as_span(pos).row,
            res.range.row_end == position_as_span(pos).row,
            is_word_start(
                line@,
                position_as_span(pos).col.0 as int,
                res.range.col_start.0 as int,
            ),
            is_word_end(line@, position_as_span(pos).col.0 as int, res.range.col_end.0 as int),
    {
        let pos = position_to_span(pos);
        let (start, end) = find_word_at_pos(line, &pos.col);
        Span::from_positions(
            span::Position::new(pos.row, start),
            span::Position::new(pos.row, end),
            file_path,
        )
    }
}

/// Whether `c` is alphanumeric in the sense of Unicode (`char::is_alphanumeric`).
pub uninterp spec fn char_is_alphanumeric(c: char) -> bool;

/// Calls `char::is_alphanumeric`; the result is the value that std's Unicode
/// tables give for `c`, which `char_is_alphanumeric` names.
#[verifier::external_body]
fn is_alphanumeric(c: char) -> (b: bool)
    ensures
        b == char_is_alphanumeric(c),
{
    c.is_alphanumeric()
}

/// The characters that make up a word: alphanumeric ones and the underscore.
pub open spec fn is_ident_char(c: char) -> bool {
    char_is_alphanumeric(c) || c == '_'
}

/// Whether every character of `line` from `from` up to `to` belongs to a word.
pub open spec fn all_ident(line: Seq<char>, from: int, to: int) -> bool {
    forall|i: int| from <= i < to ==> 0 <= i < line.len() && is_ident_char(#[trigger] line[i])
}

/// Whether `start` is where the word that ends at the cursor `pos` begins:
/// the characters between them belong to a word, and the one before `start`
/// does not. A cursor behind the end of the line counts as the end of the line.
pub open spec fn is_word_start(line: Seq<char>, pos: int, start: int) -> bool {
    let stop = if pos <= line.len() { pos } else { line.len() as int };
    &&& 0 <= start <= stop
    &&& all_ident(line, start, stop)
    &&& start > 0 ==> !is_ident_char(line[start - 1])
}

/// Whether `end` is where the word that begins at the cursor `pos` ends: the
/// characters between them belong to a word, and the one at `end` does not.
/// A cursor at or behind the end of the line is its own end.
pub open spec fn is_word_end(line: Seq<char>, pos: int, end: int) -> bool {
    if pos >= line.len() {
        end == pos
    } else {
        &&& pos <= end <= line.len()
        &&& all_ident(line, pos, end)
        &&& end < line.len() ==> !is_ident_char(line[end])
    }
}

/// A cursor touches one word only: the start and the end of the word at a
/// cursor are determined by the line and the cursor.
pub proof fn word_range_is_unique(line: Seq<char>, pos: int, a: (int, int), b: (int, int))
    requires
        is_word_start(line, pos, a.0),
        is_word_end(line, pos, a.1),
        is_word_start(line, pos, b.0),
        is_word_end(line, pos, b.1),
    ensures
        a == b,
{
    if a.0 < b.0 {
        assert(is_ident_char(line[b.0 - 1]));
    }
    if b.0 < a.0 {
        assert(is_ident_char(line[a.0 - 1]));
    }
    if pos < line.len() {
        if a.1 < b.1 {
            assert(is_ident_char(line[a.1]));
        }
        if b.1 < a.1 {
            assert(is_ident_char(line[b.1]));
        }
    }
}

fn is_ident(c: char) -> (b: bool)
    ensures
        b == is_ident_char(c),
{
    is_alphanumeric(c) || c == '_'
}

/// Returns the cursor range of the word in `line` that the cursor `pos`
/// touches, as a (`start`, `end`) pair of cursors. A pair of equal cursors is
/// an empty selection: (4, 4) is the empty range after the first 4 characters.
pub fn find_word_at_pos(line: &str, pos: &Column) -> (range: (Column, Column))
    requires
        line@.len() <= u32::MAX,
    ensures
        is_word_start(line@, pos.0 as int, range.0.0 as int),
        is_word_end(line@, pos.0 as int, range.1.0 as int),
{
    broadcast use vstd::string::group_string_axioms;

    let col: u32 = pos.0;
    let mut start: u32 = 0;
    let mut end: Option<u32> = None;
    let mut i: u32 = 0;
    let mut chars = line.chars();
    loop
        invariant_except_break
            chars.remaining() == line@.skip(i as int),
            end is None,
        invariant
            line@.len() <= u32::MAX,
            col == pos.0,
            0 <= i <= line@.len(),
            0 <= start <= i,
            start <= col,
            i <= col ==> all_ident(line@, start as int, i as int),
            i > col ==> all_ident(line@, start as int, col as int) && all_ident(
                line@,
                col as int,
                i as int,
            ),
            start > 0 ==> !is_ident_char(line@[start - 1]),
        ensures
            0 <= i <= line@.len(),
            0 <= start <= i,
            start <= col,
            match end {
                Some(e) => {
                    &&& e == i
                    &&& col <= i < line@.len()
                    &&& !is_ident_char(line@[i as int])
                    &&& all_ident(line@, start as int, col as int)
                    &&& all_ident(line@, col as int, i as int)
                },
                None => {
                    &&& i == line@.len()
                    &&& i <= col ==> all_ident(line@, start as int, i as int)
                    &&& i > col ==> all_ident(line@, start as int, col as int) && all_ident(
                        line@,
                        col as int,
                        i as int,
                    )
                },
            },
            start > 0 ==> !is_ident_char(line@[start - 1]),
        decreases line@.len() - i,
    {
        match chars.next() {
            None => {
                break ;
            },
            Some(c) => {
                assert(c == line@[i as int]);
                if !is_ident(c) {
                    if i < col {
                        start = i + 1;
                    } else {
                        end = Some(i);
                        break ;
                    }
                }
                i = i + 1;
            },
        }
    }
    let end: u32 = match end {
        Some(e) => e,
        None => if col >= i {
            col
        } else {
            i
        },
    };
    (Column(start), Column(end))
}

} // verus!
