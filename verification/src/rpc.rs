//! The JSON-RPC envelope: correlation ids, the errors that end a connection,
//! and the text of the replies.

use vstd::prelude::*;
use vstd::string::StringExecFns;
use vstd::std_specs::iter::IteratorSpec;
use crate::json::{
    as_string, as_unsigned, json_kind, json_string, json_u64, kind_of, value_text, JsonKind,
};

verus! {

/// The correlation id of a message.
#[derive(Clone, Debug, PartialEq, Eq)]
pub enum Id {
    /// A `null` id.
    Null,
    /// A string, as the client wrote it.
    Str(String),
    /// A number.
    Num(u64),
}

/// What an `Id` holds.
pub enum IdView {
    Null,
    Str(Seq<char>),
    Num(u64),
}

impl View for Id {
    type V = IdView;

    open spec fn view(&self) -> IdView {
        match self {
            Id::Null => IdView::Null,
            Id::Str(s) => IdView::Str(s@),
            Id::Num(n) => IdView::Num(*n),
        }
    }
}

/// The errors that the engine answers with before it ends the connection.
#[derive(Clone, Copy, Debug, PartialEq, Eq, Structural)]
pub enum RpcError {
    /// The message is no well-formed JSON.
    ParseError,
    /// The message is JSON, but not a request or notification that can be routed.
    InvalidRequest,
}

/// The versions of the protocol that a reply can name.
#[derive(Clone, Copy, Debug, PartialEq, Eq, Structural)]
pub enum Version {
    /// JSON-RPC 2.0.
    V2,
}

/// The text of the failure reply that `jsonrpc_core` and `serde_json` print
/// for a version of the protocol, an id and an error.
pub uninterp spec fn rendered_failure(version: Version, id: IdView, error: RpcError) -> Seq<char>;

/// The text of the reply that refuses a message: a failure of the version
/// 2.0 of the protocol, with the id and the error.
pub open spec fn failure_text(id: IdView, error: RpcError) -> Seq<char> {
    rendered_failure(Version::V2, id, error)
}

impl Id {
    /// The id that the JSON value with the compact text `doc` is: a whole
    /// number from 0 to 2^64 - 1, a string, or `null`. No other value is an
    /// id.
    pub open spec fn read_from(doc: Seq<char>) -> Option<IdView> {
        match json_u64(doc) {
            Some(n) => Some(IdView::Num(n)),
            None => match json_string(doc) {
                Some(s) => Some(IdView::Str(s)),
                None => if json_kind(doc) == JsonKind::Null {
                    Some(IdView::Null)
                } else {
                    None
                },
            },
        }
    }

    /// Reads an id from a JSON value.
    pub fn read(v: &serde_json::Value) -> (res: Option<Id>)
        ensures
            match res {
                Some(id) => Self::read_from(value_text(*v)) == Some(id@),
                None => Self::read_from(value_text(*v)) is None,
            },
    {
        match as_unsigned(v) {
            Some(n) => Some(Id::Num(n)),
            None => match as_string(v) {
                Some(s) => Some(Id::Str(String::from_str(s))),
                None => match kind_of(v) {
                    JsonKind::Null => Some(Id::Null),
                    _ => None,
                },
            },
        }
    }
}

/// Builds a `jsonrpc_core::Failure` from the version, the id and the error,
/// the error by `jsonrpc_core`'s own constructor for its kind, and prints it
/// with `serde_json::to_string`.
#[verifier::external_body]
pub(crate) fn render_failure(version: Version, id: &Id, error: RpcError) -> (text: String)
    ensures
        text@ == rendered_failure(version, id@, error),
{
    let version = match version {
        Version::V2 => jsonrpc_core::Version::V2,
    };
    let id = match id {
        Id::Null => jsonrpc_core::Id::Null,
        Id::Str(s) => jsonrpc_core::Id::Str(s.clone()),
        Id::Num(n) => jsonrpc_core::Id::Num(*n),
    };
    let error = match error {
        RpcError::ParseError => jsonrpc_core::Error::parse_error(),
        RpcError::InvalidRequest => jsonrpc_core::Error::invalid_request(),
    };
    let failure = jsonrpc_core::Failure { jsonrpc: Some(version), error, id };
    serde_json::to_string(&failure).unwrap_or_default()
}

/// The character that stands for a digit.
pub open spec fn digit_char(d: nat) -> char {
    if d == 0 {
        '0'
    } else if d == 1 {
        '1'
    } else if d == 2 {
        '2'
    } else if d == 3 {
        '3'
    } else if d == 4 {
        '4'
    } else if d == 5 {
        '5'
    } else if d == 6 {
        '6'
    } else if d == 7 {
        '7'
    } else if d == 8 {
        '8'
    } else {
        '9'
    }
}

/// A number in base 10, without a sign or leading zeros.
pub open spec fn decimal_digits(n: nat) -> Seq<char>
    decreases n,
{
    if n < 10 {
        seq![digit_char(n)]
    } else {
        decimal_digits(n / 10).push(digit_char(n % 10))
    }
}

fn digit_str(d: usize) -> (s: &'static str)
    requires
        d < 10,
    ensures
        s@ == seq![digit_char(d as nat)],
{
    proof {
        reveal_strlit("0");
        reveal_strlit("1");
        reveal_strlit("2");
        reveal_strlit("3");
        reveal_strlit("4");
        reveal_strlit("5");
        reveal_strlit("6");
        reveal_strlit("7");
        reveal_strlit("8");
        reveal_strlit("9");
    }
    let s = if d == 0 {
        "0"
    } else if d == 1 {
        "1"
    } else if d == 2 {
        "2"
    } else if d == 3 {
        "3"
    } else if d == 4 {
        "4"
    } else if d == 5 {
        "5"
    } else if d == 6 {
        "6"
    } else if d == 7 {
        "7"
    } else if d == 8 {
        "8"
    } else {
        "9"
    };
    assert(s@ =~= seq![digit_char(d as nat)]);
    s
}

/// Writes a number in base 10.
pub fn decimal(n: usize) -> (s: String)
    ensures
        s@ == decimal_digits(n as nat),
    decreases n,
{
    if n < 10 {
        String::from_str(digit_str(n))
    } else {
        let mut s = decimal(n / 10);
        s.append(digit_str(n % 10));
        s
    }
}

/// The text of the reply that carries the result `data` of the request `id`.
pub open spec fn success_envelope(id: nat, data: Seq<char>) -> Seq<char> {
    "{\"jsonrpc\":\"2.0\",\"id\":"@ + decimal_digits(id) + ",\"result\":"@ + data + "}"@
}

/// Writes the reply that carries the result `data`, which is JSON text, of
/// the request `id`.
pub fn success_text(id: usize, data: &str) -> (text: String)
    ensures
        text@ == success_envelope(id as nat, data@),
{
    let mut text = String::from_str("{\"jsonrpc\":\"2.0\",\"id\":");
    let digits = decimal(id);
    text.append(digits.as_str());
    text.append(",\"result\":");
    text.append(data);
    text.append("}");
    text
}

/// Whether `c` is one of the ten digits.
pub open spec fn is_digit(c: char) -> bool {
    '0' <= c <= '9'
}

/// The number that a digit stands for.
pub open spec fn digit_value(c: char) -> nat {
    if is_digit(c) {
        (c as u32 - '0' as u32) as nat
    } else {
        0
    }
}

/// The number that a sequence of digits stands for in base 10.
pub open spec fn digits_value(digits: Seq<char>) -> nat
    decreases digits.len(),
{
    if digits.len() == 0 {
        0
    } else {
        digits_value(digits.drop_last()) * 10 + digit_value(digits.last())
    }
}

/// Whether `digits` holds digits only.
pub open spec fn all_digits(digits: Seq<char>) -> bool {
    forall|i: int| 0 <= i < digits.len() ==> is_digit(#[trigger] digits[i])
}

/// The number that `s` stands for: an optional `+`, then one digit or more.
/// Any other text stands for none.
pub open spec fn unsigned_decimal(s: Seq<char>) -> Option<nat> {
    let digits = if s.len() > 0 && s[0] == '+' {
        s.skip(1)
    } else {
        s
    };
    if digits.len() > 0 && all_digits(digits) {
        Some(digits_value(digits))
    } else {
        None
    }
}

/// The number that `s` stands for, where it fits in a `usize`.
pub open spec fn parsed_usize(s: Seq<char>) -> Option<usize> {
    match unsigned_decimal(s) {
        Some(v) => if v <= usize::MAX {
            Some(v as usize)
        } else {
            None
        },
        None => None,
    }
}

proof fn lemma_digits_value_grows(digits: Seq<char>, k: int)
    requires
        0 <= k <= digits.len(),
    ensures
        digits_value(digits.take(k)) <= digits_value(digits),
    decreases digits.len(),
{
    if k < digits.len() {
        lemma_digits_value_grows(digits.drop_last(), k);
        assert(digits.drop_last().take(k) =~= digits.take(k));
    } else {
        assert(digits.take(k) =~= digits);
    }
}

/// Reads a number in base 10 as `usize::from_str_radix` does: an optional
/// `+`, then one digit or more, with a value that fits.
pub fn parse_usize(s: &str) -> (res: Option<usize>)
    ensures
        res == parsed_usize(s@),
{
    broadcast use vstd::string::group_string_axioms;

    let mut chars = s.chars();
    let mut value: usize = 0;
    let mut any: bool = false;
    let mut first: bool = true;
    let ghost mut from: int = 0;
    let ghost mut at: int = 0;
    loop
        invariant_except_break
            chars.remaining() == s@.skip(at),
        invariant
            0 <= from <= at <= s@.len(),
            from <= 1,
            first ==> at == 0 && from == 0,
            !first ==> at > 0,
            from == 1 ==> s@[0] == '+',
            from == 0 && !first ==> s@[0] != '+',
            any == (at > from),
            forall|i: int| from <= i < at ==> is_digit(#[trigger] s@[i]),
            value == digits_value(s@.subrange(from, at)),
        ensures
            at == s@.len(),
            !first ==> (from == 1 <==> s@[0] == '+'),
        decreases s@.len() - at,
    {
        match chars.next() {
            None => {
                break ;
            },
            Some(c) => {
                assert(at < s@.len() && c == s@[at]);
                if first && c == '+' {
                    first = false;
                    proof {
                        from = 1;
                        at = 1;
                        assert(s@.subrange(1, 1) =~= Seq::<char>::empty());
                    }
                } else {
                    first = false;
                    if !(c >= '0' && c <= '9') {
                        proof {
                            let digits = if s@.len() > 0 && s@[0] == '+' {
                                s@.skip(1)
                            } else {
                                s@
                            };
                            assert(0 <= at - from < digits.len());
                            assert(!is_digit(digits[at - from]));
                        }
                        return None;
                    }
                    let d: usize = (c as u32 - '0' as u32) as usize;
                    proof {
                        let next = s@.subrange(from, at + 1);
                        assert(next.drop_last() =~= s@.subrange(from, at));
                        assert(next.last() == c);
                        let digits = if s@.len() > 0 && s@[0] == '+' {
                            s@.skip(1)
                        } else {
                            s@
                        };
                        assert(digits.take(at + 1 - from) =~= next);
                        lemma_digits_value_grows(digits, at + 1 - from);
                    }
                    let scaled = match value.checked_mul(10) {
                        Some(v) => v,
                        None => {
                            return None;
                        },
                    };
                    value = match scaled.checked_add(d) {
                        Some(v) => v,
                        None => {
                            return None;
                        },
                    };
                    any = true;
                    proof {
                        at = at + 1;
                    }
                }
            },
        }
    }
    proof {
        let digits = if s@.len() > 0 && s@[0] == '+' {
            s@.skip(1)
        } else {
            s@
        };
        assert(digits =~= s@.subrange(from, at));
    }
    if any {
        Some(value)
    } else {
        None
    }
}

proof fn lemma_decimal_digits(n: nat)
    ensures
        decimal_digits(n).len() > 0,
        all_digits(decimal_digits(n)),
        decimal_digits(n)[0] != '+',
        digits_value(decimal_digits(n)) == n,
    decreases n,
{
    if n < 10 {
        assert(decimal_digits(n).drop_last() =~= Seq::<char>::empty());
        assert(digits_value(decimal_digits(n)) == digits_value(Seq::<char>::empty()) * 10
            + digit_value(digit_char(n)));
    } else {
        lemma_decimal_digits(n / 10);
        let shorter = decimal_digits(n / 10);
        assert(decimal_digits(n).drop_last() =~= shorter);
        assert(decimal_digits(n)[0] == shorter[0]);
        assert forall|i: int| 0 <= i < decimal_digits(n).len() implies is_digit(
            #[trigger] decimal_digits(n)[i],
        ) by {
            if i < shorter.len() {
                assert(decimal_digits(n)[i] == shorter[i]);
            }
        }
    }
}

/// A number that was written in base 10 is read back as the same number: a
/// request whose id is the string that spells a number is answered under
/// that number.
pub proof fn decimal_is_read_back(n: usize)
    ensures
        parsed_usize(decimal_digits(n as nat)) == Some(n),
{
    lemma_decimal_digits(n as nat);
}

} // verus!
