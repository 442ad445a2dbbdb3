//! The two ends of the connection as the engine sees them: a reader that
//! hands over one message at a time, and a sink that takes the replies.

use vstd::prelude::*;
use crate::rpc::{
    failure_text, render_failure, success_envelope, success_text, Id, RpcError, Version,
};

verus! {

/// Where the messages come from.
pub trait MessageReader {
    /// The next message, whole, or `None` when there is none to be had.
    fn read_message(&mut self) -> Option<String>;
}

/// Where the replies go.
pub trait Output {
    /// Takes one reply.
    fn response(&mut self, output: String);

    /// An id for a request that the server itself sends.
    fn provide_id(&mut self) -> u32;
}

/// An output together with the record of what was handed to it.
pub struct Sink<O: Output> {
    pub out: O,
    pub log: Ghost<Seq<Seq<char>>>,
}

impl<O: Output> Sink<O> {
    /// A sink to which nothing was handed yet.
    pub fn new(out: O) -> (sink: Sink<O>)
        ensures
            sink.out == out,
            sink.sent().len() == 0,
    {
        Sink { out, log: Ghost(Seq::empty()) }
    }

    /// Every reply that was handed to the sink, oldest first.
    pub open spec fn sent(&self) -> Seq<Seq<char>> {
        self.log@
    }

    /// Hands one reply to the output.
    pub fn response(&mut self, output: String)
        ensures
            final(self).sent() == old(self).sent().push(output@),
    {
        proof {
            self.log@ = self.log@.push(output@);
        }
        self.out.response(output);
    }

    /// An id for a request that the server itself sends. It leaves the
    /// replies as they are.
    pub fn provide_id(&mut self) -> (id: u32)
        ensures
            final(self).sent() == old(self).sent(),
    {
        self.out.provide_id()
    }
}

/// Sends the reply that refuses a message: the id, or `null`, and the error.
pub fn failure<O: Output>(out: &mut Sink<O>, id: &Id, error: RpcError)
    ensures
        final(out).sent() == old(out).sent().push(failure_text(id@, error)),
{
    out.response(render_failure(Version::V2, id, error));
}

/// Sends the reply that answers the request `id` with `data`, which is the
/// JSON text of the result.
pub fn success<O: Output>(out: &mut Sink<O>, id: usize, data: &str)
    ensures
        final(out).sent() == old(out).sent().push(success_envelope(id as nat, data@)),
{
    out.response(success_text(id, data));
}

} // verus!
