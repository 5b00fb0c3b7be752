//! Tool calls whose arguments arrive in fragments.

use std::collections::HashMap;

use vstd::prelude::*;

use crate::decode::json_parse;
use crate::json::{empty_object, Json, JsonTree};

verus! {

broadcast use vstd::std_specs::hash::group_hash_axioms;

/// A tool call that has started and not ended.
#[derive(Debug)]
pub struct PendingCall {
    pub id: String,
    pub name: String,
    /// The argument fragments so far, one behind the other.
    pub args: String,
}

/// What a [`PendingCall`] holds.
#[verifier::ext_equal]
pub struct CallView {
    pub id: Seq<char>,
    pub name: Seq<char>,
    pub args: Seq<char>,
}

impl View for PendingCall {
    type V = CallView;

    open spec fn view(&self) -> CallView {
        CallView { id: self.id@, name: self.name@, args: self.args@ }
    }
}

/// Why a tool call could not be finished.
#[derive(Debug)]
pub enum FinalizeError {
    /// No call has started at this index.
    NotStarted,
    /// The arguments are not JSON; the parser's description.
    BadArguments(String),
}

/// What a [`ToolCallBuffer`] holds: the calls that have started, by their index, and whether the
/// end of the answer has been reported.
#[verifier::ext_equal]
pub struct BufferView {
    pub calls: Map<usize, CallView>,
    pub finished: bool,
}

impl BufferView {
    /// Nothing has come yet.
    pub open spec fn empty() -> BufferView {
        BufferView { calls: Map::empty(), finished: false }
    }

    /// After a call has started at `index`.
    pub open spec fn start(self, index: usize, id: Seq<char>, name: Seq<char>) -> BufferView {
        BufferView {
            calls: self.calls.insert(index, CallView { id, name, args: Seq::empty() }),
            ..self
        }
    }

    /// After one more fragment of the arguments at `index`; a fragment of no call is dropped.
    pub open spec fn extend(self, index: usize, fragment: Seq<char>) -> BufferView {
        if self.calls.dom().contains(index) {
            let call = self.calls[index];
            BufferView {
                calls: self.calls.insert(index, CallView { args: call.args + fragment, ..call }),
                ..self
            }
        } else {
            self
        }
    }

    /// After the call at `index` has ended.
    pub open spec fn end(self, index: usize) -> BufferView {
        BufferView { calls: self.calls.remove(index), ..self }
    }

    /// After the end of the answer has been reported.
    pub open spec fn finish(self) -> BufferView {
        BufferView { finished: true, ..self }
    }
}

/// What the collected arguments of a call denote. A call without a fragment has no arguments.
pub open spec fn arguments(args: Seq<char>) -> Result<JsonTree, Seq<char>> {
    if args.len() == 0 {
        Ok(empty_object())
    } else {
        json_parse(args)
    }
}

/// Collects the argument fragments of tool calls while an answer is being streamed.
#[derive(Debug)]
pub struct ToolCallBuffer {
    calls: HashMap<usize, PendingCall>,
    finished: bool,
}

impl View for ToolCallBuffer {
    type V = BufferView;

    closed spec fn view(&self) -> BufferView {
        BufferView {
            calls: self.calls@.map_values(|c: PendingCall| c@),
            finished: self.finished,
        }
    }
}

impl ToolCallBuffer {
    /// A buffer for a new answer.
    pub fn new() -> (buf: ToolCallBuffer)
        ensures
            buf@ == BufferView::empty(),
    {
        let buf = ToolCallBuffer { calls: HashMap::new(), finished: false };
        assert(buf@ =~= BufferView::empty());
        buf
    }

    /// A call starts at `index`.
    pub fn on_start(&mut self, index: usize, id: String, name: String)
        ensures
            final(self)@ == old(self)@.start(index, id@, name@),
    {
        self.calls.insert(index, PendingCall { id, name, args: String::new() });
        assert(self@ =~= old(self)@.start(index, id@, name@));
    }

    /// A fragment of the arguments at `index`.
    pub fn on_delta(&mut self, index: usize, fragment: &str)
        ensures
            final(self)@ == old(self)@.extend(index, fragment@),
    {
        if let Some(mut call) = self.calls.remove(&index) {
            call.args.append(fragment);
            self.calls.insert(index, call);
        }
        assert(self@ =~= old(self)@.extend(index, fragment@));
    }

    /// Takes the call at `index` out of the buffer.
    pub fn take(&mut self, index: usize) -> (call: Option<PendingCall>)
        ensures
            final(self)@ == old(self)@.end(index),
            match call {
                Some(c) => old(self)@.calls.dom().contains(index) && old(self)@.calls[index] == c@,
                None => !old(self)@.calls.dom().contains(index),
            },
    {
        let call = self.calls.remove(&index);
        assert(self@ =~= old(self)@.end(index));
        call
    }

    /// Ends the call at `index`: its identifier, its name and what its arguments denote. The call
    /// leaves the buffer, also where the arguments are not JSON.
    pub fn finalize(&mut self, index: usize) -> (outcome: Result<
        (String, String, Json),
        FinalizeError,
    >)
        ensures
            final(self)@ == old(self)@.end(index),
            match outcome {
                Ok((id, name, args)) => old(self)@.calls.dom().contains(index) && ({
                    let call = old(self)@.calls[index];
                    id@ == call.id && name@ == call.name && arguments(call.args) == Ok::<
                        JsonTree,
                        Seq<char>,
                    >(args.tree())
                }),
                Err(FinalizeError::NotStarted) => !old(self)@.calls.dom().contains(index),
                Err(FinalizeError::BadArguments(e)) => old(self)@.calls.dom().contains(index)
                    && arguments(old(self)@.calls[index].args) == Err::<JsonTree, Seq<char>>(e@),
            },
    {
        match self.take(index) {
            None => Err(FinalizeError::NotStarted),
            Some(call) => {
                let parsed = if call.args.as_str().is_empty() {
                    Ok(Json::object())
                } else {
                    Json::parse(call.args.as_str())
                };
                finished_call(call, parsed)
            },
        }
    }

    /// The end of the answer has been reported.
    pub fn mark_finished(&mut self)
        ensures
            final(self)@ == old(self)@.finish(),
    {
        self.finished = true;
    }

    /// Whether the end of the answer has been reported.
    pub fn finished_emitted(&self) -> (answer: bool)
        ensures
            answer == self@.finished,
    {
        self.finished
    }
}

/// What a call comes to, given what its arguments denote.
pub fn finished_call(call: PendingCall, parsed: Result<Json, String>) -> (outcome: Result<
    (String, String, Json),
    FinalizeError,
>)
    ensures
        match parsed {
            Ok(args) => outcome matches Ok((id, name, a)) && id == call.id && name == call.name
                && a == args,
            Err(e) => outcome matches Err(FinalizeError::BadArguments(m)) && m == e,
        },
{
    match parsed {
        Ok(args) => Ok((call.id, call.name, args)),
        Err(e) => Err(FinalizeError::BadArguments(e)),
    }
}

} // verus!
