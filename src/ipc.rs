//! The protocol between the host and the conversion worker: the messages,
//! the bootstrap line that advertises the worker's channel, and the
//! decisions each side takes on a received message.

use vstd::prelude::*;
use crate::processing::{pre_process_text, pre_processed};
use crate::session::CandidateQuery;
use crate::text::{chars_of, push_char, string_of_range};

verus! {

/// Delimits the channel address on the worker's bootstrap line.
pub const BOOTSTRAP_DELIMITER: char = '$';

/// A message on a host/worker channel. `S` is the handle of a channel the
/// worker owns, handed to the host to open the reverse direction.
pub enum IpcMessage<S> {
    Start,
    Sender(S),
    ResetComposingText,
    InsertAtCursorPosition(String),
    RequestCandidates(String),
    Candidates(Vec<String>),
    End,
}

/// The bootstrap line for channel address `name`.
pub open spec fn bootstrap_line_of(name: Seq<char>) -> Seq<char> {
    seq![BOOTSTRAP_DELIMITER] + name + seq![BOOTSTRAP_DELIMITER]
}

/// The address carried by `line`, when it is a bootstrap line.
pub open spec fn bootstrap_address_of(line: Seq<char>) -> Option<Seq<char>> {
    if line.len() >= 2 && line[0] == BOOTSTRAP_DELIMITER && line.last() == BOOTSTRAP_DELIMITER {
        Some(line.subrange(1, line.len() - 1))
    } else {
        None
    }
}

/// The line the worker prints to advertise its channel `name`.
pub fn bootstrap_line(name: &str) -> (r: String)
    ensures
        r@ == bootstrap_line_of(name@),
        bootstrap_address_of(r@) == Some(name@),
{
    let mut line = String::new();
    push_char(&mut line, BOOTSTRAP_DELIMITER);
    line.append(name);
    push_char(&mut line, BOOTSTRAP_DELIMITER);
    assert(line@ =~= bootstrap_line_of(name@));
    assert(line@.subrange(1, line@.len() - 1) =~= name@);
    line
}

/// The channel address on a line of the worker's output, or `None` for any
/// other line (worker-side logging).
pub fn parse_bootstrap_line(line: &str) -> (r: Option<String>)
    ensures
        match r {
            Some(s) => bootstrap_address_of(line@) == Some(s@),
            None => bootstrap_address_of(line@) is None,
        },
{
    let chars = chars_of(line);
    let n = chars.len();
    if n >= 2 && chars[0] == BOOTSTRAP_DELIMITER && chars[n - 1] == BOOTSTRAP_DELIMITER {
        Some(string_of_range(&chars, 1, n - 1))
    } else {
        None
    }
}

/// The messages the host sends for one query: reset the composing text,
/// insert the text, request candidates for the context.
pub fn request_messages<S>(query: &CandidateQuery) -> (r: Vec<IpcMessage<S>>)
    ensures
        r@.len() == 3,
        r@[0] is ResetComposingText,
        r@[1] matches IpcMessage::InsertAtCursorPosition(t) && t@ == query.text@,
        r@[2] matches IpcMessage::RequestCandidates(c) && c@ == query.context@,
{
    let mut r: Vec<IpcMessage<S>> = Vec::new();
    r.push(IpcMessage::ResetComposingText);
    r.push(IpcMessage::InsertAtCursorPosition(query.text.clone()));
    r.push(IpcMessage::RequestCandidates(query.context.clone()));
    r
}

/// What the host does with one received message while it awaits candidates.
pub enum ReplyStep {
    /// The wait is over: these are the candidates.
    Deliver(Vec<String>),
    /// Not the awaited reply: discard it and read again.
    KeepWaiting,
}

/// The host's decision on one receive (`None` when the channel failed):
/// candidates end the wait; a failed channel ends it with no candidates;
/// any other message is discarded.
pub fn on_reply<S>(received: Option<IpcMessage<S>>) -> (r: ReplyStep)
    ensures
        match received {
            Some(IpcMessage::Candidates(c)) => r matches ReplyStep::Deliver(d) && d@ == c@,
            None => r matches ReplyStep::Deliver(d) && d@.len() == 0,
            Some(_) => r is KeepWaiting,
        },
{
    match received {
        Some(IpcMessage::Candidates(c)) => ReplyStep::Deliver(c),
        None => ReplyStep::Deliver(Vec::new()),
        Some(_) => ReplyStep::KeepWaiting,
    }
}

/// What the worker does with one received message.
pub enum WorkerAction {
    /// Start a new composing text.
    ResetComposingText,
    /// Insert this (already pre-processed) text into the composing text.
    Insert(String),
    /// Ask the engine for candidates with this context; reply when `reply`.
    Request { context: String, reply: bool },
    /// Leave the serve loop.
    Stop,
    /// Nothing to do.
    Ignore,
}

/// The worker's side of a channel: the handle for its replies, once the
/// host has sent it.
pub struct ConversionServer<S> {
    reply_to: Option<S>,
}

impl<S> ConversionServer<S> {
    /// A worker that has no reply channel yet.
    pub fn new() -> (r: ConversionServer<S>)
        ensures
            r.reply_to() is None,
    {
        ConversionServer { reply_to: None }
    }

    /// The handle for replies, if known.
    pub closed spec fn reply_to(&self) -> Option<S> {
        self.reply_to
    }

    /// The reply channel, if known.
    pub fn sender(&self) -> (r: Option<&S>)
        ensures
            r == match self.reply_to() {
                Some(s) => Some(&s),
                None => None::<&S>,
            },
    {
        self.reply_to.as_ref()
    }

    /// The worker's decision on one receive (`None` when the channel failed).
    /// A sender handle is kept for replies; text to insert is pre-processed;
    /// a request is answered only once a reply channel is known; `End` or a
    /// failed channel stops the loop; anything else is ignored.
    pub fn handle(&mut self, received: Option<IpcMessage<S>>) -> (r: WorkerAction)
        ensures
            !(received matches Some(IpcMessage::Sender(_))) ==> final(self).reply_to()
                == old(self).reply_to(),
            match received {
                Some(IpcMessage::Sender(s)) => final(self).reply_to() == Some(s) && r is Ignore,
                Some(IpcMessage::ResetComposingText) => r is ResetComposingText,
                Some(IpcMessage::InsertAtCursorPosition(t)) => (r matches WorkerAction::Insert(p)
                    && p@ == pre_processed(t@)),
                Some(IpcMessage::RequestCandidates(c)) => (r matches WorkerAction::Request {
                    context,
                    reply,
                } && context@ == c@ && reply == old(self).reply_to() is Some),
                Some(IpcMessage::End) | None => r is Stop,
                Some(_) => r is Ignore,
            },
    {
        match received {
            Some(IpcMessage::Sender(s)) => {
                self.reply_to = Some(s);
                WorkerAction::Ignore
            },
            Some(IpcMessage::ResetComposingText) => WorkerAction::ResetComposingText,
            Some(IpcMessage::InsertAtCursorPosition(t)) => WorkerAction::Insert(
                pre_process_text(t.as_str()),
            ),
            Some(IpcMessage::RequestCandidates(c)) => WorkerAction::Request {
                context: c,
                reply: self.reply_to.is_some(),
            },
            Some(IpcMessage::End) | None => WorkerAction::Stop,
            Some(_) => WorkerAction::Ignore,
        }
    }
}

/// The worker process currently serving the host, held once; taking it for
/// shutdown leaves the slot empty, so a second shutdown finds nothing to do.
pub struct WorkerSlot<H> {
    child: Option<H>,
}

impl<H> WorkerSlot<H> {
    /// An empty slot.
    pub fn new() -> (r: WorkerSlot<H>)
        ensures
            r.child() is None,
    {
        WorkerSlot { child: None }
    }

    /// The process held, if any.
    pub closed spec fn child(&self) -> Option<H> {
        self.child
    }

    /// Holds `child` as the worker process.
    pub fn install(&mut self, child: H)
        ensures
            final(self).child() == Some(child),
    {
        self.child = Some(child);
    }

    /// Hands out the worker process to terminate, at most once: afterwards
    /// the slot is empty.
    pub fn take_for_shutdown(&mut self) -> (r: Option<H>)
        ensures
            r == old(self).child(),
            final(self).child() is None,
    {
        self.child.take()
    }
}

} // verus!
