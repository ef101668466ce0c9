//! Diagnostic text that the engine emits out of band: handed at once to a consumer
//! that waits for it, and otherwise kept in a backlog of bounded length.

use std::collections::VecDeque;
use vstd::prelude::*;

verus! {

/// The most messages that the backlog holds.
pub const BACKLOG_LIMIT: usize = 100;

/// The text that stands in the backlog for messages that had to go.
pub open spec fn overflow_text() -> Seq<char> {
    "-- Overflow: Some elements have been removed --"@
}

/// The channel as its users see it: the consumer that waits, if there is one, and
/// the messages that nobody has taken yet, oldest first.
pub struct DebugState<W> {
    pub waiting: Option<W>,
    pub backlog: Seq<Seq<char>>,
}

/// The backlog after `message` has been put into it: at the limit the two oldest
/// entries give way to the overflow text.
pub open spec fn queued(backlog: Seq<Seq<char>>, message: Seq<char>) -> Seq<Seq<char>> {
    if backlog.len() >= BACKLOG_LIMIT {
        seq![overflow_text()] + backlog.skip(2) + seq![message]
    } else {
        backlog.push(message)
    }
}

impl<W> DebugState<W> {
    /// The backlog is within its limit, and is empty while a consumer waits.
    pub open spec fn wf(self) -> bool {
        &&& self.backlog.len() <= BACKLOG_LIMIT
        &&& self.waiting is Some ==> self.backlog.len() == 0
    }

    /// The message that a consumer gets at once; `None` where it has to wait.
    pub open spec fn next_message(self) -> Option<Seq<char>> {
        if self.backlog.len() > 0 {
            Some(self.backlog[0])
        } else {
            None
        }
    }

    /// The state after a consumer has asked for a message with `resolver`.
    pub open spec fn after_get(self, resolver: W) -> Self {
        if self.backlog.len() > 0 {
            DebugState { waiting: self.waiting, backlog: self.backlog.skip(1) }
        } else {
            DebugState { waiting: Some(resolver), backlog: self.backlog }
        }
    }

    /// The state after the engine has emitted `message`.
    pub open spec fn after_output(self, message: Seq<char>) -> Self {
        match self.waiting {
            Some(_) => DebugState { waiting: None, backlog: self.backlog },
            None => DebugState { waiting: None, backlog: queued(self.backlog, message) },
        }
    }

    /// The state after the engine has emitted one message after another.
    pub open spec fn after_outputs(self, messages: Seq<Seq<char>>) -> Self
        decreases messages.len(),
    {
        if messages.len() == 0 {
            self
        } else {
            self.after_outputs(messages.drop_last()).after_output(messages.last())
        }
    }

    /// The state after one consumer after another has asked for a message, each
    /// with its own resolver.
    pub open spec fn after_gets(self, resolvers: Seq<W>) -> Self
        decreases resolvers.len(),
    {
        if resolvers.len() == 0 {
            self
        } else {
            self.after_gets(resolvers.drop_last()).after_get(resolvers.last())
        }
    }
}

/// Neither emitting a message nor asking for one takes the backlog beyond its
/// limit, or leaves a consumer waiting beside a queued message.
pub proof fn lemma_backlog_is_bounded<W>(state: DebugState<W>, message: Seq<char>, resolver: W)
    requires
        state.wf(),
    ensures
        state.after_output(message).wf(),
        state.after_output(message).backlog.len() <= BACKLOG_LIMIT,
        state.after_get(resolver).wf(),
        state.after_get(resolver).backlog.len() <= BACKLOG_LIMIT,
{
}

/// A message emitted while the backlog is full leaves it full: the overflow text
/// stands where the oldest entry stood, the two oldest entries are gone, the others
/// have each moved up by one place, and the new message is the newest entry.
pub proof fn lemma_output_at_limit<W>(state: DebugState<W>, message: Seq<char>)
    requires
        state.wf(),
        state.waiting is None,
        state.backlog.len() == BACKLOG_LIMIT,
    ensures
        state.after_output(message).backlog.len() == BACKLOG_LIMIT,
        state.after_output(message).backlog[0] == overflow_text(),
        state.after_output(message).backlog[BACKLOG_LIMIT - 1] == message,
        forall|i: int|
            1 <= i < BACKLOG_LIMIT - 1 ==> state.after_output(message).backlog[i]
                == state.backlog[i + 1],
{
}

/// While nobody waits and the limit is not reached, messages join the backlog in
/// the order in which the engine emits them, behind those that are there.
pub proof fn lemma_outputs_queue_in_order<W>(state: DebugState<W>, messages: Seq<Seq<char>>)
    requires
        state.wf(),
        state.waiting is None,
        state.backlog.len() + messages.len() <= BACKLOG_LIMIT,
    ensures
        state.after_outputs(messages).wf(),
        state.after_outputs(messages).waiting is None,
        state.after_outputs(messages).backlog == state.backlog + messages,
    decreases messages.len(),
{
    if messages.len() == 0 {
        assert(state.backlog + messages =~= state.backlog);
    } else {
        lemma_outputs_queue_in_order(state, messages.drop_last());
        assert(state.backlog + messages =~= (state.backlog + messages.drop_last()).push(
            messages.last(),
        ));
    }
}

/// Queued messages leave in the order in which they came: of a backlog that holds
/// at least `resolvers.len()` messages, that many requests take the oldest ones,
/// one each, and the next request gets the message that follows them, or has to
/// wait where none is left.
pub proof fn lemma_first_in_first_out<W>(state: DebugState<W>, resolvers: Seq<W>)
    requires
        state.wf(),
        resolvers.len() <= state.backlog.len(),
    ensures
        state.after_gets(resolvers).waiting == state.waiting,
        state.after_gets(resolvers).backlog == state.backlog.skip(resolvers.len() as int),
        resolvers.len() < state.backlog.len() ==> state.after_gets(resolvers).next_message()
            == Some(state.backlog[resolvers.len() as int]),
        resolvers.len() == state.backlog.len() ==> state.after_gets(resolvers).next_message()
            is None,
    decreases resolvers.len(),
{
    if resolvers.len() == 0 {
        assert(state.backlog.skip(0) =~= state.backlog);
    } else {
        lemma_first_in_first_out(state, resolvers.drop_last());
        let before = state.after_gets(resolvers.drop_last());
        assert(before.backlog.skip(1) =~= state.backlog.skip(resolvers.len() as int));
    }
}

/// The debug output channel.
pub struct DebugOutput<W> {
    waiting: Option<W>,
    backlog: VecDeque<String>,
}

impl<W> View for DebugOutput<W> {
    type V = DebugState<W>;

    closed spec fn view(&self) -> DebugState<W> {
        DebugState { waiting: self.waiting, backlog: self.backlog@.map_values(|s: String| s@) }
    }
}

/// What a consumer that asked for a message is told.
pub enum DebugReply<W> {
    /// A message was queued: `resolver` is to be resolved with it now.
    Ready { resolver: W, message: String },
    /// Nothing was queued: the resolver is kept until a message comes. A resolver
    /// that waited before it is handed back unresolved.
    Registered { displaced: Option<W> },
}

impl<W> DebugOutput<W> {
    /// A channel with no message and no consumer.
    pub fn new() -> (output: Self)
        ensures
            output@ == (DebugState::<W> { waiting: None, backlog: Seq::empty() }),
            output@.wf(),
    {
        let output = DebugOutput { waiting: None, backlog: VecDeque::new() };
        assert(output@.backlog =~= Seq::empty());
        output
    }

    /// The number of messages in the backlog.
    pub fn backlog_len(&self) -> (len: usize)
        ensures
            len == self@.backlog.len(),
    {
        self.backlog.len()
    }

    /// Whether a consumer waits for a message.
    pub fn is_waiting(&self) -> (waiting: bool)
        ensures
            waiting == self@.waiting is Some,
    {
        self.waiting.is_some()
    }
}

/// Asks for the oldest message. Where the backlog holds one, it is taken out and
/// handed back with the resolver; where it is empty, the resolver is kept in place
/// of any that waited before.
pub fn get_debug<W>(output: &mut DebugOutput<W>, resolver: W) -> (reply: DebugReply<W>)
    requires
        old(output)@.wf(),
    ensures
        final(output)@ == old(output)@.after_get(resolver),
        final(output)@.wf(),
        match old(output)@.next_message() {
            Some(oldest) => reply matches DebugReply::Ready { resolver: r, message: m } && r
                == resolver && m@ == oldest,
            None => reply == (DebugReply::Registered { displaced: old(output)@.waiting }),
        },
{
    if output.backlog.len() == 0 {
        let displaced = output.waiting.take();
        output.waiting = Some(resolver);
        DebugReply::Registered { displaced }
    } else {
        let ghost before = output.backlog@;
        let message = output.backlog.pop_front().unwrap();
        proof {
            assert(output.backlog@.map_values(|s: String| s@) =~= before.map_values(
                |s: String| s@,
            ).skip(1));
        }
        DebugReply::Ready { resolver, message }
    }
}

/// Emits a message. Where a consumer waits, the message goes to it: the resolver
/// and the message are handed back for delivery. Otherwise the message joins the
/// backlog, which at its limit loses its two oldest entries to the overflow text.
pub fn output_debug<W>(output: &mut DebugOutput<W>, message: String) -> (delivery: Option<
    (W, String),
>)
    requires
        old(output)@.wf(),
    ensures
        final(output)@ == old(output)@.after_output(message@),
        final(output)@.wf(),
        match old(output)@.waiting {
            Some(resolver) => delivery == Some((resolver, message)),
            None => delivery is None,
        },
{
    match output.waiting.take() {
        Some(resolver) => Some((resolver, message)),
        None => {
            let ghost before = output.backlog@;
            if output.backlog.len() >= BACKLOG_LIMIT {
                output.backlog.pop_front();
                output.backlog.pop_front();
                let marker = String::from_str("-- Overflow: Some elements have been removed --");
                output.backlog.push_front(marker);
            }
            output.backlog.push_back(message);
            proof {
                assert(output.backlog@.map_values(|s: String| s@) =~= queued(
                    before.map_values(|s: String| s@),
                    message@,
                ));
            }
            None
        },
    }
}

} // verus!
