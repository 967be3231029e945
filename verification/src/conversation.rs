//! The agent handle: the pair of channels through which one agent instance
//! is spoken to, plus the counter behind convenience submissions.

use vstd::prelude::*;

use crate::channel::BoundedChan;
use crate::channel::RecvAttempt;
use crate::channel::SendAttempt;
use crate::protocol::Event;
use crate::protocol::Op;
use crate::protocol::Submission;

verus! {

/// The errors a handle reports to its immediate caller.
#[derive(Clone, Copy, Debug, PartialEq, Eq, Structural)]
pub enum LlmxErr {
    /// The peer of the outbound channel has been dropped.
    ChannelClosed,
    /// The inbound event stream has ended.
    StreamEnded,
}

/// The decimal digits of `n`, most significant first.
pub open spec fn spec_decimal(n: nat) -> Seq<char>
    decreases n,
{
    if n < 10 {
        seq![((48 + n) as u8) as char]
    } else {
        spec_decimal(n / 10).push(((48 + n % 10) as u8) as char)
    }
}

/// Relies on `u64`'s `Display` implementation, through `ToString::to_string`:
/// the decimal digits of `n`, most significant first, no sign and no padding.
#[verifier::external_body]
fn decimal_string(n: u64) -> (s: String)
    ensures
        s@ == spec_decimal(n as nat),
{
    n.to_string()
}

/// A handle on one agent instance: an outbound operation channel, an inbound
/// event channel, and a counter that numbers convenience submissions.
pub struct Llmx {
    pub next_id: u64,
    pub tx_sub: BoundedChan<Submission>,
    pub rx_event: BoundedChan<Event>,
}

impl Llmx {
    pub open spec fn wf(self) -> bool {
        self.tx_sub.wf() && self.rx_event.wf()
    }

    /// The receiving side of the outbound channel is gone: no operation
    /// submitted here can reach the agent any more.
    pub open spec fn ops_closed(self) -> bool {
        !self.tx_sub.receiver_open
    }

    /// A submission would not suspend: either it is refused outright, or
    /// there is room. A real submitter suspends on a full open queue instead.
    pub open spec fn ops_ready(self) -> bool {
        self.ops_closed() || !self.tx_sub.is_full()
    }

    /// Reading an event would not suspend: one is queued, or the stream has
    /// ended for good.
    pub open spec fn event_ready(self) -> bool {
        self.rx_event.contents().len() > 0 || !self.rx_event.sender_open
    }

    /// Enqueue `op` under a fresh id and return that id, or report
    /// `ChannelClosed` when the consuming side is gone.
    pub fn submit(&mut self, op: Op) -> (r: Result<String, LlmxErr>)
        requires
            old(self).wf(),
            old(self).ops_ready(),
            old(self).next_id < u64::MAX,
        ensures
            final(self).wf(),
            final(self).rx_event == old(self).rx_event,
            old(self).ops_closed() ==> r == Err::<String, LlmxErr>(LlmxErr::ChannelClosed)
                && *final(self) == *old(self),
            !old(self).ops_closed() ==> (r matches Ok(id) && id@ == spec_decimal(
                old(self).next_id as nat,
            ) && final(self).next_id == old(self).next_id + 1 && final(self).tx_sub.contents()
                == old(self).tx_sub.contents().push(Submission { id, op })
                && final(self).tx_sub.capacity == old(self).tx_sub.capacity
                && final(self).tx_sub.sender_open == old(self).tx_sub.sender_open
                && final(self).tx_sub.receiver_open == old(self).tx_sub.receiver_open),
    {
        if !self.tx_sub.receiver_open {
            Err(LlmxErr::ChannelClosed)
        } else {
            let id = decimal_string(self.next_id);
            self.next_id = self.next_id + 1;
            match self.tx_sub.try_send(Submission { id: id.clone(), op }) {
                SendAttempt::Sent => Ok(id),
                _ => vstd::pervasive::unreached(),
            }
        }
    }

    /// Enqueue a submission whose id the caller supplies — the escape hatch
    /// for relay code that must preserve an id.
    pub fn submit_with_id(&mut self, sub: Submission) -> (r: Result<(), LlmxErr>)
        requires
            old(self).wf(),
            old(self).ops_ready(),
        ensures
            final(self).wf(),
            final(self).rx_event == old(self).rx_event,
            final(self).next_id == old(self).next_id,
            old(self).ops_closed() ==> r == Err::<(), LlmxErr>(LlmxErr::ChannelClosed)
                && *final(self) == *old(self),
            !old(self).ops_closed() ==> r == Ok::<(), LlmxErr>(()) && final(self).tx_sub.contents()
                == old(self).tx_sub.contents().push(sub)
                && final(self).tx_sub.capacity == old(self).tx_sub.capacity
                && final(self).tx_sub.sender_open == old(self).tx_sub.sender_open
                && final(self).tx_sub.receiver_open == old(self).tx_sub.receiver_open,
    {
        if !self.tx_sub.receiver_open {
            Err(LlmxErr::ChannelClosed)
        } else {
            match self.tx_sub.try_send(sub) {
                SendAttempt::Sent => Ok(()),
                _ => vstd::pervasive::unreached(),
            }
        }
    }

    /// Take the oldest queued event, or report `StreamEnded` once the
    /// producer is gone and the queue is drained.
    pub fn next_event(&mut self) -> (r: Result<Event, LlmxErr>)
        requires
            old(self).wf(),
            old(self).event_ready(),
        ensures
            final(self).wf(),
            final(self).tx_sub == old(self).tx_sub,
            final(self).next_id == old(self).next_id,
            old(self).rx_event.contents().len() > 0 ==> r == Ok::<Event, LlmxErr>(
                old(self).rx_event.contents()[0],
            ) && final(self).rx_event.contents() == old(self).rx_event.contents().subrange(
                1,
                old(self).rx_event.contents().len() as int,
            ) && final(self).rx_event.capacity == old(self).rx_event.capacity
                && final(self).rx_event.sender_open == old(self).rx_event.sender_open
                && final(self).rx_event.receiver_open == old(self).rx_event.receiver_open,
            old(self).rx_event.contents().len() == 0 ==> r == Err::<Event, LlmxErr>(
                LlmxErr::StreamEnded,
            ) && *final(self) == *old(self),
    {
        match self.rx_event.try_recv() {
            RecvAttempt::Received(e) => Ok(e),
            RecvAttempt::Disconnected => Err(LlmxErr::StreamEnded),
            RecvAttempt::Empty => vstd::pervasive::unreached(),
        }
    }
}

/// Conduit for the bidirectional stream of messages that compose one
/// conversation: a handle plus the path its rollout is recorded under.
pub struct LlmxConversation {
    pub llmx: Llmx,
    pub rollout_path: String,
}

impl LlmxConversation {
    pub fn new(llmx: Llmx, rollout_path: String) -> (c: Self)
        ensures
            c.llmx == llmx,
            c.rollout_path == rollout_path,
    {
        LlmxConversation { llmx, rollout_path }
    }

    pub fn submit(&mut self, op: Op) -> (r: Result<String, LlmxErr>)
        requires
            old(self).llmx.wf(),
            old(self).llmx.ops_ready(),
            old(self).llmx.next_id < u64::MAX,
        ensures
            final(self).llmx.wf(),
            final(self).rollout_path == old(self).rollout_path,
            old(self).llmx.ops_closed() ==> r == Err::<String, LlmxErr>(LlmxErr::ChannelClosed)
                && *final(self) == *old(self),
            !old(self).llmx.ops_closed() ==> (r matches Ok(id) && id@ == spec_decimal(
                old(self).llmx.next_id as nat,
            ) && final(self).llmx.tx_sub.contents() == old(self).llmx.tx_sub.contents().push(
                Submission { id, op },
            )),
    {
        self.llmx.submit(op)
    }

    pub fn submit_with_id(&mut self, sub: Submission) -> (r: Result<(), LlmxErr>)
        requires
            old(self).llmx.wf(),
            old(self).llmx.ops_ready(),
        ensures
            final(self).llmx.wf(),
            final(self).rollout_path == old(self).rollout_path,
            old(self).llmx.ops_closed() ==> r == Err::<(), LlmxErr>(LlmxErr::ChannelClosed)
                && *final(self) == *old(self),
            !old(self).llmx.ops_closed() ==> r == Ok::<(), LlmxErr>(())
                && final(self).llmx.tx_sub.contents() == old(self).llmx.tx_sub.contents().push(
                sub,
            ),
    {
        self.llmx.submit_with_id(sub)
    }

    pub fn next_event(&mut self) -> (r: Result<Event, LlmxErr>)
        requires
            old(self).llmx.wf(),
            old(self).llmx.event_ready(),
        ensures
            final(self).llmx.wf(),
            final(self).rollout_path == old(self).rollout_path,
            old(self).llmx.rx_event.contents().len() > 0 ==> r == Ok::<Event, LlmxErr>(
                old(self).llmx.rx_event.contents()[0],
            ) && final(self).llmx.rx_event.contents()
                == old(self).llmx.rx_event.contents().subrange(
                1,
                old(self).llmx.rx_event.contents().len() as int,
            ),
            old(self).llmx.rx_event.contents().len() == 0 ==> r == Err::<Event, LlmxErr>(
                LlmxErr::StreamEnded,
            ) && *final(self) == *old(self),
    {
        self.llmx.next_event()
    }

    pub fn rollout_path(&self) -> (p: String)
        ensures
            p@ == self.rollout_path@,
    {
        self.rollout_path.clone()
    }
}

} // verus!
