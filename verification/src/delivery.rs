//! The boundary-crossing dispatch: from the tagged callback and a raw
//! notification record to the typed value the user callback receives,
//! and the per-subscription delivery state that makes a deregister
//! notification terminal.
//!
//! The external system invokes one fixed entry point with the opaque
//! context token and the raw record, on a thread it owns. The
//! embedding layer recovers the tagged box from the token and calls
//! [`dispatch`]; everything after the unsafe recovery — which decoder
//! the tag selects, and what the user callback is handed — is decided
//! and verified here. Decode errors travel to the callback as values;
//! nothing here blocks or fails.

use crate::aq;
use crate::cqn;
use crate::form::Callback;
use crate::msg::EVT_DEREG;
use crate::msg::RawMessage;
use vstd::prelude::*;

verus! {

/// What one notification hands the user callback: a decoded event of
/// the shape the callback was registered for, or the decode error.
#[derive(Debug)]
pub enum Notification {
    /// For a change-event callback.
    Change(Result<cqn::Event, crate::error::Error>),
    /// For a queue-event callback.
    Queue(Result<aq::Event, crate::error::Error>),
}

/// `n` is what dispatching the raw record `m` to the callback `cb`
/// must produce: the decoder matching the callback's tag, applied to
/// `m`.
pub open spec fn dispatched(cb: Callback, m: RawMessage, n: Notification) -> bool {
    match cb {
        Callback::Cqn(_) => {
            &&& n matches Notification::Change(res)
            &&& cqn::decodes_to(m, res)
        },
        Callback::Aq(_) => {
            &&& n matches Notification::Queue(res)
            &&& aq::decodes_to(m, res)
        },
    }
}

/// The trampoline's decision: the callback's tag selects the decoder,
/// and the decoded value or error is what the user closure is
/// invoked with.
pub fn dispatch(cb: &Callback, msg: &RawMessage) -> (r: Notification)
    ensures
        dispatched(*cb, *msg, r),
{
    match cb {
        Callback::Cqn(_) => Notification::Change(cqn::Event::new(msg)),
        Callback::Aq(_) => Notification::Queue(aq::Event::new(msg)),
    }
}

/// Whether a raw record is a deregister notification: it carries no
/// embedded error and its event-kind code is the deregister code,
/// which both event models decode to their terminal kind.
pub open spec fn msg_is_dereg(m: RawMessage) -> bool {
    &&& m.error is None
    &&& m.event_type == EVT_DEREG
}

/// The delivery state of one subscription: which callback its
/// notifications go to, and whether the terminal deregister
/// notification has been observed.
#[derive(Clone, Copy, Debug, PartialEq, Eq, Structural)]
pub struct Delivery {
    /// The tagged callback notifications are dispatched to.
    pub callback: Callback,
    /// Whether a deregister notification has been observed; once set,
    /// nothing is delivered any more.
    pub terminated: bool,
}

impl Delivery {
    /// The delivery state after one raw record has been observed:
    /// terminated as soon as a deregister notification arrives, and
    /// forever after.
    pub open spec fn step(self, m: RawMessage) -> Delivery {
        Delivery { terminated: self.terminated || msg_is_dereg(m), ..self }
    }

    /// How many notifications a run over `msgs` hands the user
    /// callback from the state `self`.
    pub open spec fn delivered_count(self, msgs: Seq<RawMessage>) -> nat
        decreases msgs.len(),
    {
        if msgs.len() == 0 {
            0
        } else {
            (if self.terminated {
                0nat
            } else {
                1nat
            }) + self.step(msgs[0]).delivered_count(msgs.drop_first())
        }
    }

    /// Fresh delivery state for a just-registered callback.
    pub fn new(callback: Callback) -> (r: Delivery)
        ensures
            r.callback == callback,
            !r.terminated,
    {
        Delivery { callback, terminated: false }
    }

    /// Observes one raw record: dispatches it to the callback unless
    /// the subscription's delivery has already terminated, and
    /// terminates it when the record is a deregister notification.
    pub fn deliver(&mut self, msg: &RawMessage) -> (r: Option<Notification>)
        ensures
            *final(self) == old(self).step(*msg),
            old(self).terminated ==> r is None,
            !old(self).terminated ==> ({
                &&& r matches Some(n)
                &&& dispatched(old(self).callback, *msg, n)
            }),
    {
        if self.terminated {
            return None;
        }
        if msg.error.is_none() && msg.event_type == EVT_DEREG {
            self.terminated = true;
        }
        Some(dispatch(&self.callback, msg))
    }
}

/// Law: once delivery has terminated, no notification is handed to
/// the user callback again, whatever arrives and however much of it.
pub proof fn lemma_terminated_delivers_nothing(d: Delivery, msgs: Seq<RawMessage>)
    requires
        d.terminated,
    ensures
        d.delivered_count(msgs) == 0,
    decreases msgs.len(),
{
    if msgs.len() > 0 {
        lemma_terminated_delivers_nothing(d.step(msgs[0]), msgs.drop_first());
    }
}

/// Law: a deregister notification is terminal. After a live delivery
/// state observes a raw deregister record, no further notification
/// for that subscription is ever delivered.
pub proof fn lemma_deregister_terminal(d: Delivery, m: RawMessage, rest: Seq<RawMessage>)
    requires
        msg_is_dereg(m),
    ensures
        d.step(m).delivered_count(rest) == 0,
{
    lemma_terminated_delivers_nothing(d.step(m), rest);
}

} // verus!
