//! Message-queue notification: decoded events for queue arrivals, and
//! the delivery protocol that subscribes to them.

use crate::conn::NS_AQ;
use crate::conn::PROTO_CALLBACK;
use crate::conn::PROTO_HTTP;
use crate::conn::PROTO_MAIL;
use crate::conn::PROTO_PLSQL;
use crate::error::Error;
use crate::form::Callback;
use crate::form::SubscriptionForm;
use crate::msg::EVT_DEREG;
use crate::msg::EVT_QUEUE;
use crate::msg::RawMessage;
use vstd::prelude::*;

verus! {

/// How queue notifications are delivered: through an in-process
/// callback, or out of process to an addressed recipient.
#[derive(Clone, Debug)]
pub enum Protocol {
    /// In-process delivery through the trampoline; holds the opaque
    /// context token under which the embedding layer keeps the user's
    /// queue-event closure.
    Callback(u64),
    /// Delivery to a mail address.
    Mail(String),
    /// Delivery to a stored procedure.
    PlSql(String),
    /// Delivery to an HTTP endpoint.
    Http(String),
}

impl Protocol {
    /// In-process delivery: `token` is the opaque context token under
    /// which the embedding layer keeps the user's queue-event
    /// closure.
    pub fn callback(token: u64) -> (r: Protocol)
        ensures
            r == Protocol::Callback(token),
    {
        Protocol::Callback(token)
    }
}

impl crate::form::Protocol for Protocol {
    open spec fn spec_namespace(&self) -> u32 {
        NS_AQ
    }

    open spec fn spec_protocol(&self) -> u32 {
        match *self {
            Protocol::Callback(_) => PROTO_CALLBACK,
            Protocol::Mail(_) => PROTO_MAIL,
            Protocol::PlSql(_) => PROTO_PLSQL,
            Protocol::Http(_) => PROTO_HTTP,
        }
    }

    open spec fn spec_callback(&self) -> Option<Callback> {
        match *self {
            Protocol::Callback(t) => Some(Callback::Aq(t)),
            _ => None,
        }
    }

    open spec fn spec_recipient(&self) -> Option<String> {
        match *self {
            Protocol::Callback(_) => None,
            Protocol::Mail(rec) => Some(rec),
            Protocol::PlSql(rec) => Some(rec),
            Protocol::Http(rec) => Some(rec),
        }
    }

    fn init_form(self, form: &mut SubscriptionForm) {
        form.namespace = NS_AQ;
        match self {
            Protocol::Callback(token) => {
                form.protocol = PROTO_CALLBACK;
                form.callback = Some(Callback::Aq(token));
                form.recipient = None;
            },
            Protocol::Mail(rec) => {
                form.protocol = PROTO_MAIL;
                form.callback = None;
                form.recipient = Some(rec);
            },
            Protocol::PlSql(rec) => {
                form.protocol = PROTO_PLSQL;
                form.callback = None;
                form.recipient = Some(rec);
            },
            Protocol::Http(rec) => {
                form.protocol = PROTO_HTTP;
                form.callback = None;
                form.recipient = Some(rec);
            },
        }
    }
}

/// The kind of a message-queue notification.
#[derive(Clone, Copy, Debug, PartialEq, Eq, Structural)]
pub enum EventType {
    /// A message arrived on the watched queue.
    AQ,
    /// The subscription was deregistered; terminal for the
    /// subscription.
    Deregister,
}

/// Whether a raw event-kind code names a queue-notification kind this
/// client knows.
pub open spec fn queue_code_known(code: u32) -> bool {
    ||| code == EVT_QUEUE
    ||| code == EVT_DEREG
}

/// The queue-notification kind a known code names.
pub open spec fn queue_kind_of(code: u32) -> EventType {
    if code == EVT_QUEUE {
        EventType::AQ
    } else {
        EventType::Deregister
    }
}

impl EventType {
    /// Decodes a raw event-kind code. An unknown code is an error, if
    /// and only if: this client refuses to guess at protocol drift.
    pub fn from_code(code: u32) -> (r: Result<EventType, Error>)
        ensures
            queue_code_known(code) ==> r == Ok::<EventType, Error>(queue_kind_of(code)),
            !queue_code_known(code) ==> r == Err::<EventType, Error>(
                Error::UnsupportedEventKind(code),
            ),
    {
        if code == EVT_QUEUE {
            Ok(EventType::AQ)
        } else if code == EVT_DEREG {
            Ok(EventType::Deregister)
        } else {
            Err(Error::UnsupportedEventKind(code))
        }
    }
}

/// A decoded message-queue notification.
#[derive(Clone, Debug)]
pub struct Event {
    /// The kind of notification.
    pub event_type: EventType,
    /// The watched queue's name.
    pub queue_name: String,
    /// The consumer's name.
    pub consumer_name: String,
    /// Whether the subscription is still registered.
    pub registered: bool,
}

/// What decoding the raw record `msg` as a queue notification must
/// produce: the embedded error verbatim if there is one, an error for
/// an unknown event-kind code, and otherwise the decoded event field
/// for field.
pub open spec fn decodes_to(msg: RawMessage, r: Result<Event, Error>) -> bool {
    match msg.error {
        Some(e) => r == Err::<Event, Error>(
            Error::EmbeddedMessageError { code: e.code, message: e.message },
        ),
        None => {
            if queue_code_known(msg.event_type) {
                r == Ok::<Event, Error>(
                    Event {
                        event_type: queue_kind_of(msg.event_type),
                        queue_name: msg.queue_name,
                        consumer_name: msg.consumer_name,
                        registered: msg.registered != 0,
                    },
                )
            } else {
                r == Err::<Event, Error>(Error::UnsupportedEventKind(msg.event_type))
            }
        },
    }
}

impl Event {
    /// Decodes a raw notification record into a queue notification, or
    /// the error it carries or implies.
    pub fn new(msg: &RawMessage) -> (r: Result<Event, Error>)
        ensures
            decodes_to(*msg, r),
    {
        match &msg.error {
            Some(e) => Err(
                Error::EmbeddedMessageError { code: e.code, message: e.message.clone() },
            ),
            None => {
                match EventType::from_code(msg.event_type) {
                    Err(e) => Err(e),
                    Ok(event_type) => Ok(
                        Event {
                            event_type,
                            queue_name: msg.queue_name.clone(),
                            consumer_name: msg.consumer_name.clone(),
                            registered: msg.registered != 0,
                        },
                    ),
                }
            },
        }
    }

    /// The kind of notification.
    pub fn event_type(&self) -> (r: &EventType)
        ensures
            *r == self.event_type,
    {
        &self.event_type
    }

    /// The watched queue's name.
    pub fn queue_name(&self) -> (r: &str)
        ensures
            r@ == self.queue_name@,
    {
        self.queue_name.as_str()
    }

    /// The consumer's name.
    pub fn consumer_name(&self) -> (r: &str)
        ensures
            r@ == self.consumer_name@,
    {
        self.consumer_name.as_str()
    }

    /// Whether the subscription is still registered.
    pub fn registered(&self) -> (r: bool)
        ensures
            r == self.registered,
    {
        self.registered
    }
}

} // verus!
