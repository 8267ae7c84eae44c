//! The subscription form: a chainable builder that accumulates
//! configuration and submits itself to a connection in one atomic,
//! irreversible step.

use crate::conn::Connection;
use crate::conn::CreateParams;
use crate::conn::GROUPING_CLASS_NONE;
use crate::conn::GROUPING_CLASS_TIME;
use crate::conn::GROUPING_TYPE_LAST;
use crate::conn::GROUPING_TYPE_NONE;
use crate::conn::GROUPING_TYPE_SUMMARY;
use crate::error::Error;
use crate::flags::OpCode;
use crate::flags::QOS;
use crate::subscription::Subscription;
use vstd::prelude::*;

verus! {

/// The tagged heap-boxed user callback, as the subsystem's verified
/// core sees it: a tag saying which closure shape the box holds, and
/// the opaque context token under which the embedding layer keeps the
/// real closure. The token is handed to the external system at
/// registration and passed back unchanged on every invocation; the
/// trampoline dispatches on the tag.
#[derive(Clone, Copy, Debug, PartialEq, Eq, Structural)]
pub enum Callback {
    /// A change-notification callback; holds its context token.
    Cqn(u64),
    /// A queue-notification callback; holds its context token.
    Aq(u64),
}

impl Callback {
    /// The opaque context token under the tag.
    pub open spec fn token(self) -> u64 {
        match self {
            Callback::Cqn(t) => t,
            Callback::Aq(t) => t,
        }
    }
}

/// Policy for batching notifications into one delivery: over a time
/// window of the given whole seconds.
#[derive(Clone, Copy, Debug, PartialEq, Eq, Structural)]
pub enum GroupingClass {
    /// Batch over a time window, in whole seconds.
    Time(u64),
}

/// How a batch of grouped notifications is reported.
#[derive(Clone, Copy, Debug, PartialEq, Eq, Structural)]
pub enum GroupingType {
    /// Summarize the batch.
    Summary,
    /// Deliver only the last notification.
    Last,
}

/// A delivery protocol a subscription can use. Choosing one fixes the
/// namespace (which kind of events is watched), the external protocol
/// code, and either the in-process callback or the out-of-process
/// recipient.
pub trait Protocol {
    /// The namespace of the events this protocol targets.
    spec fn spec_namespace(&self) -> u32;

    /// The external protocol code this choice maps to.
    spec fn spec_protocol(&self) -> u32;

    /// The tagged callback, when delivery is in-process.
    spec fn spec_callback(&self) -> Option<Callback>;

    /// The recipient string, when delivery is out-of-process.
    spec fn spec_recipient(&self) -> Option<String>;

    /// Writes the protocol choice into a form, leaving every other
    /// field of the form as it was.
    fn init_form(self, form: &mut SubscriptionForm)
        ensures
            final(form).namespace == self.spec_namespace(),
            final(form).protocol == self.spec_protocol(),
            final(form).callback == self.spec_callback(),
            final(form).recipient == self.spec_recipient(),
            final(form).qos == old(form).qos,
            final(form).op_code == old(form).op_code,
            final(form).port == old(form).port,
            final(form).timeout_secs == old(form).timeout_secs,
            final(form).name == old(form).name,
            final(form).ip_address == old(form).ip_address,
            final(form).grouping_class == old(form).grouping_class,
            final(form).grouping_type == old(form).grouping_type,
    ;
}

/// The mutable configuration aggregate for one subscription. Built
/// with [`SubscriptionForm::new`], adjusted through the chainable
/// setters, and consumed by [`SubscriptionForm::submit`]: once
/// submitted it is gone and cannot be resubmitted.
#[derive(Clone, Debug)]
pub struct SubscriptionForm {
    /// Namespace code derived from the chosen protocol.
    pub namespace: u32,
    /// External protocol code derived from the chosen protocol.
    pub protocol: u32,
    /// The tagged callback, when delivery is in-process.
    pub callback: Option<Callback>,
    /// The recipient string, when delivery is out-of-process.
    pub recipient: Option<String>,
    /// Quality-of-service flags.
    pub qos: QOS,
    /// Which operations to report.
    pub op_code: OpCode,
    /// Network port for the notification listener.
    pub port: u32,
    /// Timeout in whole seconds; zero means no timeout.
    pub timeout_secs: u64,
    /// The subscription's symbolic name.
    pub name: String,
    /// The listener's IP address.
    pub ip_address: String,
    /// Optional batching policy.
    pub grouping_class: Option<GroupingClass>,
    /// Optional batch reporting style.
    pub grouping_type: Option<GroupingType>,
}

impl SubscriptionForm {
    fn default() -> (r: SubscriptionForm)
        ensures
            r.namespace == 0,
            r.protocol == 0,
            r.callback is None,
            r.recipient is None,
            r.qos.bits == 0,
            r.op_code.bits == 0,
            r.port == 0,
            r.timeout_secs == 0,
            r.name@ == Seq::<char>::empty(),
            r.ip_address@ == Seq::<char>::empty(),
            r.grouping_class is None,
            r.grouping_type is None,
    {
        SubscriptionForm {
            namespace: 0,
            protocol: 0,
            callback: None,
            recipient: None,
            qos: QOS::empty(),
            op_code: OpCode::empty(),
            port: 0,
            timeout_secs: 0,
            name: String::new(),
            ip_address: String::new(),
            grouping_class: None,
            grouping_type: None,
        }
    }

    /// A fresh form for the given delivery protocol; every other field
    /// starts empty.
    pub fn new<P: Protocol>(protocol: P) -> (r: SubscriptionForm)
        ensures
            r.namespace == protocol.spec_namespace(),
            r.protocol == protocol.spec_protocol(),
            r.callback == protocol.spec_callback(),
            r.recipient == protocol.spec_recipient(),
            r.qos.bits == 0,
            r.op_code.bits == 0,
            r.port == 0,
            r.timeout_secs == 0,
            r.name@ == Seq::<char>::empty(),
            r.ip_address@ == Seq::<char>::empty(),
            r.grouping_class is None,
            r.grouping_type is None,
    {
        let mut form = SubscriptionForm::default();
        protocol.init_form(&mut form);
        form
    }

    /// Sets the quality-of-service flags; chainable.
    pub fn qos(&mut self, qos: QOS) -> (r: &mut SubscriptionForm)
        ensures
            *r == (SubscriptionForm { qos, ..*old(self) }),
            *final(self) == *final(r),
    {
        self.qos = qos;
        self
    }

    /// Sets which operations to report; chainable.
    pub fn op_code(&mut self, op_code: OpCode) -> (r: &mut SubscriptionForm)
        ensures
            *r == (SubscriptionForm { op_code, ..*old(self) }),
            *final(self) == *final(r),
    {
        self.op_code = op_code;
        self
    }

    /// Sets the listener port; chainable.
    pub fn port(&mut self, port: u32) -> (r: &mut SubscriptionForm)
        ensures
            *r == (SubscriptionForm { port, ..*old(self) }),
            *final(self) == *final(r),
    {
        self.port = port;
        self
    }

    /// Sets the timeout in whole seconds; chainable. The external
    /// system enforces it; expiry arrives later as a deregister
    /// notification, not as an error from any call here.
    pub fn timeout(&mut self, secs: u64) -> (r: &mut SubscriptionForm)
        ensures
            *r == (SubscriptionForm { timeout_secs: secs, ..*old(self) }),
            *final(self) == *final(r),
    {
        self.timeout_secs = secs;
        self
    }

    /// Sets the subscription's symbolic name; chainable.
    pub fn name(&mut self, name: String) -> (r: &mut SubscriptionForm)
        ensures
            *r == (SubscriptionForm { name, ..*old(self) }),
            *final(self) == *final(r),
    {
        self.name = name;
        self
    }

    /// Sets the listener's IP address; chainable.
    pub fn ip_address(&mut self, addr: String) -> (r: &mut SubscriptionForm)
        ensures
            *r == (SubscriptionForm { ip_address: addr, ..*old(self) }),
            *final(self) == *final(r),
    {
        self.ip_address = addr;
        self
    }

    /// Sets the batching policy; chainable.
    pub fn grouping_class(&mut self, grouping_class: GroupingClass) -> (r: &mut SubscriptionForm)
        ensures
            *r == (SubscriptionForm { grouping_class: Some(grouping_class), ..*old(self) }),
            *final(self) == *final(r),
    {
        self.grouping_class = Some(grouping_class);
        self
    }

    /// Sets the batch reporting style; chainable.
    pub fn grouping_type(&mut self, grouping_type: GroupingType) -> (r: &mut SubscriptionForm)
        ensures
            *r == (SubscriptionForm { grouping_type: Some(grouping_type), ..*old(self) }),
            *final(self) == *final(r),
    {
        self.grouping_type = Some(grouping_type);
        self
    }

    /// Whether the configured timeout fits the external system's
    /// integer width.
    pub open spec fn timeout_fits(self) -> bool {
        self.timeout_secs <= u32::MAX
    }

    /// Whether the configured grouping window fits the external
    /// system's integer width.
    pub open spec fn grouping_fits(self) -> bool {
        match self.grouping_class {
            Some(GroupingClass::Time(secs)) => secs <= u32::MAX,
            None => true,
        }
    }

    /// The registration request this form translates to, once both
    /// durations fit.
    pub open spec fn spec_params(self) -> CreateParams {
        CreateParams {
            namespace: self.namespace,
            protocol: self.protocol,
            callback_context: match self.callback {
                Some(cb) => Some(cb.token()),
                None => None,
            },
            recipient: self.recipient,
            qos: self.qos.bits,
            operations: self.op_code.bits,
            port_number: self.port,
            timeout: self.timeout_secs as u32,
            name: self.name,
            ip_address: self.ip_address,
            grouping_class: match self.grouping_class {
                Some(_) => GROUPING_CLASS_TIME,
                None => GROUPING_CLASS_NONE,
            },
            grouping_value: match self.grouping_class {
                Some(GroupingClass::Time(secs)) => secs as u32,
                None => 0,
            },
            grouping_type: match self.grouping_type {
                Some(GroupingType::Summary) => GROUPING_TYPE_SUMMARY,
                Some(GroupingType::Last) => GROUPING_TYPE_LAST,
                None => GROUPING_TYPE_NONE,
            },
        }
    }

    /// The single transition from configuration to live registration.
    ///
    /// Translates every configured field into the external request —
    /// refusing with a conversion error a duration that does not fit
    /// the external integer width — and invokes the external create
    /// call. On any failure the connection's registration count is
    /// unchanged and nothing of the form survives, the boxed callback
    /// included; on success the returned subscription owns the fresh
    /// handle and the callback token.
    pub fn submit(self, conn: &mut Connection) -> (r: Result<Subscription, Error>)
        requires
            old(conn).wf(),
            old(conn).next_handle < u64::MAX,
            old(conn).open_subscrs < u64::MAX,
        ensures
            final(conn).wf(),
            !self.timeout_fits() ==> r == Err::<Subscription, Error>(Error::ConversionError)
                && *final(conn) == *old(conn),
            self.timeout_fits() && !self.grouping_fits() ==> r == Err::<Subscription, Error>(
                Error::ConversionError,
            ) && *final(conn) == *old(conn),
            self.timeout_fits() && self.grouping_fits() && !old(conn).subscribe_ok ==> r == Err::<
                Subscription,
                Error,
            >(old(conn).spec_failure()) && *final(conn) == *old(conn),
            self.timeout_fits() && self.grouping_fits() && old(conn).subscribe_ok ==> ({
                &&& r matches Ok(sub)
                &&& sub.handle == old(conn).next_handle
                &&& sub.handle >= 1
                &&& sub.callback == self.callback
                &&& !sub.disposed
                &&& *final(conn) == (Connection {
                    next_handle: (old(conn).next_handle + 1) as u64,
                    open_subscrs: (old(conn).open_subscrs + 1) as u64,
                    last_params: Some(self.spec_params()),
                    ..*old(conn)
                })
            }),
    {
        if self.timeout_secs > u32::MAX as u64 {
            return Err(Error::ConversionError);
        }
        let timeout: u32 = self.timeout_secs as u32;
        let mut grouping_class: u8 = GROUPING_CLASS_NONE;
        let mut grouping_value: u32 = 0;
        match self.grouping_class {
            Some(GroupingClass::Time(secs)) => {
                if secs > u32::MAX as u64 {
                    return Err(Error::ConversionError);
                }
                grouping_class = GROUPING_CLASS_TIME;
                grouping_value = secs as u32;
            },
            None => {},
        }
        let grouping_type: u8 = match self.grouping_type {
            Some(GroupingType::Summary) => GROUPING_TYPE_SUMMARY,
            Some(GroupingType::Last) => GROUPING_TYPE_LAST,
            None => GROUPING_TYPE_NONE,
        };
        let callback_context: Option<u64> = match &self.callback {
            Some(cb) => Some(
                match cb {
                    Callback::Cqn(t) => *t,
                    Callback::Aq(t) => *t,
                },
            ),
            None => None,
        };
        let params = CreateParams {
            namespace: self.namespace,
            protocol: self.protocol,
            callback_context,
            recipient: self.recipient,
            qos: self.qos.bits(),
            operations: self.op_code.bits(),
            port_number: self.port,
            timeout,
            name: self.name,
            ip_address: self.ip_address,
            grouping_class,
            grouping_value,
            grouping_type,
        };
        match conn.subscribe(params) {
            Err(e) => Err(e),
            Ok(handle) => Ok(
                Subscription { handle, callback: self.callback, disposed: false },
            ),
        }
    }
}

} // verus!
