//! Client-side subscription engine for server-originated change events.
//!
//! An application configures a [`SubscriptionForm`] with a delivery
//! protocol ([`cqn::Protocol`] for database change notification,
//! [`aq::Protocol`] for message-queue arrivals), submits it against a
//! [`Connection`], and receives decoded events through the delivery
//! dispatch in [`delivery`].

pub mod aq;
pub mod conn;
pub mod cqn;
pub mod delivery;
pub mod error;
pub mod flags;
pub mod form;
pub mod msg;
pub mod subscription;

pub use conn::Connection;
pub use conn::CreateParams;
pub use error::Error;
pub use flags::OpCode;
pub use flags::QOS;
pub use form::Callback;
pub use form::GroupingClass;
pub use form::GroupingType;
pub use form::Protocol;
pub use form::SubscriptionForm;
pub use subscription::Subscription;
