//! Front door of a sale-event pipeline: an inbound sale is screened, counted,
//! given a request id, handed to a downstream processor over one of two
//! transports, and answered with the downstream's acknowledgement.
//!
//! The crate holds the decisions only. Network traffic is left to the caller,
//! which performs each [`forward::Dispatch`] and hands back a
//! [`forward::Reply`].

pub mod category;
pub mod counter;
pub mod forward;
pub mod gateway;
pub mod history;
pub mod json;
pub mod outcome;
pub mod price;
pub mod request_id;
pub mod sale;
pub mod text;
