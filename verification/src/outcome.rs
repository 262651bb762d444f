//! How a request ends, and the HTTP response that each ending earns.

use crate::forward::ForwardError;
use crate::sale::{reason_of, Rejection, SaleData, SaleEvent};
use vstd::prelude::*;

verus! {

/// Status code of an accepted sale and of the liveness probe.
pub const STATUS_OK: u16 = 200;

/// Status code of a refused request.
pub const STATUS_BAD_REQUEST: u16 = 400;

/// Status code of a sale that downstream did not take.
pub const STATUS_BAD_GATEWAY: u16 = 502;

/// What the client learns of an accepted sale.
#[derive(Debug, PartialEq, Eq)]
pub struct AcceptanceRecord {
    /// The downstream's acknowledgement.
    pub status: String,
    /// The id drawn for this request.
    pub request_id: String,
    /// The count of accepted sales, this one included.
    pub total_received: u64,
}

/// Mathematical content of an [`AcceptanceRecord`].
pub struct RecordData {
    pub status: Seq<char>,
    pub request_id: Seq<char>,
    pub total_received: nat,
}

impl View for AcceptanceRecord {
    type V = RecordData;

    open spec fn view(&self) -> RecordData {
        RecordData {
            status: self.status@,
            request_id: self.request_id@,
            total_received: self.total_received as nat,
        }
    }
}

/// The terminal state of one request.
#[derive(Debug, PartialEq, Eq)]
pub enum Outcome {
    /// Refused before counting; nothing was sent downstream.
    Rejected { rejection: Rejection },
    /// Counted, forwarded and acknowledged.
    Acknowledged { event: SaleEvent, record: AcceptanceRecord },
    /// Counted, but downstream did not take it. The count and the request id
    /// stay consumed.
    ForwardFailed { event: SaleEvent, request_id: String, total: u64, error: ForwardError },
}

/// Mathematical content of an [`Outcome`].
pub enum OutcomeData {
    Rejected { rejection: Rejection },
    Acknowledged { sale: SaleData, record: RecordData },
    ForwardFailed { sale: SaleData, request_id: Seq<char>, total: nat, error: ForwardError },
}

impl View for Outcome {
    type V = OutcomeData;

    open spec fn view(&self) -> OutcomeData {
        match self {
            Outcome::Rejected { rejection } => OutcomeData::Rejected { rejection: *rejection },
            Outcome::Acknowledged { event, record } => OutcomeData::Acknowledged {
                sale: event@,
                record: record@,
            },
            Outcome::ForwardFailed { event, request_id, total, error } => OutcomeData::ForwardFailed {
                sale: event@,
                request_id: request_id@,
                total: *total as nat,
                error: *error,
            },
        }
    }
}

/// Body of an HTTP response.
#[derive(Debug, PartialEq, Eq)]
pub enum Body {
    /// Plain text.
    Text(String),
    /// The acceptance record, to be written as a JSON object.
    Record(AcceptanceRecord),
}

/// Mathematical content of a [`Body`].
pub enum BodyData {
    Text(Seq<char>),
    Record(RecordData),
}

impl View for Body {
    type V = BodyData;

    open spec fn view(&self) -> BodyData {
        match self {
            Body::Text(text) => BodyData::Text(text@),
            Body::Record(record) => BodyData::Record(record@),
        }
    }
}

/// An HTTP response: status code and body.
#[derive(Debug, PartialEq, Eq)]
pub struct Response {
    pub status: u16,
    pub body: Body,
}

/// Mathematical content of a [`Response`].
pub struct ResponseData {
    pub status: u16,
    pub body: BodyData,
}

impl View for Response {
    type V = ResponseData;

    open spec fn view(&self) -> ResponseData {
        ResponseData { status: self.status, body: self.body@ }
    }
}

/// The fixed answer of the liveness probe.
pub open spec fn health_response() -> ResponseData {
    ResponseData { status: STATUS_OK, body: BodyData::Text("ok"@) }
}

/// The text that goes back when downstream did not take a sale. It is the
/// same for every failure.
pub open spec fn downstream_failure_text() -> Seq<char> {
    "error calling downstream processor"@
}

/// The response that an outcome earns: 400 with the reason for a rejection,
/// 502 with a fixed text for a failed forward, 200 with the record for an
/// acknowledged sale.
pub open spec fn response_to(outcome: OutcomeData) -> ResponseData {
    match outcome {
        OutcomeData::Rejected { rejection } => ResponseData {
            status: STATUS_BAD_REQUEST,
            body: BodyData::Text(reason_of(rejection)),
        },
        OutcomeData::Acknowledged { sale, record } => ResponseData {
            status: STATUS_OK,
            body: BodyData::Record(record),
        },
        OutcomeData::ForwardFailed { sale, request_id, total, error } => ResponseData {
            status: STATUS_BAD_GATEWAY,
            body: BodyData::Text(downstream_failure_text()),
        },
    }
}

/// Answers the liveness probe. The answer depends on nothing.
pub fn health() -> (response: Response)
    ensures
        response@ == health_response(),
{
    Response { status: STATUS_OK, body: Body::Text(String::from_str("ok")) }
}

impl Outcome {
    /// The response to send for this outcome.
    pub fn response(&self) -> (response: Response)
        ensures
            response@ == response_to(self@),
    {
        match self {
            Outcome::Rejected { rejection } => Response {
                status: STATUS_BAD_REQUEST,
                body: Body::Text(String::from_str(rejection.reason())),
            },
            Outcome::Acknowledged { event, record } => Response {
                status: STATUS_OK,
                body: Body::Record(
                    AcceptanceRecord {
                        status: record.status.clone(),
                        request_id: record.request_id.clone(),
                        total_received: record.total_received,
                    },
                ),
            },
            Outcome::ForwardFailed { event, request_id, total, error } => Response {
                status: STATUS_BAD_GATEWAY,
                body: Body::Text(String::from_str("error calling downstream processor")),
            },
        }
    }
}

} // verus!
