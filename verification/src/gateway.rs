//! The request handler: screen, count, draw an id, plan the forward; then,
//! once the caller has the downstream's reply, conclude.
//!
//! A request moves through two calls. [`Gateway::receive`] takes it from
//! arrival either to a rejection or to a sale in flight, counted and ready
//! to send. [`InFlight::conclude`] takes the reply to the terminal outcome.
//! Between the two the caller performs the dispatch; the gateway is not
//! borrowed meanwhile, so other requests proceed.

use crate::counter::SaleCounter;
use crate::forward::{
    acknowledge, acknowledgement, is_success, planned, Backend, BackendData, Dispatch, DispatchData, Reply,
    ReplyData,
};
use crate::outcome::{
    downstream_failure_text, response_to, AcceptanceRecord, BodyData, Outcome, OutcomeData, RecordData,
    ResponseData, STATUS_BAD_GATEWAY, STATUS_BAD_REQUEST,
};
use crate::request_id::{fresh_request_id, is_request_id};
use crate::json::text_member;
use crate::sale::{reason_of, screened, Rejection, SaleData, SaleEvent, WireData, WireSale};
use vstd::prelude::*;

verus! {

/// What the endpoint made of a request body.
#[derive(Debug, PartialEq, Eq)]
pub enum Inbound {
    /// The body is not a JSON object with the four fields in their types.
    Malformed,
    /// The body holds these fields.
    Sale(WireSale),
}

/// Mathematical content of an [`Inbound`].
pub enum InboundData {
    Malformed,
    Sale(WireData),
}

impl View for Inbound {
    type V = InboundData;

    open spec fn view(&self) -> InboundData {
        match self {
            Inbound::Malformed => InboundData::Malformed,
            Inbound::Sale(wire) => InboundData::Sale(wire@),
        }
    }
}

/// The state that all requests share: the count of accepted sales and the
/// backend chosen at start-up.
#[derive(Debug)]
pub struct Gateway {
    counter: SaleCounter,
    backend: Backend,
}

/// Mathematical content of a [`Gateway`].
pub struct GatewayData {
    pub total: nat,
    pub backend: BackendData,
}

impl View for Gateway {
    type V = GatewayData;

    closed spec fn view(&self) -> GatewayData {
        GatewayData { total: self.counter@, backend: self.backend@ }
    }
}

/// A sale that has been counted and waits for the downstream's reply.
#[derive(Debug, PartialEq, Eq)]
pub struct InFlight {
    event: SaleEvent,
    request_id: String,
    total: u64,
    dispatch: Dispatch,
}

/// Mathematical content of an [`InFlight`].
pub struct FlightData {
    pub sale: SaleData,
    pub request_id: Seq<char>,
    pub total: nat,
    pub dispatch: DispatchData,
}

impl View for InFlight {
    type V = FlightData;

    closed spec fn view(&self) -> FlightData {
        FlightData {
            sale: self.event@,
            request_id: self.request_id@,
            total: self.total as nat,
            dispatch: self.dispatch@,
        }
    }
}

/// Where a request stands after [`Gateway::receive`].
#[derive(Debug, PartialEq, Eq)]
pub enum Step {
    /// Refused; this is the terminal state.
    Rejected(Rejection),
    /// Counted; the dispatch is to be performed.
    Forward(InFlight),
}

/// Mathematical content of a [`Step`].
pub enum StepData {
    Rejected(Rejection),
    Forward(FlightData),
}

impl View for Step {
    type V = StepData;

    open spec fn view(&self) -> StepData {
        match self {
            Step::Rejected(rejection) => StepData::Rejected(*rejection),
            Step::Forward(flight) => StepData::Forward(flight@),
        }
    }
}

/// The validated sale in a request body, or the reason to refuse the
/// request. A malformed body is refused before any field is looked at.
pub open spec fn received(inbound: InboundData) -> Result<SaleData, Rejection> {
    match inbound {
        InboundData::Malformed => Err(Rejection::MalformedBody),
        InboundData::Sale(wire) => screened(wire),
    }
}

/// The effect of one request on the gateway, up to the forward. A refused
/// request leaves the gateway as it was. An accepted one raises the count by
/// one, takes the new count as its total, and plans its dispatch over the
/// gateway's backend.
pub open spec fn handled(gateway: GatewayData, inbound: InboundData, request_id: Seq<char>) -> (
    GatewayData,
    StepData,
) {
    match received(inbound) {
        Err(rejection) => (gateway, StepData::Rejected(rejection)),
        Ok(sale) => (
            GatewayData { total: gateway.total + 1, backend: gateway.backend },
            StepData::Forward(
                FlightData {
                    sale,
                    request_id,
                    total: gateway.total + 1,
                    dispatch: planned(gateway.backend, sale),
                },
            ),
        ),
    }
}

/// The terminal outcome of a sale in flight, given the downstream's reply.
/// The record of an acknowledged sale carries the downstream's status, and
/// the id and total that the sale was given when it was counted.
pub open spec fn concluded(flight: FlightData, reply: ReplyData) -> OutcomeData {
    match acknowledgement(flight.dispatch, reply) {
        Ok(status) => OutcomeData::Acknowledged {
            sale: flight.sale,
            record: RecordData {
                status,
                request_id: flight.request_id,
                total_received: flight.total,
            },
        },
        Err(error) => OutcomeData::ForwardFailed {
            sale: flight.sale,
            request_id: flight.request_id,
            total: flight.total,
            error,
        },
    }
}

impl Inbound {
    /// Screens a request body.
    pub fn screen(self) -> (r: Result<SaleEvent, Rejection>)
        ensures
            match r {
                Ok(event) => received(self@) == Ok::<SaleData, Rejection>(event@),
                Err(rejection) => received(self@) == Err::<SaleData, Rejection>(rejection),
            },
    {
        match self {
            Inbound::Malformed => Err(Rejection::MalformedBody),
            Inbound::Sale(wire) => SaleEvent::screen(wire),
        }
    }
}

impl Gateway {
    /// A gateway that has accepted nothing yet.
    pub fn new(backend: Backend) -> (gateway: Gateway)
        ensures
            gateway@ == (GatewayData { total: 0, backend: backend@ }),
    {
        Gateway { counter: SaleCounter::new(), backend }
    }

    /// The count of accepted sales.
    pub fn total(&self) -> (total: u64)
        ensures
            total == self@.total,
    {
        self.counter.value()
    }

    /// The backend chosen at start-up.
    pub fn backend(&self) -> (backend: &Backend)
        ensures
            backend@ == self@.backend,
    {
        &self.backend
    }

    /// Puts a counted sale in flight: plans its dispatch over this gateway's
    /// backend.
    fn launch(&self, event: SaleEvent, request_id: String, total: u64) -> (flight: InFlight)
        ensures
            flight@ == (FlightData {
                sale: event@,
                request_id: request_id@,
                total: total as nat,
                dispatch: planned(self@.backend, event@),
            }),
    {
        let dispatch: Dispatch = self.backend.plan(&event);
        InFlight { event, request_id, total, dispatch }
    }

    /// Handles one request up to the forward, under a request id that the
    /// caller supplies. Only a request that passes screening is counted, so
    /// only such a request needs the count to have room for one more.
    pub fn handle(&mut self, inbound: Inbound, request_id: String) -> (step: Step)
        requires
            received(inbound@) is Ok ==> old(self)@.total < u64::MAX,
        ensures
            (final(self)@, step@) == handled(old(self)@, inbound@, request_id@),
    {
        match inbound.screen() {
            Err(rejection) => Step::Rejected(rejection),
            Ok(event) => {
                let total: u64 = self.counter.increment_and_get();
                Step::Forward(self.launch(event, request_id, total))
            },
        }
    }

    /// Handles one request up to the forward. A request that is accepted is
    /// counted first and then given a fresh random id; a request that is
    /// refused changes nothing and draws no id, whatever the count.
    pub fn receive(&mut self, inbound: Inbound) -> (step: Step)
        requires
            received(inbound@) is Ok ==> old(self)@.total < u64::MAX,
        ensures
            match step {
                Step::Rejected(rejection) => received(inbound@) == Err::<SaleData, Rejection>(
                    rejection,
                ) && final(self)@ == old(self)@,
                Step::Forward(flight) => is_request_id(flight@.request_id) && (final(self)@, step@)
                    == handled(old(self)@, inbound@, flight@.request_id),
            },
    {
        match inbound.screen() {
            Err(rejection) => Step::Rejected(rejection),
            Ok(event) => {
                let total: u64 = self.counter.increment_and_get();
                let request_id: String = fresh_request_id();
                Step::Forward(self.launch(event, request_id, total))
            },
        }
    }
}

impl InFlight {
    /// The validated sale.
    pub fn event(&self) -> (event: &SaleEvent)
        ensures
            event@ == self@.sale,
    {
        &self.event
    }

    /// The id drawn for this request.
    pub fn request_id(&self) -> (id: &str)
        ensures
            id@ == self@.request_id,
    {
        self.request_id.as_str()
    }

    /// The count of accepted sales, this one included.
    pub fn total(&self) -> (total: u64)
        ensures
            total == self@.total,
    {
        self.total
    }

    /// What the caller is to send downstream.
    pub fn dispatch(&self) -> (dispatch: &Dispatch)
        ensures
            dispatch@ == self@.dispatch,
    {
        &self.dispatch
    }

    /// Ends the request with the downstream's reply. Nothing is undone on a
    /// failure: the count stays raised and the id stays spent.
    pub fn conclude(self, reply: Reply) -> (outcome: Outcome)
        ensures
            outcome@ == concluded(self@, reply@),
    {
        match acknowledge(&self.dispatch, reply) {
            Ok(status) => Outcome::Acknowledged {
                event: self.event,
                record: AcceptanceRecord {
                    status,
                    request_id: self.request_id,
                    total_received: self.total,
                },
            },
            Err(error) => Outcome::ForwardFailed {
                event: self.event,
                request_id: self.request_id,
                total: self.total,
                error,
            },
        }
    }
}

/// A request that screening refuses leaves the gateway exactly as it was, and
/// is answered with status 400 and the reason of the refusal.
pub proof fn lemma_refusal_changes_nothing(
    gateway: GatewayData,
    inbound: InboundData,
    request_id: Seq<char>,
)
    requires
        received(inbound) is Err,
    ensures
        handled(gateway, inbound, request_id) == (
            gateway,
            StepData::Rejected(received(inbound)->Err_0),
        ),
        response_to(OutcomeData::Rejected { rejection: received(inbound)->Err_0 }) == (ResponseData {
            status: STATUS_BAD_REQUEST,
            body: BodyData::Text(reason_of(received(inbound)->Err_0)),
        }),
{
}

/// A sale that downstream did not take is answered with status 502 and the
/// same fixed text whatever went wrong. The answer holds no record, so
/// neither the total nor the request id shows in it.
pub proof fn lemma_failed_forward_answer(flight: FlightData, reply: ReplyData)
    requires
        acknowledgement(flight.dispatch, reply) is Err,
    ensures
        concluded(flight, reply) is ForwardFailed,
        response_to(concluded(flight, reply)) == (ResponseData {
            status: STATUS_BAD_GATEWAY,
            body: BodyData::Text(downstream_failure_text()),
        }),
{
}

/// For a sale sent over HTTP, a successful response whose JSON body holds a
/// text under `estado` is acknowledged with that text, and the text reaches
/// the record.
pub proof fn lemma_http_status_reaches_record(
    flight: FlightData,
    status: u16,
    body: Seq<u8>,
    estado: Seq<char>,
)
    requires
        flight.dispatch is HttpPost,
        is_success(status),
        text_member(body, "estado"@) == Some(estado),
    ensures
        concluded(flight, ReplyData::Http { status, body }) matches OutcomeData::Acknowledged {
            sale,
            record,
        } && record.status == estado && record.total_received == flight.total && record.request_id
            == flight.request_id,
{
}

} // verus!
