//! Runs of requests: what holds of the totals when many requests pass
//! through one gateway.
//!
//! The gateway counts under exclusive access, so requests that overlap in
//! time are still counted one after another, in some order. A run lists the
//! requests in that order. Concluding a sale does not touch the gateway, so
//! it makes no difference to the totals when each reply arrives, and a run
//! may take every request from arrival to outcome in one step. Each entry
//! fixes everything that the gateway does not decide: the body that arrived,
//! the id that was drawn, and the reply that downstream gave.

use crate::forward::{acknowledgement, planned, ForwardError, ReplyData};
use crate::gateway::{concluded, handled, received, GatewayData, InboundData, StepData};
use crate::outcome::{response_to, OutcomeData, STATUS_OK};
use vstd::prelude::*;

verus! {

/// One request with its surroundings.
pub struct Exchange {
    pub inbound: InboundData,
    pub request_id: Seq<char>,
    pub reply: ReplyData,
}

/// One request from arrival to its terminal outcome: the gateway afterwards
/// and the outcome.
pub open spec fn served(gateway: GatewayData, exchange: Exchange) -> (GatewayData, OutcomeData) {
    let (after, step) = handled(gateway, exchange.inbound, exchange.request_id);
    match step {
        StepData::Rejected(rejection) => (after, OutcomeData::Rejected { rejection }),
        StepData::Forward(flight) => (after, concluded(flight, exchange.reply)),
    }
}

/// The gateway after a run.
pub open spec fn gateway_after(gateway: GatewayData, run: Seq<Exchange>) -> GatewayData
    decreases run.len(),
{
    if run.len() == 0 {
        gateway
    } else {
        served(gateway_after(gateway, run.drop_last()), run.last()).0
    }
}

/// The outcome of the request at position `i` of a run.
pub open spec fn outcome_at(gateway: GatewayData, run: Seq<Exchange>, i: int) -> OutcomeData {
    served(gateway_after(gateway, run.take(i)), run[i]).1
}

/// The total that the request at position `i` was counted as, if it was
/// counted.
pub open spec fn total_at(gateway: GatewayData, run: Seq<Exchange>, i: int) -> Option<nat> {
    match outcome_at(gateway, run, i) {
        OutcomeData::Rejected { rejection } => None,
        OutcomeData::Acknowledged { sale, record } => Some(record.total_received),
        OutcomeData::ForwardFailed { sale, request_id, total, error } => Some(total),
    }
}

/// The number of requests in a run that pass screening.
pub open spec fn accepted_in(run: Seq<Exchange>) -> nat
    decreases run.len(),
{
    if run.len() == 0 {
        0
    } else if received(run.last().inbound) is Ok {
        accepted_in(run.drop_last()) + 1
    } else {
        accepted_in(run.drop_last())
    }
}

/// The dispatch that a request's sale is sent with; arbitrary for a request
/// that does not pass screening.
pub open spec fn dispatch_of(gateway: GatewayData, exchange: Exchange) -> crate::forward::DispatchData {
    planned(gateway.backend, received(exchange.inbound)->Ok_0)
}

/// A request that passes screening and whose dispatch is acknowledged is
/// answered with status 200, and its record carries the count before it plus
/// one. The gateway's count is then that total.
pub proof fn lemma_acknowledged_sale_gets_next_total(gateway: GatewayData, exchange: Exchange)
    requires
        received(exchange.inbound) is Ok,
        acknowledgement(dispatch_of(gateway, exchange), exchange.reply) is Ok,
    ensures
        served(gateway, exchange).1 matches OutcomeData::Acknowledged { sale, record }
            && record.total_received == gateway.total + 1 && record.request_id
            == exchange.request_id && Ok::<Seq<char>, ForwardError>(record.status)
            == acknowledgement(dispatch_of(gateway, exchange), exchange.reply),
        response_to(served(gateway, exchange).1).status == STATUS_OK,
        served(gateway, exchange).0.total == gateway.total + 1,
{
}

/// A run raises the count by the number of its requests that pass screening,
/// whatever downstream replies, and leaves the backend alone.
pub proof fn lemma_count_after_run(gateway: GatewayData, run: Seq<Exchange>)
    ensures
        gateway_after(gateway, run).total == gateway.total + accepted_in(run),
        gateway_after(gateway, run).backend == gateway.backend,
    decreases run.len(),
{
    if run.len() > 0 {
        lemma_count_after_run(gateway, run.drop_last());
    }
}

/// Every counted request of a run carries the starting count plus the number
/// of requests that passed screening up to and including itself.
pub proof fn lemma_total_of_counted_request(gateway: GatewayData, run: Seq<Exchange>, i: int)
    requires
        0 <= i < run.len(),
    ensures
        match total_at(gateway, run, i) {
            Some(total) => received(run[i].inbound) is Ok && total == gateway.total + accepted_in(
                run.take(i + 1),
            ),
            None => received(run[i].inbound) is Err,
        },
{
    lemma_count_after_run(gateway, run.take(i));
    assert(run.take(i + 1).drop_last() == run.take(i));
    assert(run.take(i + 1).last() == run[i]);
}

/// From one acknowledged sale to the next the total rises by exactly one,
/// provided that every request in between was rejected. (A sale in between
/// that was counted and then failed downstream takes a total with it.)
pub proof fn lemma_next_acknowledged_total(gateway: GatewayData, run: Seq<Exchange>, i: int, j: int)
    requires
        0 <= i < j < run.len(),
        outcome_at(gateway, run, i) is Acknowledged,
        outcome_at(gateway, run, j) is Acknowledged,
        forall|k: int| i < k < j ==> #[trigger] outcome_at(gateway, run, k) is Rejected,
    ensures
        total_at(gateway, run, j)->0 == total_at(gateway, run, i)->0 + 1,
        response_to(outcome_at(gateway, run, i)).status == STATUS_OK,
        response_to(outcome_at(gateway, run, j)).status == STATUS_OK,
{
    lemma_total_of_counted_request(gateway, run, i);
    lemma_total_of_counted_request(gateway, run, j);
    lemma_rejected_stretch(gateway, run, i + 1, j);
    assert(run.take(j + 1).drop_last() == run.take(j));
}

/// A stretch of rejected requests adds nothing to the number of requests that
/// passed screening.
proof fn lemma_rejected_stretch(gateway: GatewayData, run: Seq<Exchange>, from: int, to: int)
    requires
        0 <= from <= to <= run.len(),
        forall|k: int| from <= k < to ==> #[trigger] outcome_at(gateway, run, k) is Rejected,
    ensures
        accepted_in(run.take(to)) == accepted_in(run.take(from)),
    decreases to - from,
{
    if from < to {
        lemma_rejected_stretch(gateway, run, from, to - 1);
        assert(outcome_at(gateway, run, to - 1) is Rejected);
        assert(run.take(to).drop_last() == run.take(to - 1));
        assert(run.take(to).last() == run[to - 1]);
    }
}

/// In a run of requests that all pass screening, the request at position `i`
/// is counted as the starting count plus `i + 1`. So the totals handed out
/// are the starting count plus one up to the starting count plus the length
/// of the run, each exactly once: none twice, none left out. Where
/// downstream acknowledges every sale, these are the totals in the answers.
pub proof fn lemma_totals_without_gaps(gateway: GatewayData, run: Seq<Exchange>)
    requires
        forall|i: int| 0 <= i < run.len() ==> received(#[trigger] run[i].inbound) is Ok,
    ensures
        forall|i: int|
            0 <= i < run.len() ==> #[trigger] total_at(gateway, run, i) == Some(
                (gateway.total + i + 1) as nat,
            ),
        forall|i: int, j: int|
            0 <= i < run.len() && 0 <= j < run.len() && i != j ==> total_at(gateway, run, i)
                != total_at(gateway, run, j),
        Set::new(|t: nat| exists|i: int| 0 <= i < run.len() && total_at(gateway, run, i) == Some(t))
            == Set::new(|t: nat| gateway.total + 1 <= t <= gateway.total + run.len()),
        gateway_after(gateway, run).total == gateway.total + run.len(),
{
    assert forall|i: int| 0 <= i < run.len() implies #[trigger] total_at(gateway, run, i) == Some(
        (gateway.total + i + 1) as nat,
    ) by {
        lemma_total_of_counted_request(gateway, run, i);
        lemma_all_accepted(run.take(i + 1));
    }
    lemma_all_accepted(run);
    lemma_count_after_run(gateway, run);
    let handed_out = Set::new(
        |t: nat| exists|i: int| 0 <= i < run.len() && total_at(gateway, run, i) == Some(t),
    );
    let range = Set::new(|t: nat| gateway.total + 1 <= t <= gateway.total + run.len());
    assert forall|t: nat| range.contains(t) implies handed_out.contains(t) by {
        let i = t - gateway.total - 1;
        assert(total_at(gateway, run, i) == Some(t));
    }
    assert(handed_out =~= range);
}

/// Where every request passes screening, all of them count.
proof fn lemma_all_accepted(run: Seq<Exchange>)
    requires
        forall|i: int| 0 <= i < run.len() ==> received(#[trigger] run[i].inbound) is Ok,
    ensures
        accepted_in(run) == run.len(),
    decreases run.len(),
{
    if run.len() > 0 {
        lemma_all_accepted(run.drop_last());
    }
}

} // verus!
