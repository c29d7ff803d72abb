//! Printing tickets and fiscal receipts through the local hardware agent.
//!
//! The agent is not sent any credentials. The documents for it are opaque to
//! this layer and reach the agent as they were given.

use vstd::prelude::*;
use crate::decoder::{
    conclude,
    is_success,
    is_success_status,
    network_error,
    network_failure,
    Exchange,
    Step,
    StepView,
};
use crate::model::Receipt;
use crate::text::joined;
use crate::transport::{Body, Delivery, DeliveryView, PostRequest, PostRequestView};

verus! {

/// The message for a receipt that the agent did not print.
pub open spec fn receipt_failure() -> Seq<char> {
    "Failed to print receipt"@
}

/// The request that prints a ticket: `POST {agent_url}/printer/ticket` with the
/// document as its body and no header of the command's own.
pub open spec fn print_ticket_plan(
    agent_url: Seq<char>,
    ticket_data: serde_json::Value,
) -> PostRequestView {
    PostRequestView {
        url: agent_url + "/printer/ticket"@,
        headers: Seq::empty(),
        body: Body::Document(ticket_data),
    }
}

/// The request that prints a fiscal receipt: `POST {agent_url}/kkt/receipt` with
/// the document as its body and no credentials.
pub open spec fn print_receipt_plan(
    agent_url: Seq<char>,
    receipt_data: serde_json::Value,
) -> PostRequestView {
    PostRequestView {
        url: agent_url + "/kkt/receipt"@,
        headers: Seq::empty(),
        body: Body::Document(receipt_data),
    }
}

/// The step after the request to print a ticket. The status alone decides and
/// the body is never read: an agent that answers with a failure status has
/// declined to print, which is an ordinary `false` and no error.
pub open spec fn print_ticket_step(delivery: DeliveryView) -> StepView<bool> {
    match delivery {
        DeliveryView::Failed(reason) => StepView::Done(Err(network_error(reason))),
        DeliveryView::Answered(status) => StepView::Done(Ok(is_success_status(status))),
    }
}

/// The step after the request to print a receipt. The receipt is read from a
/// success response. The body of any other response is not read, since the
/// agent's failures need not have the shape of the ticketing service's.
pub open spec fn print_receipt_step(delivery: DeliveryView) -> StepView<Receipt> {
    match delivery {
        DeliveryView::Failed(reason) => StepView::Done(Err(network_error(reason))),
        DeliveryView::Answered(status) => if is_success_status(status) {
            StepView::ReadPayload
        } else {
            StepView::Done(Err(receipt_failure()))
        },
    }
}

/// What printing a ticket returns against an agent that behaves as `exchange`
/// says.
pub open spec fn print_ticket_outcome(exchange: Exchange<bool>) -> Result<bool, Seq<char>> {
    conclude(print_ticket_step(exchange.delivery), exchange)
}

/// What printing a receipt returns against an agent that behaves as `exchange`
/// says.
pub open spec fn print_receipt_outcome(exchange: Exchange<Receipt>) -> Result<Receipt, Seq<char>> {
    conclude(print_receipt_step(exchange.delivery), exchange)
}

/// Builds the request that prints a ticket.
pub fn print_ticket_request(agent_url: &str, ticket_data: serde_json::Value) -> (plan: PostRequest)
    ensures
        plan@ == print_ticket_plan(agent_url@, ticket_data),
{
    let plan = PostRequest {
        url: joined(agent_url, "/printer/ticket"),
        headers: Vec::new(),
        body: Body::Document(ticket_data),
    };
    assert(plan@.headers =~= Seq::empty());
    plan
}

/// Decides what follows the request to print a ticket: the command is over as
/// soon as the transport has reported.
pub fn print_ticket_response<R>(delivery: Delivery<R>) -> (step: Step<bool, R>)
    ensures
        step@ == print_ticket_step(delivery@),
        step.reads_from(delivery),
        forall|exchange: Exchange<bool>|
            exchange.delivery == delivery@ ==> #[trigger] conclude(step@, exchange)
                == print_ticket_outcome(exchange),
{
    match delivery {
        Delivery::Failed(reason) => Step::Done(network_failure(reason.as_str())),
        Delivery::Answered(status, _) => Step::Done(Ok(is_success(status))),
    }
}

/// Builds the request that prints a fiscal receipt.
pub fn print_receipt_request(agent_url: &str, receipt_data: serde_json::Value) -> (plan:
    PostRequest)
    ensures
        plan@ == print_receipt_plan(agent_url@, receipt_data),
{
    let plan = PostRequest {
        url: joined(agent_url, "/kkt/receipt"),
        headers: Vec::new(),
        body: Body::Document(receipt_data),
    };
    assert(plan@.headers =~= Seq::empty());
    plan
}

/// Decides what follows the request to print a receipt.
pub fn print_receipt_response<R>(delivery: Delivery<R>) -> (step: Step<Receipt, R>)
    ensures
        step@ == print_receipt_step(delivery@),
        step.reads_from(delivery),
        forall|exchange: Exchange<Receipt>|
            exchange.delivery == delivery@ ==> #[trigger] conclude(step@, exchange)
                == print_receipt_outcome(exchange),
{
    match delivery {
        Delivery::Failed(reason) => Step::Done(network_failure(reason.as_str())),
        Delivery::Answered(status, response) => if is_success(status) {
            Step::ReadPayload(response)
        } else {
            Step::Done(Err("Failed to print receipt".to_owned()))
        },
    }
}

} // verus!
