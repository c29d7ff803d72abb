//! Selling and returning tickets through the remote ticketing service.
//!
//! Both commands pass their input through as it is. Whether a trip can be sold
//! or a ticket can still be returned is for the service to say, and it says so
//! with an application error.

use vstd::prelude::*;
use crate::decoder::{api_response, api_step, conclude, Exchange, Step};
use crate::model::{Ticket, TicketSaleRequest};
use crate::text::joined;
use crate::transport::{Body, Delivery, Header, HeaderView, PostRequest, PostRequestView};

verus! {

/// The header that presents `token` to the ticketing service:
/// `Authorization: Bearer {token}`.
pub open spec fn bearer(token: Seq<char>) -> HeaderView {
    HeaderView { name: "Authorization"@, value: "Bearer "@ + token }
}

/// The request that sells a ticket: `POST {api_url}/tickets/sell` with the
/// bearer token and the sale request as its body.
pub open spec fn sell_ticket_plan(
    api_url: Seq<char>,
    token: Seq<char>,
    request: TicketSaleRequest,
) -> PostRequestView {
    PostRequestView {
        url: api_url + "/tickets/sell"@,
        headers: seq![bearer(token)],
        body: Body::Sale(request),
    }
}

/// The request that returns a ticket: `POST {api_url}/tickets/{ticket_id}/return`
/// with the bearer token and no body.
pub open spec fn return_ticket_plan(
    api_url: Seq<char>,
    token: Seq<char>,
    ticket_id: Seq<char>,
) -> PostRequestView {
    PostRequestView {
        url: api_url + "/tickets/"@ + ticket_id + "/return"@,
        headers: seq![bearer(token)],
        body: Body::Empty,
    }
}

/// What selling a ticket returns against a service that behaves as `exchange`
/// says.
pub open spec fn sell_ticket_outcome(exchange: Exchange<Ticket>) -> Result<Ticket, Seq<char>> {
    conclude(api_step(exchange.delivery), exchange)
}

/// What returning a ticket returns against a service that behaves as `exchange`
/// says.
pub open spec fn return_ticket_outcome(exchange: Exchange<Ticket>) -> Result<Ticket, Seq<char>> {
    conclude(api_step(exchange.delivery), exchange)
}

/// Builds the header that presents `token` to the ticketing service.
fn bearer_headers(token: &str) -> (headers: Vec<Header>)
    ensures
        headers@.len() == 1,
        headers@[0]@ == bearer(token@),
{
    let mut headers = Vec::new();
    headers.push(Header { name: "Authorization".to_owned(), value: joined("Bearer ", token) });
    headers
}

/// Builds the request that sells a ticket. The sale request is not examined:
/// the service alone decides whether it is acceptable.
pub fn sell_ticket_request(api_url: &str, token: &str, request: TicketSaleRequest) -> (plan:
    PostRequest)
    ensures
        plan@ == sell_ticket_plan(api_url@, token@, request),
{
    let plan = PostRequest {
        url: joined(api_url, "/tickets/sell"),
        headers: bearer_headers(token),
        body: Body::Sale(request),
    };
    assert(plan@.headers =~= seq![bearer(token@)]);
    plan
}

/// Decides what follows the sale request: the issued ticket is read from a
/// success response, the service's error from any other.
pub fn sell_ticket_response<R>(delivery: Delivery<R>) -> (step: Step<Ticket, R>)
    ensures
        step@ == api_step::<Ticket>(delivery@),
        step.reads_from(delivery),
        forall|exchange: Exchange<Ticket>|
            exchange.delivery == delivery@ ==> #[trigger] conclude(step@, exchange)
                == sell_ticket_outcome(exchange),
{
    api_response(delivery)
}

/// Builds the request that returns the ticket `ticket_id`. The identifier goes
/// into the path as it is.
pub fn return_ticket_request(api_url: &str, token: &str, ticket_id: &str) -> (plan: PostRequest)
    ensures
        plan@ == return_ticket_plan(api_url@, token@, ticket_id@),
{
    let mut url = joined(api_url, "/tickets/");
    url.append(ticket_id);
    url.append("/return");
    let plan = PostRequest { url, headers: bearer_headers(token), body: Body::Empty };
    assert(plan@.headers =~= seq![bearer(token@)]);
    plan
}

/// Decides what follows the return request: the ticket in its state after the
/// return is read from a success response, the service's error from any other.
pub fn return_ticket_response<R>(delivery: Delivery<R>) -> (step: Step<Ticket, R>)
    ensures
        step@ == api_step::<Ticket>(delivery@),
        step.reads_from(delivery),
        forall|exchange: Exchange<Ticket>|
            exchange.delivery == delivery@ ==> #[trigger] conclude(step@, exchange)
                == return_ticket_outcome(exchange),
{
    api_response(delivery)
}

} // verus!
