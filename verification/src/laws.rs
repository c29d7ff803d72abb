//! What holds of the commands whatever the services answer.
//!
//! Each law speaks of a command's outcome against an [`Exchange`]: the record of
//! what the far side does, which the command's functions see piece by piece.

use vstd::prelude::*;
use crate::decoder::{
    is_success_status,
    network_error,
    parse_error,
    unknown_error,
    Exchange,
};
use crate::model::{Receipt, Ticket};
use crate::printing::{print_receipt_outcome, print_ticket_outcome, receipt_failure};
use crate::ticketing::{return_ticket_outcome, sell_ticket_outcome};
use crate::transport::DeliveryView;

verus! {

/// A ticket command that is answered with a success status and a well-formed
/// ticket returns exactly that ticket.
pub proof fn ticket_is_returned_as_sent(exchange: Exchange<Ticket>, status: u16, ticket: Ticket)
    requires
        exchange.delivery == DeliveryView::Answered(status),
        is_success_status(status),
        exchange.payload == Ok::<Ticket, Seq<char>>(ticket),
    ensures
        sell_ticket_outcome(exchange) == Ok::<Ticket, Seq<char>>(ticket),
        return_ticket_outcome(exchange) == Ok::<Ticket, Seq<char>>(ticket),
{
}

/// A ticket command that is answered with a failure status and a well-formed
/// error fails with the service's message, letter for letter.
pub proof fn service_message_is_returned_verbatim(
    exchange: Exchange<Ticket>,
    status: u16,
    message: Seq<char>,
)
    requires
        exchange.delivery == DeliveryView::Answered(status),
        !is_success_status(status),
        exchange.failure matches Some(failure) && failure.error@ == message,
    ensures
        sell_ticket_outcome(exchange) == Err::<Ticket, Seq<char>>(message),
        return_ticket_outcome(exchange) == Err::<Ticket, Seq<char>>(message),
{
}

/// A ticket command that is answered with a failure status and no readable
/// error fails with the fixed message "Unknown error".
pub proof fn unreadable_error_is_unknown_error(exchange: Exchange<Ticket>, status: u16)
    requires
        exchange.delivery == DeliveryView::Answered(status),
        !is_success_status(status),
        exchange.failure is None,
    ensures
        sell_ticket_outcome(exchange) == Err::<Ticket, Seq<char>>("Unknown error"@),
        return_ticket_outcome(exchange) == Err::<Ticket, Seq<char>>("Unknown error"@),
{
}

/// A parse error is never mistaken for the fixed message of an unreadable
/// error, whatever the reader said about the body.
pub proof fn parse_error_differs_from_unknown_error(reason: Seq<char>)
    ensures
        parse_error(reason) != unknown_error(),
{
    reveal_strlit("Parse error: ");
    reveal_strlit("Unknown error");
    assert(parse_error(reason)[0] == 'P');
    assert(unknown_error()[0] == 'U');
}

/// A success response whose body is no ticket makes a ticket command fail with
/// a parse error: not with the fixed message, and never with a ticket.
pub proof fn malformed_ticket_is_parse_error(
    exchange: Exchange<Ticket>,
    status: u16,
    reason: Seq<char>,
)
    requires
        exchange.delivery == DeliveryView::Answered(status),
        is_success_status(status),
        exchange.payload == Err::<Ticket, Seq<char>>(reason),
    ensures
        sell_ticket_outcome(exchange) == Err::<Ticket, Seq<char>>("Parse error: "@ + reason),
        return_ticket_outcome(exchange) == Err::<Ticket, Seq<char>>("Parse error: "@ + reason),
        sell_ticket_outcome(exchange) != Err::<Ticket, Seq<char>>("Unknown error"@),
        return_ticket_outcome(exchange) != Err::<Ticket, Seq<char>>("Unknown error"@),
{
    parse_error_differs_from_unknown_error(reason);
}

/// A success response whose body is no receipt makes printing a receipt fail
/// with a parse error: not with a fixed message, and never with a receipt.
pub proof fn malformed_receipt_is_parse_error(
    exchange: Exchange<Receipt>,
    status: u16,
    reason: Seq<char>,
)
    requires
        exchange.delivery == DeliveryView::Answered(status),
        is_success_status(status),
        exchange.payload == Err::<Receipt, Seq<char>>(reason),
    ensures
        print_receipt_outcome(exchange) == Err::<Receipt, Seq<char>>("Parse error: "@ + reason),
        print_receipt_outcome(exchange) != Err::<Receipt, Seq<char>>("Unknown error"@),
        print_receipt_outcome(exchange) != Err::<Receipt, Seq<char>>("Failed to print receipt"@),
{
    parse_error_differs_from_unknown_error(reason);
    reveal_strlit("Parse error: ");
    reveal_strlit("Failed to print receipt");
    assert(parse_error(reason)[0] == 'P');
    assert(receipt_failure()[0] == 'F');
}

/// Printing a ticket succeeds whenever the agent answers, whatever the body
/// holds: with `true` for a success status and with `false` for any other.
pub proof fn print_ticket_goes_by_status_alone(exchange: Exchange<bool>, status: u16)
    requires
        exchange.delivery == DeliveryView::Answered(status),
    ensures
        print_ticket_outcome(exchange) == Ok::<bool, Seq<char>>(is_success_status(status)),
{
}

/// Printing a receipt returns the receipt that a success response carries.
pub proof fn receipt_is_returned_as_sent(exchange: Exchange<Receipt>, status: u16, receipt: Receipt)
    requires
        exchange.delivery == DeliveryView::Answered(status),
        is_success_status(status),
        exchange.payload == Ok::<Receipt, Seq<char>>(receipt),
    ensures
        print_receipt_outcome(exchange) == Ok::<Receipt, Seq<char>>(receipt),
{
}

/// Printing a receipt fails with the fixed message "Failed to print receipt"
/// on every failure status, whatever the body holds.
pub proof fn declined_receipt_has_fixed_message(exchange: Exchange<Receipt>, status: u16)
    requires
        exchange.delivery == DeliveryView::Answered(status),
        !is_success_status(status),
    ensures
        print_receipt_outcome(exchange) == Err::<Receipt, Seq<char>>("Failed to print receipt"@),
{
}

/// A request that obtains no response makes each of the four network commands
/// fail with "Network error: " and the transport's description, and with no
/// payload.
pub proof fn unreachable_service_is_network_error(
    tickets: Exchange<Ticket>,
    printed: Exchange<bool>,
    receipts: Exchange<Receipt>,
    reason: Seq<char>,
)
    requires
        tickets.delivery == DeliveryView::Failed(reason),
        printed.delivery == DeliveryView::Failed(reason),
        receipts.delivery == DeliveryView::Failed(reason),
    ensures
        sell_ticket_outcome(tickets) == Err::<Ticket, Seq<char>>("Network error: "@ + reason),
        return_ticket_outcome(tickets) == Err::<Ticket, Seq<char>>("Network error: "@ + reason),
        print_ticket_outcome(printed) == Err::<bool, Seq<char>>("Network error: "@ + reason),
        print_receipt_outcome(receipts) == Err::<Receipt, Seq<char>>("Network error: "@ + reason),
        network_error(reason) == "Network error: "@ + reason,
{
}

} // verus!
