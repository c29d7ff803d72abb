//! The documents that travel between the terminal, the ticketing service and
//! the hardware agent.
//!
//! They are plain records. A command builds or receives one, hands it on and
//! forgets it: nothing here is kept between two commands.

use vstd::prelude::*;

verus! {

/// The wish to sell one ticket for a trip.
///
/// The ticketing service expects a trip identifier that is not empty. This
/// layer does not check that: it forwards every request and lets the service
/// answer.
#[derive(Debug, Clone, PartialEq, Eq)]
pub struct TicketSaleRequest {
    pub trip_id: String,
    /// The passenger's full name.
    pub passenger_fio: Option<String>,
    pub passenger_phone: Option<String>,
    pub seat_id: Option<String>,
}

/// The ticketing service's record of a ticket, as issued or as returned.
///
/// The price is kept as the bit pattern of the IEEE 754 double that the service
/// sent, so that a ticket passes through this layer without rounding.
#[derive(Debug, Clone, PartialEq, Eq)]
pub struct Ticket {
    pub id: String,
    pub trip_id: String,
    pub price_bits: u64,
    pub qr_code: String,
    pub bar_code: String,
}

/// What the cash register reported after printing a fiscal receipt.
#[derive(Debug, Clone, PartialEq, Eq)]
pub struct Receipt {
    pub success: bool,
    pub fiscal_sign: String,
    /// Where the fiscal data operator confirms the receipt.
    pub ofd_url: String,
}

/// The one shape in which the ticketing service reports a failure.
#[derive(Debug, Clone, PartialEq, Eq)]
pub struct ApiError {
    pub error: String,
}

} // verus!
