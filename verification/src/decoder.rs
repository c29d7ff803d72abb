//! Classifies what a service answered and turns it into a command's result.
//!
//! A command ends in exactly one of two ways: with its payload, or with one
//! message that explains the failure. Three sorts of failure are told apart by
//! their text. A network error means that no response was obtained. A parse
//! error means that a response with a success status carried a body of the wrong
//! shape. An application error means that the service answered with another
//! status; its message is taken from the body, or is a fixed text where the body
//! gives none.

use vstd::prelude::*;
use crate::model::ApiError;
use crate::text::joined;
use crate::transport::{Delivery, DeliveryView};

verus! {

/// A status code counts as success when it lies in the range 200 to 299.
pub open spec fn is_success_status(status: u16) -> bool {
    200 <= status < 300
}

/// The message for a request that obtained no response.
pub open spec fn network_error(reason: Seq<char>) -> Seq<char> {
    "Network error: "@ + reason
}

/// The message for a success response whose body has the wrong shape.
pub open spec fn parse_error(reason: Seq<char>) -> Seq<char> {
    "Parse error: "@ + reason
}

/// The message for a failure response whose body gives no message.
pub open spec fn unknown_error() -> Seq<char> {
    "Unknown error"@
}

/// A command's result with its message as a sequence of characters.
pub open spec fn result_view<T>(result: Result<T, String>) -> Result<T, Seq<char>> {
    match result {
        Ok(payload) => Ok(payload),
        Err(message) => Err(message@),
    }
}

/// What the shell does next for a command whose request went to the transport.
///
/// A step that asks for the body comes with the response to read it from.
#[derive(Debug, PartialEq)]
pub enum Step<T, R> {
    /// The command is over and this is its result.
    Done(Result<T, String>),
    /// Read the body of this response as the command's payload and hand the
    /// reading to [`payload_decoded`].
    ReadPayload(R),
    /// Read the body of this response as an [`ApiError`] and hand the reading to
    /// [`error_decoded`].
    ReadError(R),
}

/// The mathematical content of a [`Step`]: what is to be done, without the
/// handle on the response.
pub enum StepView<T> {
    Done(Result<T, Seq<char>>),
    ReadPayload,
    ReadError,
}

impl<T, R> View for Step<T, R> {
    type V = StepView<T>;

    open spec fn view(&self) -> StepView<T> {
        match self {
            Step::Done(result) => StepView::Done(result_view(*result)),
            Step::ReadPayload(_) => StepView::ReadPayload,
            Step::ReadError(_) => StepView::ReadError,
        }
    }
}

impl<T, R> Step<T, R> {
    /// The response whose body the step asks for, if it asks for one.
    pub open spec fn response(self) -> Option<R> {
        match self {
            Step::Done(_) => None,
            Step::ReadPayload(response) => Some(response),
            Step::ReadError(response) => Some(response),
        }
    }

    /// A step that asks for a body asks for the body of the response that
    /// `delivery` brought.
    pub open spec fn reads_from(self, delivery: Delivery<R>) -> bool {
        self.response() is Some ==> self.response() == delivery.response()
    }
}

/// Everything that the far side of one request can be seen to do: whether a
/// response arrived and with which status, what reading its body as the
/// command's payload gives, and what reading it as an [`ApiError`] gives.
///
/// A command looks at no more than one of the two readings, and at none where
/// no response arrived.
pub struct Exchange<T> {
    pub delivery: DeliveryView,
    /// The payload, or why the body is no payload.
    pub payload: Result<T, Seq<char>>,
    /// The failure that the body describes, if it describes one.
    pub failure: Option<ApiError>,
}

/// The step after a request to the ticketing service: a success status asks for
/// the payload, any other status for the service's error, no response ends the
/// command with a network error.
pub open spec fn api_step<T>(delivery: DeliveryView) -> StepView<T> {
    match delivery {
        DeliveryView::Failed(reason) => StepView::Done(Err(network_error(reason))),
        DeliveryView::Answered(status) => if is_success_status(status) {
            StepView::ReadPayload
        } else {
            StepView::ReadError
        },
    }
}

/// The result for a body that was read as the payload.
pub open spec fn payload_result<T>(reading: Result<T, Seq<char>>) -> Result<T, Seq<char>> {
    match reading {
        Ok(payload) => Ok(payload),
        Err(reason) => Err(parse_error(reason)),
    }
}

/// The result for a body that was read as an [`ApiError`]: always a failure,
/// with the service's message where there is one.
pub open spec fn error_result<T>(reading: Option<ApiError>) -> Result<T, Seq<char>> {
    match reading {
        Some(failure) => Err(failure.error@),
        None => Err(unknown_error()),
    }
}

/// What a command returns once the shell has carried out `step` against a
/// service that behaves as `exchange` says.
pub open spec fn conclude<T>(step: StepView<T>, exchange: Exchange<T>) -> Result<T, Seq<char>> {
    match step {
        StepView::Done(result) => result,
        StepView::ReadPayload => payload_result(exchange.payload),
        StepView::ReadError => error_result(exchange.failure),
    }
}

/// Tells whether `status` is a success status.
#[verifier::when_used_as_spec(is_success_status)]
pub fn is_success(status: u16) -> (ok: bool)
    ensures
        ok == is_success_status(status),
{
    200 <= status && status < 300
}

/// The result of a command whose request obtained no response.
pub fn network_failure<T>(reason: &str) -> (result: Result<T, String>)
    ensures
        result_view(result) == Err::<T, Seq<char>>(network_error(reason@)),
{
    Err(joined("Network error: ", reason))
}

/// Decides the step after a request to the ticketing service. Whichever
/// reading it asks for is made on the response that was delivered.
pub fn api_response<T, R>(delivery: Delivery<R>) -> (step: Step<T, R>)
    ensures
        step@ == api_step::<T>(delivery@),
        step.reads_from(delivery),
{
    match delivery {
        Delivery::Failed(reason) => Step::Done(network_failure(reason.as_str())),
        Delivery::Answered(status, response) => if is_success(status) {
            Step::ReadPayload(response)
        } else {
            Step::ReadError(response)
        },
    }
}

/// Ends a command whose response body was read as its payload. A reading that
/// failed comes with the reader's description of what is wrong with the body.
pub fn payload_decoded<T>(reading: Result<T, String>) -> (result: Result<T, String>)
    ensures
        result_view(result) == payload_result(result_view(reading)),
{
    match reading {
        Ok(payload) => Ok(payload),
        Err(reason) => Err(joined("Parse error: ", reason.as_str())),
    }
}

/// Ends a command whose response body was read as an [`ApiError`]. A body that
/// is missing or has another shape is handed in as `None`: the caller never
/// sees a second failure on top of the first.
pub fn error_decoded<T>(reading: Option<ApiError>) -> (result: Result<T, String>)
    ensures
        result_view(result) == error_result::<T>(reading),
{
    match reading {
        Some(failure) => Err(failure.error),
        None => Err("Unknown error".to_owned()),
    }
}

} // verus!
