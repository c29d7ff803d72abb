//! What a command hands to the transport and what the transport hands back.
//!
//! The transport itself lives outside this crate. It sends one POST request per
//! command, keeps nothing between two commands and never retries.

use vstd::prelude::*;
use crate::model::TicketSaleRequest;

verus! {

/// Makes `serde_json::Value`, a JSON document, known as a type. Nothing is
/// claimed of it: this layer never looks inside a document, it only carries one
/// from a command's input into the request's body.
#[verifier::external_type_specification]
#[verifier::external_body]
pub struct ExJsonValue(serde_json::Value);

/// The body of a request. Every body that is not empty goes out as JSON.
#[derive(Debug, PartialEq)]
pub enum Body {
    /// The request has no body.
    Empty,
    /// A sale request for the ticketing service.
    Sale(TicketSaleRequest),
    /// A document for the hardware agent, sent as it was given.
    Document(serde_json::Value),
}

/// One header of a request.
#[derive(Debug, Clone, PartialEq, Eq)]
pub struct Header {
    pub name: String,
    pub value: String,
}

/// The mathematical content of a [`Header`].
pub struct HeaderView {
    pub name: Seq<char>,
    pub value: Seq<char>,
}

impl View for Header {
    type V = HeaderView;

    open spec fn view(&self) -> HeaderView {
        HeaderView { name: self.name@, value: self.value@ }
    }
}

/// One POST request, ready for the transport.
#[derive(Debug, PartialEq)]
pub struct PostRequest {
    /// Where the request goes.
    pub url: String,
    /// The headers that the command asks for, in the order in which they are
    /// set. The transport adds those that the body's encoding calls for.
    pub headers: Vec<Header>,
    /// What the request carries.
    pub body: Body,
}

/// The mathematical content of a [`PostRequest`].
pub struct PostRequestView {
    pub url: Seq<char>,
    pub headers: Seq<HeaderView>,
    pub body: Body,
}

impl View for PostRequest {
    type V = PostRequestView;

    open spec fn view(&self) -> PostRequestView {
        PostRequestView {
            url: self.url@,
            headers: Seq::new(self.headers@.len(), |i: int| self.headers@[i]@),
            body: self.body,
        }
    }
}

/// What became of a request that was handed to the transport.
///
/// `R` is the transport's own handle on a response, from which the body can
/// still be read. This layer keeps it closed and hands it back with the step
/// that asks for the body.
#[derive(Debug, Clone, PartialEq, Eq)]
pub enum Delivery<R> {
    /// No response was obtained: the host could not be resolved or reached, the
    /// connection broke or timed out. The text is the transport's description.
    Failed(String),
    /// A response arrived with this status code. Its body has not been read yet.
    Answered(u16, R),
}

/// The mathematical content of a [`Delivery`]: what the transport reported,
/// without the handle on the response.
pub enum DeliveryView {
    Failed(Seq<char>),
    Answered(u16),
}

impl<R> View for Delivery<R> {
    type V = DeliveryView;

    open spec fn view(&self) -> DeliveryView {
        match self {
            Delivery::Failed(reason) => DeliveryView::Failed(reason@),
            Delivery::Answered(status, _) => DeliveryView::Answered(*status),
        }
    }
}

impl<R> Delivery<R> {
    /// The response that arrived, if one did.
    pub open spec fn response(self) -> Option<R> {
        match self {
            Delivery::Failed(_) => None,
            Delivery::Answered(_, response) => Some(response),
        }
    }
}

} // verus!
