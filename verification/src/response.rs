//! The answer to an Alpaca request: the value or the error, with the
//! transaction numbers of the client and of the server.
use vstd::prelude::*;
use crate::enums::{AlignmentMode, EquatorialCoordinateType, PierSide, TrackingRate};
use crate::errors::AlpacaError;

verus! {

broadcast use vstd::string::group_string_axioms;

/// The answer to a request.
#[derive(Debug)]
pub struct AlpacaResponse<T> {
    pub value: Option<T>,
    pub error_number: i32,
    pub error_message: String,
    pub client_transaction_id: u32,
    pub server_transaction_id: u32,
}

/// The server's transaction number that comes after the given one: counting
/// on by one, and round to zero after the largest number.
pub open spec fn spec_next_transaction_id(id: u32) -> u32 {
    if id == u32::MAX {
        0
    } else {
        (id + 1) as u32
    }
}

/// Hands out the server's next transaction number and counts on.
pub fn generate_server_transaction_id(sti: &mut u32) -> (id: u32)
    ensures
        id == *old(sti),
        *final(sti) == spec_next_transaction_id(*old(sti)),
{
    let id = *sti;
    *sti = id.wrapping_add(1);
    id
}

impl<T> AlpacaResponse<T> {
    /// The answer for the result of a request: the value with error number 0
    /// and an empty message, or no value with the error's number and message;
    /// it takes the server's next transaction number.
    pub fn new(result: Result<T, AlpacaError>, client_transaction_id: u32, sti: &mut u32) -> (r: AlpacaResponse<T>)
        ensures
            r.client_transaction_id == client_transaction_id,
            r.server_transaction_id == *old(sti),
            *final(sti) == spec_next_transaction_id(*old(sti)),
            result matches Ok(v) ==> r.value == Some(v) && r.error_number == 0 && r.error_message@
                == Seq::<char>::empty(),
            result matches Err(e) ==> r.value is None && r.error_number == e.number()
                && r.error_message@ == e.message(),
    {
        let server_transaction_id = generate_server_transaction_id(sti);
        match result {
            Ok(v) => AlpacaResponse {
                value: Some(v),
                error_number: 0,
                error_message: String::new(),
                client_transaction_id,
                server_transaction_id,
            },
            Err(e) => AlpacaResponse {
                value: None,
                error_number: e.error_number(),
                error_message: crate::errors::text(e.error_message()),
                client_transaction_id,
                server_transaction_id,
            },
        }
    }
}

/// The values that are written in an answer as their own serialised form.
pub trait AlpacaSerializeDefault {}

impl AlpacaSerializeDefault for bool {}

impl AlpacaSerializeDefault for u32 {}

impl AlpacaSerializeDefault for i32 {}

impl AlpacaSerializeDefault for String {}

impl AlpacaSerializeDefault for AlignmentMode {}

impl AlpacaSerializeDefault for TrackingRate {}

impl AlpacaSerializeDefault for Vec<TrackingRate> {}

impl AlpacaSerializeDefault for EquatorialCoordinateType {}

impl AlpacaSerializeDefault for PierSide {}

} // verus!
