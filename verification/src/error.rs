//! What can go wrong while the conversations are listed.

use grammers_mtsender::InvocationError;
use vstd::prelude::*;

verus! {

/// The error with which the transport fails a request. Nothing is known of
/// what it holds: it is handed on as it came.
#[verifier::external_type_specification]
#[verifier::external_body]
pub struct ExInvocationError(InvocationError);

/// Why an operation on the list of conversations failed.
#[derive(Debug)]
pub enum Error {
    /// The transport failed the request; the error is the one it gave.
    Transport(InvocationError),
    /// The server answered in a way that it promised not to: with a list
    /// said to be unchanged though no earlier state was named, or with a
    /// conversation whose entity it did not send along.
    ProtocolContractViolation,
}

} // verus!
