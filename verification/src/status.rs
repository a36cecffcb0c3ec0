//! Failures as the transport reports them.
use crate::failure::{Failure, FailureKind};
use vstd::prelude::*;

verus! {

#[verifier::external_type_specification]
#[verifier::external_body]
pub struct ExStatus(tonic::Status);

/// The number of the code that a status carries: what `tonic::Status::code`
/// returns, as the number that `tonic::Code` gives to it.
pub uninterp spec fn status_code(s: tonic::Status) -> int;

/// The message that a status carries: what `tonic::Status::message` returns.
pub uninterp spec fn status_message(s: tonic::Status) -> Seq<char>;

/// The number that the transport gives to each class of failure.
pub open spec fn code_number(kind: FailureKind) -> int {
    match kind {
        FailureKind::Cancelled => 1,
        FailureKind::NotFound => 5,
        FailureKind::Aborted => 10,
        FailureKind::Internal => 13,
    }
}

/// `tonic::Status::cancelled`: a status with the code `Cancelled`, which is
/// number 1, and the given message.
#[verifier::external_body]
fn cancelled(message: String) -> (s: tonic::Status)
    ensures
        status_code(s) == 1,
        status_message(s) == message@,
{
    tonic::Status::cancelled(message)
}

/// `tonic::Status::not_found`: a status with the code `NotFound`, which is
/// number 5, and the given message.
#[verifier::external_body]
fn not_found(message: String) -> (s: tonic::Status)
    ensures
        status_code(s) == 5,
        status_message(s) == message@,
{
    tonic::Status::not_found(message)
}

/// `tonic::Status::aborted`: a status with the code `Aborted`, which is
/// number 10, and the given message.
#[verifier::external_body]
fn aborted(message: String) -> (s: tonic::Status)
    ensures
        status_code(s) == 10,
        status_message(s) == message@,
{
    tonic::Status::aborted(message)
}

/// `tonic::Status::internal`: a status with the code `Internal`, which is
/// number 13, and the given message.
#[verifier::external_body]
fn internal(message: String) -> (s: tonic::Status)
    ensures
        status_code(s) == 13,
        status_message(s) == message@,
{
    tonic::Status::internal(message)
}

/// The status under which a failure goes back to the caller: the code of
/// the failure's class, and the failure's message.
pub fn status_of(failure: &Failure) -> (s: tonic::Status)
    ensures
        status_code(s) == code_number(failure.spec_kind()),
        status_message(s) == failure.spec_message(),
{
    let message = failure.message();
    match failure.kind() {
        FailureKind::Cancelled => cancelled(message),
        FailureKind::NotFound => not_found(message),
        FailureKind::Aborted => aborted(message),
        FailureKind::Internal => internal(message),
    }
}

} // verus!
