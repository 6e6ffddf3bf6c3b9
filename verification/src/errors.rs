//! The error taxonomy of the service and its mapping to HTTP status codes:
//! malformed input, no matching record, an email already taken, and any
//! other persistence failure.

use vstd::prelude::*;

verus! {

/// The request fields that validation can reject.
#[derive(Clone, Copy, PartialEq, Eq, Structural, Debug)]
pub enum FieldName {
    Email,
    FirstName,
    LastName,
    Phone,
    Dob,
    Sex,
    MaritalStatus,
    EmploymentStartDate,
    LcaSalary,
    H1bStartDate,
    H1bEndDate,
    H1bStatus,
}

/// What a failed operation reports. `Validation` names the offending
/// fields; `Store` stands for an unclassified persistence failure.
#[derive(PartialEq, Eq, Debug)]
pub enum ServiceError {
    Validation(Vec<FieldName>),
    NotFound,
    Conflict,
    Store,
}

pub open spec fn spec_status_code(e: ServiceError) -> int {
    match e {
        ServiceError::Validation(_) => 400,
        ServiceError::NotFound => 404,
        ServiceError::Conflict => 409,
        ServiceError::Store => 500,
    }
}

/// The HTTP status each error kind maps to.
pub fn status_code(e: &ServiceError) -> (code: u16)
    ensures
        code == spec_status_code(*e),
{
    match e {
        ServiceError::Validation(_) => 400,
        ServiceError::NotFound => 404,
        ServiceError::Conflict => 409,
        ServiceError::Store => 500,
    }
}

pub open spec fn spec_error_kind(e: ServiceError) -> Seq<char> {
    match e {
        ServiceError::Validation(_) => "ValidationError"@,
        ServiceError::NotFound => "NotFound"@,
        ServiceError::Conflict => "ConflictError"@,
        ServiceError::Store => "StoreError"@,
    }
}

/// The error kind's name, as response bodies carry it.
pub fn error_kind(e: &ServiceError) -> (kind: String)
    ensures
        kind@ == spec_error_kind(*e),
{
    match e {
        ServiceError::Validation(_) => "ValidationError".to_owned(),
        ServiceError::NotFound => "NotFound".to_owned(),
        ServiceError::Conflict => "ConflictError".to_owned(),
        ServiceError::Store => "StoreError".to_owned(),
    }
}

} // verus!
