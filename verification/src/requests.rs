//! The request payloads, as the transport hands them over: every field a
//! plain optional string, so that validation can report missing fields,
//! unparseable dates and amounts, and values outside the enumerated sets.

use vstd::prelude::*;

verus! {

/// The create payload. Required fields must be present and non-empty;
/// optional fields may be absent. `h1b_status` defaults to `Active` when
/// absent.
#[derive(Debug)]
pub struct CreateCompleteCustomerRequest {
    pub email: Option<String>,
    pub first_name: Option<String>,
    pub last_name: Option<String>,
    pub dob: Option<String>,
    pub sex: Option<String>,
    pub marital_status: Option<String>,
    pub phone: Option<String>,
    pub emergency_contact_name: Option<String>,
    pub emergency_contact_phone: Option<String>,
    pub employment_start_date: Option<String>,
    pub street_name: Option<String>,
    pub city: Option<String>,
    pub state: Option<String>,
    pub zip: Option<String>,
    pub client_name: Option<String>,
    pub client_street_name: Option<String>,
    pub client_city: Option<String>,
    pub client_state: Option<String>,
    pub client_zip: Option<String>,
    pub lca_title: Option<String>,
    pub lca_salary: Option<String>,
    pub lca_code: Option<String>,
    pub receipt_number: Option<String>,
    pub h1b_start_date: Option<String>,
    pub h1b_end_date: Option<String>,
    pub h1b_status: Option<String>,
}

/// The generic merge-update payload: any mutable field may be supplied;
/// the identifier, `email`, may not.
#[derive(Debug)]
pub struct UpdateVisaDetailsRequest {
    pub first_name: Option<String>,
    pub last_name: Option<String>,
    pub dob: Option<String>,
    pub sex: Option<String>,
    pub marital_status: Option<String>,
    pub phone: Option<String>,
    pub emergency_contact_name: Option<String>,
    pub emergency_contact_phone: Option<String>,
    pub employment_start_date: Option<String>,
    pub street_name: Option<String>,
    pub city: Option<String>,
    pub state: Option<String>,
    pub zip: Option<String>,
    pub client_name: Option<String>,
    pub client_street_name: Option<String>,
    pub client_city: Option<String>,
    pub client_state: Option<String>,
    pub client_zip: Option<String>,
    pub lca_title: Option<String>,
    pub lca_salary: Option<String>,
    pub lca_code: Option<String>,
    pub receipt_number: Option<String>,
    pub h1b_start_date: Option<String>,
    pub h1b_end_date: Option<String>,
    pub h1b_status: Option<String>,
}

/// The address-scoped merge-update payload.
#[derive(Debug)]
pub struct UpdateAddressRequest {
    pub street_name: Option<String>,
    pub city: Option<String>,
    pub state: Option<String>,
    pub zip: Option<String>,
}

/// The employer / LCA / status scoped merge-update payload.
#[derive(Debug)]
pub struct UpdateH1bDetailsRequest {
    pub client_name: Option<String>,
    pub client_street_name: Option<String>,
    pub client_city: Option<String>,
    pub client_state: Option<String>,
    pub client_zip: Option<String>,
    pub lca_title: Option<String>,
    pub lca_salary: Option<String>,
    pub lca_code: Option<String>,
    pub receipt_number: Option<String>,
    pub h1b_start_date: Option<String>,
    pub h1b_end_date: Option<String>,
    pub h1b_status: Option<String>,
}

/// The soft-delete payload: the record to mark inactive, by its email.
#[derive(Debug)]
pub struct SoftDeleteRequest {
    pub email: String,
}

} // verus!
