//! The operations behind each route: validate the payload, run the store
//! operation, and shape the response envelope. The transport only decodes
//! JSON into the request shapes, calls here, and encodes what comes back.

use vstd::prelude::*;
use vstd::pervasive::unreached;
use crate::dates::Date;
use crate::errors::ServiceError;
use crate::models::{
    clone_opt_string, valid_record, window_ok, with_status, CustomerRecord, H1bStatus,
};
use crate::money::Money;
use crate::patch::spec_apply_patch;
use crate::requests::{
    CreateCompleteCustomerRequest, SoftDeleteRequest, UpdateAddressRequest,
    UpdateH1bDetailsRequest, UpdateVisaDetailsRequest,
};
use crate::store::{
    active_records, email_index, has_active_email, has_email, window_error_fields, CustomerStore,
};
use crate::validation::{
    address_patch, address_patch_of, create_field_errors, h1b_field_errors, h1b_patch_of,
    update_field_errors, update_patch_of, validate_create, validate_h1b_details, validate_update,
    validated_record,
};

verus! {

/// The liveness answer.
#[derive(Debug)]
pub struct HealthStatus {
    pub status: String,
    pub message: String,
}

/// The envelope every successful mutation answers with.
#[derive(Debug)]
pub struct MutationResponse {
    pub message: String,
    pub email: String,
    pub rows_affected: u64,
}

/// The address sub-view an address update answers with.
#[derive(Debug)]
pub struct AddressDetails {
    pub street_name: Option<String>,
    pub city: Option<String>,
    pub state: Option<String>,
    pub zip: Option<String>,
}

/// The employer / LCA / status sub-view an H1B update answers with.
#[derive(Debug)]
pub struct H1bDetails {
    pub client_name: Option<String>,
    pub client_street_name: Option<String>,
    pub client_city: Option<String>,
    pub client_state: Option<String>,
    pub client_zip: Option<String>,
    pub lca_title: Option<String>,
    pub lca_salary: Option<Money>,
    pub lca_code: Option<String>,
    pub receipt_number: Option<String>,
    pub h1b_start_date: Option<Date>,
    pub h1b_end_date: Option<Date>,
    pub h1b_status: H1bStatus,
}

/// Liveness: the service is up.
pub fn health_check() -> (r: HealthStatus)
    ensures
        r.status@ == "OK"@,
        r.message@ == "API is running"@,
{
    HealthStatus { status: "OK".to_owned(), message: "API is running".to_owned() }
}

/// The connectivity probe's answer, from whether the store could be
/// reached: the caller performs the probe and hands the outcome in.
pub fn test_connection(connected: bool) -> (r: Result<String, ServiceError>)
    ensures
        match r {
            Ok(m) => connected && m@ == "Database connected successfully"@,
            Err(e) => !connected && e == ServiceError::Store,
        },
{
    if connected {
        Ok("Database connected successfully".to_owned())
    } else {
        Err(ServiceError::Store)
    }
}

/// Create: validates the payload, persists the record it names, and answers
/// with the identifier and one affected row. A taken email is refused with
/// a conflict; a malformed payload never reaches the store.
pub fn create_visa_details(store: &mut CustomerStore, req: &CreateCompleteCustomerRequest) -> (r:
    Result<MutationResponse, ServiceError>)
    requires
        old(store).wf(),
    ensures
        final(store).wf(),
        match r {
            Ok(resp) => {
                &&& create_field_errors(*req).len() == 0
                &&& !has_email(old(store)@, validated_record(*req).email@)
                &&& final(store)@ == old(store)@.push(validated_record(*req))
                &&& resp.rows_affected == 1
                &&& resp.email@ == validated_record(*req).email@
                &&& resp.message@ == "Visa details created successfully"@
            },
            Err(e) => final(store)@ == old(store)@ && (match e {
                ServiceError::Validation(fields) => fields@.len() > 0 && fields@
                    == create_field_errors(*req),
                ServiceError::Conflict => create_field_errors(*req).len() == 0 && has_email(
                    old(store)@,
                    validated_record(*req).email@,
                ),
                _ => false,
            }),
        },
{
    match validate_create(req) {
        Err(fields) => Err(ServiceError::Validation(fields)),
        Ok(rec) => {
            let email = rec.email.clone();
            match store.create(rec) {
                Ok(_) => Ok(
                    MutationResponse {
                        message: "Visa details created successfully".to_owned(),
                        email,
                        rows_affected: 1,
                    },
                ),
                Err(e) => Err(e),
            }
        },
    }
}

/// GetAll, filtered to active records: what the customer listing route
/// serves.
pub fn get_all_customers_with_status(store: &CustomerStore) -> (out: Vec<CustomerRecord>)
    ensures
        out@ == active_records(store@),
{
    store.get_all(true)
}

/// GetAll, unfiltered: every record whatever its status.
pub fn get_all_customers(store: &CustomerStore) -> (out: Vec<CustomerRecord>)
    ensures
        out@ == store@,
{
    store.get_all(false)
}

/// GetByIdentifier: the record carrying `email`, or "not found" — never a
/// substitute body.
pub fn get_customer_by_email(store: &CustomerStore, email: &String) -> (r: Result<
    CustomerRecord,
    ServiceError,
>)
    requires
        store.wf(),
    ensures
        match r {
            Ok(rec) => has_email(store@, email@) && rec == store@[email_index(store@, email@)],
            Err(e) => e == ServiceError::NotFound && !has_email(store@, email@),
        },
{
    match store.get_by_email(email) {
        Some(rec) => Ok(rec),
        None => Err(ServiceError::NotFound),
    }
}

/// UpdateFull: merges the supplied fields into the record carrying `email`
/// and answers with one affected row. Refused with the offending fields
/// when the payload is malformed or the merge would disorder the validity
/// window; "not found" when no record matches.
pub fn update_customer_by_email(
    store: &mut CustomerStore,
    email: &String,
    req: &UpdateVisaDetailsRequest,
) -> (r: Result<MutationResponse, ServiceError>)
    requires
        old(store).wf(),
    ensures
        final(store).wf(),
        match r {
            Ok(resp) => {
                &&& update_field_errors(*req).len() == 0
                &&& has_email(old(store)@, email@)
                &&& window_ok(
                    spec_apply_patch(
                        old(store)@[email_index(old(store)@, email@)],
                        update_patch_of(*req),
                    ),
                )
                &&& final(store)@ == old(store)@.update(
                    email_index(old(store)@, email@),
                    spec_apply_patch(
                        old(store)@[email_index(old(store)@, email@)],
                        update_patch_of(*req),
                    ),
                )
                &&& resp.rows_affected == 1
                &&& resp.email@ == email@
                &&& resp.message@ == "Customer updated successfully"@
            },
            Err(e) => final(store)@ == old(store)@ && (match e {
                ServiceError::Validation(fields) => (update_field_errors(*req).len() > 0 && fields@
                    == update_field_errors(*req)) || (update_field_errors(*req).len() == 0
                    && has_email(old(store)@, email@) && !window_ok(
                    spec_apply_patch(
                        old(store)@[email_index(old(store)@, email@)],
                        update_patch_of(*req),
                    ),
                ) && fields@ == window_error_fields(update_patch_of(*req))),
                ServiceError::NotFound => update_field_errors(*req).len() == 0 && !has_email(
                    old(store)@,
                    email@,
                ),
                _ => false,
            }),
        },
{
    match validate_update(req) {
        Err(fields) => Err(ServiceError::Validation(fields)),
        Ok(p) => match store.update(email, &p) {
            Ok(_) => Ok(
                MutationResponse {
                    message: "Customer updated successfully".to_owned(),
                    email: email.clone(),
                    rows_affected: 1,
                },
            ),
            Err(e) => Err(e),
        },
    }
}

/// UpdateAddress: merges the supplied address fields into the record
/// carrying `email` and answers with the full updated address sub-view;
/// "not found" when no record matches. No address field can be malformed.
pub fn update_customer_address(
    store: &mut CustomerStore,
    email: &String,
    req: &UpdateAddressRequest,
) -> (r: Result<AddressDetails, ServiceError>)
    requires
        old(store).wf(),
    ensures
        final(store).wf(),
        match r {
            Ok(a) => {
                &&& has_email(old(store)@, email@)
                &&& final(store)@ == old(store)@.update(
                    email_index(old(store)@, email@),
                    spec_apply_patch(
                        old(store)@[email_index(old(store)@, email@)],
                        address_patch_of(*req),
                    ),
                )
                &&& a.street_name == spec_apply_patch(
                    old(store)@[email_index(old(store)@, email@)],
                    address_patch_of(*req),
                ).street_name
                &&& a.city == spec_apply_patch(
                    old(store)@[email_index(old(store)@, email@)],
                    address_patch_of(*req),
                ).city
                &&& a.state == spec_apply_patch(
                    old(store)@[email_index(old(store)@, email@)],
                    address_patch_of(*req),
                ).state
                &&& a.zip == spec_apply_patch(
                    old(store)@[email_index(old(store)@, email@)],
                    address_patch_of(*req),
                ).zip
            },
            Err(e) => e == ServiceError::NotFound && !has_email(old(store)@, email@)
                && final(store)@ == old(store)@,
        },
{
    let ghost s0 = store@;
    let p = address_patch(req);
    match store.update(email, &p) {
        Ok(rec) => Ok(
            AddressDetails {
                street_name: clone_opt_string(&rec.street_name),
                city: clone_opt_string(&rec.city),
                state: clone_opt_string(&rec.state),
                zip: clone_opt_string(&rec.zip),
            },
        ),
        Err(e) => match e {
            ServiceError::NotFound => Err(ServiceError::NotFound),
            _ => {
                proof {
                    let i = email_index(s0, email@);
                    assert(valid_record(s0[i]));
                }
                unreached()
            },
        },
    }
}

/// UpdateH1bDetails: merges the supplied employer / LCA / status fields
/// into the record carrying `email` and answers with the full updated H1B
/// sub-view. A supplied status replaces the stored one unconditionally.
/// Refused with the offending fields when the payload is malformed or the
/// merge would disorder the validity window; "not found" when no record
/// matches.
pub fn update_customer_h1b(
    store: &mut CustomerStore,
    email: &String,
    req: &UpdateH1bDetailsRequest,
) -> (r: Result<H1bDetails, ServiceError>)
    requires
        old(store).wf(),
    ensures
        final(store).wf(),
        match r {
            Ok(h) => {
                &&& h1b_field_errors(*req).len() == 0
                &&& has_email(old(store)@, email@)
                &&& window_ok(
                    spec_apply_patch(
                        old(store)@[email_index(old(store)@, email@)],
                        h1b_patch_of(*req),
                    ),
                )
                &&& final(store)@ == old(store)@.update(
                    email_index(old(store)@, email@),
                    spec_apply_patch(
                        old(store)@[email_index(old(store)@, email@)],
                        h1b_patch_of(*req),
                    ),
                )
                &&& h == h1b_view(
                    spec_apply_patch(
                        old(store)@[email_index(old(store)@, email@)],
                        h1b_patch_of(*req),
                    ),
                )
            },
            Err(e) => final(store)@ == old(store)@ && (match e {
                ServiceError::Validation(fields) => (h1b_field_errors(*req).len() > 0 && fields@
                    == h1b_field_errors(*req)) || (h1b_field_errors(*req).len() == 0 && has_email(
                    old(store)@,
                    email@,
                ) && !window_ok(
                    spec_apply_patch(
                        old(store)@[email_index(old(store)@, email@)],
                        h1b_patch_of(*req),
                    ),
                ) && fields@ == window_error_fields(h1b_patch_of(*req))),
                ServiceError::NotFound => h1b_field_errors(*req).len() == 0 && !has_email(
                    old(store)@,
                    email@,
                ),
                _ => false,
            }),
        },
{
    match validate_h1b_details(req) {
        Err(fields) => Err(ServiceError::Validation(fields)),
        Ok(p) => match store.update(email, &p) {
            Ok(rec) => Ok(
                H1bDetails {
                    client_name: clone_opt_string(&rec.client_name),
                    client_street_name: clone_opt_string(&rec.client_street_name),
                    client_city: clone_opt_string(&rec.client_city),
                    client_state: clone_opt_string(&rec.client_state),
                    client_zip: clone_opt_string(&rec.client_zip),
                    lca_title: clone_opt_string(&rec.lca_title),
                    lca_salary: rec.lca_salary,
                    lca_code: clone_opt_string(&rec.lca_code),
                    receipt_number: clone_opt_string(&rec.receipt_number),
                    h1b_start_date: rec.h1b_start_date,
                    h1b_end_date: rec.h1b_end_date,
                    h1b_status: rec.h1b_status,
                },
            ),
            Err(e) => Err(e),
        },
    }
}

/// The H1B sub-view of a record.
pub open spec fn h1b_view(r: CustomerRecord) -> H1bDetails {
    H1bDetails {
        client_name: r.client_name,
        client_street_name: r.client_street_name,
        client_city: r.client_city,
        client_state: r.client_state,
        client_zip: r.client_zip,
        lca_title: r.lca_title,
        lca_salary: r.lca_salary,
        lca_code: r.lca_code,
        receipt_number: r.receipt_number,
        h1b_start_date: r.h1b_start_date,
        h1b_end_date: r.h1b_end_date,
        h1b_status: r.h1b_status,
    }
}

/// SoftDelete: marks the active record carrying the payload's email
/// inactive, answering with one affected row; "not found" when no active
/// record matches — a record already inactive reports the same, the one
/// behaviour applied consistently.
pub fn soft_delete_customer(store: &mut CustomerStore, req: &SoftDeleteRequest) -> (r: Result<
    MutationResponse,
    ServiceError,
>)
    requires
        old(store).wf(),
    ensures
        final(store).wf(),
        match r {
            Ok(resp) => {
                &&& has_active_email(old(store)@, req.email@)
                &&& final(store)@ == old(store)@.update(
                    email_index(old(store)@, req.email@),
                    with_status(
                        old(store)@[email_index(old(store)@, req.email@)],
                        H1bStatus::Inactive,
                    ),
                )
                &&& resp.rows_affected == 1
                &&& resp.email@ == req.email@
                &&& resp.message@ == "Customer soft deleted successfully"@
            },
            Err(e) => e == ServiceError::NotFound && !has_active_email(old(store)@, req.email@)
                && final(store)@ == old(store)@,
        },
{
    match store.soft_delete(&req.email) {
        Ok(_) => Ok(
            MutationResponse {
                message: "Customer soft deleted successfully".to_owned(),
                email: req.email.clone(),
                rows_affected: 1,
            },
        ),
        Err(e) => Err(e),
    }
}

/// HardDelete: removes the record carrying `email` permanently, answering
/// with one affected row; "not found" when no row matched.
pub fn delete_customer(store: &mut CustomerStore, email: &String) -> (r: Result<
    MutationResponse,
    ServiceError,
>)
    requires
        old(store).wf(),
    ensures
        final(store).wf(),
        match r {
            Ok(resp) => {
                &&& has_email(old(store)@, email@)
                &&& final(store)@ == old(store)@.remove(email_index(old(store)@, email@))
                &&& resp.rows_affected == 1
                &&& resp.email@ == email@
                &&& resp.message@ == "Customer deleted successfully"@
            },
            Err(e) => e == ServiceError::NotFound && !has_email(old(store)@, email@)
                && final(store)@ == old(store)@,
        },
{
    match store.hard_delete(email) {
        Ok(_) => Ok(
            MutationResponse {
                message: "Customer deleted successfully".to_owned(),
                email: email.clone(),
                rows_affected: 1,
            },
        ),
        Err(e) => Err(e),
    }
}

} // verus!
