//! Validation: which payloads are accepted, and which fields a refusal
//! names, in declaration order. Also the error taxonomy's status codes.

use h1b_customer_service::dates::Date;
use h1b_customer_service::errors::{error_kind, status_code, FieldName, ServiceError};
use h1b_customer_service::models::{H1bStatus, MaritalStatus, Sex};
use h1b_customer_service::requests::{
    CreateCompleteCustomerRequest, UpdateH1bDetailsRequest, UpdateVisaDetailsRequest,
};
use h1b_customer_service::validation::{validate_create, validate_h1b_details, validate_update};

fn s(v: &str) -> Option<String> {
    Some(v.to_string())
}

fn empty_create() -> CreateCompleteCustomerRequest {
    CreateCompleteCustomerRequest {
        email: None,
        first_name: None,
        last_name: None,
        dob: None,
        sex: None,
        marital_status: None,
        phone: None,
        emergency_contact_name: None,
        emergency_contact_phone: None,
        employment_start_date: None,
        street_name: None,
        city: None,
        state: None,
        zip: None,
        client_name: None,
        client_street_name: None,
        client_city: None,
        client_state: None,
        client_zip: None,
        lca_title: None,
        lca_salary: None,
        lca_code: None,
        receipt_number: None,
        h1b_start_date: None,
        h1b_end_date: None,
        h1b_status: None,
    }
}

fn minimal_create() -> CreateCompleteCustomerRequest {
    let mut req = empty_create();
    req.email = s("a@b.com");
    req.first_name = s("A");
    req.last_name = s("B");
    req.dob = s("1990-01-01");
    req.sex = s("Male");
    req.marital_status = s("Single");
    req.phone = s("555-0100");
    req
}

fn empty_update() -> UpdateVisaDetailsRequest {
    UpdateVisaDetailsRequest {
        first_name: None,
        last_name: None,
        dob: None,
        sex: None,
        marital_status: None,
        phone: None,
        emergency_contact_name: None,
        emergency_contact_phone: None,
        employment_start_date: None,
        street_name: None,
        city: None,
        state: None,
        zip: None,
        client_name: None,
        client_street_name: None,
        client_city: None,
        client_state: None,
        client_zip: None,
        lca_title: None,
        lca_salary: None,
        lca_code: None,
        receipt_number: None,
        h1b_start_date: None,
        h1b_end_date: None,
        h1b_status: None,
    }
}

fn empty_h1b() -> UpdateH1bDetailsRequest {
    UpdateH1bDetailsRequest {
        client_name: None,
        client_street_name: None,
        client_city: None,
        client_state: None,
        client_zip: None,
        lca_title: None,
        lca_salary: None,
        lca_code: None,
        receipt_number: None,
        h1b_start_date: None,
        h1b_end_date: None,
        h1b_status: None,
    }
}

#[test]
fn an_empty_payload_names_every_required_field() {
    let err = validate_create(&empty_create()).unwrap_err();
    assert_eq!(
        err,
        vec![
            FieldName::Email,
            FieldName::FirstName,
            FieldName::LastName,
            FieldName::Phone,
            FieldName::Dob,
            FieldName::Sex,
            FieldName::MaritalStatus,
        ]
    );
}

#[test]
fn an_empty_required_string_is_missing() {
    let mut req = minimal_create();
    req.email = s("");
    let err = validate_create(&req).unwrap_err();
    assert_eq!(err, vec![FieldName::Email]);
}

#[test]
fn a_minimal_payload_passes_with_defaults() {
    let rec = validate_create(&minimal_create()).unwrap();
    assert_eq!(rec.email, "a@b.com");
    assert_eq!(rec.dob, Date { year: 1990, month: 1, day: 1 });
    assert_eq!(rec.sex, Sex::Male);
    assert_eq!(rec.marital_status, MaritalStatus::Single);
    assert_eq!(rec.street_name, None);
    assert_eq!(rec.lca_salary, None);
    assert_eq!(rec.h1b_start_date, None);
    assert_eq!(rec.h1b_status, H1bStatus::Active);
}

#[test]
fn a_supplied_status_replaces_the_default() {
    let mut req = minimal_create();
    req.h1b_status = s("Pending");
    let rec = validate_create(&req).unwrap();
    assert_eq!(rec.h1b_status, H1bStatus::Pending);

    req.h1b_status = s("Bogus");
    let err = validate_create(&req).unwrap_err();
    assert_eq!(err, vec![FieldName::H1bStatus]);
}

#[test]
fn malformed_values_name_their_fields() {
    let mut req = minimal_create();
    req.dob = s("1990-13-01");
    req.lca_salary = s("12.345");
    req.employment_start_date = s("yesterday");
    let err = validate_create(&req).unwrap_err();
    assert_eq!(
        err,
        vec![
            FieldName::Dob,
            FieldName::EmploymentStartDate,
            FieldName::LcaSalary,
        ]
    );
}

#[test]
fn a_reversed_window_is_refused_on_create() {
    let mut req = minimal_create();
    req.h1b_start_date = s("2027-02-01");
    req.h1b_end_date = s("2024-02-01");
    let err = validate_create(&req).unwrap_err();
    assert_eq!(err, vec![FieldName::H1bEndDate]);

    // an equal window is in order
    req.h1b_start_date = s("2024-02-01");
    req.h1b_end_date = s("2024-02-01");
    assert!(validate_create(&req).is_ok());
}

#[test]
fn update_refuses_an_emptied_required_string() {
    let mut req = empty_update();
    req.first_name = s("");
    req.phone = s("");
    let err = validate_update(&req).unwrap_err();
    assert_eq!(err, vec![FieldName::FirstName, FieldName::Phone]);
}

#[test]
fn update_parses_the_supplied_fields() {
    let mut req = empty_update();
    req.dob = s("1991-06-30");
    req.sex = s("Female");
    req.lca_salary = s("120000");
    let p = validate_update(&req).unwrap();
    assert_eq!(p.dob, Some(Date { year: 1991, month: 6, day: 30 }));
    assert_eq!(p.sex, Some(Sex::Female));
    assert_eq!(p.lca_salary.map(|m| m.cents), Some(12_000_000));
    assert_eq!(p.first_name, None);
    assert_eq!(p.h1b_status, None);
}

#[test]
fn h1b_update_names_its_malformed_fields() {
    let mut req = empty_h1b();
    req.lca_salary = s("1e9");
    req.h1b_start_date = s("2024-2-1");
    req.h1b_status = s("Dormant");
    let err = validate_h1b_details(&req).unwrap_err();
    assert_eq!(
        err,
        vec![
            FieldName::LcaSalary,
            FieldName::H1bStartDate,
            FieldName::H1bStatus,
        ]
    );

    let mut good = empty_h1b();
    good.h1b_status = s("Revoked");
    let p = validate_h1b_details(&good).unwrap();
    assert_eq!(p.h1b_status, Some(H1bStatus::Revoked));
}

#[test]
fn error_kinds_map_to_their_status_codes() {
    assert_eq!(status_code(&ServiceError::Validation(vec![FieldName::Email])), 400);
    assert_eq!(status_code(&ServiceError::NotFound), 404);
    assert_eq!(status_code(&ServiceError::Conflict), 409);
    assert_eq!(status_code(&ServiceError::Store), 500);

    assert_eq!(error_kind(&ServiceError::Validation(vec![])), "ValidationError");
    assert_eq!(error_kind(&ServiceError::NotFound), "NotFound");
    assert_eq!(error_kind(&ServiceError::Conflict), "ConflictError");
    assert_eq!(error_kind(&ServiceError::Store), "StoreError");
}
