//! The CRUD semantics through the service operations: create, read, the
//! three merge-updates, soft delete and hard delete, with the behaviours
//! the store promises of each.

use h1b_customer_service::dates::Date;
use h1b_customer_service::errors::{FieldName, ServiceError};
use h1b_customer_service::models::{H1bStatus, MaritalStatus, CustomerRecord, Sex};
use h1b_customer_service::requests::{
    CreateCompleteCustomerRequest, SoftDeleteRequest, UpdateAddressRequest,
    UpdateH1bDetailsRequest, UpdateVisaDetailsRequest,
};
use h1b_customer_service::service::{
    create_visa_details, delete_customer, get_all_customers, get_all_customers_with_status,
    get_customer_by_email, health_check, soft_delete_customer, test_connection,
    update_customer_address, update_customer_by_email, update_customer_h1b,
};
use h1b_customer_service::store::CustomerStore;

fn s(v: &str) -> Option<String> {
    Some(v.to_string())
}

/// The end-to-end create payload of the scenario tests.
fn full_request() -> CreateCompleteCustomerRequest {
    CreateCompleteCustomerRequest {
        email: s("a@b.com"),
        first_name: s("A"),
        last_name: s("B"),
        dob: s("1990-01-01"),
        sex: s("Male"),
        marital_status: s("Single"),
        phone: s("555-0100"),
        emergency_contact_name: None,
        emergency_contact_phone: None,
        employment_start_date: s("2024-01-01"),
        street_name: s("1 Main St"),
        city: s("Springfield"),
        state: s("IL"),
        zip: s("62701"),
        client_name: s("Acme Corp"),
        client_street_name: s("2 Oak Ave"),
        client_city: s("Springfield"),
        client_state: s("IL"),
        client_zip: s("62701"),
        lca_title: s("Engineer"),
        lca_salary: s("95000.00"),
        lca_code: s("I-200-12345"),
        receipt_number: s("EAC1234567890"),
        h1b_start_date: s("2024-02-01"),
        h1b_end_date: s("2027-02-01"),
        h1b_status: None,
    }
}

fn empty_update() -> UpdateVisaDetailsRequest {
    UpdateVisaDetailsRequest {
        first_name: None,
        last_name: None,
        dob: None,
        sex: None,
        marital_status: None,
        phone: None,
        emergency_contact_name: None,
        emergency_contact_phone: None,
        employment_start_date: None,
        street_name: None,
        city: None,
        state: None,
        zip: None,
        client_name: None,
        client_street_name: None,
        client_city: None,
        client_state: None,
        client_zip: None,
        lca_title: None,
        lca_salary: None,
        lca_code: None,
        receipt_number: None,
        h1b_start_date: None,
        h1b_end_date: None,
        h1b_status: None,
    }
}

fn empty_h1b_update() -> UpdateH1bDetailsRequest {
    UpdateH1bDetailsRequest {
        client_name: None,
        client_street_name: None,
        client_city: None,
        client_state: None,
        client_zip: None,
        lca_title: None,
        lca_salary: None,
        lca_code: None,
        receipt_number: None,
        h1b_start_date: None,
        h1b_end_date: None,
        h1b_status: None,
    }
}

fn assert_records_equal(a: &CustomerRecord, b: &CustomerRecord) {
    assert_eq!(a.email, b.email);
    assert_eq!(a.first_name, b.first_name);
    assert_eq!(a.last_name, b.last_name);
    assert_eq!(a.dob, b.dob);
    assert_eq!(a.sex, b.sex);
    assert_eq!(a.marital_status, b.marital_status);
    assert_eq!(a.phone, b.phone);
    assert_eq!(a.emergency_contact_name, b.emergency_contact_name);
    assert_eq!(a.emergency_contact_phone, b.emergency_contact_phone);
    assert_eq!(a.employment_start_date, b.employment_start_date);
    assert_eq!(a.street_name, b.street_name);
    assert_eq!(a.city, b.city);
    assert_eq!(a.state, b.state);
    assert_eq!(a.zip, b.zip);
    assert_eq!(a.client_name, b.client_name);
    assert_eq!(a.client_street_name, b.client_street_name);
    assert_eq!(a.client_city, b.client_city);
    assert_eq!(a.client_state, b.client_state);
    assert_eq!(a.client_zip, b.client_zip);
    assert_eq!(a.lca_title, b.lca_title);
    assert_eq!(a.lca_salary, b.lca_salary);
    assert_eq!(a.lca_code, b.lca_code);
    assert_eq!(a.receipt_number, b.receipt_number);
    assert_eq!(a.h1b_start_date, b.h1b_start_date);
    assert_eq!(a.h1b_end_date, b.h1b_end_date);
    assert_eq!(a.h1b_status, b.h1b_status);
}

#[test]
fn create_then_get_returns_the_record() {
    let mut store = CustomerStore::new();
    let resp = create_visa_details(&mut store, &full_request()).unwrap();
    assert_eq!(resp.email, "a@b.com");
    assert_eq!(resp.rows_affected, 1);
    assert_eq!(resp.message, "Visa details created successfully");

    let rec = get_customer_by_email(&store, &"a@b.com".to_string()).unwrap();
    assert_eq!(rec.email, "a@b.com");
    assert_eq!(rec.first_name, "A");
    assert_eq!(rec.last_name, "B");
    assert_eq!(rec.dob, Date { year: 1990, month: 1, day: 1 });
    assert_eq!(rec.sex, Sex::Male);
    assert_eq!(rec.marital_status, MaritalStatus::Single);
    assert_eq!(rec.phone, "555-0100");
    assert_eq!(rec.emergency_contact_name, None);
    assert_eq!(
        rec.employment_start_date,
        Some(Date { year: 2024, month: 1, day: 1 })
    );
    assert_eq!(rec.street_name.as_deref(), Some("1 Main St"));
    assert_eq!(rec.city.as_deref(), Some("Springfield"));
    assert_eq!(rec.state.as_deref(), Some("IL"));
    assert_eq!(rec.zip.as_deref(), Some("62701"));
    assert_eq!(rec.client_name.as_deref(), Some("Acme Corp"));
    assert_eq!(rec.client_street_name.as_deref(), Some("2 Oak Ave"));
    assert_eq!(rec.lca_title.as_deref(), Some("Engineer"));
    assert_eq!(rec.lca_salary.map(|m| m.cents), Some(9_500_000));
    assert_eq!(rec.lca_code.as_deref(), Some("I-200-12345"));
    assert_eq!(rec.receipt_number.as_deref(), Some("EAC1234567890"));
    assert_eq!(rec.h1b_start_date, Some(Date { year: 2024, month: 2, day: 1 }));
    assert_eq!(rec.h1b_end_date, Some(Date { year: 2027, month: 2, day: 1 }));
    // the status defaults to Active when the payload leaves it out
    assert_eq!(rec.h1b_status, H1bStatus::Active);
}

#[test]
fn duplicate_email_is_a_conflict_and_persists_nothing() {
    let mut store = CustomerStore::new();
    create_visa_details(&mut store, &full_request()).unwrap();
    let mut again = full_request();
    again.first_name = s("Somebody");
    again.phone = s("555-9999");
    let err = create_visa_details(&mut store, &again).unwrap_err();
    assert_eq!(err, ServiceError::Conflict);
    assert_eq!(get_all_customers(&store).len(), 1);
    // the stored record is still the first one
    let rec = get_customer_by_email(&store, &"a@b.com".to_string()).unwrap();
    assert_eq!(rec.first_name, "A");
}

#[test]
fn update_address_city_changes_only_city() {
    let mut store = CustomerStore::new();
    create_visa_details(&mut store, &full_request()).unwrap();
    let email = "a@b.com".to_string();
    let before = get_customer_by_email(&store, &email).unwrap();

    let patch = UpdateAddressRequest { street_name: None, city: s("X"), state: None, zip: None };
    let addr = update_customer_address(&mut store, &email, &patch).unwrap();
    assert_eq!(addr.city.as_deref(), Some("X"));
    assert_eq!(addr.street_name.as_deref(), Some("1 Main St"));
    assert_eq!(addr.state.as_deref(), Some("IL"));
    assert_eq!(addr.zip.as_deref(), Some("62701"));

    let mut expected = before;
    expected.city = s("X");
    let after = get_customer_by_email(&store, &email).unwrap();
    assert_records_equal(&after, &expected);
}

#[test]
fn soft_delete_hides_from_active_listing_but_keeps_the_row() {
    let mut store = CustomerStore::new();
    create_visa_details(&mut store, &full_request()).unwrap();
    let email = "a@b.com".to_string();
    let before = get_customer_by_email(&store, &email).unwrap();
    assert_eq!(get_all_customers_with_status(&store).len(), 1);

    let resp = soft_delete_customer(&mut store, &SoftDeleteRequest { email: email.clone() })
        .unwrap();
    assert_eq!(resp.rows_affected, 1);
    assert_eq!(resp.message, "Customer soft deleted successfully");

    assert_eq!(get_all_customers_with_status(&store).len(), 0);
    assert_eq!(get_all_customers(&store).len(), 1);

    let mut expected = before;
    expected.h1b_status = H1bStatus::Inactive;
    let after = get_customer_by_email(&store, &email).unwrap();
    assert_records_equal(&after, &expected);
}

#[test]
fn soft_delete_of_an_inactive_record_reports_not_found() {
    let mut store = CustomerStore::new();
    create_visa_details(&mut store, &full_request()).unwrap();
    let req = SoftDeleteRequest { email: "a@b.com".to_string() };
    soft_delete_customer(&mut store, &req).unwrap();
    let err = soft_delete_customer(&mut store, &req).unwrap_err();
    assert_eq!(err, ServiceError::NotFound);
    // the row itself is untouched by the refused call
    assert_eq!(get_all_customers(&store).len(), 1);
}

#[test]
fn hard_delete_removes_the_row_irrecoverably() {
    let mut store = CustomerStore::new();
    create_visa_details(&mut store, &full_request()).unwrap();
    let email = "a@b.com".to_string();
    let resp = delete_customer(&mut store, &email).unwrap();
    assert_eq!(resp.rows_affected, 1);
    assert_eq!(resp.message, "Customer deleted successfully");

    let err = get_customer_by_email(&store, &email).unwrap_err();
    assert_eq!(err, ServiceError::NotFound);
    assert_eq!(get_all_customers(&store).len(), 0);
    assert_eq!(delete_customer(&mut store, &email).unwrap_err(), ServiceError::NotFound);
}

#[test]
fn get_on_a_missing_identifier_signals_not_found() {
    let store = CustomerStore::new();
    let err = get_customer_by_email(&store, &"nobody@b.com".to_string()).unwrap_err();
    assert_eq!(err, ServiceError::NotFound);
}

#[test]
fn disjoint_h1b_updates_both_land() {
    let email = "a@b.com".to_string();

    let mut first = empty_h1b_update();
    first.lca_title = s("Engineer II");
    first.lca_salary = s("105000.00");
    let mut second = empty_h1b_update();
    second.receipt_number = s("WAC7654321098");
    second.client_city = s("Chicago");

    // one order
    let mut store_a = CustomerStore::new();
    create_visa_details(&mut store_a, &full_request()).unwrap();
    update_customer_h1b(&mut store_a, &email, &first).unwrap();
    update_customer_h1b(&mut store_a, &email, &second).unwrap();
    let rec_a = get_customer_by_email(&store_a, &email).unwrap();

    // the other order
    let mut store_b = CustomerStore::new();
    create_visa_details(&mut store_b, &full_request()).unwrap();
    update_customer_h1b(&mut store_b, &email, &second).unwrap();
    update_customer_h1b(&mut store_b, &email, &first).unwrap();
    let rec_b = get_customer_by_email(&store_b, &email).unwrap();

    // both changes are present, whichever ran first
    assert_eq!(rec_a.lca_title.as_deref(), Some("Engineer II"));
    assert_eq!(rec_a.lca_salary.map(|m| m.cents), Some(10_500_000));
    assert_eq!(rec_a.receipt_number.as_deref(), Some("WAC7654321098"));
    assert_eq!(rec_a.client_city.as_deref(), Some("Chicago"));
    assert_records_equal(&rec_a, &rec_b);
}

#[test]
fn update_full_merges_and_reports_one_row() {
    let mut store = CustomerStore::new();
    create_visa_details(&mut store, &full_request()).unwrap();
    let email = "a@b.com".to_string();
    let before = get_customer_by_email(&store, &email).unwrap();

    let mut patch = empty_update();
    patch.phone = s("555-0199");
    patch.marital_status = s("Married");
    let resp = update_customer_by_email(&mut store, &email, &patch).unwrap();
    assert_eq!(resp.rows_affected, 1);
    assert_eq!(resp.email, "a@b.com");
    assert_eq!(resp.message, "Customer updated successfully");

    let mut expected = before;
    expected.phone = "555-0199".to_string();
    expected.marital_status = MaritalStatus::Married;
    let after = get_customer_by_email(&store, &email).unwrap();
    assert_records_equal(&after, &expected);
}

#[test]
fn update_that_disorders_the_window_is_refused() {
    let mut store = CustomerStore::new();
    create_visa_details(&mut store, &full_request()).unwrap();
    let email = "a@b.com".to_string();
    let before = get_customer_by_email(&store, &email).unwrap();

    let mut patch = empty_h1b_update();
    patch.h1b_start_date = s("2028-01-01");
    let err = update_customer_h1b(&mut store, &email, &patch).unwrap_err();
    assert_eq!(err, ServiceError::Validation(vec![FieldName::H1bStartDate]));

    let after = get_customer_by_email(&store, &email).unwrap();
    assert_records_equal(&after, &before);
}

#[test]
fn update_on_a_missing_identifier_signals_not_found() {
    let mut store = CustomerStore::new();
    let mut patch = empty_update();
    patch.city = s("X");
    let err = update_customer_by_email(&mut store, &"nobody@b.com".to_string(), &patch)
        .unwrap_err();
    assert_eq!(err, ServiceError::NotFound);
    let addr = UpdateAddressRequest { street_name: None, city: s("X"), state: None, zip: None };
    let err = update_customer_address(&mut store, &"nobody@b.com".to_string(), &addr)
        .unwrap_err();
    assert_eq!(err, ServiceError::NotFound);
}

#[test]
fn end_to_end_scenario() {
    // POST /customers with the full payload, then GET /customers/a@b.com
    let mut store = CustomerStore::new();
    let resp = create_visa_details(&mut store, &full_request()).unwrap();
    assert_eq!(resp.rows_affected, 1);
    assert_eq!(resp.email, "a@b.com");

    let rec = get_customer_by_email(&store, &"a@b.com".to_string()).unwrap();
    assert_eq!(rec.email, "a@b.com");
    assert_eq!(rec.first_name, "A");
    assert_eq!(rec.last_name, "B");
    assert_eq!(rec.dob, Date { year: 1990, month: 1, day: 1 });
    assert_eq!(rec.lca_salary.map(|m| m.cents), Some(9_500_000));
    assert_eq!(rec.h1b_status, H1bStatus::Active);
}

#[test]
fn an_empty_store_lists_nothing() {
    let store = CustomerStore::new();
    assert_eq!(get_all_customers(&store).len(), 0);
    assert_eq!(get_all_customers_with_status(&store).len(), 0);
}

#[test]
fn updates_reach_soft_deleted_records() {
    // soft delete marks the row inactive; merge-updates still find it
    let mut store = CustomerStore::new();
    create_visa_details(&mut store, &full_request()).unwrap();
    let email = "a@b.com".to_string();
    soft_delete_customer(&mut store, &SoftDeleteRequest { email: email.clone() }).unwrap();

    let mut patch = empty_update();
    patch.h1b_status = s("Active");
    update_customer_by_email(&mut store, &email, &patch).unwrap();
    let rec = get_customer_by_email(&store, &email).unwrap();
    assert_eq!(rec.h1b_status, H1bStatus::Active);
    assert_eq!(get_all_customers_with_status(&store).len(), 1);
}

#[test]
fn hard_delete_frees_the_email_for_reuse() {
    let mut store = CustomerStore::new();
    create_visa_details(&mut store, &full_request()).unwrap();
    let email = "a@b.com".to_string();
    delete_customer(&mut store, &email).unwrap();

    let mut again = full_request();
    again.first_name = s("Fresh");
    create_visa_details(&mut store, &again).unwrap();
    let rec = get_customer_by_email(&store, &email).unwrap();
    assert_eq!(rec.first_name, "Fresh");
}

#[test]
fn health_and_connectivity_probes() {
    let h = health_check();
    assert_eq!(h.status, "OK");
    assert_eq!(h.message, "API is running");

    assert_eq!(
        test_connection(true).unwrap(),
        "Database connected successfully"
    );
    assert_eq!(test_connection(false).unwrap_err(), ServiceError::Store);
}
