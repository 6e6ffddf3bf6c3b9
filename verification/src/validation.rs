//! Request validation: required-field presence, date and amount
//! parseability, membership of the enumerated sets, and the ordering of the
//! validity window. A violation names the offending fields and the store is
//! never reached.

use vstd::prelude::*;
use vstd::pervasive::unreached;
use crate::dates::{date_le, date_of_str, spec_date_le, valid_date_str, Date};
use crate::errors::FieldName;
use crate::models::{
    clone_opt_string, h1b_status_of_str, marital_of_str, parse_h1b_status, parse_marital_status,
    parse_sex, sex_of_str, valid_record, CustomerRecord, H1bStatus, MaritalStatus, Sex,
};
use crate::money::{money_cents_of, parse_money, valid_money_str, Money};
use crate::patch::{valid_patch, CustomerPatch};
use crate::requests::{
    CreateCompleteCustomerRequest, UpdateAddressRequest, UpdateH1bDetailsRequest,
    UpdateVisaDetailsRequest,
};

verus! {

/// A required string field is violated when absent or empty.
pub open spec fn missing_or_empty(o: Option<String>) -> bool {
    match o {
        None => true,
        Some(s) => s@.len() == 0,
    }
}

/// An updatable required string is violated when supplied empty.
pub open spec fn present_empty(o: Option<String>) -> bool {
    match o {
        None => false,
        Some(s) => s@.len() == 0,
    }
}

/// The date a supplied field names, when it parses.
pub open spec fn opt_date_of(o: Option<String>) -> Option<Date> {
    match o {
        None => None,
        Some(s) => if valid_date_str(s@) {
            Some(date_of_str(s@))
        } else {
            None
        },
    }
}

/// A supplied date field is violated when it does not parse.
pub open spec fn bad_opt_date(o: Option<String>) -> bool {
    match o {
        None => false,
        Some(s) => !valid_date_str(s@),
    }
}

/// The amount a supplied field names, when it parses.
pub open spec fn opt_money_of(o: Option<String>) -> Option<Money> {
    match o {
        None => None,
        Some(s) => if valid_money_str(s@) {
            Some(Money { cents: money_cents_of(s@) as u64 })
        } else {
            None
        },
    }
}

pub open spec fn bad_opt_money(o: Option<String>) -> bool {
    match o {
        None => false,
        Some(s) => !valid_money_str(s@),
    }
}

pub open spec fn opt_sex_of(o: Option<String>) -> Option<Sex> {
    match o {
        None => None,
        Some(s) => sex_of_str(s@),
    }
}

pub open spec fn opt_marital_of(o: Option<String>) -> Option<MaritalStatus> {
    match o {
        None => None,
        Some(s) => marital_of_str(s@),
    }
}

pub open spec fn opt_h1b_status_of(o: Option<String>) -> Option<H1bStatus> {
    match o {
        None => None,
        Some(s) => h1b_status_of_str(s@),
    }
}

/// Both window ends were supplied as valid dates, out of order.
pub open spec fn window_error(start: Option<String>, end: Option<String>) -> bool {
    opt_date_of(start) is Some && opt_date_of(end) is Some && !spec_date_le(
        opt_date_of(start)->0,
        opt_date_of(end)->0,
    )
}

fn check_missing_or_empty(o: &Option<String>) -> (bad: bool)
    ensures
        bad == missing_or_empty(*o),
{
    match o {
        None => true,
        Some(s) => s.unicode_len() == 0,
    }
}

fn check_present_empty(o: &Option<String>) -> (bad: bool)
    ensures
        bad == present_empty(*o),
{
    match o {
        None => false,
        Some(s) => s.unicode_len() == 0,
    }
}

fn parse_opt_date_field(o: &Option<String>) -> (r: Option<Date>)
    ensures
        r == opt_date_of(*o),
{
    match o {
        None => None,
        Some(s) => crate::dates::parse_date(s.as_str()),
    }
}

fn parse_opt_money_field(o: &Option<String>) -> (r: Option<Money>)
    ensures
        r == opt_money_of(*o),
{
    match o {
        None => None,
        Some(s) => parse_money(s.as_str()),
    }
}

fn parse_opt_sex_field(o: &Option<String>) -> (r: Option<Sex>)
    ensures
        r == opt_sex_of(*o),
{
    match o {
        None => None,
        Some(s) => parse_sex(s),
    }
}

fn parse_opt_marital_field(o: &Option<String>) -> (r: Option<MaritalStatus>)
    ensures
        r == opt_marital_of(*o),
{
    match o {
        None => None,
        Some(s) => parse_marital_status(s),
    }
}

fn parse_opt_status_field(o: &Option<String>) -> (r: Option<H1bStatus>)
    ensures
        r == opt_h1b_status_of(*o),
{
    match o {
        None => None,
        Some(s) => parse_h1b_status(s),
    }
}

fn required_string(o: &Option<String>) -> (r: String)
    requires
        o is Some,
    ensures
        r == o->0,
{
    match o {
        Some(s) => s.clone(),
        None => unreached(),
    }
}

fn check_window(start: &Option<Date>, end: &Option<Date>) -> (ordered: bool)
    ensures
        ordered == (match (*start, *end) {
            (Some(a), Some(b)) => spec_date_le(a, b),
            _ => true,
        }),
{
    match (start, end) {
        (Some(a), Some(b)) => date_le(a, b),
        _ => true,
    }
}

/// The offending fields of a create payload, in declaration order.
pub open spec fn create_field_errors(req: CreateCompleteCustomerRequest) -> Seq<FieldName> {
    let e0 = Seq::<FieldName>::empty();
    let e1 = if missing_or_empty(req.email) {
        e0.push(FieldName::Email)
    } else {
        e0
    };
    let e2 = if missing_or_empty(req.first_name) {
        e1.push(FieldName::FirstName)
    } else {
        e1
    };
    let e3 = if missing_or_empty(req.last_name) {
        e2.push(FieldName::LastName)
    } else {
        e2
    };
    let e4 = if missing_or_empty(req.phone) {
        e3.push(FieldName::Phone)
    } else {
        e3
    };
    let e5 = if opt_date_of(req.dob) is None {
        e4.push(FieldName::Dob)
    } else {
        e4
    };
    let e6 = if opt_sex_of(req.sex) is None {
        e5.push(FieldName::Sex)
    } else {
        e5
    };
    let e7 = if opt_marital_of(req.marital_status) is None {
        e6.push(FieldName::MaritalStatus)
    } else {
        e6
    };
    let e8 = if bad_opt_date(req.employment_start_date) {
        e7.push(FieldName::EmploymentStartDate)
    } else {
        e7
    };
    let e9 = if bad_opt_money(req.lca_salary) {
        e8.push(FieldName::LcaSalary)
    } else {
        e8
    };
    let e10 = if bad_opt_date(req.h1b_start_date) {
        e9.push(FieldName::H1bStartDate)
    } else {
        e9
    };
    let e11 = if bad_opt_date(req.h1b_end_date) || window_error(
        req.h1b_start_date,
        req.h1b_end_date,
    ) {
        e10.push(FieldName::H1bEndDate)
    } else {
        e10
    };
    if req.h1b_status is Some && opt_h1b_status_of(req.h1b_status) is None {
        e11.push(FieldName::H1bStatus)
    } else {
        e11
    }
}

/// The record a clean create payload names: parsed dates and amount, enum
/// members, optional fields carried over, and the status defaulted to
/// `Active` when absent.
pub open spec fn validated_record(req: CreateCompleteCustomerRequest) -> CustomerRecord {
    CustomerRecord {
        email: req.email->0,
        first_name: req.first_name->0,
        last_name: req.last_name->0,
        dob: opt_date_of(req.dob)->0,
        sex: opt_sex_of(req.sex)->0,
        marital_status: opt_marital_of(req.marital_status)->0,
        phone: req.phone->0,
        emergency_contact_name: req.emergency_contact_name,
        emergency_contact_phone: req.emergency_contact_phone,
        employment_start_date: opt_date_of(req.employment_start_date),
        street_name: req.street_name,
        city: req.city,
        state: req.state,
        zip: req.zip,
        client_name: req.client_name,
        client_street_name: req.client_street_name,
        client_city: req.client_city,
        client_state: req.client_state,
        client_zip: req.client_zip,
        lca_title: req.lca_title,
        lca_salary: opt_money_of(req.lca_salary),
        lca_code: req.lca_code,
        receipt_number: req.receipt_number,
        h1b_start_date: opt_date_of(req.h1b_start_date),
        h1b_end_date: opt_date_of(req.h1b_end_date),
        h1b_status: if opt_h1b_status_of(req.h1b_status) is Some {
            opt_h1b_status_of(req.h1b_status)->0
        } else {
            H1bStatus::Active
        },
    }
}

/// No field of the create payload offends.
pub open spec fn no_create_errors(req: CreateCompleteCustomerRequest) -> bool {
    &&& !missing_or_empty(req.email)
    &&& !missing_or_empty(req.first_name)
    &&& !missing_or_empty(req.last_name)
    &&& !missing_or_empty(req.phone)
    &&& opt_date_of(req.dob) is Some
    &&& opt_sex_of(req.sex) is Some
    &&& opt_marital_of(req.marital_status) is Some
    &&& !bad_opt_date(req.employment_start_date)
    &&& !bad_opt_money(req.lca_salary)
    &&& !bad_opt_date(req.h1b_start_date)
    &&& !bad_opt_date(req.h1b_end_date)
    &&& !window_error(req.h1b_start_date, req.h1b_end_date)
    &&& !(req.h1b_status is Some && opt_h1b_status_of(req.h1b_status) is None)
}

/// Collects the offending fields of a create payload, in declaration order.
#[verifier::rlimit(100)]
fn create_errors_vec(req: &CreateCompleteCustomerRequest) -> (fields: Vec<FieldName>)
    ensures
        fields@ == create_field_errors(*req),
        fields@.len() == 0 <==> no_create_errors(*req),
{
    let email_bad = check_missing_or_empty(&req.email);
    let first_name_bad = check_missing_or_empty(&req.first_name);
    let last_name_bad = check_missing_or_empty(&req.last_name);
    let phone_bad = check_missing_or_empty(&req.phone);
    let dob = parse_opt_date_field(&req.dob);
    let sex = parse_opt_sex_field(&req.sex);
    let marital = parse_opt_marital_field(&req.marital_status);
    let employment_start = parse_opt_date_field(&req.employment_start_date);
    let employment_bad = req.employment_start_date.is_some() && employment_start.is_none();
    let salary = parse_opt_money_field(&req.lca_salary);
    let salary_bad = req.lca_salary.is_some() && salary.is_none();
    let h1b_start = parse_opt_date_field(&req.h1b_start_date);
    let h1b_start_bad = req.h1b_start_date.is_some() && h1b_start.is_none();
    let h1b_end = parse_opt_date_field(&req.h1b_end_date);
    let h1b_end_bad = (req.h1b_end_date.is_some() && h1b_end.is_none()) || !check_window(
        &h1b_start,
        &h1b_end,
    );
    let status = parse_opt_status_field(&req.h1b_status);
    let status_bad = req.h1b_status.is_some() && status.is_none();

    let mut fields: Vec<FieldName> = Vec::new();
    if email_bad {
        fields.push(FieldName::Email);
    }
    if first_name_bad {
        fields.push(FieldName::FirstName);
    }
    if last_name_bad {
        fields.push(FieldName::LastName);
    }
    if phone_bad {
        fields.push(FieldName::Phone);
    }
    if dob.is_none() {
        fields.push(FieldName::Dob);
    }
    if sex.is_none() {
        fields.push(FieldName::Sex);
    }
    if marital.is_none() {
        fields.push(FieldName::MaritalStatus);
    }
    if employment_bad {
        fields.push(FieldName::EmploymentStartDate);
    }
    if salary_bad {
        fields.push(FieldName::LcaSalary);
    }
    if h1b_start_bad {
        fields.push(FieldName::H1bStartDate);
    }
    if h1b_end_bad {
        fields.push(FieldName::H1bEndDate);
    }
    if status_bad {
        fields.push(FieldName::H1bStatus);
    }
    proof {
        assert(fields@ =~= create_field_errors(*req));
    }
    fields
}

/// Validates a create payload: yields the record it names, or the offending
/// fields, and yields the record exactly when no field offends.
#[verifier::rlimit(100)]
pub fn validate_create(req: &CreateCompleteCustomerRequest) -> (r: Result<
    CustomerRecord,
    Vec<FieldName>,
>)
    ensures
        match r {
            Ok(rec) => create_field_errors(*req).len() == 0 && rec == validated_record(*req)
                && valid_record(rec),
            Err(fields) => fields@.len() > 0 && fields@ == create_field_errors(*req),
        },
{
    let fields = create_errors_vec(req);
    if fields.len() > 0 {
        return Err(fields);
    }
    let dob = parse_opt_date_field(&req.dob);
    let sex = parse_opt_sex_field(&req.sex);
    let marital = parse_opt_marital_field(&req.marital_status);
    let employment_start = parse_opt_date_field(&req.employment_start_date);
    let salary = parse_opt_money_field(&req.lca_salary);
    let h1b_start = parse_opt_date_field(&req.h1b_start_date);
    let h1b_end = parse_opt_date_field(&req.h1b_end_date);
    let status = parse_opt_status_field(&req.h1b_status);
    let rec = CustomerRecord {
        email: required_string(&req.email),
        first_name: required_string(&req.first_name),
        last_name: required_string(&req.last_name),
        dob: dob.unwrap(),
        sex: sex.unwrap(),
        marital_status: marital.unwrap(),
        phone: required_string(&req.phone),
        emergency_contact_name: clone_opt_string(&req.emergency_contact_name),
        emergency_contact_phone: clone_opt_string(&req.emergency_contact_phone),
        employment_start_date: employment_start,
        street_name: clone_opt_string(&req.street_name),
        city: clone_opt_string(&req.city),
        state: clone_opt_string(&req.state),
        zip: clone_opt_string(&req.zip),
        client_name: clone_opt_string(&req.client_name),
        client_street_name: clone_opt_string(&req.client_street_name),
        client_city: clone_opt_string(&req.client_city),
        client_state: clone_opt_string(&req.client_state),
        client_zip: clone_opt_string(&req.client_zip),
        lca_title: clone_opt_string(&req.lca_title),
        lca_salary: salary,
        lca_code: clone_opt_string(&req.lca_code),
        receipt_number: clone_opt_string(&req.receipt_number),
        h1b_start_date: h1b_start,
        h1b_end_date: h1b_end,
        h1b_status: match status {
            Some(v) => v,
            None => H1bStatus::Active,
        },
    };
    Ok(rec)
}

/// The offending fields of a generic merge-update payload, in declaration
/// order. The window cannot be judged here: it depends on the stored
/// record, and the store judges it at merge time.
pub open spec fn update_field_errors(req: UpdateVisaDetailsRequest) -> Seq<FieldName> {
    let e0 = Seq::<FieldName>::empty();
    let e1 = if present_empty(req.first_name) {
        e0.push(FieldName::FirstName)
    } else {
        e0
    };
    let e2 = if present_empty(req.last_name) {
        e1.push(FieldName::LastName)
    } else {
        e1
    };
    let e3 = if present_empty(req.phone) {
        e2.push(FieldName::Phone)
    } else {
        e2
    };
    let e4 = if bad_opt_date(req.dob) {
        e3.push(FieldName::Dob)
    } else {
        e3
    };
    let e5 = if req.sex is Some && opt_sex_of(req.sex) is None {
        e4.push(FieldName::Sex)
    } else {
        e4
    };
    let e6 = if req.marital_status is Some && opt_marital_of(req.marital_status) is None {
        e5.push(FieldName::MaritalStatus)
    } else {
        e5
    };
    let e7 = if bad_opt_date(req.employment_start_date) {
        e6.push(FieldName::EmploymentStartDate)
    } else {
        e6
    };
    let e8 = if bad_opt_money(req.lca_salary) {
        e7.push(FieldName::LcaSalary)
    } else {
        e7
    };
    let e9 = if bad_opt_date(req.h1b_start_date) {
        e8.push(FieldName::H1bStartDate)
    } else {
        e8
    };
    let e10 = if bad_opt_date(req.h1b_end_date) {
        e9.push(FieldName::H1bEndDate)
    } else {
        e9
    };
    if req.h1b_status is Some && opt_h1b_status_of(req.h1b_status) is None {
        e10.push(FieldName::H1bStatus)
    } else {
        e10
    }
}

/// The patch a clean merge-update payload names.
pub open spec fn update_patch_of(req: UpdateVisaDetailsRequest) -> CustomerPatch {
    CustomerPatch {
        first_name: req.first_name,
        last_name: req.last_name,
        dob: opt_date_of(req.dob),
        sex: opt_sex_of(req.sex),
        marital_status: opt_marital_of(req.marital_status),
        phone: req.phone,
        emergency_contact_name: req.emergency_contact_name,
        emergency_contact_phone: req.emergency_contact_phone,
        employment_start_date: opt_date_of(req.employment_start_date),
        street_name: req.street_name,
        city: req.city,
        state: req.state,
        zip: req.zip,
        client_name: req.client_name,
        client_street_name: req.client_street_name,
        client_city: req.client_city,
        client_state: req.client_state,
        client_zip: req.client_zip,
        lca_title: req.lca_title,
        lca_salary: opt_money_of(req.lca_salary),
        lca_code: req.lca_code,
        receipt_number: req.receipt_number,
        h1b_start_date: opt_date_of(req.h1b_start_date),
        h1b_end_date: opt_date_of(req.h1b_end_date),
        h1b_status: opt_h1b_status_of(req.h1b_status),
    }
}

/// No field of the generic merge-update payload offends.
pub open spec fn no_update_errors(req: UpdateVisaDetailsRequest) -> bool {
    &&& !present_empty(req.first_name)
    &&& !present_empty(req.last_name)
    &&& !present_empty(req.phone)
    &&& !bad_opt_date(req.dob)
    &&& !(req.sex is Some && opt_sex_of(req.sex) is None)
    &&& !(req.marital_status is Some && opt_marital_of(req.marital_status) is None)
    &&& !bad_opt_date(req.employment_start_date)
    &&& !bad_opt_money(req.lca_salary)
    &&& !bad_opt_date(req.h1b_start_date)
    &&& !bad_opt_date(req.h1b_end_date)
    &&& !(req.h1b_status is Some && opt_h1b_status_of(req.h1b_status) is None)
}

/// Collects the offending fields of a generic merge-update payload, in
/// declaration order.
#[verifier::rlimit(100)]
fn update_errors_vec(req: &UpdateVisaDetailsRequest) -> (fields: Vec<FieldName>)
    ensures
        fields@ == update_field_errors(*req),
        fields@.len() == 0 <==> no_update_errors(*req),
{
    let first_name_bad = check_present_empty(&req.first_name);
    let last_name_bad = check_present_empty(&req.last_name);
    let phone_bad = check_present_empty(&req.phone);
    let dob = parse_opt_date_field(&req.dob);
    let dob_bad = req.dob.is_some() && dob.is_none();
    let sex = parse_opt_sex_field(&req.sex);
    let sex_bad = req.sex.is_some() && sex.is_none();
    let marital = parse_opt_marital_field(&req.marital_status);
    let marital_bad = req.marital_status.is_some() && marital.is_none();
    let employment_start = parse_opt_date_field(&req.employment_start_date);
    let employment_bad = req.employment_start_date.is_some() && employment_start.is_none();
    let salary = parse_opt_money_field(&req.lca_salary);
    let salary_bad = req.lca_salary.is_some() && salary.is_none();
    let h1b_start = parse_opt_date_field(&req.h1b_start_date);
    let h1b_start_bad = req.h1b_start_date.is_some() && h1b_start.is_none();
    let h1b_end = parse_opt_date_field(&req.h1b_end_date);
    let h1b_end_bad = req.h1b_end_date.is_some() && h1b_end.is_none();
    let status = parse_opt_status_field(&req.h1b_status);
    let status_bad = req.h1b_status.is_some() && status.is_none();

    let mut fields: Vec<FieldName> = Vec::new();
    if first_name_bad {
        fields.push(FieldName::FirstName);
    }
    if last_name_bad {
        fields.push(FieldName::LastName);
    }
    if phone_bad {
        fields.push(FieldName::Phone);
    }
    if dob_bad {
        fields.push(FieldName::Dob);
    }
    if sex_bad {
        fields.push(FieldName::Sex);
    }
    if marital_bad {
        fields.push(FieldName::MaritalStatus);
    }
    if employment_bad {
        fields.push(FieldName::EmploymentStartDate);
    }
    if salary_bad {
        fields.push(FieldName::LcaSalary);
    }
    if h1b_start_bad {
        fields.push(FieldName::H1bStartDate);
    }
    if h1b_end_bad {
        fields.push(FieldName::H1bEndDate);
    }
    if status_bad {
        fields.push(FieldName::H1bStatus);
    }
    proof {
        assert(fields@ =~= update_field_errors(*req));
    }
    fields
}

/// Validates a generic merge-update payload: yields the patch it names, or
/// the offending fields, and yields the patch exactly when no field
/// offends.
#[verifier::rlimit(100)]
pub fn validate_update(req: &UpdateVisaDetailsRequest) -> (r: Result<CustomerPatch, Vec<FieldName>>)
    ensures
        match r {
            Ok(p) => update_field_errors(*req).len() == 0 && p == update_patch_of(*req)
                && valid_patch(p),
            Err(fields) => fields@.len() > 0 && fields@ == update_field_errors(*req),
        },
{
    let fields = update_errors_vec(req);
    if fields.len() > 0 {
        return Err(fields);
    }
    let dob = parse_opt_date_field(&req.dob);
    let sex = parse_opt_sex_field(&req.sex);
    let marital = parse_opt_marital_field(&req.marital_status);
    let employment_start = parse_opt_date_field(&req.employment_start_date);
    let salary = parse_opt_money_field(&req.lca_salary);
    let h1b_start = parse_opt_date_field(&req.h1b_start_date);
    let h1b_end = parse_opt_date_field(&req.h1b_end_date);
    let status = parse_opt_status_field(&req.h1b_status);
    Ok(
        CustomerPatch {
            first_name: clone_opt_string(&req.first_name),
            last_name: clone_opt_string(&req.last_name),
            dob,
            sex,
            marital_status: marital,
            phone: clone_opt_string(&req.phone),
            emergency_contact_name: clone_opt_string(&req.emergency_contact_name),
            emergency_contact_phone: clone_opt_string(&req.emergency_contact_phone),
            employment_start_date: employment_start,
            street_name: clone_opt_string(&req.street_name),
            city: clone_opt_string(&req.city),
            state: clone_opt_string(&req.state),
            zip: clone_opt_string(&req.zip),
            client_name: clone_opt_string(&req.client_name),
            client_street_name: clone_opt_string(&req.client_street_name),
            client_city: clone_opt_string(&req.client_city),
            client_state: clone_opt_string(&req.client_state),
            client_zip: clone_opt_string(&req.client_zip),
            lca_title: clone_opt_string(&req.lca_title),
            lca_salary: salary,
            lca_code: clone_opt_string(&req.lca_code),
            receipt_number: clone_opt_string(&req.receipt_number),
            h1b_start_date: h1b_start,
            h1b_end_date: h1b_end,
            h1b_status: status,
        },
    )
}

/// The patch an address-scoped payload names: only the four address fields,
/// none of which can offend.
pub open spec fn address_patch_of(req: UpdateAddressRequest) -> CustomerPatch {
    CustomerPatch {
        street_name: req.street_name,
        city: req.city,
        state: req.state,
        zip: req.zip,
        ..CustomerPatch::spec_empty()
    }
}

/// Turns an address-scoped payload into the patch it names.
pub fn address_patch(req: &UpdateAddressRequest) -> (p: CustomerPatch)
    ensures
        p == address_patch_of(*req),
        valid_patch(p),
{
    let mut p = CustomerPatch::empty();
    p.street_name = clone_opt_string(&req.street_name);
    p.city = clone_opt_string(&req.city);
    p.state = clone_opt_string(&req.state);
    p.zip = clone_opt_string(&req.zip);
    p
}

/// The offending fields of an employer / LCA / status payload, in
/// declaration order.
pub open spec fn h1b_field_errors(req: UpdateH1bDetailsRequest) -> Seq<FieldName> {
    let e0 = Seq::<FieldName>::empty();
    let e1 = if bad_opt_money(req.lca_salary) {
        e0.push(FieldName::LcaSalary)
    } else {
        e0
    };
    let e2 = if bad_opt_date(req.h1b_start_date) {
        e1.push(FieldName::H1bStartDate)
    } else {
        e1
    };
    let e3 = if bad_opt_date(req.h1b_end_date) {
        e2.push(FieldName::H1bEndDate)
    } else {
        e2
    };
    if req.h1b_status is Some && opt_h1b_status_of(req.h1b_status) is None {
        e3.push(FieldName::H1bStatus)
    } else {
        e3
    }
}

/// The patch a clean employer / LCA / status payload names.
pub open spec fn h1b_patch_of(req: UpdateH1bDetailsRequest) -> CustomerPatch {
    CustomerPatch {
        client_name: req.client_name,
        client_street_name: req.client_street_name,
        client_city: req.client_city,
        client_state: req.client_state,
        client_zip: req.client_zip,
        lca_title: req.lca_title,
        lca_salary: opt_money_of(req.lca_salary),
        lca_code: req.lca_code,
        receipt_number: req.receipt_number,
        h1b_start_date: opt_date_of(req.h1b_start_date),
        h1b_end_date: opt_date_of(req.h1b_end_date),
        h1b_status: opt_h1b_status_of(req.h1b_status),
        ..CustomerPatch::spec_empty()
    }
}

/// Validates an employer / LCA / status payload: yields the patch it names,
/// or the offending fields, and yields the patch exactly when no field
/// offends.
pub fn validate_h1b_details(req: &UpdateH1bDetailsRequest) -> (r: Result<
    CustomerPatch,
    Vec<FieldName>,
>)
    ensures
        match r {
            Ok(p) => h1b_field_errors(*req).len() == 0 && p == h1b_patch_of(*req) && valid_patch(
                p,
            ),
            Err(fields) => fields@.len() > 0 && fields@ == h1b_field_errors(*req),
        },
{
    let salary = parse_opt_money_field(&req.lca_salary);
    let salary_bad = req.lca_salary.is_some() && salary.is_none();
    let h1b_start = parse_opt_date_field(&req.h1b_start_date);
    let h1b_start_bad = req.h1b_start_date.is_some() && h1b_start.is_none();
    let h1b_end = parse_opt_date_field(&req.h1b_end_date);
    let h1b_end_bad = req.h1b_end_date.is_some() && h1b_end.is_none();
    let status = parse_opt_status_field(&req.h1b_status);
    let status_bad = req.h1b_status.is_some() && status.is_none();

    let mut fields: Vec<FieldName> = Vec::new();
    if salary_bad {
        fields.push(FieldName::LcaSalary);
    }
    if h1b_start_bad {
        fields.push(FieldName::H1bStartDate);
    }
    if h1b_end_bad {
        fields.push(FieldName::H1bEndDate);
    }
    if status_bad {
        fields.push(FieldName::H1bStatus);
    }
    proof {
        assert(fields@ =~= h1b_field_errors(*req));
    }
    if fields.len() > 0 {
        return Err(fields);
    }
    let mut p = CustomerPatch::empty();
    p.client_name = clone_opt_string(&req.client_name);
    p.client_street_name = clone_opt_string(&req.client_street_name);
    p.client_city = clone_opt_string(&req.client_city);
    p.client_state = clone_opt_string(&req.client_state);
    p.client_zip = clone_opt_string(&req.client_zip);
    p.lca_title = clone_opt_string(&req.lca_title);
    p.lca_salary = salary;
    p.lca_code = clone_opt_string(&req.lca_code);
    p.receipt_number = clone_opt_string(&req.receipt_number);
    p.h1b_start_date = h1b_start;
    p.h1b_end_date = h1b_end;
    p.h1b_status = status;
    Ok(p)
}

} // verus!
