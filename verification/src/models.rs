//! The customer record: the sole entity of the service, with its enumerated
//! status fields and its well-formedness rules.

use vstd::prelude::*;
use crate::dates::{spec_date_le, valid_date, Date};
use crate::money::Money;

verus! {

#[derive(Clone, Copy, PartialEq, Eq, Structural, Debug)]
pub enum Sex {
    Male,
    Female,
    Other,
}

#[derive(Clone, Copy, PartialEq, Eq, Structural, Debug)]
pub enum MaritalStatus {
    Single,
    Married,
    Divorced,
    Widowed,
}

/// The sponsorship lifecycle state. `Inactive` is the soft-delete marker,
/// modelled as a first-class status value.
#[derive(Clone, Copy, PartialEq, Eq, Structural, Debug)]
pub enum H1bStatus {
    Pending,
    Active,
    Expired,
    Revoked,
    Inactive,
}

pub open spec fn sex_of_str(s: Seq<char>) -> Option<Sex> {
    if s == "Male"@ {
        Some(Sex::Male)
    } else if s == "Female"@ {
        Some(Sex::Female)
    } else if s == "Other"@ {
        Some(Sex::Other)
    } else {
        None
    }
}

pub open spec fn sex_str(x: Sex) -> Seq<char> {
    match x {
        Sex::Male => "Male"@,
        Sex::Female => "Female"@,
        Sex::Other => "Other"@,
    }
}

pub open spec fn marital_of_str(s: Seq<char>) -> Option<MaritalStatus> {
    if s == "Single"@ {
        Some(MaritalStatus::Single)
    } else if s == "Married"@ {
        Some(MaritalStatus::Married)
    } else if s == "Divorced"@ {
        Some(MaritalStatus::Divorced)
    } else if s == "Widowed"@ {
        Some(MaritalStatus::Widowed)
    } else {
        None
    }
}

pub open spec fn marital_str(x: MaritalStatus) -> Seq<char> {
    match x {
        MaritalStatus::Single => "Single"@,
        MaritalStatus::Married => "Married"@,
        MaritalStatus::Divorced => "Divorced"@,
        MaritalStatus::Widowed => "Widowed"@,
    }
}

pub open spec fn h1b_status_of_str(s: Seq<char>) -> Option<H1bStatus> {
    if s == "Pending"@ {
        Some(H1bStatus::Pending)
    } else if s == "Active"@ {
        Some(H1bStatus::Active)
    } else if s == "Expired"@ {
        Some(H1bStatus::Expired)
    } else if s == "Revoked"@ {
        Some(H1bStatus::Revoked)
    } else if s == "Inactive"@ {
        Some(H1bStatus::Inactive)
    } else {
        None
    }
}

pub open spec fn h1b_status_str(x: H1bStatus) -> Seq<char> {
    match x {
        H1bStatus::Pending => "Pending"@,
        H1bStatus::Active => "Active"@,
        H1bStatus::Expired => "Expired"@,
        H1bStatus::Revoked => "Revoked"@,
        H1bStatus::Inactive => "Inactive"@,
    }
}

/// Reads a sex value; accepts exactly the members of the closed set.
pub fn parse_sex(s: &String) -> (r: Option<Sex>)
    ensures
        r == sex_of_str(s@),
{
    if *s == "Male".to_owned() {
        Some(Sex::Male)
    } else if *s == "Female".to_owned() {
        Some(Sex::Female)
    } else if *s == "Other".to_owned() {
        Some(Sex::Other)
    } else {
        None
    }
}

pub fn sex_to_string(x: &Sex) -> (r: String)
    ensures
        r@ == sex_str(*x),
{
    match x {
        Sex::Male => "Male".to_owned(),
        Sex::Female => "Female".to_owned(),
        Sex::Other => "Other".to_owned(),
    }
}

/// Reads a marital status; accepts exactly the members of the closed set.
pub fn parse_marital_status(s: &String) -> (r: Option<MaritalStatus>)
    ensures
        r == marital_of_str(s@),
{
    if *s == "Single".to_owned() {
        Some(MaritalStatus::Single)
    } else if *s == "Married".to_owned() {
        Some(MaritalStatus::Married)
    } else if *s == "Divorced".to_owned() {
        Some(MaritalStatus::Divorced)
    } else if *s == "Widowed".to_owned() {
        Some(MaritalStatus::Widowed)
    } else {
        None
    }
}

pub fn marital_status_to_string(x: &MaritalStatus) -> (r: String)
    ensures
        r@ == marital_str(*x),
{
    match x {
        MaritalStatus::Single => "Single".to_owned(),
        MaritalStatus::Married => "Married".to_owned(),
        MaritalStatus::Divorced => "Divorced".to_owned(),
        MaritalStatus::Widowed => "Widowed".to_owned(),
    }
}

/// Reads an H1B status; accepts exactly the members of the closed set.
pub fn parse_h1b_status(s: &String) -> (r: Option<H1bStatus>)
    ensures
        r == h1b_status_of_str(s@),
{
    if *s == "Pending".to_owned() {
        Some(H1bStatus::Pending)
    } else if *s == "Active".to_owned() {
        Some(H1bStatus::Active)
    } else if *s == "Expired".to_owned() {
        Some(H1bStatus::Expired)
    } else if *s == "Revoked".to_owned() {
        Some(H1bStatus::Revoked)
    } else if *s == "Inactive".to_owned() {
        Some(H1bStatus::Inactive)
    } else {
        None
    }
}

pub fn h1b_status_to_string(x: &H1bStatus) -> (r: String)
    ensures
        r@ == h1b_status_str(*x),
{
    match x {
        H1bStatus::Pending => "Pending".to_owned(),
        H1bStatus::Active => "Active".to_owned(),
        H1bStatus::Expired => "Expired".to_owned(),
        H1bStatus::Revoked => "Revoked".to_owned(),
        H1bStatus::Inactive => "Inactive".to_owned(),
    }
}

/// One customer row. `email` is the natural key: the store keeps it unique
/// and every read and write names a record by it.
#[derive(Debug)]
pub struct CustomerRecord {
    pub email: String,
    pub first_name: String,
    pub last_name: String,
    pub dob: Date,
    pub sex: Sex,
    pub marital_status: MaritalStatus,
    pub phone: String,
    pub emergency_contact_name: Option<String>,
    pub emergency_contact_phone: Option<String>,
    pub employment_start_date: Option<Date>,
    pub street_name: Option<String>,
    pub city: Option<String>,
    pub state: Option<String>,
    pub zip: Option<String>,
    pub client_name: Option<String>,
    pub client_street_name: Option<String>,
    pub client_city: Option<String>,
    pub client_state: Option<String>,
    pub client_zip: Option<String>,
    pub lca_title: Option<String>,
    pub lca_salary: Option<Money>,
    pub lca_code: Option<String>,
    pub receipt_number: Option<String>,
    pub h1b_start_date: Option<Date>,
    pub h1b_end_date: Option<Date>,
    pub h1b_status: H1bStatus,
}

/// The validity window is ordered whenever both of its ends are present.
pub open spec fn window_ok(r: CustomerRecord) -> bool {
    r.h1b_start_date is Some && r.h1b_end_date is Some ==> spec_date_le(
        r.h1b_start_date->0,
        r.h1b_end_date->0,
    )
}

/// What every stored record satisfies: required strings non-empty, every
/// date a real calendar date, and the validity window ordered.
pub open spec fn valid_record(r: CustomerRecord) -> bool {
    &&& r.email@.len() > 0
    &&& r.first_name@.len() > 0
    &&& r.last_name@.len() > 0
    &&& r.phone@.len() > 0
    &&& valid_date(r.dob)
    &&& (r.employment_start_date is Some ==> valid_date(r.employment_start_date->0))
    &&& (r.h1b_start_date is Some ==> valid_date(r.h1b_start_date->0))
    &&& (r.h1b_end_date is Some ==> valid_date(r.h1b_end_date->0))
    &&& window_ok(r)
}

/// The record with its status replaced and every other field retained.
pub open spec fn with_status(r: CustomerRecord, st: H1bStatus) -> CustomerRecord {
    CustomerRecord { h1b_status: st, ..r }
}

pub(crate) fn clone_opt_string(o: &Option<String>) -> (r: Option<String>)
    ensures
        r == *o,
{
    match o {
        Some(s) => Some(s.clone()),
        None => None,
    }
}

impl Clone for CustomerRecord {
    fn clone(&self) -> (r: Self)
        ensures
            r == *self,
    {
        CustomerRecord {
            email: self.email.clone(),
            first_name: self.first_name.clone(),
            last_name: self.last_name.clone(),
            dob: self.dob,
            sex: self.sex,
            marital_status: self.marital_status,
            phone: self.phone.clone(),
            emergency_contact_name: clone_opt_string(&self.emergency_contact_name),
            emergency_contact_phone: clone_opt_string(&self.emergency_contact_phone),
            employment_start_date: self.employment_start_date,
            street_name: clone_opt_string(&self.street_name),
            city: clone_opt_string(&self.city),
            state: clone_opt_string(&self.state),
            zip: clone_opt_string(&self.zip),
            client_name: clone_opt_string(&self.client_name),
            client_street_name: clone_opt_string(&self.client_street_name),
            client_city: clone_opt_string(&self.client_city),
            client_state: clone_opt_string(&self.client_state),
            client_zip: clone_opt_string(&self.client_zip),
            lca_title: clone_opt_string(&self.lca_title),
            lca_salary: self.lca_salary,
            lca_code: clone_opt_string(&self.lca_code),
            receipt_number: clone_opt_string(&self.receipt_number),
            h1b_start_date: self.h1b_start_date,
            h1b_end_date: self.h1b_end_date,
            h1b_status: self.h1b_status,
        }
    }
}

} // verus!
