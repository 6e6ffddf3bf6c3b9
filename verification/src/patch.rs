//! Merge-on-update: a patch carries only the fields the caller supplied, and
//! applying it overwrites exactly those fields, keeping every other stored
//! value. The identifier, `email`, is not patchable.

use vstd::prelude::*;
use crate::dates::{valid_date, Date};
use crate::models::{CustomerRecord, H1bStatus, MaritalStatus, Sex};
use crate::money::Money;

verus! {

/// A validated partial update: a field is overwritten exactly when it is
/// `Some` here. Absent fields keep their stored value; there is no way to
/// clear a field.
#[derive(Debug)]
pub struct CustomerPatch {
    pub first_name: Option<String>,
    pub last_name: Option<String>,
    pub dob: Option<Date>,
    pub sex: Option<Sex>,
    pub marital_status: Option<MaritalStatus>,
    pub phone: Option<String>,
    pub emergency_contact_name: Option<String>,
    pub emergency_contact_phone: Option<String>,
    pub employment_start_date: Option<Date>,
    pub street_name: Option<String>,
    pub city: Option<String>,
    pub state: Option<String>,
    pub zip: Option<String>,
    pub client_name: Option<String>,
    pub client_street_name: Option<String>,
    pub client_city: Option<String>,
    pub client_state: Option<String>,
    pub client_zip: Option<String>,
    pub lca_title: Option<String>,
    pub lca_salary: Option<Money>,
    pub lca_code: Option<String>,
    pub receipt_number: Option<String>,
    pub h1b_start_date: Option<Date>,
    pub h1b_end_date: Option<Date>,
    pub h1b_status: Option<H1bStatus>,
}

impl CustomerPatch {
    /// The patch that changes nothing.
    pub fn empty() -> (r: CustomerPatch)
        ensures
            r == CustomerPatch::spec_empty(),
    {
        CustomerPatch {
            first_name: None,
            last_name: None,
            dob: None,
            sex: None,
            marital_status: None,
            phone: None,
            emergency_contact_name: None,
            emergency_contact_phone: None,
            employment_start_date: None,
            street_name: None,
            city: None,
            state: None,
            zip: None,
            client_name: None,
            client_street_name: None,
            client_city: None,
            client_state: None,
            client_zip: None,
            lca_title: None,
            lca_salary: None,
            lca_code: None,
            receipt_number: None,
            h1b_start_date: None,
            h1b_end_date: None,
            h1b_status: None,
        }
    }

    pub open spec fn spec_empty() -> CustomerPatch {
        CustomerPatch {
            first_name: None,
            last_name: None,
            dob: None,
            sex: None,
            marital_status: None,
            phone: None,
            emergency_contact_name: None,
            emergency_contact_phone: None,
            employment_start_date: None,
            street_name: None,
            city: None,
            state: None,
            zip: None,
            client_name: None,
            client_street_name: None,
            client_city: None,
            client_state: None,
            client_zip: None,
            lca_title: None,
            lca_salary: None,
            lca_code: None,
            receipt_number: None,
            h1b_start_date: None,
            h1b_end_date: None,
            h1b_status: None,
        }
    }
}

/// What validation guarantees of every patch the store is handed: supplied
/// name and phone values are non-empty and supplied dates are real dates.
pub open spec fn valid_patch(p: CustomerPatch) -> bool {
    &&& (p.first_name matches Some(s) ==> s@.len() > 0)
    &&& (p.last_name matches Some(s) ==> s@.len() > 0)
    &&& (p.phone matches Some(s) ==> s@.len() > 0)
    &&& (p.dob matches Some(d) ==> valid_date(d))
    &&& (p.employment_start_date matches Some(d) ==> valid_date(d))
    &&& (p.h1b_start_date matches Some(d) ==> valid_date(d))
    &&& (p.h1b_end_date matches Some(d) ==> valid_date(d))
}

/// The merge: each field of the patch that is present replaces the stored
/// value; every absent field retains it. `email` is never touched.
pub open spec fn spec_apply_patch(r: CustomerRecord, p: CustomerPatch) -> CustomerRecord {
    CustomerRecord {
        email: r.email,
        first_name: if p.first_name is Some {
            p.first_name->0
        } else {
            r.first_name
        },
        last_name: if p.last_name is Some {
            p.last_name->0
        } else {
            r.last_name
        },
        dob: if p.dob is Some {
            p.dob->0
        } else {
            r.dob
        },
        sex: if p.sex is Some {
            p.sex->0
        } else {
            r.sex
        },
        marital_status: if p.marital_status is Some {
            p.marital_status->0
        } else {
            r.marital_status
        },
        phone: if p.phone is Some {
            p.phone->0
        } else {
            r.phone
        },
        emergency_contact_name: if p.emergency_contact_name is Some {
            p.emergency_contact_name
        } else {
            r.emergency_contact_name
        },
        emergency_contact_phone: if p.emergency_contact_phone is Some {
            p.emergency_contact_phone
        } else {
            r.emergency_contact_phone
        },
        employment_start_date: if p.employment_start_date is Some {
            p.employment_start_date
        } else {
            r.employment_start_date
        },
        street_name: if p.street_name is Some {
            p.street_name
        } else {
            r.street_name
        },
        city: if p.city is Some {
            p.city
        } else {
            r.city
        },
        state: if p.state is Some {
            p.state
        } else {
            r.state
        },
        zip: if p.zip is Some {
            p.zip
        } else {
            r.zip
        },
        client_name: if p.client_name is Some {
            p.client_name
        } else {
            r.client_name
        },
        client_street_name: if p.client_street_name is Some {
            p.client_street_name
        } else {
            r.client_street_name
        },
        client_city: if p.client_city is Some {
            p.client_city
        } else {
            r.client_city
        },
        client_state: if p.client_state is Some {
            p.client_state
        } else {
            r.client_state
        },
        client_zip: if p.client_zip is Some {
            p.client_zip
        } else {
            r.client_zip
        },
        lca_title: if p.lca_title is Some {
            p.lca_title
        } else {
            r.lca_title
        },
        lca_salary: if p.lca_salary is Some {
            p.lca_salary
        } else {
            r.lca_salary
        },
        lca_code: if p.lca_code is Some {
            p.lca_code
        } else {
            r.lca_code
        },
        receipt_number: if p.receipt_number is Some {
            p.receipt_number
        } else {
            r.receipt_number
        },
        h1b_start_date: if p.h1b_start_date is Some {
            p.h1b_start_date
        } else {
            r.h1b_start_date
        },
        h1b_end_date: if p.h1b_end_date is Some {
            p.h1b_end_date
        } else {
            r.h1b_end_date
        },
        h1b_status: if p.h1b_status is Some {
            p.h1b_status->0
        } else {
            r.h1b_status
        },
    }
}

fn pick_string(provided: &Option<String>, current: &String) -> (r: String)
    ensures
        r == (if provided is Some {
            provided->0
        } else {
            *current
        }),
{
    match provided {
        Some(s) => s.clone(),
        None => current.clone(),
    }
}

fn pick_opt_string(provided: &Option<String>, current: &Option<String>) -> (r: Option<String>)
    ensures
        r == (if provided is Some {
            *provided
        } else {
            *current
        }),
{
    match provided {
        Some(s) => Some(s.clone()),
        None => match current {
            Some(s) => Some(s.clone()),
            None => None,
        },
    }
}

/// Merges a patch into a record, as `spec_apply_patch` states.
pub fn apply_patch(r: &CustomerRecord, p: &CustomerPatch) -> (merged: CustomerRecord)
    ensures
        merged == spec_apply_patch(*r, *p),
{
    CustomerRecord {
        email: r.email.clone(),
        first_name: pick_string(&p.first_name, &r.first_name),
        last_name: pick_string(&p.last_name, &r.last_name),
        dob: match p.dob {
            Some(d) => d,
            None => r.dob,
        },
        sex: match p.sex {
            Some(v) => v,
            None => r.sex,
        },
        marital_status: match p.marital_status {
            Some(v) => v,
            None => r.marital_status,
        },
        phone: pick_string(&p.phone, &r.phone),
        emergency_contact_name: pick_opt_string(
            &p.emergency_contact_name,
            &r.emergency_contact_name,
        ),
        emergency_contact_phone: pick_opt_string(
            &p.emergency_contact_phone,
            &r.emergency_contact_phone,
        ),
        employment_start_date: match p.employment_start_date {
            Some(d) => Some(d),
            None => r.employment_start_date,
        },
        street_name: pick_opt_string(&p.street_name, &r.street_name),
        city: pick_opt_string(&p.city, &r.city),
        state: pick_opt_string(&p.state, &r.state),
        zip: pick_opt_string(&p.zip, &r.zip),
        client_name: pick_opt_string(&p.client_name, &r.client_name),
        client_street_name: pick_opt_string(&p.client_street_name, &r.client_street_name),
        client_city: pick_opt_string(&p.client_city, &r.client_city),
        client_state: pick_opt_string(&p.client_state, &r.client_state),
        client_zip: pick_opt_string(&p.client_zip, &r.client_zip),
        lca_title: pick_opt_string(&p.lca_title, &r.lca_title),
        lca_salary: match p.lca_salary {
            Some(m) => Some(m),
            None => r.lca_salary,
        },
        lca_code: pick_opt_string(&p.lca_code, &r.lca_code),
        receipt_number: pick_opt_string(&p.receipt_number, &r.receipt_number),
        h1b_start_date: match p.h1b_start_date {
            Some(d) => Some(d),
            None => r.h1b_start_date,
        },
        h1b_end_date: match p.h1b_end_date {
            Some(d) => Some(d),
            None => r.h1b_end_date,
        },
        h1b_status: match p.h1b_status {
            Some(v) => v,
            None => r.h1b_status,
        },
    }
}

/// No field is supplied by both patches.
pub open spec fn disjoint_patches(p1: CustomerPatch, p2: CustomerPatch) -> bool {
    &&& !(p1.first_name is Some && p2.first_name is Some)
    &&& !(p1.last_name is Some && p2.last_name is Some)
    &&& !(p1.dob is Some && p2.dob is Some)
    &&& !(p1.sex is Some && p2.sex is Some)
    &&& !(p1.marital_status is Some && p2.marital_status is Some)
    &&& !(p1.phone is Some && p2.phone is Some)
    &&& !(p1.emergency_contact_name is Some && p2.emergency_contact_name is Some)
    &&& !(p1.emergency_contact_phone is Some && p2.emergency_contact_phone is Some)
    &&& !(p1.employment_start_date is Some && p2.employment_start_date is Some)
    &&& !(p1.street_name is Some && p2.street_name is Some)
    &&& !(p1.city is Some && p2.city is Some)
    &&& !(p1.state is Some && p2.state is Some)
    &&& !(p1.zip is Some && p2.zip is Some)
    &&& !(p1.client_name is Some && p2.client_name is Some)
    &&& !(p1.client_street_name is Some && p2.client_street_name is Some)
    &&& !(p1.client_city is Some && p2.client_city is Some)
    &&& !(p1.client_state is Some && p2.client_state is Some)
    &&& !(p1.client_zip is Some && p2.client_zip is Some)
    &&& !(p1.lca_title is Some && p2.lca_title is Some)
    &&& !(p1.lca_salary is Some && p2.lca_salary is Some)
    &&& !(p1.lca_code is Some && p2.lca_code is Some)
    &&& !(p1.receipt_number is Some && p2.receipt_number is Some)
    &&& !(p1.h1b_start_date is Some && p2.h1b_start_date is Some)
    &&& !(p1.h1b_end_date is Some && p2.h1b_end_date is Some)
    &&& !(p1.h1b_status is Some && p2.h1b_status is Some)
}

/// A merge changes exactly the supplied fields: each field present in the
/// patch takes the supplied value, each absent field keeps the stored one,
/// and the identifier is never touched.
pub proof fn lemma_patch_changes_only_supplied(r: CustomerRecord, p: CustomerPatch)
    ensures
        spec_apply_patch(r, p).email == r.email,
        p.first_name is None ==> spec_apply_patch(r, p).first_name == r.first_name,
        p.first_name is Some ==> spec_apply_patch(r, p).first_name == p.first_name->0,
        p.last_name is None ==> spec_apply_patch(r, p).last_name == r.last_name,
        p.last_name is Some ==> spec_apply_patch(r, p).last_name == p.last_name->0,
        p.dob is None ==> spec_apply_patch(r, p).dob == r.dob,
        p.dob is Some ==> spec_apply_patch(r, p).dob == p.dob->0,
        p.sex is None ==> spec_apply_patch(r, p).sex == r.sex,
        p.sex is Some ==> spec_apply_patch(r, p).sex == p.sex->0,
        p.marital_status is None ==> spec_apply_patch(r, p).marital_status == r.marital_status,
        p.marital_status is Some ==> spec_apply_patch(r, p).marital_status == p.marital_status->0,
        p.phone is None ==> spec_apply_patch(r, p).phone == r.phone,
        p.phone is Some ==> spec_apply_patch(r, p).phone == p.phone->0,
        p.emergency_contact_name is None ==> spec_apply_patch(r, p).emergency_contact_name
            == r.emergency_contact_name,
        p.emergency_contact_name is Some ==> spec_apply_patch(r, p).emergency_contact_name
            == p.emergency_contact_name,
        p.emergency_contact_phone is None ==> spec_apply_patch(r, p).emergency_contact_phone
            == r.emergency_contact_phone,
        p.emergency_contact_phone is Some ==> spec_apply_patch(r, p).emergency_contact_phone
            == p.emergency_contact_phone,
        p.employment_start_date is None ==> spec_apply_patch(r, p).employment_start_date
            == r.employment_start_date,
        p.employment_start_date is Some ==> spec_apply_patch(r, p).employment_start_date
            == p.employment_start_date,
        p.street_name is None ==> spec_apply_patch(r, p).street_name == r.street_name,
        p.street_name is Some ==> spec_apply_patch(r, p).street_name == p.street_name,
        p.city is None ==> spec_apply_patch(r, p).city == r.city,
        p.city is Some ==> spec_apply_patch(r, p).city == p.city,
        p.state is None ==> spec_apply_patch(r, p).state == r.state,
        p.state is Some ==> spec_apply_patch(r, p).state == p.state,
        p.zip is None ==> spec_apply_patch(r, p).zip == r.zip,
        p.zip is Some ==> spec_apply_patch(r, p).zip == p.zip,
        p.client_name is None ==> spec_apply_patch(r, p).client_name == r.client_name,
        p.client_name is Some ==> spec_apply_patch(r, p).client_name == p.client_name,
        p.client_street_name is None ==> spec_apply_patch(r, p).client_street_name
            == r.client_street_name,
        p.client_street_name is Some ==> spec_apply_patch(r, p).client_street_name
            == p.client_street_name,
        p.client_city is None ==> spec_apply_patch(r, p).client_city == r.client_city,
        p.client_city is Some ==> spec_apply_patch(r, p).client_city == p.client_city,
        p.client_state is None ==> spec_apply_patch(r, p).client_state == r.client_state,
        p.client_state is Some ==> spec_apply_patch(r, p).client_state == p.client_state,
        p.client_zip is None ==> spec_apply_patch(r, p).client_zip == r.client_zip,
        p.client_zip is Some ==> spec_apply_patch(r, p).client_zip == p.client_zip,
        p.lca_title is None ==> spec_apply_patch(r, p).lca_title == r.lca_title,
        p.lca_title is Some ==> spec_apply_patch(r, p).lca_title == p.lca_title,
        p.lca_salary is None ==> spec_apply_patch(r, p).lca_salary == r.lca_salary,
        p.lca_salary is Some ==> spec_apply_patch(r, p).lca_salary == p.lca_salary,
        p.lca_code is None ==> spec_apply_patch(r, p).lca_code == r.lca_code,
        p.lca_code is Some ==> spec_apply_patch(r, p).lca_code == p.lca_code,
        p.receipt_number is None ==> spec_apply_patch(r, p).receipt_number == r.receipt_number,
        p.receipt_number is Some ==> spec_apply_patch(r, p).receipt_number == p.receipt_number,
        p.h1b_start_date is None ==> spec_apply_patch(r, p).h1b_start_date == r.h1b_start_date,
        p.h1b_start_date is Some ==> spec_apply_patch(r, p).h1b_start_date == p.h1b_start_date,
        p.h1b_end_date is None ==> spec_apply_patch(r, p).h1b_end_date == r.h1b_end_date,
        p.h1b_end_date is Some ==> spec_apply_patch(r, p).h1b_end_date == p.h1b_end_date,
        p.h1b_status is None ==> spec_apply_patch(r, p).h1b_status == r.h1b_status,
        p.h1b_status is Some ==> spec_apply_patch(r, p).h1b_status == p.h1b_status->0,
{
}

/// Two merge-updates that supply disjoint field sets land on the same record
/// in either order: neither loses the other's change.
pub proof fn lemma_disjoint_patches_commute(
    r: CustomerRecord,
    p1: CustomerPatch,
    p2: CustomerPatch,
)
    requires
        disjoint_patches(p1, p2),
    ensures
        spec_apply_patch(spec_apply_patch(r, p1), p2) == spec_apply_patch(
            spec_apply_patch(r, p2),
            p1,
        ),
{
}

} // verus!
