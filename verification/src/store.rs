//! The customer record store: every create / read / update / delete
//! operation of the service, over an email-keyed table whose invariant is
//! that emails are unique and every row is well-formed.

use vstd::prelude::*;
use vstd::pervasive::VecAdditionalExecFns;
use crate::dates::date_le;
use crate::errors::{FieldName, ServiceError};
use crate::models::{valid_record, window_ok, with_status, CustomerRecord, H1bStatus};
use crate::patch::{apply_patch, spec_apply_patch, valid_patch, CustomerPatch};

verus! {

/// Some record of `s` carries the email `e`.
pub open spec fn has_email(s: Seq<CustomerRecord>, e: Seq<char>) -> bool {
    exists|i: int| 0 <= i < s.len() && (#[trigger] s[i]).email@ == e
}

/// The index of the record carrying `e`; meaningful where `has_email` holds
/// (and then unique, by `emails_unique`).
pub open spec fn email_index(s: Seq<CustomerRecord>, e: Seq<char>) -> int {
    choose|i: int| 0 <= i < s.len() && (#[trigger] s[i]).email@ == e
}

/// No two records of `s` carry the same email.
pub open spec fn emails_unique(s: Seq<CustomerRecord>) -> bool {
    forall|i: int, j: int|
        0 <= i < j < s.len() ==> (#[trigger] s[i]).email@ != (#[trigger] s[j]).email@
}

pub open spec fn all_valid(s: Seq<CustomerRecord>) -> bool {
    forall|i: int| 0 <= i < s.len() ==> valid_record(#[trigger] s[i])
}

pub open spec fn is_active(r: CustomerRecord) -> bool {
    r.h1b_status == H1bStatus::Active
}

/// The records whose status is `Active`, in stored order.
pub open spec fn active_records(s: Seq<CustomerRecord>) -> Seq<CustomerRecord> {
    s.filter(|r: CustomerRecord| is_active(r))
}

/// Some record of `s` carries the email `e` and is active.
pub open spec fn has_active_email(s: Seq<CustomerRecord>, e: Seq<char>) -> bool {
    exists|i: int|
        0 <= i < s.len() && (#[trigger] s[i]).email@ == e && is_active(s[i])
}

/// Where a record with email `e` sits at `i` and emails are unique, `i` is
/// the index that `email_index` names.
pub proof fn lemma_email_index_is(s: Seq<CustomerRecord>, e: Seq<char>, i: int)
    requires
        emails_unique(s),
        0 <= i < s.len(),
        s[i].email@ == e,
    ensures
        has_email(s, e),
        email_index(s, e) == i,
{
    assert(has_email(s, e));
    let j = email_index(s, e);
    assert(0 <= j < s.len() && s[j].email@ == e);
    if i < j {
        assert(s[i].email@ != s[j].email@);
    } else if j < i {
        assert(s[j].email@ != s[i].email@);
    }
}

/// Filtering for active records treats an appended record by its status
/// alone.
pub proof fn lemma_active_push(s: Seq<CustomerRecord>, x: CustomerRecord)
    ensures
        active_records(s.push(x)) == (if is_active(x) {
            active_records(s).push(x)
        } else {
            active_records(s)
        }),
{
    reveal(Seq::filter);
    assert(s.push(x).drop_last() =~= s);
    assert(s.push(x).last() == x);
}

/// The in-memory table behind the service. Its invariant, `wf`, is
/// established by `new` and preserved by every operation.
pub struct CustomerStore {
    records: Vec<CustomerRecord>,
}

impl View for CustomerStore {
    type V = Seq<CustomerRecord>;

    closed spec fn view(&self) -> Seq<CustomerRecord> {
        self.records@
    }
}

impl CustomerStore {
    /// Emails are unique and every row is well-formed.
    pub open spec fn wf(&self) -> bool {
        emails_unique(self@) && all_valid(self@)
    }

    /// An empty store.
    pub fn new() -> (s: Self)
        ensures
            s.wf(),
            s@ == Seq::<CustomerRecord>::empty(),
    {
        CustomerStore { records: Vec::new() }
    }

    /// How many records the store holds.
    pub fn len(&self) -> (n: usize)
        ensures
            n == self@.len(),
    {
        self.records.len()
    }

    /// The position of the record carrying `email`, if any.
    fn position_of(&self, email: &String) -> (r: Option<usize>)
        ensures
            match r {
                Some(i) => 0 <= i < self@.len() && self@[i as int].email@ == email@,
                None => !has_email(self@, email@),
            },
    {
        let n = self.records.len();
        let mut i: usize = 0;
        while i < n
            invariant
                0 <= i <= n == self@.len(),
                forall|j: int| 0 <= j < i ==> (#[trigger] self@[j]).email@ != email@,
            decreases n - i,
        {
            if self.records[i].email == *email {
                return Some(i);
            }
            i = i + 1;
        }
        None
    }

    /// Create: persists a new record, refusing an email already taken; on
    /// refusal nothing is persisted.
    pub fn create(&mut self, rec: CustomerRecord) -> (r: Result<(), ServiceError>)
        requires
            old(self).wf(),
            valid_record(rec),
        ensures
            final(self).wf(),
            match r {
                Ok(_) => !has_email(old(self)@, rec.email@) && final(self)@ == old(self)@.push(
                    rec,
                ),
                Err(e) => e == ServiceError::Conflict && has_email(old(self)@, rec.email@)
                    && final(self)@ == old(self)@,
            },
    {
        match self.position_of(&rec.email) {
            Some(_) => Err(ServiceError::Conflict),
            None => {
                let ghost s0 = self@;
                self.records.push(rec);
                proof {
                    assert forall|i: int, j: int| 0 <= i < j < self@.len() implies (
                    #[trigger] self@[i]).email@ != (#[trigger] self@[j]).email@ by {
                        if j == s0.len() {
                            assert(self@[i] == s0[i]);
                        }
                    }
                }
                Ok(())
            },
        }
    }

    /// GetAll: every record, or with the explicit filter, only the active
    /// ones, in stored order. An empty store yields an empty sequence.
    pub fn get_all(&self, active_only: bool) -> (out: Vec<CustomerRecord>)
        ensures
            out@ == (if active_only {
                active_records(self@)
            } else {
                self@
            }),
    {
        let n = self.records.len();
        let mut out: Vec<CustomerRecord> = Vec::new();
        let mut i: usize = 0;
        proof {
            assert(self@.subrange(0, 0) =~= Seq::<CustomerRecord>::empty());
            reveal(Seq::filter);
        }
        while i < n
            invariant
                0 <= i <= n == self@.len(),
                out@ == (if active_only {
                    active_records(self@.subrange(0, i as int))
                } else {
                    self@.subrange(0, i as int)
                }),
            decreases n - i,
        {
            let ghost prefix = self@.subrange(0, i as int);
            let rec = &self.records[i];
            let keep = if active_only {
                match rec.h1b_status {
                    H1bStatus::Active => true,
                    _ => false,
                }
            } else {
                true
            };
            if keep {
                out.push(rec.clone());
            }
            proof {
                lemma_active_push(prefix, self@[i as int]);
                assert(self@.subrange(0, i + 1) =~= prefix.push(self@[i as int]));
            }
            i = i + 1;
        }
        proof {
            assert(self@.subrange(0, n as int) =~= self@);
        }
        out
    }

    /// GetByIdentifier: the record carrying `email`, whatever its status,
    /// or nothing — never a substitute value.
    pub fn get_by_email(&self, email: &String) -> (r: Option<CustomerRecord>)
        requires
            self.wf(),
        ensures
            match r {
                Some(rec) => has_email(self@, email@) && rec == self@[email_index(self@, email@)],
                None => !has_email(self@, email@),
            },
    {
        match self.position_of(email) {
            Some(i) => {
                proof {
                    lemma_email_index_is(self@, email@, i as int);
                }
                Some(self.records[i].clone())
            },
            None => None,
        }
    }

    /// Merge-update: overwrites exactly the supplied fields of the record
    /// carrying `email` and returns the updated record. Refuses a merge
    /// that would disorder the validity window, leaving the store
    /// unchanged; the offending date fields are named in the error.
    pub fn update(&mut self, email: &String, p: &CustomerPatch) -> (r: Result<
        CustomerRecord,
        ServiceError,
    >)
        requires
            old(self).wf(),
            valid_patch(*p),
        ensures
            final(self).wf(),
            match r {
                Ok(rec) => {
                    &&& has_email(old(self)@, email@)
                    &&& rec == spec_apply_patch(
                        old(self)@[email_index(old(self)@, email@)],
                        *p,
                    )
                    &&& window_ok(rec)
                    &&& final(self)@ == old(self)@.update(email_index(old(self)@, email@), rec)
                },
                Err(e) => final(self)@ == old(self)@ && (if !has_email(old(self)@, email@) {
                    e == ServiceError::NotFound
                } else {
                    &&& !window_ok(
                        spec_apply_patch(old(self)@[email_index(old(self)@, email@)], *p),
                    )
                    &&& (e matches ServiceError::Validation(fs) && fs@ == window_error_fields(*p))
                }),
            },
    {
        let ghost s0 = self@;
        match self.position_of(email) {
            None => Err(ServiceError::NotFound),
            Some(i) => {
                proof {
                    lemma_email_index_is(s0, email@, i as int);
                }
                let merged = apply_patch(&self.records[i], p);
                let window_fine = match (&merged.h1b_start_date, &merged.h1b_end_date) {
                    (Some(a), Some(b)) => date_le(a, b),
                    _ => true,
                };
                if !window_fine {
                    let mut fields: Vec<FieldName> = Vec::new();
                    if p.h1b_start_date.is_some() {
                        fields.push(FieldName::H1bStartDate);
                    }
                    if p.h1b_end_date.is_some() {
                        fields.push(FieldName::H1bEndDate);
                    }
                    proof {
                        assert(fields@ =~= window_error_fields(*p));
                    }
                    return Err(ServiceError::Validation(fields));
                }
                let out = merged.clone();
                self.records.set(i, merged);
                proof {
                    assert(valid_record(self@[i as int]));
                    assert forall|a: int, b: int| 0 <= a < b < self@.len() implies (
                    #[trigger] self@[a]).email@ != (#[trigger] self@[b]).email@ by {
                        assert(s0[a].email@ != s0[b].email@);
                        assert(self@[a].email@ == s0[a].email@);
                        assert(self@[b].email@ == s0[b].email@);
                    }
                }
                Ok(out)
            },
        }
    }

    /// SoftDelete: marks the active record carrying `email` inactive,
    /// removing nothing. A record already inactive, or absent, reports
    /// "not found" — the one behaviour, applied consistently.
    pub fn soft_delete(&mut self, email: &String) -> (r: Result<(), ServiceError>)
        requires
            old(self).wf(),
        ensures
            final(self).wf(),
            match r {
                Ok(_) => {
                    &&& has_active_email(old(self)@, email@)
                    &&& final(self)@ == old(self)@.update(
                        email_index(old(self)@, email@),
                        with_status(
                            old(self)@[email_index(old(self)@, email@)],
                            H1bStatus::Inactive,
                        ),
                    )
                },
                Err(e) => e == ServiceError::NotFound && !has_active_email(old(self)@, email@)
                    && final(self)@ == old(self)@,
            },
    {
        let ghost s0 = self@;
        match self.position_of(email) {
            None => {
                proof {
                    assert forall|i: int|
                        0 <= i < s0.len() implies !((#[trigger] s0[i]).email@ == email@
                        && is_active(s0[i])) by {}
                }
                Err(ServiceError::NotFound)
            },
            Some(i) => {
                proof {
                    lemma_email_index_is(s0, email@, i as int);
                }
                let active = match self.records[i].h1b_status {
                    H1bStatus::Active => true,
                    _ => false,
                };
                if !active {
                    proof {
                        assert forall|j: int|
                            0 <= j < s0.len() implies !((#[trigger] s0[j]).email@ == email@
                            && is_active(s0[j])) by {
                            if s0[j].email@ == email@ && j != i as int {
                                lemma_email_index_is(s0, email@, j);
                            }
                        }
                    }
                    return Err(ServiceError::NotFound);
                }
                let mut rec = self.records[i].clone();
                rec.h1b_status = H1bStatus::Inactive;
                self.records.set(i, rec);
                proof {
                    assert(self@[i as int] == with_status(s0[i as int], H1bStatus::Inactive));
                    assert(valid_record(self@[i as int]));
                    assert forall|a: int, b: int| 0 <= a < b < self@.len() implies (
                    #[trigger] self@[a]).email@ != (#[trigger] self@[b]).email@ by {
                        assert(s0[a].email@ != s0[b].email@);
                        assert(self@[a].email@ == s0[a].email@);
                        assert(self@[b].email@ == s0[b].email@);
                    }
                }
                Ok(())
            },
        }
    }

    /// HardDelete: removes the record carrying `email` permanently; "not
    /// found" when no row matches.
    pub fn hard_delete(&mut self, email: &String) -> (r: Result<(), ServiceError>)
        requires
            old(self).wf(),
        ensures
            final(self).wf(),
            match r {
                Ok(_) => has_email(old(self)@, email@) && final(self)@ == old(self)@.remove(
                    email_index(old(self)@, email@),
                ),
                Err(e) => e == ServiceError::NotFound && !has_email(old(self)@, email@)
                    && final(self)@ == old(self)@,
            },
    {
        let ghost s0 = self@;
        match self.position_of(email) {
            None => Err(ServiceError::NotFound),
            Some(i) => {
                proof {
                    lemma_email_index_is(s0, email@, i as int);
                }
                self.records.remove(i);
                proof {
                    assert forall|a: int, b: int| 0 <= a < b < self@.len() implies (
                    #[trigger] self@[a]).email@ != (#[trigger] self@[b]).email@ by {
                        let a0 = if a < i as int {
                            a
                        } else {
                            a + 1
                        };
                        let b0 = if b < i as int {
                            b
                        } else {
                            b + 1
                        };
                        assert(self@[a] == s0[a0]);
                        assert(self@[b] == s0[b0]);
                        assert(s0[a0].email@ != s0[b0].email@);
                    }
                    assert forall|a: int| 0 <= a < self@.len() implies valid_record(
                        #[trigger] self@[a],
                    ) by {
                        let a0 = if a < i as int {
                            a
                        } else {
                            a + 1
                        };
                        assert(self@[a] == s0[a0]);
                    }
                }
                Ok(())
            },
        }
    }
}

/// The date fields a refused merge names: exactly those the patch supplied.
pub open spec fn window_error_fields(p: CustomerPatch) -> Seq<FieldName> {
    let s0 = Seq::<FieldName>::empty();
    let s1 = if p.h1b_start_date is Some {
        s0.push(FieldName::H1bStartDate)
    } else {
        s0
    };
    if p.h1b_end_date is Some {
        s1.push(FieldName::H1bEndDate)
    } else {
        s1
    }
}

} // verus!
