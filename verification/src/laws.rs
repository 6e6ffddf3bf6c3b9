//! The laws of the store, stated over the same sequences and spec functions
//! that the operations' contracts use: what a read observes after a create,
//! a soft delete, or a hard delete.

use vstd::prelude::*;
use crate::models::{with_status, CustomerRecord, H1bStatus};
use crate::patch::{
    disjoint_patches, lemma_disjoint_patches_commute, spec_apply_patch, CustomerPatch,
};
use crate::store::{
    active_records, email_index, emails_unique, has_active_email, has_email, is_active,
    lemma_email_index_is,
};

verus! {

/// Every record of the active listing is one of the store's records.
proof fn lemma_active_member(s: Seq<CustomerRecord>, k: int)
    requires
        0 <= k < active_records(s).len(),
    ensures
        exists|m: int| 0 <= m < s.len() && s[m] == active_records(s)[k],
    decreases s.len(),
{
    reveal(Seq::filter);
    if s.len() == 0 {
    } else {
        let prev = s.drop_last();
        if is_active(s.last()) && k == active_records(s).len() - 1 {
            assert(s[s.len() - 1] == active_records(s)[k]);
        } else {
            lemma_active_member(prev, k);
            let m = choose|m: int| 0 <= m < prev.len() && prev[m] == active_records(prev)[k];
            assert(s[m] == active_records(s)[k]);
        }
    }
}

/// Create followed by GetByIdentifier: after a record whose email is free
/// is persisted, reading that email yields exactly the persisted record,
/// and the store is still well-keyed.
pub proof fn lemma_create_then_get(s: Seq<CustomerRecord>, r: CustomerRecord)
    requires
        emails_unique(s),
        !has_email(s, r.email@),
    ensures
        emails_unique(s.push(r)),
        has_email(s.push(r), r.email@),
        s.push(r)[email_index(s.push(r), r.email@)] == r,
{
    let s2 = s.push(r);
    assert forall|i: int, j: int| 0 <= i < j < s2.len() implies (#[trigger] s2[i]).email@ != (
    #[trigger] s2[j]).email@ by {
        if j == s.len() {
            assert(s2[i] == s[i]);
        }
    }
    assert(s2[s.len() as int] == r);
    lemma_email_index_is(s2, r.email@, s.len() as int);
}

/// Creating a second record with an already-persisted email is a conflict:
/// once a record with that email is in, the email is taken, so the create
/// contract answers `Conflict` and leaves the store unchanged.
pub proof fn lemma_create_same_email_conflicts(
    s: Seq<CustomerRecord>,
    r1: CustomerRecord,
    r2: CustomerRecord,
)
    requires
        !has_email(s, r1.email@),
        r2.email@ == r1.email@,
    ensures
        has_email(s.push(r1), r2.email@),
{
    assert(s.push(r1)[s.len() as int] == r1);
}

/// Soft delete is non-destructive and reversible: afterwards the active
/// listing excludes the record, while reading it by email still yields it,
/// with its status now `Inactive` and every other field retained.
pub proof fn lemma_soft_delete_visibility(s: Seq<CustomerRecord>, e: Seq<char>)
    requires
        emails_unique(s),
        has_active_email(s, e),
    ensures
        ({
            let i = email_index(s, e);
            let s2 = s.update(i, with_status(s[i], H1bStatus::Inactive));
            &&& emails_unique(s2)
            &&& has_email(s2, e)
            &&& s2[email_index(s2, e)] == with_status(s[i], H1bStatus::Inactive)
            &&& forall|k: int|
                0 <= k < active_records(s2).len() ==> (#[trigger] active_records(s2)[k]).email@
                    != e
        }),
{
    let j = choose|j: int| 0 <= j < s.len() && (#[trigger] s[j]).email@ == e && is_active(s[j]);
    lemma_email_index_is(s, e, j);
    let i = email_index(s, e);
    let s2 = s.update(i, with_status(s[i], H1bStatus::Inactive));
    assert forall|a: int, b: int| 0 <= a < b < s2.len() implies (#[trigger] s2[a]).email@ != (
    #[trigger] s2[b]).email@ by {
        assert(s[a].email@ != s[b].email@);
        assert(s2[a].email@ == s[a].email@);
        assert(s2[b].email@ == s[b].email@);
    }
    lemma_email_index_is(s2, e, i);
    assert forall|k: int| 0 <= k < active_records(s2).len() implies (
    #[trigger] active_records(s2)[k]).email@ != e by {
        s2.lemma_filter_pred(|r: CustomerRecord| is_active(r), k);
        lemma_active_member(s2, k);
        let m = choose|m: int| 0 <= m < s2.len() && s2[m] == active_records(s2)[k];
        if s2[m].email@ == e {
            lemma_email_index_is(s2, e, m);
            assert(m == i);
            assert(!is_active(s2[i]));
        }
    }
}

/// No lost update: two merge-updates on one record with disjoint field
/// sets both find the record, the store stays well-keyed in between, and
/// the record they leave behind reflects both changes, whichever ran
/// first.
pub proof fn lemma_disjoint_updates_merge(
    s: Seq<CustomerRecord>,
    e: Seq<char>,
    p1: CustomerPatch,
    p2: CustomerPatch,
)
    requires
        emails_unique(s),
        has_email(s, e),
        disjoint_patches(p1, p2),
    ensures
        ({
            let i = email_index(s, e);
            let s2 = s.update(i, spec_apply_patch(s[i], p1));
            &&& emails_unique(s2)
            &&& has_email(s2, e)
            &&& email_index(s2, e) == i
            &&& s2.update(i, spec_apply_patch(s2[i], p2)) == s.update(
                i,
                spec_apply_patch(spec_apply_patch(s[i], p1), p2),
            )
            &&& spec_apply_patch(spec_apply_patch(s[i], p1), p2) == spec_apply_patch(
                spec_apply_patch(s[i], p2),
                p1,
            )
        }),
{
    let j = choose|j: int| 0 <= j < s.len() && (#[trigger] s[j]).email@ == e;
    lemma_email_index_is(s, e, j);
    let i = email_index(s, e);
    let s2 = s.update(i, spec_apply_patch(s[i], p1));
    assert forall|a: int, b: int| 0 <= a < b < s2.len() implies (#[trigger] s2[a]).email@ != (
    #[trigger] s2[b]).email@ by {
        assert(s[a].email@ != s[b].email@);
        assert(s2[a].email@ == s[a].email@);
        assert(s2[b].email@ == s[b].email@);
    }
    lemma_email_index_is(s2, e, i);
    assert(s2.update(i, spec_apply_patch(s2[i], p2)) =~= s.update(
        i,
        spec_apply_patch(spec_apply_patch(s[i], p1), p2),
    ));
    lemma_disjoint_patches_commute(s[i], p1, p2);
}

/// Hard delete is irrecoverable: afterwards no record carries the email,
/// so a read signals "not found", and the store is still well-keyed.
pub proof fn lemma_hard_delete_then_get(s: Seq<CustomerRecord>, e: Seq<char>)
    requires
        emails_unique(s),
        has_email(s, e),
    ensures
        ({
            let s2 = s.remove(email_index(s, e));
            &&& !has_email(s2, e)
            &&& emails_unique(s2)
        }),
{
    let i = email_index(s, e);
    assert(0 <= i < s.len() && s[i].email@ == e);
    let s2 = s.remove(i);
    assert forall|k: int| 0 <= k < s2.len() implies (#[trigger] s2[k]).email@ != e by {
        let k0 = if k < i {
            k
        } else {
            k + 1
        };
        assert(s2[k] == s[k0]);
        if k0 < i {
            assert(s[k0].email@ != s[i].email@);
        } else {
            assert(s[i].email@ != s[k0].email@);
        }
    }
    assert forall|a: int, b: int| 0 <= a < b < s2.len() implies (#[trigger] s2[a]).email@ != (
    #[trigger] s2[b]).email@ by {
        let a0 = if a < i {
            a
        } else {
            a + 1
        };
        let b0 = if b < i {
            b
        } else {
            b + 1
        };
        assert(s2[a] == s[a0]);
        assert(s2[b] == s[b0]);
        assert(s[a0].email@ != s[b0].email@);
    }
}

} // verus!
