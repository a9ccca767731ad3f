//! The mathematical model of the store and the specification of every
//! operation as a step function from a store model and a context to the next
//! store model and a result.
//!
//! The executable engine in [`crate::engine`] proves each of its operations
//! equal to the corresponding step; the laws in [`crate::laws`] are theorems
//! about the steps themselves.

use vstd::prelude::*;

use crate::types::{
    AssetRef, Bounty, BountyError, BountyPatch, BountyStatus, Ident, OpContext, Principal,
    Submission, SubmissionStatus, TransferIntent,
};

verus! {

/// The model of the persistent store: both record families, each in creation
/// order. The global bounty index and the per-bounty submission indices of
/// the store are the identifiers of these sequences in order, so the index
/// and the record family agree in membership by construction.
#[verifier::ext_equal]
pub struct StoreModel {
    pub bounties: Seq<Bounty>,
    pub submissions: Seq<Submission>,
}

/// A stored bounty record is always internally valid: positive reward and a
/// non-empty title.
pub open spec fn valid_bounty(b: Bounty) -> bool {
    b.reward_amount > 0 && b.title@.len() > 0
}

/// No two stored bounties share an identifier.
pub open spec fn distinct_bounty_ids(s: Seq<Bounty>) -> bool {
    forall|i: int, j: int|
        #![trigger s[i].id, s[j].id]
        0 <= i < j < s.len() ==> s[i].id != s[j].id
}

/// No two stored submissions share an identifier.
pub open spec fn distinct_submission_ids(s: Seq<Submission>) -> bool {
    forall|i: int, j: int|
        #![trigger s[i].id, s[j].id]
        0 <= i < j < s.len() ==> s[i].id != s[j].id
}

/// Some stored bounty carries the identifier.
pub open spec fn has_bounty(s: Seq<Bounty>, id: Ident) -> bool {
    exists|i: int| 0 <= i < s.len() && s[i].id == id
}

/// The position of the bounty with the identifier; meaningful when
/// `has_bounty(s, id)` holds and identifiers are distinct.
pub open spec fn bounty_index(s: Seq<Bounty>, id: Ident) -> int {
    choose|i: int| 0 <= i < s.len() && s[i].id == id
}

/// The stored bounty with the identifier.
pub open spec fn bounty_at(s: Seq<Bounty>, id: Ident) -> Bounty {
    s[bounty_index(s, id)]
}

/// Some stored submission carries the identifier.
pub open spec fn has_submission(s: Seq<Submission>, id: Ident) -> bool {
    exists|i: int| 0 <= i < s.len() && s[i].id == id
}

/// The position of the submission with the identifier; meaningful when
/// `has_submission(s, id)` holds and identifiers are distinct.
pub open spec fn submission_index(s: Seq<Submission>, id: Ident) -> int {
    choose|i: int| 0 <= i < s.len() && s[i].id == id
}

/// The stored submission with the identifier.
pub open spec fn submission_at(s: Seq<Submission>, id: Ident) -> Submission {
    s[submission_index(s, id)]
}

/// Well-formedness of the store: identifiers are unique within each family,
/// every submission refers to a stored bounty, and every stored bounty is
/// internally valid. Every operation preserves this.
pub open spec fn wf_model(m: StoreModel) -> bool {
    &&& distinct_bounty_ids(m.bounties)
    &&& distinct_submission_ids(m.submissions)
    &&& forall|i: int|
        0 <= i < m.submissions.len() ==> has_bounty(m.bounties, #[trigger] m.submissions[i].bounty_id)
    &&& forall|i: int| 0 <= i < m.bounties.len() ==> valid_bounty(#[trigger] m.bounties[i])
}

/// The inputs on which creating a bounty succeeds: a non-empty title, a
/// strictly positive reward, and a deadline strictly in the future.
pub open spec fn create_allowed(ctx: OpContext, title: String, reward_amount: i128, deadline: u64) -> bool {
    title@.len() > 0 && reward_amount > 0 && deadline > ctx.now
}

/// The record a successful creation stores: status `Open`, owned by the
/// caller, with `created` and `updated` both the current time.
pub open spec fn new_bounty(
    ctx: OpContext,
    title: String,
    description: String,
    reward_amount: i128,
    reward_asset: AssetRef,
    deadline: u64,
    category: String,
    skills: Vec<String>,
) -> Bounty {
    Bounty {
        id: ctx.fresh_id,
        title,
        description,
        reward_amount,
        reward_asset,
        owner: ctx.caller,
        deadline,
        status: BountyStatus::Open,
        category,
        skills,
        created: ctx.now,
        updated: ctx.now,
    }
}

/// One `create_bounty` step. On valid inputs the new record is appended to
/// the bounty family and its identifier returned; otherwise the store is
/// unchanged and the call rejected.
pub open spec fn create_step(
    m: StoreModel,
    ctx: OpContext,
    title: String,
    description: String,
    reward_amount: i128,
    reward_asset: AssetRef,
    deadline: u64,
    category: String,
    skills: Vec<String>,
) -> (StoreModel, Result<Ident, BountyError>) {
    if create_allowed(ctx, title, reward_amount, deadline) {
        (
            StoreModel {
                bounties: m.bounties.push(
                    new_bounty(ctx, title, description, reward_amount, reward_asset, deadline, category, skills),
                ),
                ..m
            },
            Ok(ctx.fresh_id),
        )
    } else {
        (m, Err(BountyError::Validation))
    }
}

/// What a point lookup of a bounty returns.
pub open spec fn lookup_bounty(m: StoreModel, id: Ident) -> Result<Bounty, BountyError> {
    if has_bounty(m.bounties, id) {
        Ok(bounty_at(m.bounties, id))
    } else {
        Err(BountyError::NotFound)
    }
}

/// What a point lookup of a submission returns.
pub open spec fn lookup_submission(m: StoreModel, id: Ident) -> Result<Submission, BountyError> {
    if has_submission(m.submissions, id) {
        Ok(submission_at(m.submissions, id))
    } else {
        Err(BountyError::NotFound)
    }
}

/// Every provided field of the patch passes the same validation as at
/// creation; absent fields are not validated.
pub open spec fn patch_allowed(p: BountyPatch, now: u64) -> bool {
    &&& (p.title is Some ==> p.title.unwrap()@.len() > 0)
    &&& (p.reward_amount is Some ==> p.reward_amount.unwrap() > 0)
    &&& (p.deadline is Some ==> p.deadline.unwrap() > now)
}

/// The stored record after a patch: every provided field replaced, every
/// absent field kept, `updated` refreshed; `id`, `owner` and `created` are
/// immutable.
pub open spec fn patched_bounty(b: Bounty, p: BountyPatch, now: u64) -> Bounty {
    Bounty {
        title: if p.title is Some { p.title.unwrap() } else { b.title },
        description: if p.description is Some { p.description.unwrap() } else { b.description },
        reward_amount: if p.reward_amount is Some { p.reward_amount.unwrap() } else { b.reward_amount },
        reward_asset: if p.reward_asset is Some { p.reward_asset.unwrap() } else { b.reward_asset },
        deadline: if p.deadline is Some { p.deadline.unwrap() } else { b.deadline },
        status: if p.status is Some { p.status.unwrap() } else { b.status },
        category: if p.category is Some { p.category.unwrap() } else { b.category },
        skills: if p.skills is Some { p.skills.unwrap() } else { b.skills },
        updated: now,
        ..b
    }
}

/// One `update_bounty` step: only the owner may update, and a provided but
/// invalid field fails the whole call before anything is written.
pub open spec fn update_step(
    m: StoreModel,
    ctx: OpContext,
    id: Ident,
    p: BountyPatch,
) -> (StoreModel, Result<Bounty, BountyError>) {
    if !has_bounty(m.bounties, id) {
        (m, Err(BountyError::NotFound))
    } else {
        let b = bounty_at(m.bounties, id);
        if ctx.caller != b.owner {
            (m, Err(BountyError::Unauthorized))
        } else if !patch_allowed(p, ctx.now) {
            (m, Err(BountyError::Validation))
        } else {
            let b2 = patched_bounty(b, p, ctx.now);
            (
                StoreModel { bounties: m.bounties.update(bounty_index(m.bounties, id), b2), ..m },
                Ok(b2),
            )
        }
    }
}

/// One `cancel_bounty` step: only the owner may cancel, a `Completed` bounty
/// cannot be cancelled, and cancelling from any other status succeeds.
pub open spec fn cancel_step(
    m: StoreModel,
    ctx: OpContext,
    id: Ident,
) -> (StoreModel, Result<Bounty, BountyError>) {
    if !has_bounty(m.bounties, id) {
        (m, Err(BountyError::NotFound))
    } else {
        let b = bounty_at(m.bounties, id);
        if ctx.caller != b.owner {
            (m, Err(BountyError::Unauthorized))
        } else if b.status == BountyStatus::Completed {
            (m, Err(BountyError::InvalidState))
        } else {
            let b2 = Bounty { status: BountyStatus::Cancelled, updated: ctx.now, ..b };
            (
                StoreModel { bounties: m.bounties.update(bounty_index(m.bounties, id), b2), ..m },
                Ok(b2),
            )
        }
    }
}

/// A bounty takes new submissions only while `Open` or `InProgress`.
pub open spec fn accepting_submissions(b: Bounty) -> bool {
    b.status == BountyStatus::Open || b.status == BountyStatus::InProgress
}

/// A terminal bounty: no further transition is defined.
pub open spec fn terminal_bounty(b: Bounty) -> bool {
    b.status == BountyStatus::Completed || b.status == BountyStatus::Cancelled
}

/// The record a successful submission stores: `Pending`, by the caller, at
/// the current time.
pub open spec fn new_submission(ctx: OpContext, bounty_id: Ident, content: String) -> Submission {
    Submission {
        id: ctx.fresh_id,
        bounty_id,
        applicant: ctx.caller,
        content,
        created: ctx.now,
        status: SubmissionStatus::Pending,
    }
}

/// One `submit_work` step. The bounty must exist, be accepting submissions,
/// and not be past its deadline; the new submission is appended, and an
/// `Open` bounty moves to `InProgress` (an `InProgress` one is untouched).
pub open spec fn submit_step(
    m: StoreModel,
    ctx: OpContext,
    bounty_id: Ident,
    content: String,
) -> (StoreModel, Result<Ident, BountyError>) {
    if !has_bounty(m.bounties, bounty_id) {
        (m, Err(BountyError::NotFound))
    } else {
        let b = bounty_at(m.bounties, bounty_id);
        if !accepting_submissions(b) {
            (m, Err(BountyError::InvalidState))
        } else if ctx.now > b.deadline {
            (m, Err(BountyError::InvalidState))
        } else {
            let bounties = if b.status == BountyStatus::Open {
                m.bounties.update(
                    bounty_index(m.bounties, bounty_id),
                    Bounty { status: BountyStatus::InProgress, updated: ctx.now, ..b },
                )
            } else {
                m.bounties
            };
            (
                StoreModel {
                    bounties,
                    submissions: m.submissions.push(new_submission(ctx, bounty_id, content)),
                },
                Ok(ctx.fresh_id),
            )
        }
    }
}

/// The submissions made against one bounty, in creation order.
pub open spec fn submissions_of(s: Seq<Submission>, bounty_id: Ident) -> Seq<Submission> {
    s.filter(|sub: Submission| sub.bounty_id == bounty_id)
}

/// The reward payment owed when a submission of `b` by `applicant` is
/// accepted.
pub open spec fn reward_intent(b: Bounty, applicant: Principal) -> TransferIntent {
    TransferIntent { asset: b.reward_asset, from: b.owner, to: applicant, amount: b.reward_amount }
}

/// One `accept_submission` step. Only the owner of the submission's bounty
/// may accept, only while the bounty is not terminal, and only a `Pending`
/// submission — `Accepted` and `Rejected` are terminal. The submission
/// becomes `Accepted`, the bounty `Completed`, and exactly one payment of
/// the full reward from the owner to the applicant is handed back.
pub open spec fn accept_step(
    m: StoreModel,
    ctx: OpContext,
    submission_id: Ident,
) -> (StoreModel, Result<(Submission, TransferIntent), BountyError>) {
    if !has_submission(m.submissions, submission_id) {
        (m, Err(BountyError::NotFound))
    } else {
        let sub = submission_at(m.submissions, submission_id);
        if !has_bounty(m.bounties, sub.bounty_id) {
            (m, Err(BountyError::NotFound))
        } else {
            let b = bounty_at(m.bounties, sub.bounty_id);
            if ctx.caller != b.owner {
                (m, Err(BountyError::Unauthorized))
            } else if terminal_bounty(b) {
                (m, Err(BountyError::InvalidState))
            } else if sub.status != SubmissionStatus::Pending {
                (m, Err(BountyError::InvalidState))
            } else {
                let sub2 = Submission { status: SubmissionStatus::Accepted, ..sub };
                let b2 = Bounty { status: BountyStatus::Completed, updated: ctx.now, ..b };
                (
                    StoreModel {
                        bounties: m.bounties.update(bounty_index(m.bounties, sub.bounty_id), b2),
                        submissions: m.submissions.update(
                            submission_index(m.submissions, submission_id),
                            sub2,
                        ),
                    },
                    Ok((sub2, reward_intent(b, sub.applicant))),
                )
            }
        }
    }
}

/// One `reject_submission` step. Only the owner of the submission's bounty
/// may reject, only while the bounty is not terminal, and only a `Pending`
/// submission; the bounty itself is untouched.
pub open spec fn reject_step(
    m: StoreModel,
    ctx: OpContext,
    submission_id: Ident,
) -> (StoreModel, Result<Submission, BountyError>) {
    if !has_submission(m.submissions, submission_id) {
        (m, Err(BountyError::NotFound))
    } else {
        let sub = submission_at(m.submissions, submission_id);
        if !has_bounty(m.bounties, sub.bounty_id) {
            (m, Err(BountyError::NotFound))
        } else {
            let b = bounty_at(m.bounties, sub.bounty_id);
            if ctx.caller != b.owner {
                (m, Err(BountyError::Unauthorized))
            } else if terminal_bounty(b) {
                (m, Err(BountyError::InvalidState))
            } else if sub.status != SubmissionStatus::Pending {
                (m, Err(BountyError::InvalidState))
            } else {
                let sub2 = Submission { status: SubmissionStatus::Rejected, ..sub };
                (
                    StoreModel {
                        submissions: m.submissions.update(
                            submission_index(m.submissions, submission_id),
                            sub2,
                        ),
                        ..m
                    },
                    Ok(sub2),
                )
            }
        }
    }
}

/// With distinct identifiers, any position whose record carries `id` is the
/// position `bounty_index` denotes.
pub proof fn lemma_bounty_index_unique(s: Seq<Bounty>, id: Ident, i: int)
    requires
        distinct_bounty_ids(s),
        0 <= i < s.len(),
        s[i].id == id,
    ensures
        has_bounty(s, id),
        bounty_index(s, id) == i,
        bounty_at(s, id) == s[i],
{
    assert(has_bounty(s, id));
    let k = bounty_index(s, id);
    assert(0 <= k < s.len() && s[k].id == id);
    if k < i {
        assert(s[k].id != s[i].id);
    } else if i < k {
        assert(s[i].id != s[k].id);
    }
}

/// With distinct identifiers, any position whose record carries `id` is the
/// position `submission_index` denotes.
pub proof fn lemma_submission_index_unique(s: Seq<Submission>, id: Ident, i: int)
    requires
        distinct_submission_ids(s),
        0 <= i < s.len(),
        s[i].id == id,
    ensures
        has_submission(s, id),
        submission_index(s, id) == i,
        submission_at(s, id) == s[i],
{
    assert(has_submission(s, id));
    let k = submission_index(s, id);
    assert(0 <= k < s.len() && s[k].id == id);
    if k < i {
        assert(s[k].id != s[i].id);
    } else if i < k {
        assert(s[i].id != s[k].id);
    }
}

/// Removing a record and inserting another at the same position is an
/// in-place replacement.
pub proof fn lemma_remove_insert<A>(s: Seq<A>, i: int, x: A)
    requires
        0 <= i < s.len(),
    ensures
        s.remove(i).insert(i, x) == s.update(i, x),
{
    assert(s.remove(i).insert(i, x) =~= s.update(i, x));
}

/// Replacing one bounty record by another with the same identifier, still
/// valid, keeps the store well-formed.
pub proof fn lemma_wf_replace_bounty(m: StoreModel, i: int, b2: Bounty)
    requires
        wf_model(m),
        0 <= i < m.bounties.len(),
        b2.id == m.bounties[i].id,
        valid_bounty(b2),
    ensures
        wf_model(StoreModel { bounties: m.bounties.update(i, b2), ..m }),
{
    let s2 = m.bounties.update(i, b2);
    assert forall|p: int, q: int| 0 <= p < q < s2.len() implies s2[p].id != s2[q].id by {
        assert(m.bounties[p].id != m.bounties[q].id);
    }
    assert forall|k: int| 0 <= k < m.submissions.len() implies has_bounty(
        s2,
        #[trigger] m.submissions[k].bounty_id,
    ) by {
        let bid = m.submissions[k].bounty_id;
        let j = choose|j: int| 0 <= j < m.bounties.len() && m.bounties[j].id == bid;
        assert(s2[j].id == bid);
    }
}

/// Appending a valid bounty under a fresh identifier keeps the store
/// well-formed.
pub proof fn lemma_wf_push_bounty(m: StoreModel, b: Bounty)
    requires
        wf_model(m),
        !has_bounty(m.bounties, b.id),
        valid_bounty(b),
    ensures
        wf_model(StoreModel { bounties: m.bounties.push(b), ..m }),
{
    let s2 = m.bounties.push(b);
    assert forall|p: int, q: int| 0 <= p < q < s2.len() implies s2[p].id != s2[q].id by {
        if q < m.bounties.len() {
            assert(m.bounties[p].id != m.bounties[q].id);
        } else {
            assert(s2[p].id == m.bounties[p].id);
        }
    }
    assert forall|k: int| 0 <= k < m.submissions.len() implies has_bounty(
        s2,
        #[trigger] m.submissions[k].bounty_id,
    ) by {
        let bid = m.submissions[k].bounty_id;
        let j = choose|j: int| 0 <= j < m.bounties.len() && m.bounties[j].id == bid;
        assert(s2[j].id == bid);
    }
}

/// Appending a submission under a fresh identifier against a stored bounty
/// keeps the store well-formed.
pub proof fn lemma_wf_push_submission(m: StoreModel, sub: Submission)
    requires
        wf_model(m),
        !has_submission(m.submissions, sub.id),
        has_bounty(m.bounties, sub.bounty_id),
    ensures
        wf_model(StoreModel { submissions: m.submissions.push(sub), ..m }),
{
    let s2 = m.submissions.push(sub);
    assert forall|p: int, q: int| 0 <= p < q < s2.len() implies s2[p].id != s2[q].id by {
        if q < m.submissions.len() {
            assert(m.submissions[p].id != m.submissions[q].id);
        } else {
            assert(s2[p].id == m.submissions[p].id);
        }
    }
}

/// Replacing one submission record by another with the same identifier and
/// the same bounty reference keeps the store well-formed.
pub proof fn lemma_wf_replace_submission(m: StoreModel, i: int, sub2: Submission)
    requires
        wf_model(m),
        0 <= i < m.submissions.len(),
        sub2.id == m.submissions[i].id,
        sub2.bounty_id == m.submissions[i].bounty_id,
    ensures
        wf_model(StoreModel { submissions: m.submissions.update(i, sub2), ..m }),
{
    let s2 = m.submissions.update(i, sub2);
    assert forall|p: int, q: int| 0 <= p < q < s2.len() implies s2[p].id != s2[q].id by {
        assert(m.submissions[p].id != m.submissions[q].id);
    }
}

} // verus!
