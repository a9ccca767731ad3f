//! The general laws of the lifecycle: theorems about the step functions of
//! [`crate::model`] that every operation of [`crate::engine`] is proved to
//! implement.

use vstd::prelude::*;

use crate::model::{
    accept_step, bounty_at, bounty_index, cancel_step, create_allowed, create_step, has_bounty,
    has_submission, lemma_bounty_index_unique, lemma_submission_index_unique,
    lemma_wf_push_bounty, lemma_wf_push_submission, lemma_wf_replace_bounty,
    lemma_wf_replace_submission, lookup_bounty, new_bounty, new_submission, reject_step,
    reward_intent, submission_at, submission_index, submissions_of, submit_step, terminal_bounty,
    update_step, wf_model, StoreModel,
};
use crate::types::{
    AssetRef, Bounty, BountyError, BountyPatch, BountyStatus, Ident, OpContext, Submission,
    SubmissionStatus, TransferIntent,
};

verus! {

/// Creating a bounty from valid inputs and then looking its identifier up
/// returns exactly the record that was stored: status `Open`, owned by the
/// caller, with `created` and `updated` equal.
pub proof fn lemma_create_then_get(
    m: StoreModel,
    ctx: OpContext,
    title: String,
    description: String,
    reward_amount: i128,
    reward_asset: AssetRef,
    deadline: u64,
    category: String,
    skills: Vec<String>,
)
    requires
        wf_model(m),
        !has_bounty(m.bounties, ctx.fresh_id),
        create_allowed(ctx, title, reward_amount, deadline),
    ensures
        ({
            let (m2, r) = create_step(
                m,
                ctx,
                title,
                description,
                reward_amount,
                reward_asset,
                deadline,
                category,
                skills,
            );
            let b = new_bounty(ctx, title, description, reward_amount, reward_asset, deadline, category, skills);
            &&& r == Ok::<Ident, BountyError>(ctx.fresh_id)
            &&& wf_model(m2)
            &&& lookup_bounty(m2, ctx.fresh_id) == Ok::<Bounty, BountyError>(b)
            &&& b.status == BountyStatus::Open
            &&& b.owner == ctx.caller
            &&& b.created == b.updated
        }),
{
    let b = new_bounty(ctx, title, description, reward_amount, reward_asset, deadline, category, skills);
    lemma_wf_push_bounty(m, b);
    let s2 = m.bounties.push(b);
    lemma_bounty_index_unique(s2, ctx.fresh_id, m.bounties.len() as int);
}

/// Creating a bounty from an empty title, a non-positive reward or a
/// deadline not strictly in the future is rejected as a validation error and
/// writes nothing.
pub proof fn lemma_create_rejects_invalid(
    m: StoreModel,
    ctx: OpContext,
    title: String,
    description: String,
    reward_amount: i128,
    reward_asset: AssetRef,
    deadline: u64,
    category: String,
    skills: Vec<String>,
)
    requires
        title@.len() == 0 || reward_amount <= 0 || deadline <= ctx.now,
    ensures
        create_step(m, ctx, title, description, reward_amount, reward_asset, deadline, category, skills)
            == (m, Err::<Ident, BountyError>(BountyError::Validation)),
{
}

/// An update attempted by anyone but the owner fails as unauthorized and
/// leaves the stored record — the whole store — unchanged.
pub proof fn lemma_update_by_non_owner_fails(m: StoreModel, ctx: OpContext, id: Ident, p: BountyPatch)
    requires
        has_bounty(m.bounties, id),
        ctx.caller != bounty_at(m.bounties, id).owner,
    ensures
        update_step(m, ctx, id, p) == (
            m,
            Err::<Bounty, BountyError>(BountyError::Unauthorized),
        ),
{
}

/// A `Completed` bounty cannot be cancelled, even by its owner.
pub proof fn lemma_cancel_completed_fails(m: StoreModel, ctx: OpContext, id: Ident)
    requires
        has_bounty(m.bounties, id),
        ctx.caller == bounty_at(m.bounties, id).owner,
        bounty_at(m.bounties, id).status == BountyStatus::Completed,
    ensures
        cancel_step(m, ctx, id) == (m, Err::<Bounty, BountyError>(BountyError::InvalidState)),
{
}

/// Cancelling an `Open` or `InProgress` bounty as its owner succeeds and
/// sets the stored status to `Cancelled`.
pub proof fn lemma_cancel_active_succeeds(m: StoreModel, ctx: OpContext, id: Ident)
    requires
        wf_model(m),
        has_bounty(m.bounties, id),
        ctx.caller == bounty_at(m.bounties, id).owner,
        bounty_at(m.bounties, id).status == BountyStatus::Open || bounty_at(m.bounties, id).status
            == BountyStatus::InProgress,
    ensures
        ({
            let (m2, r) = cancel_step(m, ctx, id);
            &&& r == Ok::<Bounty, BountyError>(
                Bounty { status: BountyStatus::Cancelled, updated: ctx.now, ..bounty_at(m.bounties, id) },
            )
            &&& wf_model(m2)
            &&& has_bounty(m2.bounties, id)
            &&& bounty_at(m2.bounties, id).status == BountyStatus::Cancelled
        }),
{
    let i = bounty_index(m.bounties, id);
    let b2 = Bounty { status: BountyStatus::Cancelled, updated: ctx.now, ..bounty_at(m.bounties, id) };
    lemma_wf_replace_bounty(m, i, b2);
    lemma_bounty_index_unique(m.bounties.update(i, b2), id, i);
}

/// Submitting work against a bounty whose deadline has passed fails,
/// whatever the bounty's status, and writes nothing.
pub proof fn lemma_submit_past_deadline_fails(m: StoreModel, ctx: OpContext, bounty_id: Ident, content: String)
    requires
        has_bounty(m.bounties, bounty_id),
        ctx.now > bounty_at(m.bounties, bounty_id).deadline,
    ensures
        submit_step(m, ctx, bounty_id, content) == (
            m,
            Err::<Ident, BountyError>(BountyError::InvalidState),
        ),
{
}

/// Submitting work against a `Cancelled` or `Completed` bounty fails and
/// writes nothing.
pub proof fn lemma_submit_to_terminal_fails(m: StoreModel, ctx: OpContext, bounty_id: Ident, content: String)
    requires
        has_bounty(m.bounties, bounty_id),
        terminal_bounty(bounty_at(m.bounties, bounty_id)),
    ensures
        submit_step(m, ctx, bounty_id, content) == (
            m,
            Err::<Ident, BountyError>(BountyError::InvalidState),
        ),
{
}

/// A first submission against an `Open` bounty succeeds and moves the bounty
/// to `InProgress`, leaving its deadline and owner as they were.
pub proof fn lemma_submit_opens_progress(m: StoreModel, ctx: OpContext, bounty_id: Ident, content: String)
    requires
        wf_model(m),
        !has_submission(m.submissions, ctx.fresh_id),
        has_bounty(m.bounties, bounty_id),
        bounty_at(m.bounties, bounty_id).status == BountyStatus::Open,
        ctx.now <= bounty_at(m.bounties, bounty_id).deadline,
    ensures
        ({
            let (m2, r) = submit_step(m, ctx, bounty_id, content);
            let b = bounty_at(m.bounties, bounty_id);
            &&& r == Ok::<Ident, BountyError>(ctx.fresh_id)
            &&& wf_model(m2)
            &&& has_bounty(m2.bounties, bounty_id)
            &&& bounty_at(m2.bounties, bounty_id) == (Bounty {
                status: BountyStatus::InProgress,
                updated: ctx.now,
                ..b
            })
        }),
{
    let b = bounty_at(m.bounties, bounty_id);
    let i = bounty_index(m.bounties, bounty_id);
    let sub = new_submission(ctx, bounty_id, content);
    lemma_wf_push_submission(m, sub);
    let m_mid = StoreModel { submissions: m.submissions.push(sub), ..m };
    let b2 = Bounty { status: BountyStatus::InProgress, updated: ctx.now, ..b };
    lemma_wf_replace_bounty(m_mid, i, b2);
    lemma_bounty_index_unique(m.bounties.update(i, b2), bounty_id, i);
}

/// A submission against an `InProgress` bounty succeeds and leaves the
/// bounty record untouched — in particular still `InProgress`, so later
/// submissions against it behave the same.
pub proof fn lemma_submit_keeps_progress(m: StoreModel, ctx: OpContext, bounty_id: Ident, content: String)
    requires
        wf_model(m),
        !has_submission(m.submissions, ctx.fresh_id),
        has_bounty(m.bounties, bounty_id),
        bounty_at(m.bounties, bounty_id).status == BountyStatus::InProgress,
        ctx.now <= bounty_at(m.bounties, bounty_id).deadline,
    ensures
        ({
            let (m2, r) = submit_step(m, ctx, bounty_id, content);
            &&& r == Ok::<Ident, BountyError>(ctx.fresh_id)
            &&& wf_model(m2)
            &&& m2.bounties == m.bounties
        }),
{
    lemma_wf_push_submission(m, new_submission(ctx, bounty_id, content));
}

/// The first submission against an `Open` bounty moves it to `InProgress`,
/// and a second submission then leaves it `InProgress`: submitting never
/// moves a bounty anywhere else.
pub proof fn lemma_two_submissions_stay_in_progress(
    m: StoreModel,
    ctx1: OpContext,
    ctx2: OpContext,
    bounty_id: Ident,
    content1: String,
    content2: String,
)
    requires
        wf_model(m),
        !has_submission(m.submissions, ctx1.fresh_id),
        !has_submission(m.submissions, ctx2.fresh_id),
        ctx2.fresh_id != ctx1.fresh_id,
        has_bounty(m.bounties, bounty_id),
        bounty_at(m.bounties, bounty_id).status == BountyStatus::Open,
        ctx1.now <= bounty_at(m.bounties, bounty_id).deadline,
        ctx2.now <= bounty_at(m.bounties, bounty_id).deadline,
    ensures
        ({
            let (m2, r1) = submit_step(m, ctx1, bounty_id, content1);
            let (m3, r2) = submit_step(m2, ctx2, bounty_id, content2);
            &&& r1 == Ok::<Ident, BountyError>(ctx1.fresh_id)
            &&& r2 == Ok::<Ident, BountyError>(ctx2.fresh_id)
            &&& bounty_at(m2.bounties, bounty_id).status == BountyStatus::InProgress
            &&& bounty_at(m3.bounties, bounty_id).status == BountyStatus::InProgress
        }),
{
    lemma_submit_opens_progress(m, ctx1, bounty_id, content1);
    let m2 = submit_step(m, ctx1, bounty_id, content1).0;
    assert forall|j: int| 0 <= j < m2.submissions.len() implies m2.submissions[j].id
        != ctx2.fresh_id by {
        if j < m.submissions.len() {
            assert(m.submissions[j].id != ctx2.fresh_id);
        }
    }
    lemma_submit_keeps_progress(m2, ctx2, bounty_id, content2);
}

/// A successful submission appends exactly one record — the caller's, made
/// now, `Pending` — to the bounty's listing, and every listing keeps
/// creation order because it only ever grows at its end.
pub proof fn lemma_submit_appends_to_listing(m: StoreModel, ctx: OpContext, bounty_id: Ident, content: String)
    requires
        has_bounty(m.bounties, bounty_id),
        submit_step(m, ctx, bounty_id, content).1 is Ok,
    ensures
        submissions_of(submit_step(m, ctx, bounty_id, content).0.submissions, bounty_id)
            == submissions_of(m.submissions, bounty_id).push(new_submission(ctx, bounty_id, content)),
{
    broadcast use Seq::lemma_filter_push;

}

/// Accepting a `Pending` submission of a non-terminal bounty as that
/// bounty's owner succeeds: the submission becomes `Accepted`, the bounty
/// `Completed`, and the one payment handed back moves exactly the bounty's
/// reward from its owner to the submission's applicant.
pub proof fn lemma_accept_completes_and_pays(m: StoreModel, ctx: OpContext, submission_id: Ident)
    requires
        wf_model(m),
        has_submission(m.submissions, submission_id),
        submission_at(m.submissions, submission_id).status == SubmissionStatus::Pending,
        ctx.caller == bounty_at(
            m.bounties,
            submission_at(m.submissions, submission_id).bounty_id,
        ).owner,
        !terminal_bounty(bounty_at(m.bounties, submission_at(m.submissions, submission_id).bounty_id)),
    ensures
        ({
            let (m2, r) = accept_step(m, ctx, submission_id);
            let sub = submission_at(m.submissions, submission_id);
            let b = bounty_at(m.bounties, sub.bounty_id);
            &&& r == Ok::<(Submission, TransferIntent), BountyError>(
                (
                    Submission { status: SubmissionStatus::Accepted, ..sub },
                    TransferIntent {
                        asset: b.reward_asset,
                        from: b.owner,
                        to: sub.applicant,
                        amount: b.reward_amount,
                    },
                ),
            )
            &&& wf_model(m2)
            &&& submission_at(m2.submissions, submission_id).status == SubmissionStatus::Accepted
            &&& bounty_at(m2.bounties, sub.bounty_id).status == BountyStatus::Completed
            &&& bounty_at(m2.bounties, sub.bounty_id).updated == ctx.now
        }),
{
    let sub = submission_at(m.submissions, submission_id);
    let b = bounty_at(m.bounties, sub.bounty_id);
    let si = submission_index(m.submissions, submission_id);
    let bi = bounty_index(m.bounties, sub.bounty_id);
    let sub2 = Submission { status: SubmissionStatus::Accepted, ..sub };
    let b2 = Bounty { status: BountyStatus::Completed, updated: ctx.now, ..b };
    lemma_wf_replace_submission(m, si, sub2);
    let m_mid = StoreModel { submissions: m.submissions.update(si, sub2), ..m };
    lemma_wf_replace_bounty(m_mid, bi, b2);
    lemma_submission_index_unique(m.submissions.update(si, sub2), submission_id, si);
    lemma_bounty_index_unique(m.bounties.update(bi, b2), sub.bounty_id, bi);
    assert(reward_intent(b, sub.applicant) == (TransferIntent {
        asset: b.reward_asset,
        from: b.owner,
        to: sub.applicant,
        amount: b.reward_amount,
    }));
}

/// An `Accepted` or `Rejected` submission is past its terminal state: even
/// the owner of a live bounty cannot accept it, and the attempt changes
/// nothing.
pub proof fn lemma_accept_non_pending_fails(m: StoreModel, ctx: OpContext, submission_id: Ident)
    requires
        has_submission(m.submissions, submission_id),
        has_bounty(m.bounties, submission_at(m.submissions, submission_id).bounty_id),
        submission_at(m.submissions, submission_id).status != SubmissionStatus::Pending,
    ensures
        accept_step(m, ctx, submission_id).0 == m,
        accept_step(m, ctx, submission_id).1 is Err,
        ctx.caller == bounty_at(
            m.bounties,
            submission_at(m.submissions, submission_id).bounty_id,
        ).owner ==> accept_step(m, ctx, submission_id) == (
            m,
            Err::<(Submission, TransferIntent), BountyError>(BountyError::InvalidState),
        ),
{
}

/// Rejecting a submission and then accepting that same submission — even as
/// the bounty's owner, with the bounty still live — fails as an invalid
/// state and leaves the record `Rejected`: a rejection cannot be overturned.
pub proof fn lemma_accept_after_reject_fails(
    m: StoreModel,
    ctx1: OpContext,
    ctx2: OpContext,
    submission_id: Ident,
)
    requires
        wf_model(m),
        reject_step(m, ctx1, submission_id).1 is Ok,
        ctx2.caller == ctx1.caller,
    ensures
        ({
            let m2 = reject_step(m, ctx1, submission_id).0;
            &&& accept_step(m2, ctx2, submission_id) == (
                m2,
                Err::<(Submission, TransferIntent), BountyError>(BountyError::InvalidState),
            )
            &&& submission_at(m2.submissions, submission_id).status == SubmissionStatus::Rejected
        }),
{
    let sub = submission_at(m.submissions, submission_id);
    let si = submission_index(m.submissions, submission_id);
    let sub2 = Submission { status: SubmissionStatus::Rejected, ..sub };
    lemma_wf_replace_submission(m, si, sub2);
    let s2 = m.submissions.update(si, sub2);
    lemma_submission_index_unique(s2, submission_id, si);
}

/// At most one submission is ever accepted per bounty: a successful
/// acceptance completes the bounty, so accepting any further submission of
/// the same bounty — even as its owner — fails and changes nothing.
pub proof fn lemma_at_most_one_acceptance(
    m: StoreModel,
    ctx1: OpContext,
    ctx2: OpContext,
    first_id: Ident,
    second_id: Ident,
)
    requires
        wf_model(m),
        accept_step(m, ctx1, first_id).1 is Ok,
        has_submission(m.submissions, second_id),
        submission_at(m.submissions, second_id).bounty_id == submission_at(
            m.submissions,
            first_id,
        ).bounty_id,
        ctx2.caller == ctx1.caller,
    ensures
        ({
            let m2 = accept_step(m, ctx1, first_id).0;
            accept_step(m2, ctx2, second_id) == (
                m2,
                Err::<(Submission, TransferIntent), BountyError>(BountyError::InvalidState),
            )
        }),
{
    let sub1 = submission_at(m.submissions, first_id);
    let b = bounty_at(m.bounties, sub1.bounty_id);
    let si1 = submission_index(m.submissions, first_id);
    let bi = bounty_index(m.bounties, sub1.bounty_id);
    let sub1_acc = Submission { status: SubmissionStatus::Accepted, ..sub1 };
    let b_done = Bounty { status: BountyStatus::Completed, updated: ctx1.now, ..b };
    lemma_wf_replace_submission(m, si1, sub1_acc);
    let m_mid = StoreModel { submissions: m.submissions.update(si1, sub1_acc), ..m };
    lemma_wf_replace_bounty(m_mid, bi, b_done);
    let m2 = accept_step(m, ctx1, first_id).0;
    let si2 = submission_index(m.submissions, second_id);
    lemma_submission_index_unique(m2.submissions, second_id, si2);
    lemma_bounty_index_unique(m2.bounties, sub1.bounty_id, bi);
}

/// Once a bounty is `Completed` or `Cancelled`, none of its submissions can
/// be rejected any more: the attempt fails as an invalid state and changes
/// nothing.
pub proof fn lemma_reject_after_terminal_fails(m: StoreModel, ctx: OpContext, submission_id: Ident)
    requires
        has_submission(m.submissions, submission_id),
        has_bounty(m.bounties, submission_at(m.submissions, submission_id).bounty_id),
        ctx.caller == bounty_at(
            m.bounties,
            submission_at(m.submissions, submission_id).bounty_id,
        ).owner,
        terminal_bounty(bounty_at(m.bounties, submission_at(m.submissions, submission_id).bounty_id)),
    ensures
        reject_step(m, ctx, submission_id) == (
            m,
            Err::<Submission, BountyError>(BountyError::InvalidState),
        ),
{
}

/// Rejecting the same submission twice: the first rejection stores
/// `Rejected`; the second attempt (by the same caller) fails as an invalid
/// state and leaves the record `Rejected` — a rejection cannot be undone or
/// repeated.
pub proof fn lemma_reject_twice(m: StoreModel, ctx1: OpContext, ctx2: OpContext, submission_id: Ident)
    requires
        wf_model(m),
        reject_step(m, ctx1, submission_id).1 is Ok,
        ctx2.caller == ctx1.caller,
    ensures
        ({
            let m2 = reject_step(m, ctx1, submission_id).0;
            &&& wf_model(m2)
            &&& submission_at(m2.submissions, submission_id).status == SubmissionStatus::Rejected
            &&& reject_step(m2, ctx2, submission_id) == (
                m2,
                Err::<Submission, BountyError>(BountyError::InvalidState),
            )
            &&& submission_at(
                reject_step(m2, ctx2, submission_id).0.submissions,
                submission_id,
            ).status == SubmissionStatus::Rejected
        }),
{
    let sub = submission_at(m.submissions, submission_id);
    let si = submission_index(m.submissions, submission_id);
    let sub2 = Submission { status: SubmissionStatus::Rejected, ..sub };
    lemma_wf_replace_submission(m, si, sub2);
    let s2 = m.submissions.update(si, sub2);
    lemma_submission_index_unique(s2, submission_id, si);
}

} // verus!
