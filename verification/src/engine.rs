//! The executable bounty lifecycle engine: a store of bounty and submission
//! records with every operation proved equal to its step function in
//! [`crate::model`].

use vstd::prelude::*;

use crate::model::{
    accept_step, bounty_index, cancel_step, create_step, distinct_bounty_ids,
    distinct_submission_ids, has_bounty, has_submission, lemma_bounty_index_unique,
    lemma_remove_insert, lemma_submission_index_unique, lemma_wf_push_bounty,
    lemma_wf_push_submission, lemma_wf_replace_bounty, lemma_wf_replace_submission, lookup_bounty,
    lookup_submission, reject_step, submission_index, submissions_of, submit_step, update_step,
    wf_model, StoreModel,
};
use crate::types::{
    AssetRef, Bounty, BountyError, BountyPatch, BountyStatus, BountyView, Ident, OpContext,
    Submission, SubmissionStatus, TransferIntent,
};

verus! {

/// The views of a sequence of bounty records.
pub open spec fn bounty_views(s: Seq<Bounty>) -> Seq<BountyView> {
    s.map(|i: int, b: Bounty| b@)
}

/// Two bounty results carry the same outcome: equal records up to view on
/// success, the same error on failure.
pub open spec fn same_bounty_result(
    r: Result<Bounty, BountyError>,
    s: Result<Bounty, BountyError>,
) -> bool {
    match (r, s) {
        (Ok(a), Ok(b)) => a@ == b@,
        (Err(a), Err(b)) => a == b,
        _ => false,
    }
}

/// The bounty lifecycle engine: owns both record families, keeps them
/// well-formed, and performs every permitted transition.
pub struct BountyContract {
    bounty_recs: Vec<Bounty>,
    submission_recs: Vec<Submission>,
}

impl View for BountyContract {
    type V = StoreModel;

    closed spec fn view(&self) -> StoreModel {
        StoreModel { bounties: self.bounty_recs@, submissions: self.submission_recs@ }
    }
}

impl BountyContract {
    /// The store is well-formed; established by [`BountyContract::new`] and
    /// preserved by every operation.
    pub open spec fn wf(&self) -> bool {
        wf_model(self@)
    }

    /// An empty store.
    pub fn new() -> (r: BountyContract)
        ensures
            r.wf(),
            r@.bounties.len() == 0,
            r@.submissions.len() == 0,
    {
        BountyContract { bounty_recs: Vec::new(), submission_recs: Vec::new() }
    }

    /// The position of the bounty stored under `id`, if any.
    fn bounty_pos(&self, id: Ident) -> (r: Option<usize>)
        requires
            distinct_bounty_ids(self@.bounties),
        ensures
            match r {
                Some(i) => has_bounty(self@.bounties, id) && i == bounty_index(self@.bounties, id)
                    && i < self@.bounties.len() && self@.bounties[i as int].id == id,
                None => !has_bounty(self@.bounties, id),
            },
    {
        let mut i: usize = 0;
        while i < self.bounty_recs.len()
            invariant
                i <= self@.bounties.len(),
                distinct_bounty_ids(self@.bounties),
                forall|j: int| 0 <= j < i ==> self@.bounties[j].id != id,
            decreases self@.bounties.len() - i,
        {
            if self.bounty_recs[i].id == id {
                proof {
                    lemma_bounty_index_unique(self@.bounties, id, i as int);
                }
                return Some(i);
            }
            i = i + 1;
        }
        None
    }

    /// The position of the submission stored under `id`, if any.
    fn submission_pos(&self, id: Ident) -> (r: Option<usize>)
        requires
            distinct_submission_ids(self@.submissions),
        ensures
            match r {
                Some(i) => has_submission(self@.submissions, id) && i == submission_index(
                    self@.submissions,
                    id,
                ) && i < self@.submissions.len() && self@.submissions[i as int].id == id,
                None => !has_submission(self@.submissions, id),
            },
    {
        let mut i: usize = 0;
        while i < self.submission_recs.len()
            invariant
                i <= self@.submissions.len(),
                distinct_submission_ids(self@.submissions),
                forall|j: int| 0 <= j < i ==> self@.submissions[j].id != id,
            decreases self@.submissions.len() - i,
        {
            if self.submission_recs[i].id == id {
                proof {
                    lemma_submission_index_unique(self@.submissions, id, i as int);
                }
                return Some(i);
            }
            i = i + 1;
        }
        None
    }

    /// Posts a new bounty. The title must be non-empty, the reward strictly
    /// positive and the deadline strictly in the future; on any violation the
    /// call is rejected and nothing is written. On success the record is
    /// stored with status `Open`, `created = updated = ctx.now`, and its
    /// fresh identifier is returned.
    pub fn create_bounty(
        &mut self,
        ctx: OpContext,
        title: String,
        description: String,
        reward_amount: i128,
        reward_asset: AssetRef,
        deadline: u64,
        category: String,
        skills: Vec<String>,
    ) -> (r: Result<Ident, BountyError>)
        requires
            old(self).wf(),
            !has_bounty(old(self)@.bounties, ctx.fresh_id),
        ensures
            final(self).wf(),
            final(self)@ == create_step(
                old(self)@,
                ctx,
                title,
                description,
                reward_amount,
                reward_asset,
                deadline,
                category,
                skills,
            ).0,
            r == create_step(
                old(self)@,
                ctx,
                title,
                description,
                reward_amount,
                reward_asset,
                deadline,
                category,
                skills,
            ).1,
    {
        if title.as_str().is_empty() {
            return Err(BountyError::Validation);
        }
        if reward_amount <= 0 {
            return Err(BountyError::Validation);
        }
        if deadline <= ctx.now {
            return Err(BountyError::Validation);
        }
        let bounty = Bounty {
            id: ctx.fresh_id,
            title,
            description,
            reward_amount,
            reward_asset,
            owner: ctx.caller,
            deadline,
            status: BountyStatus::Open,
            category,
            skills,
            created: ctx.now,
            updated: ctx.now,
        };
        proof {
            lemma_wf_push_bounty(old(self)@, bounty);
        }
        self.bounty_recs.push(bounty);
        proof {
            assert(self@ =~= create_step(
                old(self)@,
                ctx,
                title,
                description,
                reward_amount,
                reward_asset,
                deadline,
                category,
                skills,
            ).0);
        }
        Ok(ctx.fresh_id)
    }

    /// Looks a bounty up by identifier; `NotFound` if absent.
    pub fn get_bounty(&self, id: Ident) -> (r: Result<Bounty, BountyError>)
        requires
            self.wf(),
        ensures
            same_bounty_result(r, lookup_bounty(self@, id)),
    {
        match self.bounty_pos(id) {
            Some(i) => Ok(self.bounty_recs[i].clone()),
            None => Err(BountyError::NotFound),
        }
    }

    /// All bounties, in creation order.
    pub fn list_bounties(&self) -> (r: Vec<Bounty>)
        ensures
            bounty_views(r@) == bounty_views(self@.bounties),
    {
        let mut out: Vec<Bounty> = Vec::new();
        let mut i: usize = 0;
        while i < self.bounty_recs.len()
            invariant
                i <= self@.bounties.len(),
                out@.len() == i,
                forall|j: int| 0 <= j < i ==> #[trigger] out@[j]@ == self@.bounties[j]@,
            decreases self@.bounties.len() - i,
        {
            out.push(self.bounty_recs[i].clone());
            i = i + 1;
        }
        proof {
            assert(bounty_views(out@) =~= bounty_views(self@.bounties));
        }
        out
    }

    /// Changes the provided fields of a bounty. Only the owner may update; a
    /// provided but invalid field fails the whole call with `Validation`
    /// before anything is written. A provided `status` is stored as given —
    /// this path makes no transition check. On success `updated` is
    /// refreshed and the stored record returned.
    pub fn update_bounty(&mut self, ctx: OpContext, id: Ident, patch: BountyPatch) -> (r: Result<
        Bounty,
        BountyError,
    >)
        requires
            old(self).wf(),
        ensures
            final(self).wf(),
            final(self)@ == update_step(old(self)@, ctx, id, patch).0,
            same_bounty_result(r, update_step(old(self)@, ctx, id, patch).1),
    {
        let i = match self.bounty_pos(id) {
            Some(i) => i,
            None => {
                return Err(BountyError::NotFound);
            },
        };
        if ctx.caller != self.bounty_recs[i].owner {
            return Err(BountyError::Unauthorized);
        }
        match &patch.title {
            Some(t) => {
                if t.as_str().is_empty() {
                    return Err(BountyError::Validation);
                }
            },
            None => {},
        }
        match &patch.reward_amount {
            Some(a) => {
                if *a <= 0 {
                    return Err(BountyError::Validation);
                }
            },
            None => {},
        }
        match &patch.deadline {
            Some(d) => {
                if *d <= ctx.now {
                    return Err(BountyError::Validation);
                }
            },
            None => {},
        }
        let mut b = self.bounty_recs.remove(i);
        match patch.title {
            Some(t) => {
                b.title = t;
            },
            None => {},
        }
        match patch.description {
            Some(d) => {
                b.description = d;
            },
            None => {},
        }
        match patch.reward_amount {
            Some(a) => {
                b.reward_amount = a;
            },
            None => {},
        }
        match patch.reward_asset {
            Some(a) => {
                b.reward_asset = a;
            },
            None => {},
        }
        match patch.deadline {
            Some(d) => {
                b.deadline = d;
            },
            None => {},
        }
        match patch.status {
            Some(s) => {
                b.status = s;
            },
            None => {},
        }
        match patch.category {
            Some(c) => {
                b.category = c;
            },
            None => {},
        }
        match patch.skills {
            Some(s) => {
                b.skills = s;
            },
            None => {},
        }
        b.updated = ctx.now;
        let out = b.clone();
        proof {
            lemma_remove_insert(old(self)@.bounties, i as int, b);
            lemma_wf_replace_bounty(old(self)@, i as int, b);
        }
        self.bounty_recs.insert(i, b);
        proof {
            assert(self@ =~= update_step(old(self)@, ctx, id, patch).0);
        }
        Ok(out)
    }

    /// Cancels a bounty. Only the owner may cancel, and a `Completed` bounty
    /// cannot be; from any other status the bounty becomes `Cancelled` and
    /// `updated` is refreshed.
    pub fn cancel_bounty(&mut self, ctx: OpContext, id: Ident) -> (r: Result<Bounty, BountyError>)
        requires
            old(self).wf(),
        ensures
            final(self).wf(),
            final(self)@ == cancel_step(old(self)@, ctx, id).0,
            same_bounty_result(r, cancel_step(old(self)@, ctx, id).1),
    {
        let i = match self.bounty_pos(id) {
            Some(i) => i,
            None => {
                return Err(BountyError::NotFound);
            },
        };
        if ctx.caller != self.bounty_recs[i].owner {
            return Err(BountyError::Unauthorized);
        }
        if self.bounty_recs[i].status == BountyStatus::Completed {
            return Err(BountyError::InvalidState);
        }
        let mut b = self.bounty_recs.remove(i);
        b.status = BountyStatus::Cancelled;
        b.updated = ctx.now;
        let out = b.clone();
        proof {
            lemma_remove_insert(old(self)@.bounties, i as int, b);
            lemma_wf_replace_bounty(old(self)@, i as int, b);
        }
        self.bounty_recs.insert(i, b);
        proof {
            assert(self@ =~= cancel_step(old(self)@, ctx, id).0);
        }
        Ok(out)
    }

    /// Submits work against a bounty. The bounty must exist, be `Open` or
    /// `InProgress`, and not be past its deadline. The submission is stored
    /// as `Pending` and its fresh identifier returned; an `Open` bounty moves
    /// to `InProgress`.
    pub fn submit_work(&mut self, ctx: OpContext, bounty_id: Ident, content: String) -> (r: Result<
        Ident,
        BountyError,
    >)
        requires
            old(self).wf(),
            !has_submission(old(self)@.submissions, ctx.fresh_id),
        ensures
            final(self).wf(),
            final(self)@ == submit_step(old(self)@, ctx, bounty_id, content).0,
            r == submit_step(old(self)@, ctx, bounty_id, content).1,
    {
        let i = match self.bounty_pos(bounty_id) {
            Some(i) => i,
            None => {
                return Err(BountyError::NotFound);
            },
        };
        let was_open = self.bounty_recs[i].status == BountyStatus::Open;
        if !(was_open || self.bounty_recs[i].status == BountyStatus::InProgress) {
            return Err(BountyError::InvalidState);
        }
        if ctx.now > self.bounty_recs[i].deadline {
            return Err(BountyError::InvalidState);
        }
        let submission = Submission {
            id: ctx.fresh_id,
            bounty_id,
            applicant: ctx.caller,
            content,
            created: ctx.now,
            status: SubmissionStatus::Pending,
        };
        proof {
            lemma_wf_push_submission(old(self)@, submission);
        }
        self.submission_recs.push(submission);
        if was_open {
            let mut b = self.bounty_recs.remove(i);
            b.status = BountyStatus::InProgress;
            b.updated = ctx.now;
            proof {
                lemma_remove_insert(old(self)@.bounties, i as int, b);
                lemma_wf_replace_bounty(
                    StoreModel { submissions: self@.submissions, ..old(self)@ },
                    i as int,
                    b,
                );
            }
            self.bounty_recs.insert(i, b);
        }
        proof {
            assert(self@ =~= submit_step(old(self)@, ctx, bounty_id, content).0);
        }
        Ok(ctx.fresh_id)
    }

    /// All submissions made against one bounty, in creation order; empty for
    /// an unknown bounty identifier.
    pub fn list_submissions(&self, bounty_id: Ident) -> (r: Vec<Submission>)
        ensures
            r@ == submissions_of(self@.submissions, bounty_id),
    {
        let mut out: Vec<Submission> = Vec::new();
        let mut i: usize = 0;
        while i < self.submission_recs.len()
            invariant
                i <= self@.submissions.len(),
                out@ == submissions_of(self@.submissions.take(i as int), bounty_id),
            decreases self@.submissions.len() - i,
        {
            proof {
                broadcast use Seq::lemma_filter_push;

                assert(self@.submissions.take(i + 1) =~= self@.submissions.take(i as int).push(
                    self@.submissions[i as int],
                ));
            }
            if self.submission_recs[i].bounty_id == bounty_id {
                out.push(self.submission_recs[i].clone());
            }
            i = i + 1;
        }
        proof {
            assert(self@.submissions.take(self@.submissions.len() as int) =~= self@.submissions);
        }
        out
    }

    /// Looks a submission up by identifier; `NotFound` if absent.
    pub fn get_submission(&self, id: Ident) -> (r: Result<Submission, BountyError>)
        requires
            self.wf(),
        ensures
            r == lookup_submission(self@, id),
    {
        match self.submission_pos(id) {
            Some(i) => Ok(self.submission_recs[i].clone()),
            None => Err(BountyError::NotFound),
        }
    }

    /// Accepts a submission. Only the owner of the submission's bounty may
    /// accept, only while the bounty is not `Completed` or `Cancelled`, and
    /// only a `Pending` submission — an `Accepted` or `Rejected` one is past
    /// its terminal state. The submission becomes `Accepted`, the bounty
    /// `Completed`, and the one reward payment owed — the full
    /// `reward_amount` from the owner to the applicant — is returned for the
    /// embedding to carry out.
    ///
    /// The store commits before the payment is made — a deliberate, known
    /// ordering risk: an embedding whose payment then fails must compensate,
    /// or surface [`BountyError::Transfer`] and treat the records as
    /// committed.
    pub fn accept_submission(&mut self, ctx: OpContext, submission_id: Ident) -> (r: Result<
        (Submission, TransferIntent),
        BountyError,
    >)
        requires
            old(self).wf(),
        ensures
            final(self).wf(),
            final(self)@ == accept_step(old(self)@, ctx, submission_id).0,
            r == accept_step(old(self)@, ctx, submission_id).1,
    {
        let si = match self.submission_pos(submission_id) {
            Some(i) => i,
            None => {
                return Err(BountyError::NotFound);
            },
        };
        let bi = match self.bounty_pos(self.submission_recs[si].bounty_id) {
            Some(i) => i,
            None => {
                return Err(BountyError::NotFound);
            },
        };
        if ctx.caller != self.bounty_recs[bi].owner {
            return Err(BountyError::Unauthorized);
        }
        if self.bounty_recs[bi].status == BountyStatus::Completed || self.bounty_recs[bi].status
            == BountyStatus::Cancelled {
            return Err(BountyError::InvalidState);
        }
        if !(self.submission_recs[si].status == SubmissionStatus::Pending) {
            return Err(BountyError::InvalidState);
        }
        let mut sub = self.submission_recs.remove(si);
        sub.status = SubmissionStatus::Accepted;
        let out_sub = sub.clone();
        proof {
            lemma_remove_insert(old(self)@.submissions, si as int, sub);
            lemma_wf_replace_submission(old(self)@, si as int, sub);
        }
        self.submission_recs.insert(si, sub);
        let mut b = self.bounty_recs.remove(bi);
        let intent = TransferIntent {
            asset: b.reward_asset,
            from: b.owner,
            to: out_sub.applicant,
            amount: b.reward_amount,
        };
        b.status = BountyStatus::Completed;
        b.updated = ctx.now;
        proof {
            lemma_remove_insert(old(self)@.bounties, bi as int, b);
            lemma_wf_replace_bounty(
                StoreModel { submissions: self@.submissions, ..old(self)@ },
                bi as int,
                b,
            );
        }
        self.bounty_recs.insert(bi, b);
        proof {
            assert(self@ =~= accept_step(old(self)@, ctx, submission_id).0);
        }
        Ok((out_sub, intent))
    }

    /// Rejects a submission. Only the owner of the submission's bounty may
    /// reject, only while the bounty is still live — once it is `Completed`
    /// or `Cancelled` its submissions can no longer be rejected — and only a
    /// `Pending` submission. The submission becomes `Rejected` and the bounty
    /// is untouched, so further submissions stay possible up to the deadline.
    pub fn reject_submission(&mut self, ctx: OpContext, submission_id: Ident) -> (r: Result<
        Submission,
        BountyError,
    >)
        requires
            old(self).wf(),
        ensures
            final(self).wf(),
            final(self)@ == reject_step(old(self)@, ctx, submission_id).0,
            r == reject_step(old(self)@, ctx, submission_id).1,
    {
        let si = match self.submission_pos(submission_id) {
            Some(i) => i,
            None => {
                return Err(BountyError::NotFound);
            },
        };
        let bi = match self.bounty_pos(self.submission_recs[si].bounty_id) {
            Some(i) => i,
            None => {
                return Err(BountyError::NotFound);
            },
        };
        if ctx.caller != self.bounty_recs[bi].owner {
            return Err(BountyError::Unauthorized);
        }
        if self.bounty_recs[bi].status == BountyStatus::Completed || self.bounty_recs[bi].status
            == BountyStatus::Cancelled {
            return Err(BountyError::InvalidState);
        }
        if !(self.submission_recs[si].status == SubmissionStatus::Pending) {
            return Err(BountyError::InvalidState);
        }
        let mut sub = self.submission_recs.remove(si);
        sub.status = SubmissionStatus::Rejected;
        let out = sub.clone();
        proof {
            lemma_remove_insert(old(self)@.submissions, si as int, sub);
            lemma_wf_replace_submission(old(self)@, si as int, sub);
        }
        self.submission_recs.insert(si, sub);
        proof {
            assert(self@ =~= reject_step(old(self)@, ctx, submission_id).0);
        }
        Ok(out)
    }
}

} // verus!
