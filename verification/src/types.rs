//! The data model: identifiers, principals, the two record families, and the
//! plain values that cross the engine's boundary.

use vstd::prelude::*;

verus! {

/// An opaque 256-bit identifier, held as four 64-bit words.
///
/// Identifiers are produced by the host's collision-resistant ID source and
/// are only ever compared for equality.
#[derive(Clone, Copy, PartialEq, Eq, Structural, Debug)]
pub struct Ident {
    pub w0: u64,
    pub w1: u64,
    pub w2: u64,
    pub w3: u64,
}

/// The identity of a caller, owner or applicant; opaque beyond equality.
#[derive(Clone, Copy, PartialEq, Eq, Structural, Debug)]
pub struct Principal(pub u64);

/// A reference to the asset (token) a reward is paid in.
#[derive(Clone, Copy, PartialEq, Eq, Structural, Debug)]
pub struct AssetRef(pub u64);

/// The host-supplied context of one operation: the invoking principal, the
/// current time, and a fresh identifier from the ID source.
///
/// The clock is non-decreasing across calls and the ID source never repeats
/// an identifier; operations that allocate a record state the freshness they
/// need in their `requires`.
#[derive(Clone, Copy, PartialEq, Eq, Structural, Debug)]
pub struct OpContext {
    pub caller: Principal,
    pub now: u64,
    pub fresh_id: Ident,
}

/// The lifecycle state of a bounty.
///
/// `Review` is reserved: no operation currently transitions into or out of it.
#[derive(Clone, Copy, PartialEq, Eq, Structural, Debug)]
pub enum BountyStatus {
    Open,
    InProgress,
    Review,
    Completed,
    Cancelled,
}

/// The lifecycle state of a submission; `Accepted` and `Rejected` are terminal.
#[derive(Clone, Copy, PartialEq, Eq, Structural, Debug)]
pub enum SubmissionStatus {
    Pending,
    Accepted,
    Rejected,
}

/// Why an operation was refused. No store mutation is visible to the caller
/// when an operation returns an error.
#[derive(Clone, Copy, PartialEq, Eq, Structural, Debug)]
pub enum BountyError {
    /// An input failed validation: an empty title, a non-positive reward, or
    /// a deadline not strictly in the future.
    Validation,
    /// No bounty or submission is stored under the given identifier.
    NotFound,
    /// The caller is not the principal the operation requires.
    Unauthorized,
    /// The operation is not permitted in the entity's current status.
    InvalidState,
    /// The reward payment failed. The engine itself never returns this: it
    /// hands the payment to the embedding as a [`TransferIntent`], and the
    /// embedding reports a failed payment under this variant.
    Transfer,
}

/// A funded task posted by an owner.
#[derive(Debug)]
#[verifier::ext_equal]
pub struct Bounty {
    /// Unique identifier; immutable once created.
    pub id: Ident,
    /// Human-readable title; always non-empty in the store.
    pub title: String,
    /// Description of the task.
    pub description: String,
    /// Reward in the smallest unit of the asset; always strictly positive.
    pub reward_amount: i128,
    /// The asset the reward is paid in.
    pub reward_asset: AssetRef,
    /// The principal that created the bounty; immutable.
    pub owner: Principal,
    /// Timestamp after which new submissions are refused.
    pub deadline: u64,
    /// Current lifecycle state.
    pub status: BountyStatus,
    /// Free-form category label.
    pub category: String,
    /// Ordered list of required-skill labels.
    pub skills: Vec<String>,
    /// Timestamp of creation; immutable.
    pub created: u64,
    /// Timestamp of the last mutation.
    pub updated: u64,
}

/// The mathematical image of a [`Bounty`]: the same record with the skill
/// list abstracted to a sequence, so that two records that hold the same
/// values are equal as views.
#[verifier::ext_equal]
pub struct BountyView {
    pub id: Ident,
    pub title: String,
    pub description: String,
    pub reward_amount: i128,
    pub reward_asset: AssetRef,
    pub owner: Principal,
    pub deadline: u64,
    pub status: BountyStatus,
    pub category: String,
    pub skills: Seq<String>,
    pub created: u64,
    pub updated: u64,
}

impl View for Bounty {
    type V = BountyView;

    open spec fn view(&self) -> BountyView {
        BountyView {
            id: self.id,
            title: self.title,
            description: self.description,
            reward_amount: self.reward_amount,
            reward_asset: self.reward_asset,
            owner: self.owner,
            deadline: self.deadline,
            status: self.status,
            category: self.category,
            skills: self.skills@,
            created: self.created,
            updated: self.updated,
        }
    }
}

impl Clone for Bounty {
    fn clone(&self) -> (r: Self)
        ensures
            r@ == self@,
    {
        let skills = clone_labels(&self.skills);
        Bounty {
            id: self.id,
            title: self.title.clone(),
            description: self.description.clone(),
            reward_amount: self.reward_amount,
            reward_asset: self.reward_asset,
            owner: self.owner,
            deadline: self.deadline,
            status: self.status,
            category: self.category.clone(),
            skills,
            created: self.created,
            updated: self.updated,
        }
    }
}

/// Copies a list of labels, preserving it exactly.
fn clone_labels(labels: &Vec<String>) -> (r: Vec<String>)
    ensures
        r@ == labels@,
{
    let mut out: Vec<String> = Vec::new();
    let mut i: usize = 0;
    while i < labels.len()
        invariant
            i <= labels.len(),
            out@ == labels@.take(i as int),
        decreases labels.len() - i,
    {
        out.push(labels[i].clone());
        proof {
            assert(labels@.take((i + 1) as int) =~= labels@.take(i as int).push(labels@[i as int]));
        }
        i = i + 1;
    }
    proof {
        assert(labels@.take(labels@.len() as int) =~= labels@);
    }
    out
}

/// One applicant's work product against a bounty.
#[derive(Debug)]
#[verifier::ext_equal]
pub struct Submission {
    /// Unique identifier; immutable once created.
    pub id: Ident,
    /// The bounty this submission was made against; immutable.
    pub bounty_id: Ident,
    /// The principal that submitted the work; immutable.
    pub applicant: Principal,
    /// The work artifact, or a pointer to it.
    pub content: String,
    /// Timestamp of submission; immutable.
    pub created: u64,
    /// Current lifecycle state.
    pub status: SubmissionStatus,
}

impl Clone for Submission {
    fn clone(&self) -> (r: Self)
        ensures
            r == *self,
    {
        Submission {
            id: self.id,
            bounty_id: self.bounty_id,
            applicant: self.applicant,
            content: self.content.clone(),
            created: self.created,
            status: self.status,
        }
    }
}

/// A request to change some fields of a bounty: a field left `None` is kept
/// as it is, a field set to `Some` is validated and then replaces the stored
/// one.
pub struct BountyPatch {
    pub title: Option<String>,
    pub description: Option<String>,
    pub reward_amount: Option<i128>,
    pub reward_asset: Option<AssetRef>,
    pub deadline: Option<u64>,
    pub status: Option<BountyStatus>,
    pub category: Option<String>,
    pub skills: Option<Vec<String>>,
}

impl Default for BountyPatch {
    /// The patch that changes nothing (other than the record's `updated`
    /// timestamp when applied).
    fn default() -> (r: Self)
        ensures
            r.title is None,
            r.description is None,
            r.reward_amount is None,
            r.reward_asset is None,
            r.deadline is None,
            r.status is None,
            r.category is None,
            r.skills is None,
    {
        BountyPatch {
            title: None,
            description: None,
            reward_amount: None,
            reward_asset: None,
            deadline: None,
            status: None,
            category: None,
            skills: None,
        }
    }
}

/// A reward payment the embedding must carry out on the engine's behalf:
/// `amount` units of `asset` move from `from` to `to`.
#[derive(Clone, Copy, PartialEq, Eq, Structural, Debug)]
pub struct TransferIntent {
    pub asset: AssetRef,
    pub from: Principal,
    pub to: Principal,
    pub amount: i128,
}

} // verus!
