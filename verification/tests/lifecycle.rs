use bounty_board::engine::BountyContract;
use bounty_board::types::{
    AssetRef, BountyError, BountyPatch, BountyStatus, Ident, OpContext, Principal,
    SubmissionStatus, TransferIntent,
};

fn ident(n: u64) -> Ident {
    Ident { w0: n, w1: n, w2: 0, w3: 1 }
}

fn ctx(caller: u64, now: u64, fresh: u64) -> OpContext {
    OpContext { caller: Principal(caller), now, fresh_id: ident(fresh) }
}

fn no_change() -> BountyPatch {
    BountyPatch::default()
}

/// A bounty by principal 1, reward 50 of asset 9, deadline 200, posted at
/// time 100 under identifier `fresh`.
fn post(c: &mut BountyContract, fresh: u64) -> Ident {
    c.create_bounty(
        ctx(1, 100, fresh),
        "fix the parser".to_string(),
        "the parser mangles escapes".to_string(),
        50,
        AssetRef(9),
        200,
        "engineering".to_string(),
        vec!["rust".to_string(), "parsing".to_string()],
    )
    .unwrap()
}

#[test]
fn create_then_get_returns_open_record() {
    let mut c = BountyContract::new();
    let id = post(&mut c, 7);
    assert_eq!(id, ident(7));
    let b = c.get_bounty(id).unwrap();
    assert_eq!(b.id, id);
    assert_eq!(b.title, "fix the parser");
    assert_eq!(b.description, "the parser mangles escapes");
    assert_eq!(b.reward_amount, 50);
    assert_eq!(b.reward_asset, AssetRef(9));
    assert_eq!(b.owner, Principal(1));
    assert_eq!(b.deadline, 200);
    assert_eq!(b.status, BountyStatus::Open);
    assert_eq!(b.category, "engineering");
    assert_eq!(b.skills, vec!["rust".to_string(), "parsing".to_string()]);
    assert_eq!(b.created, 100);
    assert_eq!(b.updated, 100);
    assert_eq!(b.created, b.updated);
}

#[test]
fn get_unknown_bounty_is_not_found() {
    let c = BountyContract::new();
    assert_eq!(c.get_bounty(ident(5)).unwrap_err(), BountyError::NotFound);
}

#[test]
fn create_rejects_empty_title() {
    let mut c = BountyContract::new();
    let r = c.create_bounty(
        ctx(1, 100, 7),
        String::new(),
        "d".to_string(),
        50,
        AssetRef(9),
        200,
        "c".to_string(),
        Vec::new(),
    );
    assert_eq!(r.unwrap_err(), BountyError::Validation);
    assert!(c.list_bounties().is_empty());
}

#[test]
fn create_rejects_non_positive_reward() {
    let mut c = BountyContract::new();
    for reward in [0i128, -5i128] {
        let r = c.create_bounty(
            ctx(1, 100, 7),
            "t".to_string(),
            "d".to_string(),
            reward,
            AssetRef(9),
            200,
            "c".to_string(),
            Vec::new(),
        );
        assert_eq!(r.unwrap_err(), BountyError::Validation);
    }
    assert!(c.list_bounties().is_empty());
}

#[test]
fn create_rejects_deadline_not_in_future() {
    let mut c = BountyContract::new();
    for deadline in [100u64, 99u64] {
        let r = c.create_bounty(
            ctx(1, 100, 7),
            "t".to_string(),
            "d".to_string(),
            50,
            AssetRef(9),
            deadline,
            "c".to_string(),
            Vec::new(),
        );
        assert_eq!(r.unwrap_err(), BountyError::Validation);
    }
    assert!(c.list_bounties().is_empty());
}

#[test]
fn update_by_non_owner_is_unauthorized_and_writes_nothing() {
    let mut c = BountyContract::new();
    let id = post(&mut c, 7);
    let before = c.get_bounty(id).unwrap();
    let mut p = no_change();
    p.title = Some("hijacked".to_string());
    p.reward_amount = Some(1);
    let r = c.update_bounty(ctx(2, 150, 8), id, p);
    assert_eq!(r.unwrap_err(), BountyError::Unauthorized);
    let after = c.get_bounty(id).unwrap();
    assert_eq!(after.title, before.title);
    assert_eq!(after.reward_amount, before.reward_amount);
    assert_eq!(after.updated, before.updated);
}

#[test]
fn update_applies_provided_fields_and_keeps_the_rest() {
    let mut c = BountyContract::new();
    let id = post(&mut c, 7);
    let mut p = no_change();
    p.title = Some("fix the lexer".to_string());
    p.reward_amount = Some(75);
    p.deadline = Some(500);
    let b = c.update_bounty(ctx(1, 150, 8), id, p).unwrap();
    assert_eq!(b.title, "fix the lexer");
    assert_eq!(b.reward_amount, 75);
    assert_eq!(b.deadline, 500);
    assert_eq!(b.description, "the parser mangles escapes");
    assert_eq!(b.owner, Principal(1));
    assert_eq!(b.created, 100);
    assert_eq!(b.updated, 150);
    let stored = c.get_bounty(id).unwrap();
    assert_eq!(stored.title, "fix the lexer");
    assert_eq!(stored.updated, 150);
}

#[test]
fn update_sets_status_directly_without_transition_check() {
    let mut c = BountyContract::new();
    let id = post(&mut c, 7);
    let mut p = no_change();
    p.status = Some(BountyStatus::Review);
    p.category = Some("triage".to_string());
    p.skills = Some(vec!["review".to_string()]);
    let b = c.update_bounty(ctx(1, 150, 8), id, p).unwrap();
    assert_eq!(b.status, BountyStatus::Review);
    assert_eq!(b.category, "triage");
    assert_eq!(b.skills, vec!["review".to_string()]);
    assert_eq!(c.get_bounty(id).unwrap().status, BountyStatus::Review);
}

#[test]
fn update_with_invalid_field_fails_whole_call() {
    let mut c = BountyContract::new();
    let id = post(&mut c, 7);
    let mut p = no_change();
    p.description = Some("new description".to_string());
    p.reward_amount = Some(0);
    let r = c.update_bounty(ctx(1, 150, 8), id, p);
    assert_eq!(r.unwrap_err(), BountyError::Validation);
    let stored = c.get_bounty(id).unwrap();
    assert_eq!(stored.description, "the parser mangles escapes");
    assert_eq!(stored.reward_amount, 50);
    assert_eq!(stored.updated, 100);

    let mut p2 = no_change();
    p2.title = Some(String::new());
    assert_eq!(c.update_bounty(ctx(1, 150, 8), id, p2).unwrap_err(), BountyError::Validation);
    let mut p3 = no_change();
    p3.deadline = Some(150);
    assert_eq!(c.update_bounty(ctx(1, 150, 8), id, p3).unwrap_err(), BountyError::Validation);
}

#[test]
fn update_unknown_bounty_is_not_found() {
    let mut c = BountyContract::new();
    let r = c.update_bounty(ctx(1, 150, 8), ident(3), no_change());
    assert_eq!(r.unwrap_err(), BountyError::NotFound);
}

#[test]
fn cancel_open_bounty_succeeds() {
    let mut c = BountyContract::new();
    let id = post(&mut c, 7);
    let b = c.cancel_bounty(ctx(1, 150, 8), id).unwrap();
    assert_eq!(b.status, BountyStatus::Cancelled);
    assert_eq!(b.updated, 150);
    assert_eq!(c.get_bounty(id).unwrap().status, BountyStatus::Cancelled);
}

#[test]
fn cancel_in_progress_bounty_succeeds() {
    let mut c = BountyContract::new();
    let id = post(&mut c, 7);
    c.submit_work(ctx(2, 120, 8), id, "work".to_string()).unwrap();
    assert_eq!(c.get_bounty(id).unwrap().status, BountyStatus::InProgress);
    let b = c.cancel_bounty(ctx(1, 150, 9), id).unwrap();
    assert_eq!(b.status, BountyStatus::Cancelled);
}

#[test]
fn cancel_completed_bounty_fails() {
    let mut c = BountyContract::new();
    let id = post(&mut c, 7);
    let sub_id = c.submit_work(ctx(2, 120, 8), id, "work".to_string()).unwrap();
    c.accept_submission(ctx(1, 130, 9), sub_id).unwrap();
    let r = c.cancel_bounty(ctx(1, 150, 10), id);
    assert_eq!(r.unwrap_err(), BountyError::InvalidState);
    assert_eq!(c.get_bounty(id).unwrap().status, BountyStatus::Completed);
}

#[test]
fn cancel_by_non_owner_is_unauthorized() {
    let mut c = BountyContract::new();
    let id = post(&mut c, 7);
    assert_eq!(c.cancel_bounty(ctx(2, 150, 8), id).unwrap_err(), BountyError::Unauthorized);
    assert_eq!(c.get_bounty(id).unwrap().status, BountyStatus::Open);
}

#[test]
fn submit_past_deadline_fails_whatever_the_status() {
    let mut c = BountyContract::new();
    let id = post(&mut c, 7);
    let r = c.submit_work(ctx(2, 201, 8), id, "late".to_string());
    assert_eq!(r.unwrap_err(), BountyError::InvalidState);
    assert!(c.list_submissions(id).is_empty());

    c.submit_work(ctx(2, 120, 8), id, "on time".to_string()).unwrap();
    let r2 = c.submit_work(ctx(3, 201, 9), id, "late again".to_string());
    assert_eq!(r2.unwrap_err(), BountyError::InvalidState);
    assert_eq!(c.list_submissions(id).len(), 1);
}

#[test]
fn submit_to_cancelled_or_completed_bounty_fails() {
    let mut c = BountyContract::new();
    let cancelled = post(&mut c, 7);
    c.cancel_bounty(ctx(1, 110, 8), cancelled).unwrap();
    let r = c.submit_work(ctx(2, 120, 9), cancelled, "work".to_string());
    assert_eq!(r.unwrap_err(), BountyError::InvalidState);

    let completed = post(&mut c, 10);
    let sub_id = c.submit_work(ctx(2, 120, 11), completed, "work".to_string()).unwrap();
    c.accept_submission(ctx(1, 130, 12), sub_id).unwrap();
    let r2 = c.submit_work(ctx(3, 140, 13), completed, "more".to_string());
    assert_eq!(r2.unwrap_err(), BountyError::InvalidState);
}

#[test]
fn submit_to_unknown_bounty_is_not_found() {
    let mut c = BountyContract::new();
    let r = c.submit_work(ctx(2, 120, 8), ident(3), "work".to_string());
    assert_eq!(r.unwrap_err(), BountyError::NotFound);
}

#[test]
fn first_submission_moves_bounty_to_in_progress() {
    let mut c = BountyContract::new();
    let id = post(&mut c, 7);
    let sub_id = c.submit_work(ctx(2, 120, 8), id, "first".to_string()).unwrap();
    assert_eq!(sub_id, ident(8));
    let b = c.get_bounty(id).unwrap();
    assert_eq!(b.status, BountyStatus::InProgress);
    assert_eq!(b.updated, 120);

    let sub = c.get_submission(sub_id).unwrap();
    assert_eq!(sub.bounty_id, id);
    assert_eq!(sub.applicant, Principal(2));
    assert_eq!(sub.content, "first");
    assert_eq!(sub.created, 120);
    assert_eq!(sub.status, SubmissionStatus::Pending);
}

#[test]
fn later_submissions_leave_bounty_in_progress() {
    let mut c = BountyContract::new();
    let id = post(&mut c, 7);
    c.submit_work(ctx(2, 120, 8), id, "first".to_string()).unwrap();
    c.submit_work(ctx(3, 130, 9), id, "second".to_string()).unwrap();
    let b = c.get_bounty(id).unwrap();
    assert_eq!(b.status, BountyStatus::InProgress);
    assert_eq!(b.updated, 120);
    assert_eq!(c.list_submissions(id).len(), 2);
}

#[test]
fn accept_marks_accepted_completes_bounty_and_owes_the_reward() {
    let mut c = BountyContract::new();
    let id = post(&mut c, 7);
    let sub_id = c.submit_work(ctx(2, 120, 8), id, "work".to_string()).unwrap();
    let (sub, intent) = c.accept_submission(ctx(1, 130, 9), sub_id).unwrap();
    assert_eq!(sub.status, SubmissionStatus::Accepted);
    assert_eq!(
        intent,
        TransferIntent { asset: AssetRef(9), from: Principal(1), to: Principal(2), amount: 50 },
    );
    let b = c.get_bounty(id).unwrap();
    assert_eq!(b.status, BountyStatus::Completed);
    assert_eq!(b.updated, 130);
    assert_eq!(c.get_submission(sub_id).unwrap().status, SubmissionStatus::Accepted);
}

#[test]
fn accept_by_non_owner_is_unauthorized() {
    let mut c = BountyContract::new();
    let id = post(&mut c, 7);
    let sub_id = c.submit_work(ctx(2, 120, 8), id, "work".to_string()).unwrap();
    assert_eq!(c.accept_submission(ctx(2, 130, 9), sub_id).unwrap_err(), BountyError::Unauthorized);
    assert_eq!(c.get_submission(sub_id).unwrap().status, SubmissionStatus::Pending);
    assert_eq!(c.get_bounty(id).unwrap().status, BountyStatus::InProgress);
}

#[test]
fn accept_on_terminal_bounty_fails() {
    let mut c = BountyContract::new();
    let id = post(&mut c, 7);
    let sub_id = c.submit_work(ctx(2, 120, 8), id, "work".to_string()).unwrap();
    c.cancel_bounty(ctx(1, 125, 9), id).unwrap();
    assert_eq!(c.accept_submission(ctx(1, 130, 10), sub_id).unwrap_err(), BountyError::InvalidState);
    assert_eq!(c.get_submission(sub_id).unwrap().status, SubmissionStatus::Pending);
}

#[test]
fn accept_unknown_submission_is_not_found() {
    let mut c = BountyContract::new();
    assert_eq!(c.accept_submission(ctx(1, 130, 9), ident(3)).unwrap_err(), BountyError::NotFound);
}

#[test]
fn accept_of_rejected_submission_fails_even_on_live_bounty() {
    let mut c = BountyContract::new();
    let id = post(&mut c, 7);
    let sub_id = c.submit_work(ctx(2, 120, 8), id, "work".to_string()).unwrap();
    c.reject_submission(ctx(1, 130, 9), sub_id).unwrap();
    assert_eq!(c.get_bounty(id).unwrap().status, BountyStatus::InProgress);
    let r = c.accept_submission(ctx(1, 140, 10), sub_id);
    assert_eq!(r.unwrap_err(), BountyError::InvalidState);
    assert_eq!(c.get_submission(sub_id).unwrap().status, SubmissionStatus::Rejected);
    assert_eq!(c.get_bounty(id).unwrap().status, BountyStatus::InProgress);
}

#[test]
fn at_most_one_submission_is_accepted_per_bounty() {
    let mut c = BountyContract::new();
    let id = post(&mut c, 7);
    let first = c.submit_work(ctx(2, 120, 8), id, "one".to_string()).unwrap();
    let second = c.submit_work(ctx(3, 121, 9), id, "two".to_string()).unwrap();
    c.accept_submission(ctx(1, 130, 10), first).unwrap();
    let r = c.accept_submission(ctx(1, 131, 11), second);
    assert_eq!(r.unwrap_err(), BountyError::InvalidState);
    assert_eq!(c.get_submission(second).unwrap().status, SubmissionStatus::Pending);
}

#[test]
fn reject_marks_rejected_and_leaves_bounty_untouched() {
    let mut c = BountyContract::new();
    let id = post(&mut c, 7);
    let sub_id = c.submit_work(ctx(2, 120, 8), id, "work".to_string()).unwrap();
    let sub = c.reject_submission(ctx(1, 130, 9), sub_id).unwrap();
    assert_eq!(sub.status, SubmissionStatus::Rejected);
    let b = c.get_bounty(id).unwrap();
    assert_eq!(b.status, BountyStatus::InProgress);
    assert_eq!(b.updated, 120);
    c.submit_work(ctx(3, 140, 10), id, "another try".to_string()).unwrap();
}

#[test]
fn reject_twice_fails_second_time_and_keeps_rejected() {
    let mut c = BountyContract::new();
    let id = post(&mut c, 7);
    let sub_id = c.submit_work(ctx(2, 120, 8), id, "work".to_string()).unwrap();
    c.reject_submission(ctx(1, 130, 9), sub_id).unwrap();
    let r = c.reject_submission(ctx(1, 140, 10), sub_id);
    assert_eq!(r.unwrap_err(), BountyError::InvalidState);
    assert_eq!(c.get_submission(sub_id).unwrap().status, SubmissionStatus::Rejected);
}

#[test]
fn reject_by_non_owner_is_unauthorized() {
    let mut c = BountyContract::new();
    let id = post(&mut c, 7);
    let sub_id = c.submit_work(ctx(2, 120, 8), id, "work".to_string()).unwrap();
    assert_eq!(c.reject_submission(ctx(3, 130, 9), sub_id).unwrap_err(), BountyError::Unauthorized);
    assert_eq!(c.get_submission(sub_id).unwrap().status, SubmissionStatus::Pending);
}

#[test]
fn get_unknown_submission_is_not_found() {
    let c = BountyContract::new();
    assert_eq!(c.get_submission(ident(3)).unwrap_err(), BountyError::NotFound);
}

#[test]
fn listings_preserve_creation_order_and_membership() {
    let mut c = BountyContract::new();
    let a = post(&mut c, 1);
    let b = post(&mut c, 2);
    let d = post(&mut c, 3);
    let all = c.list_bounties();
    assert_eq!(all.len(), 3);
    assert_eq!(all[0].id, a);
    assert_eq!(all[1].id, b);
    assert_eq!(all[2].id, d);

    let s1 = c.submit_work(ctx(2, 120, 4), a, "one".to_string()).unwrap();
    let s2 = c.submit_work(ctx(3, 121, 5), b, "other".to_string()).unwrap();
    let s3 = c.submit_work(ctx(4, 122, 6), a, "two".to_string()).unwrap();
    let of_a = c.list_submissions(a);
    assert_eq!(of_a.len(), 2);
    assert_eq!(of_a[0].id, s1);
    assert_eq!(of_a[1].id, s3);
    let of_b = c.list_submissions(b);
    assert_eq!(of_b.len(), 1);
    assert_eq!(of_b[0].id, s2);
    assert!(c.list_submissions(d).is_empty());
    assert!(c.list_submissions(ident(99)).is_empty());
}

#[test]
fn terminal_bounties_and_submissions_stay_listed() {
    let mut c = BountyContract::new();
    let a = post(&mut c, 1);
    let b = post(&mut c, 2);
    c.cancel_bounty(ctx(1, 110, 3), a).unwrap();
    let sub = c.submit_work(ctx(2, 120, 4), b, "work".to_string()).unwrap();
    c.reject_submission(ctx(1, 130, 5), sub).unwrap();
    let all = c.list_bounties();
    assert_eq!(all.len(), 2);
    assert_eq!(all[0].id, a);
    assert_eq!(all[0].status, BountyStatus::Cancelled);
    assert_eq!(all[1].id, b);
    let of_b = c.list_submissions(b);
    assert_eq!(of_b.len(), 1);
    assert_eq!(of_b[0].status, SubmissionStatus::Rejected);
}

#[test]
fn full_scenario_accept_first_reject_second() {
    let mut c = BountyContract::new();
    let t: u64 = 1_000;
    let id = c
        .create_bounty(
            ctx(1, t, 1),
            "port the build".to_string(),
            "port the build to the new toolchain".to_string(),
            100,
            AssetRef(9),
            t + 1_000,
            "infrastructure".to_string(),
            vec!["build systems".to_string()],
        )
        .unwrap();
    let first = c.submit_work(ctx(2, t + 10, 2), id, "ported, see branch a".to_string()).unwrap();
    let second = c.submit_work(ctx(3, t + 20, 3), id, "ported, see branch b".to_string()).unwrap();
    assert_eq!(c.get_bounty(id).unwrap().status, BountyStatus::InProgress);

    let (sub, intent) = c.accept_submission(ctx(1, t + 30, 4), first).unwrap();
    assert_eq!(sub.status, SubmissionStatus::Accepted);
    assert_eq!(intent.amount, 100);
    assert_eq!(intent.from, Principal(1));
    assert_eq!(intent.to, Principal(2));
    assert_eq!(c.get_bounty(id).unwrap().status, BountyStatus::Completed);

    let r = c.reject_submission(ctx(1, t + 40, 5), second);
    assert_eq!(r.unwrap_err(), BountyError::InvalidState);
    assert_eq!(c.get_submission(second).unwrap().status, SubmissionStatus::Pending);
}
