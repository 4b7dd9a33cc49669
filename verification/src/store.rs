//! The collection of account records: finding a record by its account name
//! and working on that one record.
//!
//! An operation changes the token of one record and nothing else, so all
//! other records pass through an operation as they were.

use vstd::prelude::*;
use crate::config::Oauth2Config;
use crate::device::{next_step, step, with_token, FlowAction, FlowActionView, FlowState};
use crate::device::{FlowStateView, PollPolicy};
use crate::error::{AuthError, AuthErrorView};
use crate::json::json_document;
use crate::refresh::{after_refresh, complete, refresh_outcome};
use crate::schema::same_text;
use crate::views::outcome_view;

verus! {

/// Whether the record at `i` carries the account name.
pub open spec fn is_account(records: Seq<Oauth2Config>, i: int, name: Seq<char>) -> bool {
    0 <= i < records.len() && records[i]@.account_name == name
}

/// The place of the first record that carries the account name: `i` is that
/// place, or there is no such record.
pub open spec fn first_account(records: Seq<Oauth2Config>, name: Seq<char>, r: Option<usize>) -> bool {
    match r {
        Some(i) => is_account(records, i as int, name) && forall|j: int|
            0 <= j < i ==> !is_account(records, j, name),
        None => forall|j: int| !is_account(records, j, name),
    }
}

/// No account name occurs in two records.
pub open spec fn names_unique(records: Seq<Oauth2Config>) -> bool {
    forall|i: int, j: int|
        0 <= i < j < records.len() ==> records[i]@.account_name != records[j]@.account_name
}

/// Looks for the record that carries the account name.
pub fn find_account(records: &Vec<Oauth2Config>, account_name: &str) -> (r: Option<usize>)
    ensures
        first_account(records@, account_name@, r),
{
    let mut i: usize = 0;
    while i < records.len()
        invariant
            i <= records.len(),
            forall|j: int| 0 <= j < i ==> !is_account(records@, j, account_name@),
        decreases records.len() - i,
    {
        if same_text(records[i].account_name.as_str(), account_name) {
            return Some(i);
        }
        i = i + 1;
    }
    None
}

/// Whether no account name occurs in two records.
pub fn has_unique_names(records: &Vec<Oauth2Config>) -> (r: bool)
    ensures
        r == names_unique(records@),
{
    let mut j: usize = 0;
    while j < records.len()
        invariant
            j <= records.len(),
            forall|a: int, b: int|
                0 <= a < b < j ==> records@[a]@.account_name != records@[b]@.account_name,
        decreases records.len() - j,
    {
        let mut i: usize = 0;
        while i < j
            invariant
                i <= j < records.len(),
                forall|a: int| 0 <= a < i ==> records@[a]@.account_name != records@[j as int]@.account_name,
            decreases j - i,
        {
            if same_text(records[i].account_name.as_str(), records[j].account_name.as_str()) {
                return false;
            }
            i = i + 1;
        }
        j = j + 1;
    }
    true
}

/// Where account names are unique, the record found is the only one that
/// carries the name.
pub proof fn lemma_unique_account(records: Seq<Oauth2Config>, name: Seq<char>, i: usize, k: int)
    requires
        names_unique(records),
        first_account(records, name, Some(i)),
        is_account(records, k, name),
    ensures
        k == i,
{
}

/// An operation changes at most the token of one record: account names stay
/// as they were, and with them their uniqueness and the place of each account.
pub proof fn lemma_new_token_keeps_accounts(
    before: Seq<Oauth2Config>,
    after: Seq<Oauth2Config>,
    place: int,
    name: Seq<char>,
    found: Option<usize>,
)
    requires
        0 <= place < before.len(),
        after.len() == before.len(),
        forall|i: int| 0 <= i < before.len() && i != place ==> after[i]@ == before[i]@,
        after[place]@ == with_token(before[place]@, after[place]@.token),
    ensures
        names_unique(before) == names_unique(after),
        first_account(before, name, found) == first_account(after, name, found),
{
    assert forall|i: int| 0 <= i < before.len() implies after[i]@.account_name
        == before[i]@.account_name by {}
    assert forall|i: int| is_account(before, i, name) == is_account(after, i, name) by {}
}

/// Every record but the one at `place` is after an operation what it was
/// before, and no record has come or gone.
pub open spec fn others_kept(before: Seq<Oauth2Config>, after: Seq<Oauth2Config>, place: int) -> bool {
    &&& after.len() == before.len()
    &&& forall|i: int| 0 <= i < before.len() && i != place ==> after[i] == before[i]
}

/// Takes an answer of the grant for the record at `place`, as `step` does for
/// a record. Where there is no such record the grant fails with
/// `AccountNotFound`.
pub fn step_at(
    records: &mut Vec<Oauth2Config>,
    place: usize,
    state: FlowState,
    success: bool,
    body: &str,
    now: u64,
    policy: &PollPolicy,
) -> (r: (FlowState, FlowAction))
    ensures
        others_kept(old(records)@, final(records)@, place as int),
        place < old(records).len() ==> {
            let record = old(records)@[place as int]@;
            let next = next_step(record, state@, success, json_document(body@), now, *policy);
            &&& r.0@ == next.state
            &&& r.1@ == next.action
            &&& final(records)@[place as int]@ == with_token(record, next.token)
        },
        place >= old(records).len() ==> {
            &&& r.0@ == (FlowStateView::Failed { error: AuthErrorView::AccountNotFound })
            &&& r.1@ == FlowActionView::Stop
            &&& final(records)@ == old(records)@
        },
{
    if place >= records.len() {
        return (FlowState::Failed { error: AuthError::AccountNotFound }, FlowAction::Stop);
    }
    step(&mut records[place], state, success, body, now, policy)
}

/// Takes the answer to a refresh request for the record at `place`, as
/// `complete` does for a record. Where there is no such record the refresh
/// fails with `AccountNotFound`.
pub fn complete_at(
    records: &mut Vec<Oauth2Config>,
    place: usize,
    success: bool,
    body: &str,
    now: u64,
) -> (r: Result<(), AuthError>)
    ensures
        others_kept(old(records)@, final(records)@, place as int),
        place < old(records).len() ==> {
            let record = old(records)@[place as int]@;
            &&& outcome_view(r) == refresh_outcome(record, success, json_document(body@), now)
            &&& final(records)@[place as int]@ == after_refresh(
                record,
                success,
                json_document(body@),
                now,
            )
        },
        place >= old(records).len() ==> {
            &&& outcome_view(r) == Err::<(), AuthErrorView>(AuthErrorView::AccountNotFound)
            &&& final(records)@ == old(records)@
        },
{
    if place >= records.len() {
        return Err(AuthError::AccountNotFound);
    }
    complete(&mut records[place], success, body, now)
}

} // verus!
