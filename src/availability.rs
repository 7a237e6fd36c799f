use vstd::prelude::*;

use crate::instant::Instant;

verus! {

/// One stored availability window of one participant for one event.
#[derive(Clone, Debug)]
pub struct Availability {
    pub id: i64,
    pub event_id: i64,
    pub from_date: Instant,
    pub to_date: Instant,
    pub user_email: Option<String>,
    pub user_ip: String,
    pub user_name: String,
}

/// Who submits a batch: the optional email and the name the participant
/// gave, and the network address the request came from.
#[derive(Clone, Debug)]
pub struct Identity {
    pub email: Option<String>,
    pub ip: String,
    pub name: String,
}

/// Whether a new submission may be stored.
#[derive(Clone, Copy, Debug, PartialEq, Eq, Structural)]
pub enum Conflict {
    Blocked,
    Allowed,
}

/// Two optional emails name the same participant when both are present,
/// non-empty and equal.
pub open spec fn same_email(a: Option<String>, b: Option<String>) -> bool {
    &&& a is Some
    &&& b is Some
    &&& a->0@.len() > 0
    &&& a->0@ == b->0@
}

/// A stored row belongs to the same participant as `who` when the email,
/// the address or the name agrees (exact, case-sensitive comparison).
pub open spec fn same_participant(row: Availability, who: Identity) -> bool {
    ||| same_email(row.user_email, who.email)
    ||| row.user_ip@ == who.ip@
    ||| row.user_name@ == who.name@
}

/// Some stored row belongs to the participant `who`.
pub open spec fn already_submitted(rows: Seq<Availability>, who: Identity) -> bool {
    exists|i: int| 0 <= i < rows.len() && same_participant(#[trigger] rows[i], who)
}

fn emails_match(a: &Option<String>, b: &Option<String>) -> (r: bool)
    ensures
        r == same_email(*a, *b),
{
    match (a, b) {
        (Some(x), Some(y)) => !x.as_str().is_empty() && *x == *y,
        _ => false,
    }
}

/// Decides whether `candidate` may submit, given the rows already stored
/// for the event: blocked exactly when one of them is from the same participant.
pub fn check_conflict(existing: &Vec<Availability>, candidate: &Identity) -> (r: Conflict)
    ensures
        (r == Conflict::Blocked) == already_submitted(existing@, *candidate),
{
    let mut i: usize = 0;
    while i < existing.len()
        invariant
            i <= existing@.len(),
            forall|j: int| 0 <= j < i ==> !same_participant(#[trigger] existing@[j], *candidate),
        decreases existing@.len() - i,
    {
        let row = &existing[i];
        if emails_match(&row.user_email, &candidate.email) || row.user_ip == candidate.ip
            || row.user_name == candidate.name {
            return Conflict::Blocked;
        }
        i = i + 1;
    }
    Conflict::Allowed
}

} // verus!
