use vstd::prelude::*;

use crate::api::{
    ApplicationError, StoreError, STATUS_NOT_FOUND, STATUS_INTERNAL_SERVER_ERROR,
    STATUS_UNPROCESSABLE_ENTITY, not_found_message,
};
use crate::availability::{already_submitted, check_conflict, Availability, Conflict, Identity};
use crate::event::{
    event_type_name, event_type_of, validate_event, validation_message, validation_of, Event,
    EventType,
};
use crate::instant::Instant;
use crate::public_id::{generate_public_id, is_alphanumeric};

verus! {

/// A request to create an event.
#[derive(Clone, Debug)]
pub struct CreateEventDto {
    pub from_date: Option<Instant>,
    pub to_date: Option<Instant>,
    pub name: String,
    pub description: Option<String>,
    pub event_type: String,
    pub duration: i32,
}

/// An event as it is shown to callers.
#[derive(Clone, Debug)]
pub struct EventDto {
    pub snowflake_id: String,
    pub from_date: Option<Instant>,
    pub to_date: Option<Instant>,
    pub name: String,
    pub description: Option<String>,
    pub event_type: String,
    pub duration: i32,
}

/// A participant's batch of availability windows.
#[derive(Clone, Debug)]
pub struct CreateAvailabilitiesDto {
    pub availabilities: Vec<CreateAvailabilityDto>,
    pub user_email: Option<String>,
    pub user_name: String,
}

/// One proposed availability window.
#[derive(Clone, Copy, Debug)]
pub struct CreateAvailabilityDto {
    pub from_date: Instant,
    pub to_date: Instant,
}

/// A stored availability as it is shown to callers.
#[derive(Clone, Debug)]
pub struct AvailabilityDto {
    pub id: i64,
    pub from_date: Instant,
    pub to_date: Instant,
    pub user_name: String,
}

/// The text a repeated submission is refused with.
pub open spec fn duplicate_message() -> Seq<char> {
    "Availability already submitted"@
}

/// The event row that a create request asks to insert, before storage
/// assigns its id (`-1` until then).
pub open spec fn proposed_event(dto: CreateEventDto, e: Event) -> bool {
    &&& e.id == -1
    &&& e.name == dto.name
    &&& e.description == dto.description
    &&& e.from_date == dto.from_date
    &&& e.to_date == dto.to_date
    &&& e.event_type == event_type_of(dto.event_type@)
    &&& e.duration == dto.duration
}

/// The decision part of creating an event: draws a public identifier of
/// `event_uid_size` characters, then validates the requested shape. On
/// success the result is the row to insert; on failure nothing is to be
/// written and the error is `422` with the rule's message.
pub fn create_event(dto: CreateEventDto, event_uid_size: usize) -> (r: Result<
    Event,
    ApplicationError,
>)
    ensures
        r is Ok <==> validation_of(
            event_type_of(dto.event_type@),
            dto.from_date,
            dto.to_date,
        ) is Ok,
        r is Ok ==> {
            let e = r->Ok_0;
            &&& proposed_event(dto, e)
            &&& e.event_type != EventType::Unknown
            &&& e.snowflake_id@.len() == event_uid_size
            &&& forall|i: int|
                0 <= i < e.snowflake_id@.len() ==> is_alphanumeric(#[trigger] e.snowflake_id@[i])
        },
        r is Err ==> {
            let v = validation_of(event_type_of(dto.event_type@), dto.from_date, dto.to_date);
            &&& r->Err_0.status == STATUS_UNPROCESSABLE_ENTITY
            &&& r->Err_0.msg@ == validation_message(v->Err_0)
        },
{
    let uid = generate_public_id(event_uid_size);
    let event_type = EventType::parse(dto.event_type.as_str());
    match validate_event(event_type, dto.from_date, dto.to_date) {
        Err(v) => Err(ApplicationError::new(v.message(), STATUS_UNPROCESSABLE_ENTITY)),
        Ok(()) => Ok(
            Event {
                id: -1,
                snowflake_id: uid,
                name: dto.name,
                description: dto.description,
                from_date: dto.from_date,
                to_date: dto.to_date,
                event_type,
                duration: dto.duration,
            },
        ),
    }
}

/// How a stored event is shown.
pub open spec fn shows_event(e: Event, d: EventDto) -> bool {
    &&& d.snowflake_id == e.snowflake_id
    &&& d.from_date == e.from_date
    &&& d.to_date == e.to_date
    &&& d.name == e.name
    &&& d.description == e.description
    &&& d.event_type@ == event_type_name(e.event_type)
    &&& d.duration == e.duration
}

/// The caller's view of a stored event.
pub fn event_dto(event: Event) -> (r: EventDto)
    ensures
        shows_event(event, r),
{
    let event_type = event.event_type.name();
    EventDto {
        snowflake_id: event.snowflake_id,
        from_date: event.from_date,
        to_date: event.to_date,
        name: event.name,
        description: event.description,
        event_type,
        duration: event.duration,
    }
}

/// The answer to a fetch of one event, given what storage returned for its
/// public identifier: its view, `404` when absent, `500` on a storage fault.
pub fn fetch_event(stored: Result<Event, StoreError>) -> (r: Result<EventDto, ApplicationError>)
    ensures
        stored is Ok ==> r is Ok && shows_event(stored->Ok_0, r->Ok_0),
        stored matches Err(StoreError::NotFound) ==> r is Err && r->Err_0.status == STATUS_NOT_FOUND
            && r->Err_0.msg@ == not_found_message(),
        stored matches Err(StoreError::Fault(m)) ==> r is Err && r->Err_0.status
            == STATUS_INTERNAL_SERVER_ERROR && r->Err_0.msg == m,
{
    match stored {
        Ok(event) => Ok(event_dto(event)),
        Err(e) => Err(ApplicationError::from_store(e)),
    }
}

fn clone_email(e: &Option<String>) -> (r: Option<String>)
    ensures
        r == *e,
{
    match e {
        Some(s) => Some(s.clone()),
        None => None,
    }
}

/// Row `row` is window `w` of event `event_id`, submitted by `who`, not yet
/// given an id (`-1`).
pub open spec fn proposed_availability(
    row: Availability,
    event_id: i64,
    w: CreateAvailabilityDto,
    who: Identity,
) -> bool {
    &&& row.id == -1
    &&& row.event_id == event_id
    &&& row.from_date == w.from_date
    &&& row.to_date == w.to_date
    &&& row.user_email == who.email
    &&& row.user_ip == who.ip
    &&& row.user_name == who.name
}

/// The identity a submission is made under.
pub open spec fn submitter(dto: CreateAvailabilitiesDto, user_ip: String) -> Identity {
    Identity { email: dto.user_email, ip: user_ip, name: dto.user_name }
}

/// The decision part of a submission: given the event and the rows already
/// stored for it, refuses with `422` when any of them is from the same
/// participant; otherwise the result is every window of the batch, in
/// order, as a row to insert, each with the submitter's email, address and name.
pub fn create_availabilities(
    event: &Event,
    existing: &Vec<Availability>,
    dto: CreateAvailabilitiesDto,
    user_ip: String,
) -> (r: Result<Vec<Availability>, ApplicationError>)
    ensures
        r is Err <==> already_submitted(existing@, submitter(dto, user_ip)),
        r is Err ==> r->Err_0.status == STATUS_UNPROCESSABLE_ENTITY && r->Err_0.msg@
            == duplicate_message(),
        r is Ok ==> r->Ok_0@.len() == dto.availabilities@.len() && forall|i: int|
            0 <= i < r->Ok_0@.len() ==> proposed_availability(
                #[trigger] r->Ok_0@[i],
                event.id,
                dto.availabilities@[i],
                submitter(dto, user_ip),
            ),
{
    let who = Identity { email: dto.user_email, ip: user_ip, name: dto.user_name };
    if check_conflict(existing, &who) == Conflict::Blocked {
        return Err(
            ApplicationError::new(
                "Availability already submitted".to_owned(),
                STATUS_UNPROCESSABLE_ENTITY,
            ),
        );
    }
    let mut rows: Vec<Availability> = Vec::new();
    let mut i: usize = 0;
    while i < dto.availabilities.len()
        invariant
            i <= dto.availabilities@.len(),
            rows@.len() == i,
            who == submitter(dto, user_ip),
            forall|j: int|
                0 <= j < i ==> proposed_availability(
                    #[trigger] rows@[j],
                    event.id,
                    dto.availabilities@[j],
                    who,
                ),
        decreases dto.availabilities@.len() - i,
    {
        let w = dto.availabilities[i];
        rows.push(
            Availability {
                id: -1,
                event_id: event.id,
                from_date: w.from_date,
                to_date: w.to_date,
                user_email: clone_email(&who.email),
                user_ip: who.ip.clone(),
                user_name: who.name.clone(),
            },
        );
        i = i + 1;
    }
    Ok(rows)
}

/// How a stored availability is shown.
pub open spec fn shows_availability(a: Availability, d: AvailabilityDto) -> bool {
    &&& d.id == a.id
    &&& d.from_date == a.from_date
    &&& d.to_date == a.to_date
    &&& d.user_name == a.user_name
}

/// The answer to a fetch of an event's availabilities, given what storage
/// returned: each row's view in order, or `500` on a storage fault.
pub fn fetch_availabilities(stored: Result<Vec<Availability>, StoreError>) -> (r: Result<
    Vec<AvailabilityDto>,
    ApplicationError,
>)
    ensures
        stored is Ok ==> r is Ok && r->Ok_0@.len() == stored->Ok_0@.len() && forall|i: int|
            0 <= i < r->Ok_0@.len() ==> shows_availability(
                #[trigger] stored->Ok_0@[i],
                r->Ok_0@[i],
            ),
        stored matches Err(StoreError::NotFound) ==> r is Err && r->Err_0.status == STATUS_NOT_FOUND
            && r->Err_0.msg@ == not_found_message(),
        stored matches Err(StoreError::Fault(m)) ==> r is Err && r->Err_0.status
            == STATUS_INTERNAL_SERVER_ERROR && r->Err_0.msg == m,
{
    match stored {
        Err(e) => Err(ApplicationError::from_store(e)),
        Ok(rows) => {
            let mut out: Vec<AvailabilityDto> = Vec::new();
            let mut i: usize = 0;
            while i < rows.len()
                invariant
                    i <= rows@.len(),
                    out@.len() == i,
                    forall|j: int|
                        0 <= j < i ==> shows_availability(#[trigger] rows@[j], out@[j]),
                decreases rows@.len() - i,
            {
                let a = &rows[i];
                out.push(
                    AvailabilityDto {
                        id: a.id,
                        from_date: a.from_date,
                        to_date: a.to_date,
                        user_name: a.user_name.clone(),
                    },
                );
                i = i + 1;
            }
            Ok(out)
        },
    }
}

} // verus!
