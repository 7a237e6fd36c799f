use findtheti_me::api::{
    error, internal_server_error, ok, ApplicationError, StoreError, STATUS_INTERNAL_SERVER_ERROR,
    STATUS_NOT_FOUND, STATUS_OK, STATUS_UNPROCESSABLE_ENTITY,
};
use findtheti_me::availability::{check_conflict, Availability, Conflict, Identity};
use findtheti_me::endpoints::{
    create_availabilities, create_event, event_dto, fetch_availabilities, fetch_event,
    CreateAvailabilitiesDto, CreateAvailabilityDto, CreateEventDto,
};
use findtheti_me::event::{validate_event, Event, EventType, ValidationError};
use findtheti_me::instant::{Instant, NANOS_PER_DAY};
use findtheti_me::public_id::generate_public_id;
use findtheti_me::unit_of_work::{Directive, Phase, Signal, UnitOfWork};

// 2024-01-01T00:00:00Z
const JAN_1: i64 = 1_704_067_200;
const DAY: i64 = 86_400;

fn at(secs: i64) -> Instant {
    Instant { secs, nanos: 0 }
}

fn request(event_type: &str, from: Option<Instant>, to: Option<Instant>) -> CreateEventDto {
    CreateEventDto {
        from_date: from,
        to_date: to,
        name: "Team sync".to_string(),
        description: Some("weekly".to_string()),
        event_type: event_type.to_string(),
        duration: 30,
    }
}

fn stored_event() -> Event {
    Event {
        id: 7,
        snowflake_id: "Ab3dEf9h".to_string(),
        name: "Team sync".to_string(),
        description: None,
        from_date: Some(at(JAN_1)),
        to_date: Some(at(JAN_1 + 2 * DAY)),
        event_type: EventType::DateRange,
        duration: 15,
    }
}

fn row(id: i64, email: Option<&str>, ip: &str, name: &str) -> Availability {
    Availability {
        id,
        event_id: 7,
        from_date: at(JAN_1),
        to_date: at(JAN_1 + 3600),
        user_email: email.map(|e| e.to_string()),
        user_ip: ip.to_string(),
        user_name: name.to_string(),
    }
}

fn who(email: Option<&str>, ip: &str, name: &str) -> Identity {
    Identity {
        email: email.map(|e| e.to_string()),
        ip: ip.to_string(),
        name: name.to_string(),
    }
}

#[test]
fn parses_known_tags() {
    assert_eq!(EventType::parse("SpecificDate"), EventType::SpecificDate);
    assert_eq!(EventType::parse("DateRange"), EventType::DateRange);
    assert_eq!(EventType::parse("Day"), EventType::Day);
    assert_eq!(EventType::parse("Week"), EventType::Week);
    assert_eq!(EventType::parse("Month"), EventType::Month);
}

#[test]
fn unknown_tags_parse_to_unknown() {
    assert_eq!(EventType::parse("Fortnight"), EventType::Unknown);
    assert_eq!(EventType::parse("day"), EventType::Unknown);
    assert_eq!(EventType::parse(""), EventType::Unknown);
}

#[test]
fn names_round_trip() {
    for t in [
        EventType::SpecificDate,
        EventType::DateRange,
        EventType::Day,
        EventType::Week,
        EventType::Month,
    ] {
        assert_eq!(EventType::parse(&t.name()), t);
    }
    assert_eq!(EventType::Unknown.name(), "Unknown");
}

#[test]
fn instant_counts_nanoseconds() {
    assert_eq!(Instant { secs: 2, nanos: 5 }.nanos_since_epoch(), 2_000_000_005);
    assert_eq!(Instant { secs: -1, nanos: 0 }.nanos_since_epoch(), -1_000_000_000);
    assert_eq!(NANOS_PER_DAY, 86_400 * 1_000_000_000);
}

#[test]
fn date_range_half_day_is_too_short() {
    let r = validate_event(EventType::DateRange, Some(at(JAN_1)), Some(at(JAN_1 + 12 * 3600)));
    assert_eq!(r, Err(ValidationError::RangeTooShort));
}

#[test]
fn date_range_nineteen_days_is_too_long() {
    let r = validate_event(EventType::DateRange, Some(at(JAN_1)), Some(at(JAN_1 + 19 * DAY)));
    assert_eq!(r, Err(ValidationError::RangeTooLong));
}

#[test]
fn date_range_two_days_is_accepted() {
    let r = validate_event(EventType::DateRange, Some(at(JAN_1)), Some(at(JAN_1 + 2 * DAY)));
    assert_eq!(r, Ok(()));
}

#[test]
fn date_range_bounds_are_inclusive() {
    let f = Some(at(JAN_1));
    assert_eq!(validate_event(EventType::DateRange, f, Some(at(JAN_1 + DAY))), Ok(()));
    assert_eq!(validate_event(EventType::DateRange, f, Some(at(JAN_1 + 14 * DAY))), Ok(()));
    assert_eq!(
        validate_event(EventType::DateRange, f, Some(at(JAN_1 + 14 * DAY + 1))),
        Err(ValidationError::RangeTooLong)
    );
    assert_eq!(
        validate_event(EventType::DateRange, f, Some(Instant { secs: JAN_1 + DAY - 1, nanos: 999_999_999 })),
        Err(ValidationError::RangeTooShort)
    );
}

#[test]
fn date_range_inverted_or_missing() {
    let f = Some(at(JAN_1));
    assert_eq!(validate_event(EventType::DateRange, f, f), Err(ValidationError::InvertedRange));
    assert_eq!(
        validate_event(EventType::DateRange, Some(at(JAN_1 + 3 * DAY)), f),
        Err(ValidationError::InvertedRange)
    );
    assert_eq!(validate_event(EventType::DateRange, f, None), Err(ValidationError::MissingDateRange));
    assert_eq!(validate_event(EventType::DateRange, None, f), Err(ValidationError::MissingDateRange));
}

#[test]
fn specific_date_needs_from_date() {
    assert_eq!(
        validate_event(EventType::SpecificDate, None, Some(at(JAN_1))),
        Err(ValidationError::MissingFromDate)
    );
    assert_eq!(validate_event(EventType::SpecificDate, Some(at(JAN_1)), None), Ok(()));
    assert_eq!(
        validate_event(EventType::SpecificDate, Some(at(JAN_1)), Some(at(JAN_1 - DAY))),
        Ok(())
    );
}

#[test]
fn day_week_month_take_any_dates() {
    for t in [EventType::Day, EventType::Week, EventType::Month] {
        assert_eq!(validate_event(t, None, None), Ok(()));
        assert_eq!(validate_event(t, Some(at(JAN_1)), Some(at(JAN_1 - 40 * DAY))), Ok(()));
    }
    assert_eq!(validate_event(EventType::Unknown, None, None), Err(ValidationError::UnknownEventType));
}

#[test]
fn validation_messages() {
    assert_eq!(ValidationError::UnknownEventType.message(), "Unknown event type, invalid variant.");
    assert_eq!(
        ValidationError::RangeTooShort.message(),
        "Difference between from_date and to_date is less than 1 day"
    );
}

#[test]
fn generated_ids_have_length_and_alphabet() {
    for n in [1usize, 8, 32] {
        let id = generate_public_id(n);
        assert_eq!(id.chars().count(), n);
        assert!(id.chars().all(|c| c.is_ascii_alphanumeric()));
    }
    assert_eq!(generate_public_id(0), "");
}

#[test]
fn create_event_accepts_valid_shape() {
    let dto = request("DateRange", Some(at(JAN_1)), Some(at(JAN_1 + 2 * DAY)));
    let e = create_event(dto, 12).unwrap();
    assert_eq!(e.id, -1);
    assert_eq!(e.snowflake_id.len(), 12);
    assert!(e.snowflake_id.chars().all(|c| c.is_ascii_alphanumeric()));
    assert_eq!(e.name, "Team sync");
    assert_eq!(e.description.as_deref(), Some("weekly"));
    assert_eq!(e.from_date, Some(at(JAN_1)));
    assert_eq!(e.to_date, Some(at(JAN_1 + 2 * DAY)));
    assert_eq!(e.event_type, EventType::DateRange);
    assert_eq!(e.duration, 30);
}

#[test]
fn create_event_rejects_unknown_type() {
    let err = create_event(request("Fortnight", Some(at(JAN_1)), None), 8).unwrap_err();
    assert_eq!(err.status, STATUS_UNPROCESSABLE_ENTITY);
    assert_eq!(err.msg, "Unknown event type, invalid variant.");
}

#[test]
fn create_event_rejects_missing_from_date() {
    let err = create_event(request("SpecificDate", None, Some(at(JAN_1))), 8).unwrap_err();
    assert_eq!(err.status, STATUS_UNPROCESSABLE_ENTITY);
    assert_eq!(err.msg, "SpecificDate event type supplied, but missing from_date");
}

#[test]
fn create_event_rejects_long_range() {
    let err = create_event(request("DateRange", Some(at(JAN_1)), Some(at(JAN_1 + 19 * DAY))), 8)
        .unwrap_err();
    assert_eq!(
        err.msg,
        "Difference between from_date and to_date is greater than 14 days ( current supported maximum )"
    );
}

#[test]
fn fetch_event_shows_stored_row() {
    let d = fetch_event(Ok(stored_event())).unwrap();
    assert_eq!(d.snowflake_id, "Ab3dEf9h");
    assert_eq!(d.event_type, "DateRange");
    assert_eq!(d.from_date, Some(at(JAN_1)));
    assert_eq!(d.to_date, Some(at(JAN_1 + 2 * DAY)));
    assert_eq!(d.name, "Team sync");
    assert_eq!(d.description, None);
    assert_eq!(d.duration, 15);
}

#[test]
fn fetch_event_twice_gives_same_data() {
    let a = fetch_event(Ok(stored_event())).unwrap();
    let b = fetch_event(Ok(stored_event())).unwrap();
    assert_eq!(a.snowflake_id, b.snowflake_id);
    assert_eq!(a.event_type, b.event_type);
    assert_eq!(a.from_date, b.from_date);
    assert_eq!(a.to_date, b.to_date);
    assert_eq!(a.name, b.name);
    assert_eq!(a.description, b.description);
    assert_eq!(a.duration, b.duration);
    let mut u = UnitOfWork::start();
    assert_eq!(u.step(Signal::Checked { writes: 0 }), Directive::Commit);
    assert_eq!(u.step(Signal::CommitDone), Directive::Finish);
    assert_eq!(u.phase, Phase::Committed);
    assert_eq!(u.written, 0);
}

#[test]
fn fetch_event_errors() {
    let e = fetch_event(Err(StoreError::NotFound)).unwrap_err();
    assert_eq!(e.status, STATUS_NOT_FOUND);
    assert_eq!(e.msg, "Event not found");
    let e = fetch_event(Err(StoreError::Fault("connection reset".to_string()))).unwrap_err();
    assert_eq!(e.status, STATUS_INTERNAL_SERVER_ERROR);
    assert_eq!(e.msg, "connection reset");
}

#[test]
fn event_dto_names_type() {
    let mut e = stored_event();
    e.event_type = EventType::Week;
    assert_eq!(event_dto(e).event_type, "Week");
}

#[test]
fn same_ip_is_blocked() {
    let existing = vec![row(1, Some("a@x.com"), "1.2.3.4", "Alice")];
    assert_eq!(check_conflict(&existing, &who(Some("b@y.com"), "1.2.3.4", "Bob")), Conflict::Blocked);
}

#[test]
fn fresh_identity_is_allowed() {
    let existing = vec![row(1, Some("a@x.com"), "1.2.3.4", "Alice")];
    assert_eq!(check_conflict(&existing, &who(Some("b@y.com"), "5.6.7.8", "Bob")), Conflict::Allowed);
    assert_eq!(check_conflict(&existing, &who(None, "5.6.7.8", "Bob")), Conflict::Allowed);
    assert_eq!(check_conflict(&vec![], &who(None, "1.2.3.4", "Alice")), Conflict::Allowed);
}

#[test]
fn same_email_or_name_is_blocked() {
    let existing = vec![
        row(1, None, "9.9.9.9", "Carol"),
        row(2, Some("a@x.com"), "1.2.3.4", "Alice"),
    ];
    assert_eq!(check_conflict(&existing, &who(Some("a@x.com"), "5.6.7.8", "Bob")), Conflict::Blocked);
    assert_eq!(check_conflict(&existing, &who(None, "5.6.7.8", "Carol")), Conflict::Blocked);
    assert_eq!(check_conflict(&existing, &who(None, "5.6.7.8", "alice")), Conflict::Allowed);
}

#[test]
fn empty_emails_do_not_match() {
    let existing = vec![row(1, Some(""), "1.2.3.4", "Alice")];
    assert_eq!(check_conflict(&existing, &who(Some(""), "5.6.7.8", "Bob")), Conflict::Allowed);
}

#[test]
fn duplicate_submission_is_refused() {
    let existing = vec![row(1, Some("a@x.com"), "1.2.3.4", "Alice")];
    let dto = CreateAvailabilitiesDto {
        availabilities: vec![CreateAvailabilityDto { from_date: at(JAN_1), to_date: at(JAN_1 + 3600) }],
        user_email: Some("b@y.com".to_string()),
        user_name: "Bob".to_string(),
    };
    let err = create_availabilities(&stored_event(), &existing, dto, "1.2.3.4".to_string()).unwrap_err();
    assert_eq!(err.status, STATUS_UNPROCESSABLE_ENTITY);
    assert_eq!(err.msg, "Availability already submitted");
}

#[test]
fn allowed_submission_yields_every_row() {
    let existing = vec![row(1, Some("a@x.com"), "1.2.3.4", "Alice")];
    let windows = vec![
        CreateAvailabilityDto { from_date: at(JAN_1), to_date: at(JAN_1 + 3600) },
        CreateAvailabilityDto { from_date: at(JAN_1 + DAY), to_date: at(JAN_1 + DAY + 7200) },
    ];
    let dto = CreateAvailabilitiesDto {
        availabilities: windows.clone(),
        user_email: Some("b@y.com".to_string()),
        user_name: "Bob".to_string(),
    };
    let rows = create_availabilities(&stored_event(), &existing, dto, "5.6.7.8".to_string()).unwrap();
    assert_eq!(rows.len(), 2);
    for (r, w) in rows.iter().zip(windows.iter()) {
        assert_eq!(r.id, -1);
        assert_eq!(r.event_id, 7);
        assert_eq!(r.from_date, w.from_date);
        assert_eq!(r.to_date, w.to_date);
        assert_eq!(r.user_email.as_deref(), Some("b@y.com"));
        assert_eq!(r.user_ip, "5.6.7.8");
        assert_eq!(r.user_name, "Bob");
    }
}

#[test]
fn fetch_availabilities_shows_rows() {
    let rows = vec![row(3, Some("a@x.com"), "1.2.3.4", "Alice"), row(4, None, "5.6.7.8", "Bob")];
    let out = fetch_availabilities(Ok(rows)).unwrap();
    assert_eq!(out.len(), 2);
    assert_eq!(out[0].id, 3);
    assert_eq!(out[0].user_name, "Alice");
    assert_eq!(out[1].id, 4);
    assert_eq!(out[1].user_name, "Bob");
    assert_eq!(out[1].from_date, at(JAN_1));
    assert_eq!(out[1].to_date, at(JAN_1 + 3600));
    assert!(fetch_availabilities(Ok(vec![])).unwrap().is_empty());
    let e = fetch_availabilities(Err(StoreError::Fault("gone".to_string()))).unwrap_err();
    assert_eq!(e.status, STATUS_INTERNAL_SERVER_ERROR);
}

#[test]
fn unit_of_work_commits_full_batch() {
    let mut u = UnitOfWork::start();
    assert_eq!(u.step(Signal::Checked { writes: 3 }), Directive::Write { index: 0 });
    assert_eq!(u.step(Signal::RowWritten), Directive::Write { index: 1 });
    assert_eq!(u.step(Signal::RowWritten), Directive::Write { index: 2 });
    assert_eq!(u.step(Signal::RowWritten), Directive::Commit);
    assert_eq!(u.phase, Phase::Persisted);
    assert_eq!(u.step(Signal::CommitDone), Directive::Finish);
    assert_eq!(u.phase, Phase::Committed);
    assert_eq!(u.written, 3);
}

#[test]
fn unit_of_work_fault_on_second_row_rolls_back() {
    let mut u = UnitOfWork::start();
    assert_eq!(u.step(Signal::Checked { writes: 3 }), Directive::Write { index: 0 });
    assert_eq!(u.step(Signal::RowWritten), Directive::Write { index: 1 });
    assert_eq!(u.step(Signal::StorageFailed), Directive::Rollback);
    assert_eq!(u.phase, Phase::Aborted);
    assert_eq!(u.step(Signal::RowWritten), Directive::Finish);
    assert_eq!(u.step(Signal::CommitDone), Directive::Finish);
    assert_eq!(u.phase, Phase::Aborted);
}

#[test]
fn unit_of_work_refusal_writes_nothing() {
    let mut u = UnitOfWork::start();
    assert_eq!(u.step(Signal::Refused), Directive::Rollback);
    assert_eq!(u.phase, Phase::Aborted);
    assert_eq!(u.written, 0);
    let mut v = UnitOfWork::start();
    assert_eq!(v.step(Signal::RowWritten), Directive::Rollback);
    assert_eq!(v.phase, Phase::Aborted);
}

#[test]
fn responses_wrap_results_and_errors() {
    let r = ok::<i32>(Ok(5));
    assert_eq!(r.status, STATUS_OK);
    assert_eq!(r.result, Some(5));
    assert!(r.error.is_none());
    let r = ok::<i32>(Err(ApplicationError::new("bad".to_string(), STATUS_UNPROCESSABLE_ENTITY)));
    assert_eq!(r.status, STATUS_UNPROCESSABLE_ENTITY);
    assert!(r.result.is_none());
    assert_eq!(r.error.unwrap().message, "bad");
    let r = error::<i32>(ApplicationError::new("missing".to_string(), STATUS_NOT_FOUND));
    assert_eq!(r.status, STATUS_NOT_FOUND);
    let r = internal_server_error::<i32>(ApplicationError::new("x".to_string(), STATUS_NOT_FOUND));
    assert_eq!(r.status, STATUS_INTERNAL_SERVER_ERROR);
    assert_eq!(r.error.unwrap().message, "x");
}

#[test]
fn store_errors_map_to_statuses() {
    let e = ApplicationError::from_store(StoreError::NotFound);
    assert_eq!(e.status, STATUS_NOT_FOUND);
    let e = ApplicationError::from_store(StoreError::Fault("boom".to_string()));
    assert_eq!(e.status, STATUS_INTERNAL_SERVER_ERROR);
    assert_eq!(e.msg, "boom");
}
