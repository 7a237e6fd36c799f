use vstd::prelude::*;

use crate::instant::{Instant, NANOS_PER_DAY};

verus! {

/// The temporal shape of an event. `Unknown` stands for any unrecognised
/// tag and is never stored.
#[derive(Clone, Copy, Debug, PartialEq, Eq, Structural)]
pub enum EventType {
    SpecificDate,
    DateRange,
    Day,
    Week,
    Month,
    Unknown,
}

/// The tag that names an event type.
pub open spec fn event_type_name(t: EventType) -> Seq<char> {
    match t {
        EventType::SpecificDate => "SpecificDate"@,
        EventType::DateRange => "DateRange"@,
        EventType::Day => "Day"@,
        EventType::Week => "Week"@,
        EventType::Month => "Month"@,
        EventType::Unknown => "Unknown"@,
    }
}

/// The event type a tag denotes; anything but the five known tags is `Unknown`.
pub open spec fn event_type_of(s: Seq<char>) -> EventType {
    if s == "SpecificDate"@ {
        EventType::SpecificDate
    } else if s == "DateRange"@ {
        EventType::DateRange
    } else if s == "Day"@ {
        EventType::Day
    } else if s == "Week"@ {
        EventType::Week
    } else if s == "Month"@ {
        EventType::Month
    } else {
        EventType::Unknown
    }
}

impl EventType {
    /// Reads an event type from its tag (exact, case-sensitive match).
    pub fn parse(val: &str) -> (r: EventType)
        ensures
            r == event_type_of(val@),
    {
        let s = val.to_owned();
        if s == "SpecificDate".to_owned() {
            EventType::SpecificDate
        } else if s == "DateRange".to_owned() {
            EventType::DateRange
        } else if s == "Day".to_owned() {
            EventType::Day
        } else if s == "Week".to_owned() {
            EventType::Week
        } else if s == "Month".to_owned() {
            EventType::Month
        } else {
            EventType::Unknown
        }
    }

    /// The tag of this event type.
    pub fn name(&self) -> (r: String)
        ensures
            r@ == event_type_name(*self),
    {
        match self {
            EventType::SpecificDate => "SpecificDate".to_owned(),
            EventType::DateRange => "DateRange".to_owned(),
            EventType::Day => "Day".to_owned(),
            EventType::Week => "Week".to_owned(),
            EventType::Month => "Month".to_owned(),
            EventType::Unknown => "Unknown".to_owned(),
        }
    }
}


/// Why a proposed event shape is rejected.
#[derive(Clone, Copy, Debug, PartialEq, Eq, Structural)]
pub enum ValidationError {
    UnknownEventType,
    MissingFromDate,
    MissingDateRange,
    InvertedRange,
    RangeTooShort,
    RangeTooLong,
}

/// The text a validation failure is reported with.
pub open spec fn validation_message(e: ValidationError) -> Seq<char> {
    match e {
        ValidationError::UnknownEventType => "Unknown event type, invalid variant."@,
        ValidationError::MissingFromDate => "SpecificDate event type supplied, but missing from_date"@,
        ValidationError::MissingDateRange => "DateRange event type supplied, but missing either from_date or to_date"@,
        ValidationError::InvertedRange => "Supplied from_date is later than or equal to to_date"@,
        ValidationError::RangeTooShort => "Difference between from_date and to_date is less than 1 day"@,
        ValidationError::RangeTooLong => "Difference between from_date and to_date is greater than 14 days ( current supported maximum )"@,
    }
}

impl ValidationError {
    pub fn message(&self) -> (r: String)
        ensures
            r@ == validation_message(*self),
    {
        match self {
            ValidationError::UnknownEventType => "Unknown event type, invalid variant.".to_owned(),
            ValidationError::MissingFromDate => "SpecificDate event type supplied, but missing from_date".to_owned(),
            ValidationError::MissingDateRange => "DateRange event type supplied, but missing either from_date or to_date".to_owned(),
            ValidationError::InvertedRange => "Supplied from_date is later than or equal to to_date".to_owned(),
            ValidationError::RangeTooShort => "Difference between from_date and to_date is less than 1 day".to_owned(),
            ValidationError::RangeTooLong => "Difference between from_date and to_date is greater than 14 days ( current supported maximum )".to_owned(),
        }
    }
}

/// The validation rules, first violation wins.
pub open spec fn validation_of(
    event_type: EventType,
    from_date: Option<Instant>,
    to_date: Option<Instant>,
) -> Result<(), ValidationError> {
    match event_type {
        EventType::Unknown => Err(ValidationError::UnknownEventType),
        EventType::SpecificDate => if from_date is None {
            Err(ValidationError::MissingFromDate)
        } else {
            Ok(())
        },
        EventType::DateRange => match (from_date, to_date) {
            (Some(from), Some(to)) => if from.value() >= to.value() {
                Err(ValidationError::InvertedRange)
            } else if to.value() - from.value() < NANOS_PER_DAY {
                Err(ValidationError::RangeTooShort)
            } else if to.value() - from.value() > 14 * NANOS_PER_DAY {
                Err(ValidationError::RangeTooLong)
            } else {
                Ok(())
            },
            _ => Err(ValidationError::MissingDateRange),
        },
        _ => Ok(()),
    }
}

/// Checks the shape of a proposed event against its type.
pub fn validate_event(
    event_type: EventType,
    from_date: Option<Instant>,
    to_date: Option<Instant>,
) -> (r: Result<(), ValidationError>)
    ensures
        r == validation_of(event_type, from_date, to_date),
{
    match event_type {
        EventType::Unknown => Err(ValidationError::UnknownEventType),
        EventType::SpecificDate => {
            if from_date.is_none() {
                Err(ValidationError::MissingFromDate)
            } else {
                Ok(())
            }
        },
        EventType::DateRange => match (from_date, to_date) {
            (Some(from), Some(to)) => {
                let f = from.nanos_since_epoch();
                let t = to.nanos_since_epoch();
                if f >= t {
                    Err(ValidationError::InvertedRange)
                } else if t - f < NANOS_PER_DAY {
                    Err(ValidationError::RangeTooShort)
                } else if t - f > 14 * NANOS_PER_DAY {
                    Err(ValidationError::RangeTooLong)
                } else {
                    Ok(())
                }
            },
            _ => Err(ValidationError::MissingDateRange),
        },
        _ => Ok(()),
    }
}

/// A date-range event is accepted exactly when its span is at least one day
/// and at most fourteen days; every other span is rejected.
pub proof fn lemma_date_range_span(from: Instant, to: Instant)
    ensures
        validation_of(EventType::DateRange, Some(from), Some(to)) is Ok <==> (NANOS_PER_DAY
            <= to.value() - from.value() <= 14 * NANOS_PER_DAY),
        to.value() - from.value() < NANOS_PER_DAY ==> validation_of(
            EventType::DateRange,
            Some(from),
            Some(to),
        ) is Err,
        to.value() - from.value() > 14 * NANOS_PER_DAY ==> validation_of(
            EventType::DateRange,
            Some(from),
            Some(to),
        ) == Err::<(), ValidationError>(ValidationError::RangeTooLong),
        0 < to.value() - from.value() < NANOS_PER_DAY ==> validation_of(
            EventType::DateRange,
            Some(from),
            Some(to),
        ) == Err::<(), ValidationError>(ValidationError::RangeTooShort),
{
}

/// A specific-date event needs a start date, and with one it is accepted
/// whatever its end date.
pub proof fn lemma_specific_date_needs_start(from: Option<Instant>, to: Option<Instant>)
    ensures
        from is None ==> validation_of(EventType::SpecificDate, from, to) == Err::<
            (),
            ValidationError,
        >(ValidationError::MissingFromDate),
        from is Some ==> validation_of(EventType::SpecificDate, from, to) is Ok,
{
}

/// A tag outside the five known ones is rejected as an unknown event type,
/// whatever the dates.
pub proof fn lemma_unknown_tag_rejected(tag: Seq<char>, from: Option<Instant>, to: Option<Instant>)
    requires
        tag != "SpecificDate"@,
        tag != "DateRange"@,
        tag != "Day"@,
        tag != "Week"@,
        tag != "Month"@,
    ensures
        event_type_of(tag) == EventType::Unknown,
        validation_of(event_type_of(tag), from, to) == Err::<(), ValidationError>(
            ValidationError::UnknownEventType,
        ),
{
}

/// A stored event. `id` is assigned by storage; `snowflake_id` is the
/// public identifier.
#[derive(Clone, Debug)]
pub struct Event {
    pub id: i64,
    pub snowflake_id: String,
    pub name: String,
    pub description: Option<String>,
    pub from_date: Option<Instant>,
    pub to_date: Option<Instant>,
    pub event_type: EventType,
    pub duration: i32,
}

} // verus!
