//! Event scheduling core: event-shape validation, public identifier
//! generation, availability deduplication and the unit-of-work protocol
//! that keeps every request's writes atomic.
pub mod api;
pub mod availability;
pub mod endpoints;
pub mod event;
pub mod instant;
pub mod public_id;
pub mod unit_of_work;
