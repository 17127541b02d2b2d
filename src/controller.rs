//! The endpoints of the locations resource.
//!
//! For each endpoint, `<name>_query` gives the query to run and `<name>` turns
//! the storage layer's answer into the reply. An answer that failed, and one
//! of another variant than the endpoint expects, both give the endpoint's
//! single error; callers cannot tell them apart.
use vstd::prelude::*;
use vstd::string::StringExecFns;
use crate::error::LocationsError;
use crate::id::Id;
use crate::query::{Query, QueryResult};

verus! {

/// Status of a successful read.
pub const STATUS_OK: u16 = 200;

/// Status of a successful creation.
pub const STATUS_CREATED: u16 = 201;

/// The body of a successful reply, sent as JSON.
#[derive(Debug, Clone, PartialEq, Eq)]
pub enum Payload<L, T, R> {
    Locations(Vec<L>),
    Location(L),
    Message(String),
    TimeStamps(Vec<T>),
    Residents(Vec<R>),
}

/// A successful reply: its HTTP status and its JSON body.
#[derive(Debug, Clone, PartialEq, Eq)]
pub struct Reply<L, T, R> {
    pub status: u16,
    pub body: Payload<L, T, R>,
}

/// What an endpoint returns.
pub type Outcome<L, T, R> = Result<Reply<L, T, R>, LocationsError>;

/// `r` is a successful reply with this status and body.
pub open spec fn replies<L, T, R>(r: Outcome<L, T, R>, status: u16, body: Payload<L, T, R>) -> bool {
    r matches Ok(reply) && reply.status == status && reply.body == body
}

/// `r` is a successful reply with this status and a text message as body.
pub open spec fn confirms<L, T, R>(r: Outcome<L, T, R>, status: u16, text: Seq<char>) -> bool {
    &&& r matches Ok(reply)
    &&& reply.status == status
    &&& reply.body matches Payload::Message(m)
    &&& m@ == text
}

/// `r` is the error with this message.
pub open spec fn fails_with<L, T, R>(r: Outcome<L, T, R>, message: Seq<char>) -> bool {
    r matches Err(e) && e@ == message
}

/// Query for the list of all locations.
pub fn index_query<L>() -> (q: Query<L>)
    ensures
        q == Query::<L>::IndexLocations,
{
    Query::IndexLocations
}

/// Reply to the list of all locations: the locations as they came, in their
/// order, whether there are none or many.
pub fn index<L, T, R, E>(answer: Result<QueryResult<L, T, R>, E>) -> (r: Outcome<L, T, R>)
    ensures
        answer matches Ok(QueryResult::Locations(v)) ==> replies(r, STATUS_OK, Payload::Locations(v)),
        !(answer matches Ok(QueryResult::Locations(_))) ==> fails_with(
            r,
            "Unable to retrieve locations"@,
        ),
{
    match answer {
        Ok(QueryResult::Locations(locations)) => Ok(
            Reply { status: STATUS_OK, body: Payload::Locations(locations) },
        ),
        _ => Err(LocationsError::new("Unable to retrieve locations")),
    }
}

/// Query that adds a location, handed on as it came.
pub fn store_query<L>(location: L) -> (q: Query<L>)
    ensures
        q == Query::StoreLocation(location),
{
    Query::StoreLocation(location)
}

/// Reply to adding a location: created, with a confirmation text, when the
/// storage layer acknowledged it.
pub fn store<L, T, R, E>(answer: Result<QueryResult<L, T, R>, E>) -> (r: Outcome<L, T, R>)
    ensures
        answer matches Ok(QueryResult::Success) ==> confirms(
            r,
            STATUS_CREATED,
            "Location added successfully"@,
        ),
        !(answer matches Ok(QueryResult::Success)) ==> fails_with(r, "Unable to add location"@),
{
    match answer {
        Ok(QueryResult::Success) => Ok(
            Reply {
                status: STATUS_CREATED,
                body: Payload::Message(String::from_str("Location added successfully")),
            },
        ),
        _ => Err(LocationsError::new("Unable to add location")),
    }
}

/// Query for one location.
pub fn show_query<L>(id: Id) -> (q: Query<L>)
    ensures
        q == Query::<L>::ShowLocation(id.location_id),
{
    Query::ShowLocation(id.location_id)
}

/// Reply to a request for one location: that location, when the storage
/// layer found it.
pub fn show<L, T, R, E>(answer: Result<QueryResult<L, T, R>, E>) -> (r: Outcome<L, T, R>)
    ensures
        answer matches Ok(QueryResult::Location(l)) ==> replies(r, STATUS_OK, Payload::Location(l)),
        !(answer matches Ok(QueryResult::Location(_))) ==> fails_with(
            r,
            "Unable to retrieve location"@,
        ),
{
    match answer {
        Ok(QueryResult::Location(location)) => Ok(
            Reply { status: STATUS_OK, body: Payload::Location(location) },
        ),
        _ => Err(LocationsError::new("Unable to retrieve location")),
    }
}

/// Query for the timestamps of a location in a range. The bounds are handed on
/// exactly as the caller wrote them: they are neither parsed nor checked here.
pub fn show_location_timestamps_range_query<L>(location_id: usize, start: String, end: String) -> (q:
    Query<L>)
    ensures
        q == Query::<L>::ShowLocationTimestampsRange(location_id, start, end),
{
    Query::ShowLocationTimestampsRange(location_id, start, end)
}

/// Reply to a request for the timestamps of a location in a range.
pub fn show_location_timestamps_range<L, T, R, E>(answer: Result<QueryResult<L, T, R>, E>) -> (r:
    Outcome<L, T, R>)
    ensures
        answer matches Ok(QueryResult::TimeStamps(v)) ==> replies(
            r,
            STATUS_OK,
            Payload::TimeStamps(v),
        ),
        !(answer matches Ok(QueryResult::TimeStamps(_))) ==> fails_with(
            r,
            "Unable to retrieve timestamps"@,
        ),
{
    timestamps_reply(answer)
}

/// Query for today's timestamps of a location.
pub fn show_location_timestamps_query<L>(id: Id) -> (q: Query<L>)
    ensures
        q == Query::<L>::ShowLocationTimestamps(id.location_id),
{
    Query::ShowLocationTimestamps(id.location_id)
}

/// Reply to a request for today's timestamps of a location.
pub fn show_location_timestamps<L, T, R, E>(answer: Result<QueryResult<L, T, R>, E>) -> (r: Outcome<
    L,
    T,
    R,
>)
    ensures
        answer matches Ok(QueryResult::TimeStamps(v)) ==> replies(
            r,
            STATUS_OK,
            Payload::TimeStamps(v),
        ),
        !(answer matches Ok(QueryResult::TimeStamps(_))) ==> fails_with(
            r,
            "Unable to retrieve timestamps"@,
        ),
{
    timestamps_reply(answer)
}

/// The timestamps, or the error of the timestamp endpoints.
fn timestamps_reply<L, T, R, E>(answer: Result<QueryResult<L, T, R>, E>) -> (r: Outcome<L, T, R>)
    ensures
        answer matches Ok(QueryResult::TimeStamps(v)) ==> replies(
            r,
            STATUS_OK,
            Payload::TimeStamps(v),
        ),
        !(answer matches Ok(QueryResult::TimeStamps(_))) ==> fails_with(
            r,
            "Unable to retrieve timestamps"@,
        ),
{
    match answer {
        Ok(QueryResult::TimeStamps(timestamps)) => Ok(
            Reply { status: STATUS_OK, body: Payload::TimeStamps(timestamps) },
        ),
        _ => Err(LocationsError::new("Unable to retrieve timestamps")),
    }
}

/// Query for the residents of a location.
pub fn show_location_residents_query<L>(id: Id) -> (q: Query<L>)
    ensures
        q == Query::<L>::ShowLocationResidents(id.location_id),
{
    Query::ShowLocationResidents(id.location_id)
}

/// Reply to a request for the residents of a location.
pub fn show_location_residents<L, T, R, E>(answer: Result<QueryResult<L, T, R>, E>) -> (r: Outcome<
    L,
    T,
    R,
>)
    ensures
        answer matches Ok(QueryResult::Residents(v)) ==> replies(
            r,
            STATUS_OK,
            Payload::Residents(v),
        ),
        !(answer matches Ok(QueryResult::Residents(_))) ==> fails_with(
            r,
            "Unable to retrieve residents"@,
        ),
{
    match answer {
        Ok(QueryResult::Residents(residents)) => Ok(
            Reply { status: STATUS_OK, body: Payload::Residents(residents) },
        ),
        _ => Err(LocationsError::new("Unable to retrieve residents")),
    }
}

} // verus!
