//! What the endpoints ask of the storage layer, and what it may answer.
//!
//! The record types are parameters: `L` is a location, `T` a timestamp and
//! `R` a resident. The endpoints hand them on without looking inside.
use vstd::prelude::*;

verus! {

/// One operation for the storage layer, with the values it needs.
#[derive(Debug, Clone, PartialEq, Eq)]
pub enum Query<L> {
    /// Every location.
    IndexLocations,
    /// Add this location.
    StoreLocation(L),
    /// The location with this identifier.
    ShowLocation(usize),
    /// The timestamps of a location between a start and an end, both given
    /// as the caller wrote them.
    ShowLocationTimestampsRange(usize, String, String),
    /// Today's timestamps of a location.
    ShowLocationTimestamps(usize),
    /// The residents of a location.
    ShowLocationResidents(usize),
}

/// A successful answer of the storage layer.
#[derive(Debug, Clone, PartialEq, Eq)]
pub enum QueryResult<L, T, R> {
    Locations(Vec<L>),
    Location(L),
    Success,
    TimeStamps(Vec<T>),
    Residents(Vec<R>),
}

} // verus!
