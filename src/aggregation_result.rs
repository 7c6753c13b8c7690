//! Aggregation results: one scalar read from the engine in each of the
//! representations it offers.

use crate::error::GsError;
use crate::value::Timestamp;
use vstd::prelude::*;

verus! {

/// The result of an aggregation (count, sum, average, minimum, maximum).
/// It holds what the engine gave when asked for the value as a long
/// integer, as a double and as a timestamp: a value or a failure status.
/// Which representation is meaningful depends on the aggregation (an
/// average is a double, a count a long integer); the caller knows which.
pub struct AggregationResult {
    as_long: Result<i64, i32>,
    as_double: Result<u64, i32>,
    as_timestamp: Result<i64, i32>,
}

/// An engine reading seen as a result of this crate.
pub open spec fn reading<T>(r: Result<T, i32>) -> Result<T, GsError> {
    match r {
        Ok(v) => Ok(v),
        Err(status) => Err(GsError::Engine(status)),
    }
}

impl AggregationResult {
    /// The engine's reading as a long integer.
    pub closed spec fn long_reading(&self) -> Result<i64, i32> {
        self.as_long
    }

    /// The engine's reading as the bits of a double.
    pub closed spec fn double_reading(&self) -> Result<u64, i32> {
        self.as_double
    }

    /// The engine's reading as milliseconds since the epoch.
    pub closed spec fn timestamp_reading(&self) -> Result<i64, i32> {
        self.as_timestamp
    }

    /// An aggregation result from the engine's three readings of it: as a
    /// long integer, as the bits of a double, and as milliseconds since the
    /// epoch; each a value or the engine's failure status.
    pub fn new(as_long: Result<i64, i32>, as_double: Result<u64, i32>, as_timestamp: Result<i64, i32>) -> (r: AggregationResult)
        ensures
            r.long_reading() == as_long,
            r.double_reading() == as_double,
            r.timestamp_reading() == as_timestamp,
    {
        AggregationResult { as_long, as_double, as_timestamp }
    }

    /// The result as a long integer, or the engine's error.
    pub fn get_as_i64(&self) -> (r: Result<i64, GsError>)
        ensures
            r == reading(self.long_reading()),
    {
        match self.as_long {
            Ok(v) => Ok(v),
            Err(status) => Err(GsError::Engine(status)),
        }
    }

    /// The result as a double, given as the bits of an `f64`, or the
    /// engine's error.
    pub fn get_as_f64(&self) -> (r: Result<u64, GsError>)
        ensures
            r == reading(self.double_reading()),
    {
        match self.as_double {
            Ok(v) => Ok(v),
            Err(status) => Err(GsError::Engine(status)),
        }
    }

    /// The result as a timestamp, or the engine's error.
    pub fn get_as_timestamp(&self) -> (r: Result<Timestamp, GsError>)
        ensures
            r == (match self.timestamp_reading() {
                Ok(ms) => Ok(Timestamp { value: ms }),
                Err(status) => Err(GsError::Engine(status)),
            }),
    {
        match self.as_timestamp {
            Ok(ms) => Ok(Timestamp { value: ms }),
            Err(status) => Err(GsError::Engine(status)),
        }
    }
}

} // verus!
