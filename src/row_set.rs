//! Result cursors: a query's rows, or its aggregation results, walked one
//! at a time with explicit checks for the cursor's kind and its end.

use crate::aggregation_result::AggregationResult;
use crate::error::GsError;
use crate::types::{row_set_type_of_code, RowSetType, Type};
use crate::util::{decode_spec, row_result_view, FieldRead, Util};
use crate::value::Value;
use vstd::prelude::*;

verus! {

/// What the engine reports of a result set it opened: the code of its kind
/// and its size (advisory; the engine may report -1 when it does not know).
#[derive(PartialEq, Eq, Structural, Clone, Copy, Debug)]
pub struct RowSetInfo {
    pub type_code: i32,
    pub size: i32,
}

/// The kind of the cursor that a fetch with outcome `fetched` opens, or why
/// none is opened.
pub open spec fn row_set_spec(fetched: Result<RowSetInfo, i32>) -> Result<RowSetType, GsError> {
    match fetched {
        Err(status) => Err(GsError::Engine(status)),
        Ok(info) => match row_set_type_of_code(info.type_code as int) {
            Some(t) => Ok(t),
            None => Err(GsError::Convert),
        },
    }
}

/// What asking a cursor of kind `kind` for its next row gives, when the
/// engine said whether one is left (`has_next`) and, if so, how reading it
/// went.
pub open spec fn next_spec(
    kind: RowSetType,
    types: Seq<Type>,
    has_next: bool,
    fetched: Result<Vec<FieldRead>, i32>,
) -> Result<Seq<Value>, GsError> {
    if kind != RowSetType::ContainerRows {
        Err(GsError::Unsupported)
    } else if !has_next {
        Err(GsError::Exhausted)
    } else {
        match fetched {
            Err(status) => Err(GsError::Engine(status)),
            Ok(reads) => decode_spec(types, reads@),
        }
    }
}

/// A cursor over a query's results.
pub struct RowSet {
    rowset_type: RowSetType,
    size: i32,
    type_list: Vec<Type>,
}

impl RowSet {
    /// The kind of results this cursor walks over; fixed when it is opened.
    pub closed spec fn kind(&self) -> RowSetType {
        self.rowset_type
    }

    /// The result count the engine reported when the cursor was opened.
    pub closed spec fn size_spec(&self) -> i32 {
        self.size
    }

    /// The column types that rows are read with.
    pub closed spec fn types(&self) -> Seq<Type> {
        self.type_list@
    }

    /// A cursor over a result set whose kind the engine reported as
    /// `type_code` and whose size as `size`; `Convert` for a code that names
    /// no kind.
    pub fn new(type_code: i32, size: i32, type_list: Vec<Type>) -> (r: Result<RowSet, GsError>)
        ensures
            r matches Err(e) ==> row_set_spec(Ok(RowSetInfo { type_code, size })) == Err::<
                RowSetType,
                GsError,
            >(e),
            r matches Ok(rs) ==> row_set_spec(Ok(RowSetInfo { type_code, size })) == Ok::<
                RowSetType,
                GsError,
            >(rs.kind()) && rs.types() == type_list@ && rs.size_spec() == size,
    {
        match RowSetType::from_code(type_code) {
            None => Err(GsError::Convert),
            Some(rowset_type) => Ok(RowSet { rowset_type, size, type_list }),
        }
    }

    /// Checks that a row may be read next, given the engine's answer to
    /// whether one is left: `Unsupported` for a cursor over anything but
    /// rows, `Exhausted` when nothing is left. Call before asking the engine
    /// for the row.
    pub fn check_next(&self, has_next: bool) -> (r: Result<(), GsError>)
        ensures
            self.kind() != RowSetType::ContainerRows ==> r == Err::<(), GsError>(GsError::Unsupported),
            self.kind() == RowSetType::ContainerRows ==> r == (if has_next {
                Ok(())
            } else {
                Err(GsError::Exhausted)
            }),
    {
        if self.rowset_type != RowSetType::ContainerRows {
            Err(GsError::Unsupported)
        } else if !has_next {
            Err(GsError::Exhausted)
        } else {
            Ok(())
        }
    }

    /// Checks that an aggregation result may be read next, as `check_next`
    /// does for rows.
    pub fn check_next_aggregation(&self, has_next: bool) -> (r: Result<(), GsError>)
        ensures
            self.kind() != RowSetType::AggregationResult ==> r == Err::<(), GsError>(
                GsError::Unsupported,
            ),
            self.kind() == RowSetType::AggregationResult ==> r == (if has_next {
                Ok(())
            } else {
                Err(GsError::Exhausted)
            }),
    {
        if self.rowset_type != RowSetType::AggregationResult {
            Err(GsError::Unsupported)
        } else if !has_next {
            Err(GsError::Exhausted)
        } else {
            Ok(())
        }
    }

    /// The next row. A cursor over anything but rows gives `Unsupported`;
    /// one with nothing left (`has_next`, the engine's answer just before,
    /// is false) gives `Exhausted`; a failed read gives the engine's error;
    /// otherwise the row is decoded from the fields read.
    pub fn next(&self, has_next: bool, fetched: Result<Vec<FieldRead>, i32>) -> (r: Result<
        Vec<Value>,
        GsError,
    >)
        ensures
            row_result_view(r) == next_spec(self.kind(), self.types(), has_next, fetched),
    {
        match self.check_next(has_next) {
            Err(e) => Err(e),
            Ok(()) => match fetched {
                Err(status) => Err(GsError::Engine(status)),
                Ok(reads) => Util::get_row_data(reads, &self.type_list),
            },
        }
    }

    /// The next aggregation result. A cursor over anything but aggregation
    /// results gives `Unsupported`; one with nothing left gives `Exhausted`;
    /// a failed read gives the engine's error.
    pub fn next_aggregation(
        &self,
        has_next: bool,
        fetched: Result<AggregationResult, i32>,
    ) -> (r: Result<AggregationResult, GsError>)
        ensures
            self.kind() != RowSetType::AggregationResult ==> r == Err::<AggregationResult, GsError>(
                GsError::Unsupported,
            ),
            self.kind() == RowSetType::AggregationResult && !has_next ==> r == Err::<
                AggregationResult,
                GsError,
            >(GsError::Exhausted),
            self.kind() == RowSetType::AggregationResult && has_next ==> r == (match fetched {
                Err(status) => Err(GsError::Engine(status)),
                Ok(a) => Ok(a),
            }),
    {
        match self.check_next_aggregation(has_next) {
            Err(e) => Err(e),
            Ok(()) => match fetched {
                Err(status) => Err(GsError::Engine(status)),
                Ok(a) => Ok(a),
            },
        }
    }

    /// The kind of results this cursor walks over.
    pub fn rowset_type(&self) -> (r: RowSetType)
        ensures
            r == self.kind(),
    {
        self.rowset_type
    }

    /// The result count the engine reported when the cursor was opened.
    pub fn size(&self) -> (r: i32)
        ensures
            r == self.size_spec(),
    {
        self.size
    }

    /// The column types that rows are read with.
    pub fn type_list(&self) -> (r: &Vec<Type>)
        ensures
            r@ == self.types(),
    {
        &self.type_list
    }
}

} // verus!
