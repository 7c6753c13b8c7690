//! The row codec and the preparation of connection properties.

use crate::error::{GsError, RESULT_OK};
use crate::types::Type;
use crate::value::{kind_of, Value};
use convert_case::{Case, Casing};
use vstd::prelude::*;

verus! {

/// What the engine reported when asked for one field of a row buffer: its
/// status code and, on success, the value it read.
pub struct FieldRead {
    pub status: i32,
    pub value: Value,
}

/// A row fits a schema: one value per column, each of the column's type.
pub open spec fn row_matches(types: Seq<Type>, row: Seq<Value>) -> bool {
    &&& row.len() == types.len()
    &&& forall|i: int| 0 <= i < row.len() ==> kind_of(#[trigger] row[i]) == types[i]
}

/// Why one field read for a column of type `t` cannot enter a row, if it cannot.
pub open spec fn field_error(t: Type, f: FieldRead) -> Option<GsError> {
    if t == Type::Geometry {
        Some(GsError::Unsupported)
    } else if f.status != RESULT_OK {
        Some(GsError::Engine(f.status))
    } else if kind_of(f.value) != t {
        Some(GsError::Convert)
    } else {
        None
    }
}

/// The first error among the fields from position `i` on, in column order.
pub open spec fn first_field_error(types: Seq<Type>, reads: Seq<FieldRead>, i: int) -> Option<
    GsError,
>
    decreases types.len() - i,
{
    if i < 0 || i >= types.len() || i >= reads.len() {
        None
    } else if field_error(types[i], reads[i]) is Some {
        field_error(types[i], reads[i])
    } else {
        first_field_error(types, reads, i + 1)
    }
}

/// The row that a schema and the fields read for it give: all of it, or the
/// first error in column order, never a part of it.
pub open spec fn decode_spec(types: Seq<Type>, reads: Seq<FieldRead>) -> Result<Seq<Value>, GsError> {
    if reads.len() != types.len() {
        Err(GsError::Convert)
    } else {
        match first_field_error(types, reads, 0) {
            Some(e) => Err(e),
            None => Ok(reads.map_values(|f: FieldRead| f.value)),
        }
    }
}

/// A row result with the row seen as a sequence.
pub open spec fn row_result_view(r: Result<Vec<Value>, GsError>) -> Result<Seq<Value>, GsError> {
    match r {
        Ok(row) => Ok(row@),
        Err(e) => Err(e),
    }
}

/// What reading a stored row back yields when every read succeeds.
pub open spec fn stored_reads(row: Seq<Value>) -> Seq<FieldRead> {
    row.map_values(|v: Value| FieldRead { status: RESULT_OK, value: v })
}

/// No field of a stored row, from position `i` on, fails to decode.
proof fn lemma_stored_reads_clean(types: Seq<Type>, row: Seq<Value>, i: int)
    requires
        row_matches(types, row),
        forall|k: int| 0 <= k < types.len() ==> types[k] != Type::Geometry,
    ensures
        first_field_error(types, stored_reads(row), i) is None,
    decreases types.len() - i,
{
    if 0 <= i < types.len() {
        assert(stored_reads(row)[i] == FieldRead { status: RESULT_OK, value: row[i] });
        lemma_stored_reads_clean(types, row, i + 1);
    }
}

/// Writing a row that `Util::check_row` accepts into a row buffer and
/// reading every field back with success gives the same row from
/// `Util::get_row_data`, provided no column is a geometry column.
pub proof fn lemma_row_round_trip(types: Seq<Type>, row: Seq<Value>)
    requires
        row_matches(types, row),
        forall|k: int| 0 <= k < types.len() ==> types[k] != Type::Geometry,
    ensures
        decode_spec(types, stored_reads(row)) == Ok::<Seq<Value>, GsError>(row),
{
    lemma_stored_reads_clean(types, row, 0);
    assert(stored_reads(row).map_values(|f: FieldRead| f.value) =~= row);
}

/// The engine's camel-case form of a property name.
pub uninterp spec fn camel_case_of(s: Seq<char>) -> Seq<char>;

/// Relies on `convert_case`'s `Casing::to_case` with `Case::Camel`, whose
/// result depends on the text alone.
#[verifier::external_body]
fn to_camel_case(s: &str) -> (r: String)
    ensures
        r@ == camel_case_of(s@),
{
    s.to_case(Case::Camel)
}

/// The codec between rows of values and the engine's field-by-field access.
pub struct Util;

impl Util {
    /// Prepares connection properties for the engine: each name in camel
    /// case, each value as given, in the order given.
    pub fn tup_to_properties(properties: &Vec<(&str, &str)>) -> (r: Vec<(String, String)>)
        ensures
            r@.len() == properties@.len(),
            forall|i: int|
                0 <= i < r@.len() ==> {
                    &&& (#[trigger] r@[i]).0@ == camel_case_of(properties@[i].0@)
                    &&& r@[i].1@ == properties@[i].1@
                },
    {
        let mut result: Vec<(String, String)> = Vec::new();
        let mut i: usize = 0;
        while i < properties.len()
            invariant
                i <= properties@.len(),
                result@.len() == i,
                forall|j: int|
                    0 <= j < i ==> {
                        &&& (#[trigger] result@[j]).0@ == camel_case_of(properties@[j].0@)
                        &&& result@[j].1@ == properties@[j].1@
                    },
            decreases properties@.len() - i,
        {
            let (key, value) = properties[i];
            let name = to_camel_case(key);
            result.push((name, value.to_owned()));
            i = i + 1;
        }
        result
    }

    /// Checks a row against a schema before it is written: `Convert` unless
    /// the row has one value per column and each value has its column's type.
    pub fn check_row(types: &Vec<Type>, fields: &Vec<Value>) -> (r: Result<(), GsError>)
        ensures
            r is Ok <==> row_matches(types@, fields@),
            r is Err ==> r == Err::<(), GsError>(GsError::Convert),
    {
        if fields.len() != types.len() {
            return Err(GsError::Convert);
        }
        let mut i: usize = 0;
        while i < fields.len()
            invariant
                fields@.len() == types@.len(),
                i <= fields@.len(),
                forall|j: int| 0 <= j < i ==> kind_of(#[trigger] fields@[j]) == types@[j],
            decreases fields@.len() - i,
        {
            if fields[i].data_type() != types[i] {
                return Err(GsError::Convert);
            }
            i = i + 1;
        }
        Ok(())
    }

    /// Builds a row from the fields the engine read from a row buffer, one
    /// per column of `type_list`: the whole row, or the first error in
    /// column order (`Unsupported` for a geometry column, `Engine` for a
    /// failed read, `Convert` for a value of the wrong kind or a count of
    /// fields that differs from the count of columns).
    pub fn get_row_data(mut reads: Vec<FieldRead>, type_list: &Vec<Type>) -> (r: Result<Vec<Value>, GsError>)
        ensures
            row_result_view(r) == decode_spec(type_list@, reads@),
    {
        if reads.len() != type_list.len() {
            return Err(GsError::Convert);
        }
        let ghost all = reads@;
        let mut row: Vec<Value> = Vec::new();
        let mut failure: Option<GsError> = None;
        let mut pos: usize = 0;
        while pos < type_list.len() && failure.is_none()
            invariant
                all.len() == type_list@.len(),
                pos <= all.len(),
                failure is None ==> reads@ == all.subrange(pos as int, all.len() as int),
                row@.len() == pos,
                forall|j: int| 0 <= j < pos ==> #[trigger] row@[j] == all[j].value,
                failure is None ==> first_field_error(type_list@, all, 0) == first_field_error(
                    type_list@,
                    all,
                    pos as int,
                ),
                failure is Some ==> first_field_error(type_list@, all, 0) == failure,
            decreases all.len() - pos + (if failure is None { 1int } else { 0int }),
        {
            let f = reads.remove(0);
            assert(f == all[pos as int]);
            let t = type_list[pos];
            if t == Type::Geometry {
                failure = Some(GsError::Unsupported);
            } else if f.status != RESULT_OK {
                failure = Some(GsError::Engine(f.status));
            } else if f.value.data_type() != t {
                failure = Some(GsError::Convert);
            } else {
                row.push(f.value);
                pos = pos + 1;
            }
        }
        if let Some(e) = failure {
            return Err(e);
        }
        assert(row@ =~= all.map_values(|f: FieldRead| f.value));
        Ok(row)
    }
}

} // verus!
