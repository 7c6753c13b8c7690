//! Queries: the column types their rows are read with, their fetch
//! options, and the cursors that fetching them opens.

use crate::error::GsError;
use crate::row_set::{row_set_spec, RowSet, RowSetInfo};
use crate::types::{RowSetType, Type};
use vstd::prelude::*;

verus! {

/// The name of the option that caps the number of rows fetched.
pub const LIMIT_KEY: &'static str = "limit";

/// The name of the option that allows partial, streamed execution.
pub const PARTIAL_KEY: &'static str = "partial";

/// The options applied to a query before it is fetched.
#[derive(PartialEq, Eq, Structural, Clone, Copy, Debug)]
pub struct FetchOptions {
    /// The most rows to fetch.
    pub limit: i32,
    /// Whether the engine may execute the query partially, streaming rows.
    pub partial: bool,
}

/// The options that the first `n` entries of `opts` give, each entry
/// overriding those before it, starting from a limit of 0 and partial
/// execution allowed; `Convert` if any of those entries names no option.
pub open spec fn fetch_options_spec(opts: Seq<(String, i32)>, n: int) -> Result<FetchOptions, GsError>
    decreases n,
{
    if n <= 0 {
        Ok(FetchOptions { limit: 0, partial: true })
    } else {
        match fetch_options_spec(opts, n - 1) {
            Err(e) => Err(e),
            Ok(o) => {
                let (key, value) = opts[n - 1];
                if key@ == LIMIT_KEY@ {
                    Ok(FetchOptions { limit: value, partial: o.partial })
                } else if key@ == PARTIAL_KEY@ {
                    Ok(FetchOptions { limit: o.limit, partial: value != 0 })
                } else {
                    Err(GsError::Convert)
                }
            },
        }
    }
}

/// Once an entry names no option, no later entry changes the outcome.
proof fn lemma_fetch_options_error_stays(opts: Seq<(String, i32)>, i: int, n: int)
    requires
        0 <= i <= n,
        fetch_options_spec(opts, i) is Err,
    ensures
        fetch_options_spec(opts, n) == fetch_options_spec(opts, i),
    decreases n - i,
{
    if i < n {
        lemma_fetch_options_error_stays(opts, i, n - 1);
    }
}

/// A query over one container's rows.
pub struct Query {
    type_list: Vec<Type>,
}

impl Query {
    /// The column types that rows of this query are read with.
    pub closed spec fn types(&self) -> Seq<Type> {
        self.type_list@
    }

    /// A query whose rows are read with the column types `type_list`.
    pub fn new(type_list: Vec<Type>) -> (r: Query)
        ensures
            r.types() == type_list@,
    {
        Query { type_list }
    }

    /// The fetch options that `options` sets, in order, each entry
    /// overriding earlier ones: `limit` sets the row limit (0 when not
    /// given) and `partial` allows partial execution when non-zero (allowed
    /// when not given). Any other name gives `Convert`.
    pub fn set_fetch_options(&self, options: &Vec<(String, i32)>) -> (r: Result<FetchOptions, GsError>)
        ensures
            r == fetch_options_spec(options@, options@.len() as int),
    {
        let limit_key = LIMIT_KEY.to_owned();
        let partial_key = PARTIAL_KEY.to_owned();
        let mut limit: i32 = 0;
        let mut partial: bool = true;
        let mut i: usize = 0;
        while i < options.len()
            invariant
                i <= options@.len(),
                limit_key@ == LIMIT_KEY@,
                partial_key@ == PARTIAL_KEY@,
                fetch_options_spec(options@, i as int) == Ok::<FetchOptions, GsError>(
                    FetchOptions { limit, partial },
                ),
            decreases options@.len() - i,
        {
            let entry = &options[i];
            if entry.0 == limit_key {
                limit = entry.1;
            } else if entry.0 == partial_key {
                partial = entry.1 != 0;
            } else {
                proof {
                    lemma_fetch_options_error_stays(options@, i + 1, options@.len() as int);
                }
                return Err(GsError::Convert);
            }
            i = i + 1;
        }
        Ok(FetchOptions { limit, partial })
    }

    /// The cursor over this query's results, from the engine's outcome of
    /// the fetch: its failure status, or the kind code and size of the
    /// result set it opened.
    pub fn fetch(&self, fetched: Result<RowSetInfo, i32>) -> (r: Result<RowSet, GsError>)
        ensures
            r matches Err(e) ==> row_set_spec(fetched) == Err::<RowSetType, GsError>(e),
            r matches Ok(rs) ==> (row_set_spec(fetched) == Ok::<RowSetType, GsError>(rs.kind())
                && rs.types() == self.types() && (fetched matches Ok(info) && rs.size_spec()
                == info.size)),
    {
        self.open_row_set(fetched)
    }

    /// The cursor over this query's results when the engine streams them
    /// rather than materialising them; otherwise as `fetch`.
    pub fn get_row_set(&self, fetched: Result<RowSetInfo, i32>) -> (r: Result<RowSet, GsError>)
        ensures
            r matches Err(e) ==> row_set_spec(fetched) == Err::<RowSetType, GsError>(e),
            r matches Ok(rs) ==> (row_set_spec(fetched) == Ok::<RowSetType, GsError>(rs.kind())
                && rs.types() == self.types() && (fetched matches Ok(info) && rs.size_spec()
                == info.size)),
    {
        self.open_row_set(fetched)
    }

    fn open_row_set(&self, fetched: Result<RowSetInfo, i32>) -> (r: Result<RowSet, GsError>)
        ensures
            r matches Err(e) ==> row_set_spec(fetched) == Err::<RowSetType, GsError>(e),
            r matches Ok(rs) ==> (row_set_spec(fetched) == Ok::<RowSetType, GsError>(rs.kind())
                && rs.types() == self.types() && (fetched matches Ok(info) && rs.size_spec()
                == info.size)),
    {
        match fetched {
            Err(status) => Err(GsError::Engine(status)),
            Ok(info) => RowSet::new(info.type_code, info.size, crate::container::copy_types(&self.type_list)),
        }
    }

    /// The column types that rows of this query are read with.
    pub fn type_list(&self) -> (r: &Vec<Type>)
        ensures
            r@ == self.types(),
    {
        &self.type_list
    }
}

} // verus!
