//! Client-side data access for a typed, columnar row store: schema
//! definitions, the row codec, key-checked row operations, query cursors
//! and transaction bookkeeping. Every decision is made here, over plain
//! values; the calls into the storage engine are made by the caller, who
//! hands each engine outcome (a status code, a flag, the fields it read)
//! back to the functions of this crate.

pub mod aggregation_result;
pub mod container;
pub mod container_info;
pub mod error;
pub mod query;
pub mod row_set;
pub mod store;
pub mod types;
pub mod util;
pub mod value;

pub use aggregation_result::AggregationResult;
pub use container::{Container, KeyValue, TransactionMode};
pub use container_info::{ContainerInfo, GsColumnInfo, GsContainerInfo};
pub use error::{GsError, RESULT_OK};
pub use query::{FetchOptions, Query};
pub use row_set::{RowSet, RowSetInfo};
pub use store::{Store, StoreFactory};
pub use types::{ContainerType, IndexType, RowSetType, TimeUnit, Type, TypeOption};
pub use util::{FieldRead, Util};
pub use value::{Geometry, Null, Timestamp, Value};
