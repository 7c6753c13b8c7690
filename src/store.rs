//! Stores and their factory: opening containers from schemas, and
//! rebuilding schemas from what the engine reports of a container.

use crate::container::{Container, TransactionMode};
use crate::container_info::{
    check_names_distinct, is_record_of, names_distinct, ContainerInfo, GsColumnInfo,
    GsContainerInfo,
};
use crate::error::{GsError, RESULT_OK};
use crate::types::{
    container_type_of_code, lemma_container_type_code_round_trip, lemma_type_code_round_trip,
    type_of_code, ContainerType, Type, TypeOption,
};
use vstd::prelude::*;

verus! {

/// The release this client reports as its version.
pub const CLIENT_VERSION: &'static str = "GridDB Rust Client Version 0.6";

/// Every column of an engine record has a type code that names a type.
pub open spec fn columns_decodable(cols: Seq<GsColumnInfo>) -> bool {
    forall|i: int| 0 <= i < cols.len() ==> (#[trigger] type_of_code(cols[i].type_code as int)) is Some
}

/// An engine record describes a schema this crate can hold: a known
/// container kind and at least one column, each of a known type.
pub open spec fn record_decodable(rec: GsContainerInfo) -> bool {
    &&& container_type_of_code(rec.type_code as int) is Some
    &&& rec.column_info_list@.len() > 0
    &&& columns_decodable(rec.column_info_list@)
}

/// An engine record describes a schema: it can be held, and its column
/// names are distinct.
pub open spec fn record_is_schema(rec: GsContainerInfo) -> bool {
    &&& record_decodable(rec)
    &&& names_distinct(rec.column_info_list@.map_values(|c: GsColumnInfo| c.name@))
}

/// The engine's record of a well-formed schema passes every check of
/// `Store::get_container_info`, and its codes and names give back the
/// schema's kind, column types and column names.
pub proof fn lemma_schema_record_round_trip(info: ContainerInfo, rec: GsContainerInfo)
    requires
        info.wf(),
        is_record_of(rec, info),
    ensures
        record_is_schema(rec),
        container_type_of_code(rec.type_code as int) == Some(info.container_type),
        forall|i: int|
            0 <= i < rec.column_info_list@.len() ==> type_of_code(
                #[trigger] rec.column_info_list@[i].type_code as int,
            ) == Some(info.column_info_list@[i].1),
        rec.column_info_list@.map_values(|c: GsColumnInfo| c.name@)
            == info.column_info_list@.map_values(|c: (String, Type, TypeOption)| c.0@),
{
    lemma_container_type_code_round_trip(info.container_type);
    assert forall|i: int| 0 <= i < rec.column_info_list@.len() implies type_of_code(
        #[trigger] rec.column_info_list@[i].type_code as int,
    ) == Some(info.column_info_list@[i].1) by {
        lemma_type_code_round_trip(info.column_info_list@[i].1);
    }
    assert(rec.column_info_list@.map_values(|c: GsColumnInfo| c.name@)
        =~= info.column_info_list@.map_values(|c: (String, Type, TypeOption)| c.0@));
}

/// The column types an engine record gives, one per column, in order.
fn types_from_record(cols: &Vec<GsColumnInfo>) -> (r: Option<Vec<Type>>)
    ensures
        r is Some <==> columns_decodable(cols@),
        r matches Some(types) ==> types@.len() == cols@.len() && forall|i: int|
            0 <= i < cols@.len() ==> type_of_code(#[trigger] cols@[i].type_code as int) == Some(
                types@[i],
            ),
{
    let mut types: Vec<Type> = Vec::new();
    let mut i: usize = 0;
    while i < cols.len()
        invariant
            i <= cols@.len(),
            types@.len() == i,
            forall|j: int|
                0 <= j < i ==> type_of_code(#[trigger] cols@[j].type_code as int) == Some(
                    types@[j],
                ),
        decreases cols@.len() - i,
    {
        match Type::from_code(cols[i].type_code) {
            None => {
                return None;
            },
            Some(t) => {
                types.push(t);
            },
        }
        i = i + 1;
    }
    Some(types)
}

/// A connection to a cluster, through which containers are opened.
pub struct Store {}

impl Store {
    /// A store on a connection that the engine established.
    pub fn new() -> (r: Store) {
        Store {}
    }

    /// The container that the engine created or opened for the schema
    /// `container_info` (reported with `status`) and whose row buffer it
    /// created (reported with `row_status`): the engine's first error, or a
    /// container with the schema's kind and column types.
    pub fn put_container(&self, container_info: &ContainerInfo, status: i32, row_status: i32) -> (r:
        Result<Container, GsError>)
        ensures
            status != RESULT_OK ==> r == Err::<Container, GsError>(GsError::Engine(status)),
            status == RESULT_OK && row_status != RESULT_OK ==> r == Err::<Container, GsError>(
                GsError::Engine(row_status),
            ),
            status == RESULT_OK && row_status == RESULT_OK ==> (r matches Ok(c) && c.types()
                == container_info.types() && c.kind() == container_info.container_type
                && c.mode() == TransactionMode::AutoCommit),
    {
        if status != RESULT_OK {
            return Err(GsError::Engine(status));
        }
        let mut types: Vec<Type> = Vec::new();
        let mut i: usize = 0;
        while i < container_info.column_info_list.len()
            invariant
                i <= container_info.column_info_list@.len(),
                types@ == container_info.types().subrange(0, i as int),
            decreases container_info.column_info_list@.len() - i,
        {
            types.push(container_info.column_info_list[i].1);
            i = i + 1;
        }
        Container::new(container_info.container_type, types, row_status)
    }

    /// The schema of the container `name`, rebuilt from the engine's record
    /// of it (or its failure status): the engine's error; `Convert` for a
    /// record with an unknown kind or column type, with no column, or with
    /// two columns of one name; else the schema a caller would build from
    /// the same name, columns, kind and row-key flag.
    pub fn get_container_info(&self, name: &str, reported: Result<GsContainerInfo, i32>) -> (r:
        Result<ContainerInfo, GsError>)
        ensures
            reported matches Err(s) ==> r == Err::<ContainerInfo, GsError>(GsError::Engine(s)),
            reported matches Ok(rec) ==> (r is Ok <==> record_is_schema(rec)),
            reported matches Ok(rec) && !record_is_schema(rec) ==> r == Err::<
                ContainerInfo,
                GsError,
            >(GsError::Convert),
            r matches Ok(info) ==> (reported matches Ok(rec) && info.wf() && info.name@ == name@
                && container_type_of_code(rec.type_code as int) == Some(info.container_type)
                && info.row_key == rec.row_key_assigned && info.column_info_list@.len()
                == rec.column_info_list@.len() && forall|i: int|
                0 <= i < rec.column_info_list@.len() ==> {
                    &&& (#[trigger] info.column_info_list@[i]).0@
                        == rec.column_info_list@[i].name@
                    &&& type_of_code(rec.column_info_list@[i].type_code as int) == Some(
                        info.column_info_list@[i].1,
                    )
                }),
    {
        let rec = match reported {
            Err(status) => {
                return Err(GsError::Engine(status));
            },
            Ok(rec) => rec,
        };
        let container_type = match ContainerType::from_code(rec.type_code) {
            None => {
                return Err(GsError::Convert);
            },
            Some(t) => t,
        };
        if rec.column_info_list.len() == 0 {
            return Err(GsError::Convert);
        }
        let types = match types_from_record(&rec.column_info_list) {
            None => {
                return Err(GsError::Convert);
            },
            Some(types) => types,
        };
        let mut columns: Vec<(&str, Type)> = Vec::new();
        let mut names: Vec<&str> = Vec::new();
        let mut i: usize = 0;
        while i < rec.column_info_list.len()
            invariant
                i <= rec.column_info_list@.len(),
                types@.len() == rec.column_info_list@.len(),
                columns@.len() == i,
                names@.len() == i,
                forall|j: int|
                    0 <= j < i ==> {
                        &&& (#[trigger] columns@[j]).0@ == rec.column_info_list@[j].name@
                        &&& columns@[j].1 == types@[j]
                    },
                forall|j: int| 0 <= j < i ==> (#[trigger] names@[j])@ == rec.column_info_list@[j].name@,
            decreases rec.column_info_list@.len() - i,
        {
            columns.push((rec.column_info_list[i].name.as_str(), types[i]));
            names.push(rec.column_info_list[i].name.as_str());
            i = i + 1;
        }
        let distinct = check_names_distinct(&names);
        assert(names@.map_values(|n: &str| n@) =~= rec.column_info_list@.map_values(
            |c: GsColumnInfo| c.name@,
        ));
        assert(columns@.map_values(|c: (&str, Type)| c.0@) =~= rec.column_info_list@.map_values(
            |c: GsColumnInfo| c.name@,
        ));
        if !distinct {
            return Err(GsError::Convert);
        }
        Ok(ContainerInfo::ContainerInfo(name, columns, container_type, rec.row_key_assigned))
    }

    /// The existing container that the engine opened (reported with
    /// `opened`), described (its record, or its failure status) and gave a
    /// row buffer (reported with `row_status`): the engine's first error;
    /// `Convert` for a record with an unknown kind or column type, or with
    /// no column; else a container with the record's kind and column types.
    pub fn get_container(
        &self,
        opened: i32,
        reported: Result<GsContainerInfo, i32>,
        row_status: i32,
    ) -> (r: Result<Container, GsError>)
        ensures
            opened != RESULT_OK ==> r == Err::<Container, GsError>(GsError::Engine(opened)),
            opened == RESULT_OK ==> match reported {
                Err(s) => r == Err::<Container, GsError>(GsError::Engine(s)),
                Ok(rec) => if !record_decodable(rec) {
                    r == Err::<Container, GsError>(GsError::Convert)
                } else if row_status != RESULT_OK {
                    r == Err::<Container, GsError>(GsError::Engine(row_status))
                } else {
                    r is Ok
                },
            },
            r matches Ok(c) ==> (reported matches Ok(rec) && record_decodable(rec)
                && container_type_of_code(rec.type_code as int) == Some(c.kind()) && c.types().len()
                == rec.column_info_list@.len() && c.mode() == TransactionMode::AutoCommit && forall|
                i: int,
            |
                0 <= i < rec.column_info_list@.len() ==> type_of_code(
                    #[trigger] rec.column_info_list@[i].type_code as int,
                ) == Some(c.types()[i])),
    {
        if opened != RESULT_OK {
            return Err(GsError::Engine(opened));
        }
        let rec = match reported {
            Err(status) => {
                return Err(GsError::Engine(status));
            },
            Ok(rec) => rec,
        };
        let container_type = match ContainerType::from_code(rec.type_code) {
            None => {
                return Err(GsError::Convert);
            },
            Some(t) => t,
        };
        if rec.column_info_list.len() == 0 {
            return Err(GsError::Convert);
        }
        let types = match types_from_record(&rec.column_info_list) {
            None => {
                return Err(GsError::Convert);
            },
            Some(types) => types,
        };
        Container::new(container_type, types, row_status)
    }
}

/// The entry point of the client: it opens stores on clusters.
pub struct StoreFactory {}

impl StoreFactory {
    /// The client's factory.
    pub fn get_instance() -> (r: StoreFactory) {
        StoreFactory {}
    }

    /// The store on the connection that the engine established with
    /// `status`, or the connection error with that status.
    pub fn get_store(&self, status: i32) -> (r: Result<Store, GsError>)
        ensures
            status != RESULT_OK ==> r == Err::<Store, GsError>(GsError::Connection(status)),
            status == RESULT_OK ==> r is Ok,
    {
        if status != RESULT_OK {
            return Err(GsError::Connection(status));
        }
        Ok(Store::new())
    }

    /// The version of this client.
    pub fn get_version() -> (r: String)
        ensures
            r@ == CLIENT_VERSION@,
    {
        CLIENT_VERSION.to_owned()
    }
}

} // verus!
