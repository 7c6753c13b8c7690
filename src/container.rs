//! A container handle's client-side state: its schema's column types and
//! its transaction mode. Row keys and rows are checked here before any
//! engine call, and each engine outcome is turned into a typed result.

use crate::error::{check_status, status_result, GsError, RESULT_OK};
use crate::query::Query;
use crate::types::{ContainerType, Type};
use crate::util::{decode_spec, row_matches, FieldRead, Util};
use crate::value::{kind_of, Timestamp, Value};
use vstd::prelude::*;

verus! {

/// A row key: the kinds of value that can identify a row.
pub enum KeyValue {
    Str(String),
    Integer(i32),
    Long(i64),
    Timestamp(Timestamp),
}

/// The column type that a key value has.
pub open spec fn key_type(k: KeyValue) -> Type {
    match k {
        KeyValue::Str(_) => Type::String,
        KeyValue::Integer(_) => Type::Integer,
        KeyValue::Long(_) => Type::Long,
        KeyValue::Timestamp(_) => Type::Timestamp,
    }
}

/// A key can address rows of a schema: the schema has a first column, and
/// the key has that column's type.
pub open spec fn key_accepted(types: Seq<Type>, k: KeyValue) -> bool {
    types.len() > 0 && key_type(k) == types[0]
}

/// Whether writes take effect at once, or wait for a commit.
#[derive(PartialEq, Eq, Structural, Clone, Copy, Debug)]
pub enum TransactionMode {
    AutoCommit,
    /// Writes wait for a commit; `pending` counts those made since the last
    /// commit or abort.
    Manual { pending: u64 },
}

/// The mode after one more write has been accepted.
pub open spec fn after_write(m: TransactionMode) -> TransactionMode {
    match m {
        TransactionMode::AutoCommit => TransactionMode::AutoCommit,
        TransactionMode::Manual { pending } => TransactionMode::Manual {
            pending: if pending < u64::MAX {
                (pending + 1) as u64
            } else {
                pending
            },
        },
    }
}

/// The mode after a commit or an abort has been accepted.
pub open spec fn after_settle(m: TransactionMode) -> TransactionMode {
    match m {
        TransactionMode::AutoCommit => TransactionMode::AutoCommit,
        TransactionMode::Manual { .. } => TransactionMode::Manual { pending: 0 },
    }
}

/// The mode after auto-commit has been switched on or off.
pub open spec fn after_auto_commit(m: TransactionMode, enabled: bool) -> TransactionMode {
    if enabled {
        TransactionMode::AutoCommit
    } else {
        match m {
            TransactionMode::AutoCommit => TransactionMode::Manual { pending: 0 },
            TransactionMode::Manual { .. } => m,
        }
    }
}

/// The row result of a key lookup, with the row seen as a sequence.
pub open spec fn lookup_view(r: Result<Option<Vec<Value>>, GsError>) -> Result<
    Option<Seq<Value>>,
    GsError,
> {
    match r {
        Ok(Some(row)) => Ok(Some(row@)),
        Ok(None) => Ok(None),
        Err(e) => Err(e),
    }
}

/// What a key lookup gives for a schema, a key and the engine's outcome
/// (its failure status, or the fields of the row it found, if any).
pub open spec fn get_spec(
    types: Seq<Type>,
    key: KeyValue,
    lookup: Result<Option<Vec<FieldRead>>, i32>,
) -> Result<Option<Seq<Value>>, GsError> {
    if !key_accepted(types, key) {
        Err(GsError::Convert)
    } else {
        match lookup {
            Err(status) => Err(GsError::Engine(status)),
            Ok(None) => Ok(None),
            Ok(Some(reads)) => match decode_spec(types, reads@) {
                Ok(row) => Ok(Some(row)),
                Err(e) => Err(e),
            },
        }
    }
}

/// A row with a value of the wrong kind at any one position fails the
/// schema check, so `Container::put` rejects it with `Convert` and leaves
/// the container as it was.
pub proof fn lemma_put_rejects_kind_mismatch(types: Seq<Type>, fields: Seq<Value>, i: int)
    requires
        0 <= i < fields.len(),
        kind_of(fields[i]) != types[i],
    ensures
        !row_matches(types, fields),
{
}

/// The client-side state of one container.
pub struct Container {
    type_list: Vec<Type>,
    container_type: ContainerType,
    mode: TransactionMode,
}

/// A copy of a list of column types.
pub(crate) fn copy_types(types: &Vec<Type>) -> (r: Vec<Type>)
    ensures
        r@ == types@,
{
    let mut r: Vec<Type> = Vec::new();
    let mut i: usize = 0;
    while i < types.len()
        invariant
            i <= types@.len(),
            r@ == types@.subrange(0, i as int),
        decreases types@.len() - i,
    {
        r.push(types[i]);
        i = i + 1;
    }
    r
}

impl Container {
    /// The column types of the container's schema, in column order.
    pub closed spec fn types(&self) -> Seq<Type> {
        self.type_list@
    }

    /// The container's kind.
    pub closed spec fn kind(&self) -> ContainerType {
        self.container_type
    }

    /// The container's transaction mode.
    pub closed spec fn mode(&self) -> TransactionMode {
        self.mode
    }

    /// The state of a container whose row buffer the engine created with
    /// status `row_status`: a fresh container in auto-commit mode, or the
    /// engine's error.
    pub fn new(container_type: ContainerType, type_list: Vec<Type>, row_status: i32) -> (r: Result<
        Container,
        GsError,
    >)
        ensures
            row_status != RESULT_OK ==> r == Err::<Container, GsError>(GsError::Engine(row_status)),
            row_status == RESULT_OK ==> (r matches Ok(c) && c.types() == type_list@
                && c.kind() == container_type && c.mode() == TransactionMode::AutoCommit),
    {
        if row_status != RESULT_OK {
            return Err(GsError::Engine(row_status));
        }
        Ok(Container { type_list, container_type, mode: TransactionMode::AutoCommit })
    }

    /// Checks a key against the row-key column: `Convert` unless the schema
    /// has a first column and the key has its type. Call before asking the
    /// engine for the row.
    pub fn check_key(&self, key: &KeyValue) -> (r: Result<(), GsError>)
        ensures
            r is Ok <==> key_accepted(self.types(), *key),
            r is Err ==> r == Err::<(), GsError>(GsError::Convert),
    {
        if self.type_list.len() == 0 {
            return Err(GsError::Convert);
        }
        let key_kind = match key {
            KeyValue::Str(_) => Type::String,
            KeyValue::Integer(_) => Type::Integer,
            KeyValue::Long(_) => Type::Long,
            KeyValue::Timestamp(_) => Type::Timestamp,
        };
        if key_kind == self.type_list[0] {
            Ok(())
        } else {
            Err(GsError::Convert)
        }
    }

    /// Checks a row against the schema: `Convert` unless it has one value
    /// per column, each of its column's type. Call before binding the row.
    pub fn check_row(&self, fields: &Vec<Value>) -> (r: Result<(), GsError>)
        ensures
            r is Ok <==> row_matches(self.types(), fields@),
            r is Err ==> r == Err::<(), GsError>(GsError::Convert),
    {
        Util::check_row(&self.type_list, fields)
    }

    /// The row stored under `key`, from the engine's outcome of the lookup:
    /// `Convert` for a key of the wrong type, the engine's error for a
    /// failed lookup, `None` when no row has the key, else the row decoded
    /// from the fields read.
    pub fn get(&self, key: &KeyValue, lookup: Result<Option<Vec<FieldRead>>, i32>) -> (r: Result<
        Option<Vec<Value>>,
        GsError,
    >)
        ensures
            lookup_view(r) == get_spec(self.types(), *key, lookup),
    {
        match self.check_key(key) {
            Err(e) => Err(e),
            Ok(()) => match lookup {
                Err(status) => Err(GsError::Engine(status)),
                Ok(None) => Ok(None),
                Ok(Some(reads)) => match Util::get_row_data(reads, &self.type_list) {
                    Ok(row) => Ok(Some(row)),
                    Err(e) => Err(e),
                },
            },
        }
    }

    /// Records the removal of the row under `key`, which the engine
    /// reported with `status`. A key of the wrong type gives `Convert`, a
    /// failed removal the engine's error; both leave the state unchanged.
    /// Removing a key that no row has succeeds.
    pub fn remove(&mut self, key: &KeyValue, status: i32) -> (r: Result<(), GsError>)
        ensures
            !key_accepted(old(self).types(), *key) ==> r == Err::<(), GsError>(GsError::Convert),
            key_accepted(old(self).types(), *key) ==> r == status_result(status),
            final(self).types() == old(self).types(),
            final(self).kind() == old(self).kind(),
            final(self).mode() == (if r is Ok {
                after_write(old(self).mode())
            } else {
                old(self).mode()
            }),
    {
        match self.check_key(key) {
            Err(e) => Err(e),
            Ok(()) => match check_status(status) {
                Err(e) => Err(e),
                Ok(()) => {
                    self.record_write();
                    Ok(())
                },
            },
        }
    }

    /// Records the write of `fields` as one row, which the engine reported
    /// with `status`. A row that does not fit the schema gives `Convert`, a
    /// failed write the engine's error; both leave the state unchanged.
    pub fn put(&mut self, fields: &Vec<Value>, status: i32) -> (r: Result<(), GsError>)
        ensures
            !row_matches(old(self).types(), fields@) ==> r == Err::<(), GsError>(GsError::Convert),
            row_matches(old(self).types(), fields@) ==> r == status_result(status),
            final(self).types() == old(self).types(),
            final(self).kind() == old(self).kind(),
            final(self).mode() == (if r is Ok {
                after_write(old(self).mode())
            } else {
                old(self).mode()
            }),
    {
        match self.check_row(fields) {
            Err(e) => Err(e),
            Ok(()) => match check_status(status) {
                Err(e) => Err(e),
                Ok(()) => {
                    self.record_write();
                    Ok(())
                },
            },
        }
    }

    fn record_write(&mut self)
        ensures
            final(self).types() == old(self).types(),
            final(self).kind() == old(self).kind(),
            final(self).mode() == after_write(old(self).mode()),
    {
        if let TransactionMode::Manual { pending } = self.mode {
            self.mode = TransactionMode::Manual { pending: pending.saturating_add(1) };
        }
    }

    /// A query over this container, which the engine compiled with
    /// `status`: it reads rows with this container's column types.
    pub fn query(&self, status: i32) -> (r: Result<Query, GsError>)
        ensures
            status != RESULT_OK ==> r == Err::<Query, GsError>(GsError::Engine(status)),
            status == RESULT_OK ==> (r matches Ok(q) && q.types() == self.types()),
    {
        if status != RESULT_OK {
            return Err(GsError::Engine(status));
        }
        Ok(Query::new(copy_types(&self.type_list)))
    }

    /// Switches auto-commit on or off, as the engine reported with
    /// `status`. Switching it on commits what was pending; switching it off
    /// starts a transaction with nothing pending.
    pub fn set_auto_commit(&mut self, enabled: bool, status: i32) -> (r: Result<(), GsError>)
        ensures
            r == status_result(status),
            final(self).types() == old(self).types(),
            final(self).kind() == old(self).kind(),
            final(self).mode() == (if r is Ok {
                after_auto_commit(old(self).mode(), enabled)
            } else {
                old(self).mode()
            }),
    {
        let r = check_status(status);
        if r.is_ok() {
            if enabled {
                self.mode = TransactionMode::AutoCommit;
            } else if self.mode == TransactionMode::AutoCommit {
                self.mode = TransactionMode::Manual { pending: 0 };
            }
        }
        r
    }

    /// Records a commit that the engine reported with `status`: nothing is
    /// pending afterwards.
    pub fn commit(&mut self, status: i32) -> (r: Result<(), GsError>)
        ensures
            r == status_result(status),
            final(self).types() == old(self).types(),
            final(self).kind() == old(self).kind(),
            final(self).mode() == (if r is Ok {
                after_settle(old(self).mode())
            } else {
                old(self).mode()
            }),
    {
        let r = check_status(status);
        if r.is_ok() {
            self.settle();
        }
        r
    }

    /// Records an abort that the engine reported with `status`: the pending
    /// writes are dropped.
    pub fn abort(&mut self, status: i32) -> (r: Result<(), GsError>)
        ensures
            r == status_result(status),
            final(self).types() == old(self).types(),
            final(self).kind() == old(self).kind(),
            final(self).mode() == (if r is Ok {
                after_settle(old(self).mode())
            } else {
                old(self).mode()
            }),
    {
        let r = check_status(status);
        if r.is_ok() {
            self.settle();
        }
        r
    }

    fn settle(&mut self)
        ensures
            final(self).types() == old(self).types(),
            final(self).kind() == old(self).kind(),
            final(self).mode() == after_settle(old(self).mode()),
    {
        if let TransactionMode::Manual { .. } = self.mode {
            self.mode = TransactionMode::Manual { pending: 0 };
        }
    }

    /// The column types of the container's schema, in column order.
    pub fn type_list(&self) -> (r: &Vec<Type>)
        ensures
            r@ == self.types(),
    {
        &self.type_list
    }

    /// The container's kind.
    pub fn container_type(&self) -> (r: ContainerType)
        ensures
            r == self.kind(),
    {
        self.container_type
    }

    /// The container's transaction mode.
    pub fn transaction_mode(&self) -> (r: TransactionMode)
        ensures
            r == self.mode(),
    {
        self.mode
    }
}

} // verus!
