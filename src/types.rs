//! The closed enumerations of the data model and the integer codes by which
//! the storage engine names their members.

use vstd::prelude::*;

verus! {

/// The kind of a container: a general table or a time-ordered one.
#[derive(PartialEq, Eq, Structural, Clone, Copy, Debug)]
pub enum ContainerType {
    Collection,
    TimeSeries,
}

/// The scalar kind of a column.
#[derive(PartialEq, Eq, Structural, Clone, Copy, Debug)]
pub enum Type {
    String,
    Bool,
    Byte,
    Short,
    Integer,
    Long,
    Float,
    Double,
    Timestamp,
    Geometry,
    Blob,
}

/// The kind of an index on a column.
#[derive(PartialEq, Eq, Structural, Clone, Copy, Debug)]
pub enum IndexType {
    Default,
    Tree,
    Spatial,
}

/// Units of time used by time-series arithmetic.
#[derive(PartialEq, Eq, Structural, Clone, Copy, Debug)]
pub enum TimeUnit {
    Year,
    Month,
    Day,
    Hour,
    Minute,
    Second,
    MilliSecond,
}

/// The kind of result a query cursor walks over.
#[derive(PartialEq, Eq, Structural, Clone, Copy, Debug)]
pub enum RowSetType {
    ContainerRows,
    AggregationResult,
    QueryAnalysis,
}

/// Whether a column may hold null.
#[derive(PartialEq, Eq, Structural, Clone, Copy, Debug)]
pub enum TypeOption {
    Nullable,
    NotNull,
}

/// The engine's code for a column type: its position in the declaration order.
pub open spec fn type_code(t: Type) -> int {
    match t {
        Type::String => 0,
        Type::Bool => 1,
        Type::Byte => 2,
        Type::Short => 3,
        Type::Integer => 4,
        Type::Long => 5,
        Type::Float => 6,
        Type::Double => 7,
        Type::Timestamp => 8,
        Type::Geometry => 9,
        Type::Blob => 10,
    }
}

/// The column type that the engine's code `c` names, if any.
pub open spec fn type_of_code(c: int) -> Option<Type> {
    if c == 0 {
        Some(Type::String)
    } else if c == 1 {
        Some(Type::Bool)
    } else if c == 2 {
        Some(Type::Byte)
    } else if c == 3 {
        Some(Type::Short)
    } else if c == 4 {
        Some(Type::Integer)
    } else if c == 5 {
        Some(Type::Long)
    } else if c == 6 {
        Some(Type::Float)
    } else if c == 7 {
        Some(Type::Double)
    } else if c == 8 {
        Some(Type::Timestamp)
    } else if c == 9 {
        Some(Type::Geometry)
    } else if c == 10 {
        Some(Type::Blob)
    } else {
        None
    }
}

/// The container kind that the engine's code `c` names, if any.
pub open spec fn container_type_of_code(c: int) -> Option<ContainerType> {
    if c == 0 {
        Some(ContainerType::Collection)
    } else if c == 1 {
        Some(ContainerType::TimeSeries)
    } else {
        None
    }
}

/// The result kind that the engine's code `c` names, if any.
pub open spec fn row_set_type_of_code(c: int) -> Option<RowSetType> {
    if c == 0 {
        Some(RowSetType::ContainerRows)
    } else if c == 1 {
        Some(RowSetType::AggregationResult)
    } else if c == 2 {
        Some(RowSetType::QueryAnalysis)
    } else {
        None
    }
}

pub open spec fn container_type_code(t: ContainerType) -> int {
    match t {
        ContainerType::Collection => 0,
        ContainerType::TimeSeries => 1,
    }
}

pub open spec fn index_type_code(t: IndexType) -> int {
    match t {
        IndexType::Default => -1,
        IndexType::Tree => 1,
        IndexType::Spatial => 4,
    }
}

pub open spec fn time_unit_code(t: TimeUnit) -> int {
    match t {
        TimeUnit::Year => 0,
        TimeUnit::Month => 1,
        TimeUnit::Day => 2,
        TimeUnit::Hour => 3,
        TimeUnit::Minute => 4,
        TimeUnit::Second => 5,
        TimeUnit::MilliSecond => 6,
    }
}

pub open spec fn row_set_type_code(t: RowSetType) -> int {
    match t {
        RowSetType::ContainerRows => 0,
        RowSetType::AggregationResult => 1,
        RowSetType::QueryAnalysis => 2,
    }
}

pub open spec fn type_option_code(t: TypeOption) -> int {
    match t {
        TypeOption::Nullable => 2,
        TypeOption::NotNull => 4,
    }
}

impl Type {
    /// The engine's code for this column type.
    pub fn code(&self) -> (r: i32)
        ensures
            r == type_code(*self),
    {
        match self {
            Type::String => 0,
            Type::Bool => 1,
            Type::Byte => 2,
            Type::Short => 3,
            Type::Integer => 4,
            Type::Long => 5,
            Type::Float => 6,
            Type::Double => 7,
            Type::Timestamp => 8,
            Type::Geometry => 9,
            Type::Blob => 10,
        }
    }

    /// The column type that the engine's code `c` names; `None` for a code
    /// that names no type.
    pub fn from_code(c: i32) -> (r: Option<Type>)
        ensures
            r == type_of_code(c as int),
    {
        match c {
            0 => Some(Type::String),
            1 => Some(Type::Bool),
            2 => Some(Type::Byte),
            3 => Some(Type::Short),
            4 => Some(Type::Integer),
            5 => Some(Type::Long),
            6 => Some(Type::Float),
            7 => Some(Type::Double),
            8 => Some(Type::Timestamp),
            9 => Some(Type::Geometry),
            10 => Some(Type::Blob),
            _ => None,
        }
    }
}

impl ContainerType {
    /// The engine's code for this container kind.
    pub fn code(&self) -> (r: i32)
        ensures
            r == container_type_code(*self),
    {
        match self {
            ContainerType::Collection => 0,
            ContainerType::TimeSeries => 1,
        }
    }

    /// The container kind that the engine's code `c` names, if any.
    pub fn from_code(c: i32) -> (r: Option<ContainerType>)
        ensures
            r == container_type_of_code(c as int),
    {
        match c {
            0 => Some(ContainerType::Collection),
            1 => Some(ContainerType::TimeSeries),
            _ => None,
        }
    }
}

impl IndexType {
    /// The engine's flag value for this index kind.
    pub fn code(&self) -> (r: i32)
        ensures
            r == index_type_code(*self),
    {
        match self {
            IndexType::Default => -1,
            IndexType::Tree => 1,
            IndexType::Spatial => 4,
        }
    }
}

impl TimeUnit {
    /// The engine's code for this unit of time.
    pub fn code(&self) -> (r: i32)
        ensures
            r == time_unit_code(*self),
    {
        match self {
            TimeUnit::Year => 0,
            TimeUnit::Month => 1,
            TimeUnit::Day => 2,
            TimeUnit::Hour => 3,
            TimeUnit::Minute => 4,
            TimeUnit::Second => 5,
            TimeUnit::MilliSecond => 6,
        }
    }
}

impl RowSetType {
    /// The result kind that the engine's code `c` names, if any.
    pub fn from_code(c: i32) -> (r: Option<RowSetType>)
        ensures
            r == row_set_type_of_code(c as int),
    {
        match c {
            0 => Some(RowSetType::ContainerRows),
            1 => Some(RowSetType::AggregationResult),
            2 => Some(RowSetType::QueryAnalysis),
            _ => None,
        }
    }
}

impl TypeOption {
    /// The engine's option flags for this nullability.
    pub fn code(&self) -> (r: i32)
        ensures
            r == type_option_code(*self),
    {
        match self {
            TypeOption::Nullable => 2,
            TypeOption::NotNull => 4,
        }
    }
}

/// Each column type is named by its own code: reading a type's code back
/// gives the same type.
pub proof fn lemma_type_code_round_trip(t: Type)
    ensures
        type_of_code(type_code(t)) == Some(t),
{
}

/// Each container kind is named by its own code.
pub proof fn lemma_container_type_code_round_trip(t: ContainerType)
    ensures
        container_type_of_code(container_type_code(t)) == Some(t),
{
}

} // verus!
