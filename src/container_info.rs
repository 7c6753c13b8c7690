//! Container schemas: the name, kind and ordered columns of a container,
//! and their form in the engine's container-information record.

use crate::types::{
    container_type_code, index_type_code, type_code, type_option_code, ContainerType, IndexType,
    Type, TypeOption,
};
use vstd::prelude::*;

verus! {

/// A container's schema. The first column is the row key and is never
/// null; every later column may be null.
pub struct ContainerInfo {
    pub name: String,
    pub container_type: ContainerType,
    pub column_count: u64,
    pub column_info_list: Vec<(String, Type, TypeOption)>,
    pub row_key: bool,
}

/// One column as the engine describes it.
pub struct GsColumnInfo {
    pub name: String,
    pub type_code: i32,
    pub index_type_flags: i32,
    pub options: i32,
}

/// A container's schema as the engine describes it.
pub struct GsContainerInfo {
    pub type_code: i32,
    pub column_count: u64,
    pub column_info_list: Vec<GsColumnInfo>,
    pub row_key_assigned: bool,
}

/// The nullability that the schema gives the column at position `i`.
pub open spec fn option_at(i: int) -> TypeOption {
    if i == 0 {
        TypeOption::NotNull
    } else {
        TypeOption::Nullable
    }
}

/// No two of the names are the same.
pub open spec fn names_distinct(names: Seq<Seq<char>>) -> bool {
    forall|i: int, j: int| 0 <= i < j < names.len() ==> names[i] != names[j]
}

/// Checks that no two of the names are the same.
pub fn check_names_distinct(names: &Vec<&str>) -> (r: bool)
    ensures
        r == names_distinct(names@.map_values(|n: &str| n@)),
{
    let ghost seen = names@.map_values(|n: &str| n@);
    let mut j: usize = 0;
    while j < names.len()
        invariant
            j <= names@.len(),
            seen == names@.map_values(|n: &str| n@),
            forall|a: int, b: int| 0 <= a < b < j ==> seen[a] != seen[b],
        decreases names@.len() - j,
    {
        let later = names[j].to_owned();
        let mut i: usize = 0;
        while i < j
            invariant
                i <= j < names@.len(),
                later@ == seen[j as int],
                seen == names@.map_values(|n: &str| n@),
                forall|a: int, b: int| 0 <= a < b < j ==> seen[a] != seen[b],
                forall|a: int| 0 <= a < i ==> seen[a] != seen[j as int],
            decreases j - i,
        {
            let earlier = names[i].to_owned();
            if earlier == later {
                assert(seen[i as int] == seen[j as int]);
                return false;
            }
            i = i + 1;
        }
        j = j + 1;
    }
    true
}

/// `rec` is the engine's record of the schema `info`: the same kind, count
/// and row-key flag, and the same columns, each with its engine codes and
/// the default index flag.
pub open spec fn is_record_of(rec: GsContainerInfo, info: ContainerInfo) -> bool {
    &&& rec.type_code == container_type_code(info.container_type)
    &&& rec.column_count == info.column_count
    &&& rec.row_key_assigned == info.row_key
    &&& rec.column_info_list@.len() == info.column_info_list@.len()
    &&& forall|i: int|
        0 <= i < info.column_info_list@.len() ==> {
            &&& (#[trigger] rec.column_info_list@[i]).name@ == info.column_info_list@[i].0@
            &&& rec.column_info_list@[i].type_code == type_code(info.column_info_list@[i].1)
            &&& rec.column_info_list@[i].index_type_flags == index_type_code(IndexType::Default)
            &&& rec.column_info_list@[i].options == type_option_code(info.column_info_list@[i].2)
        }
}

impl ContainerInfo {
    /// The schema is well formed: it has at least one column, its column
    /// names are distinct, its count is the number of columns, and each
    /// column has the nullability of its position.
    pub open spec fn wf(&self) -> bool {
        &&& self.column_info_list@.len() > 0
        &&& names_distinct(self.column_info_list@.map_values(|c: (String, Type, TypeOption)| c.0@))
        &&& self.column_count == self.column_info_list@.len()
        &&& forall|i: int|
            0 <= i < self.column_info_list@.len() ==> (#[trigger] self.column_info_list@[i]).2
                == option_at(i)
    }

    /// The column types, in column order.
    pub open spec fn types(&self) -> Seq<Type> {
        self.column_info_list@.map_values(|c: (String, Type, TypeOption)| c.1)
    }

    /// Builds a schema from a name, the columns' names and types in order,
    /// the container kind and whether the first column is the row key. The
    /// first column is made not-null and every later one nullable.
    #[allow(non_snake_case)]
    pub fn ContainerInfo(
        name: &str,
        col_info: Vec<(&str, Type)>,
        container_type: ContainerType,
        row_key: bool,
    ) -> (r: ContainerInfo)
        requires
            col_info@.len() > 0,
            names_distinct(col_info@.map_values(|c: (&str, Type)| c.0@)),
        ensures
            r.wf(),
            r.name@ == name@,
            r.container_type == container_type,
            r.row_key == row_key,
            r.column_info_list@.len() == col_info@.len(),
            forall|i: int|
                0 <= i < col_info@.len() ==> {
                    &&& (#[trigger] r.column_info_list@[i]).0@ == col_info@[i].0@
                    &&& r.column_info_list@[i].1 == col_info@[i].1
                },
    {
        let mut columns: Vec<(String, Type, TypeOption)> = Vec::new();
        let mut i: usize = 0;
        while i < col_info.len()
            invariant
                i <= col_info@.len(),
                columns@.len() == i,
                forall|j: int|
                    0 <= j < i ==> {
                        &&& (#[trigger] columns@[j]).0@ == col_info@[j].0@
                        &&& columns@[j].1 == col_info@[j].1
                        &&& columns@[j].2 == option_at(j)
                    },
            decreases col_info@.len() - i,
        {
            let (column_name, column_type) = col_info[i];
            let option = if i == 0 {
                TypeOption::NotNull
            } else {
                TypeOption::Nullable
            };
            columns.push((column_name.to_owned(), column_type, option));
            i = i + 1;
        }
        assert(columns@.map_values(|c: (String, Type, TypeOption)| c.0@) =~= col_info@.map_values(
            |c: (&str, Type)| c.0@,
        ));
        ContainerInfo {
            name: name.to_owned(),
            container_type,
            column_count: columns.len() as u64,
            column_info_list: columns,
            row_key,
        }
    }

    /// The engine's record for this schema: every kind given by its engine
    /// code, each column with the default index flag.
    pub fn unwrap(&self) -> (r: GsContainerInfo)
        ensures
            is_record_of(r, *self),
    {
        let mut columns: Vec<GsColumnInfo> = Vec::new();
        let mut i: usize = 0;
        while i < self.column_info_list.len()
            invariant
                i <= self.column_info_list@.len(),
                columns@.len() == i,
                forall|j: int|
                    0 <= j < i ==> {
                        &&& (#[trigger] columns@[j]).name@ == self.column_info_list@[j].0@
                        &&& columns@[j].type_code == type_code(self.column_info_list@[j].1)
                        &&& columns@[j].index_type_flags == index_type_code(IndexType::Default)
                        &&& columns@[j].options == type_option_code(self.column_info_list@[j].2)
                    },
            decreases self.column_info_list@.len() - i,
        {
            let column = &self.column_info_list[i];
            columns.push(
                GsColumnInfo {
                    name: column.0.clone(),
                    type_code: column.1.code(),
                    index_type_flags: IndexType::Default.code(),
                    options: column.2.code(),
                },
            );
            i = i + 1;
        }
        GsContainerInfo {
            type_code: self.container_type.code(),
            column_count: self.column_count,
            column_info_list: columns,
            row_key_assigned: self.row_key,
        }
    }
}

} // verus!
