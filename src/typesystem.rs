use vstd::prelude::*;
use vstd::string::*;

verus! {

/// A column's native variant in the warehouse's vocabulary; the flag says
/// whether the column may hold nulls.
#[derive(Clone, Copy, Debug, PartialEq, Eq, Structural)]
pub enum RedshiftTypeSystem {
    Integer(bool),
    Float(bool),
    String(bool),
    Date(bool),
}

/// The metadata that the job API reports for one result column.
pub struct ColumnMeta {
    pub name: Option<String>,
    pub declared_type: Option<String>,
    pub nullable: i32,
}

/// The fixed table from declared type names to variants; `None` for a name
/// that the table does not hold.
pub open spec fn type_of_name(name: Seq<char>, nullable: bool) -> Option<RedshiftTypeSystem> {
    if name == "int8"@ || name == "int4"@ {
        Some(RedshiftTypeSystem::Integer(nullable))
    } else if name == "numeric"@ {
        Some(RedshiftTypeSystem::Float(nullable))
    } else if name == "bpchar"@ || name == "varchar"@ {
        Some(RedshiftTypeSystem::String(nullable))
    } else if name == "date"@ {
        Some(RedshiftTypeSystem::Date(nullable))
    } else {
        None
    }
}

/// The variant of a column described by its metadata, if its type is mapped.
pub open spec fn type_of_column(m: ColumnMeta) -> Option<RedshiftTypeSystem> {
    match m.declared_type {
        Some(t) => type_of_name(t@, m.nullable != 0),
        None => None,
    }
}

impl RedshiftTypeSystem {
    pub open spec fn spec_nullable(self) -> bool {
        match self {
            RedshiftTypeSystem::Integer(n) => n,
            RedshiftTypeSystem::Float(n) => n,
            RedshiftTypeSystem::String(n) => n,
            RedshiftTypeSystem::Date(n) => n,
        }
    }

    /// Whether a column of this variant may hold nulls.
    pub fn nullable(&self) -> (r: bool)
        ensures
            r == self.spec_nullable(),
    {
        match self {
            RedshiftTypeSystem::Integer(n) => *n,
            RedshiftTypeSystem::Float(n) => *n,
            RedshiftTypeSystem::String(n) => *n,
            RedshiftTypeSystem::Date(n) => *n,
        }
    }

    /// Looks a declared type name up in the fixed table.
    pub fn from_declared_type(name: &str, nullable: i32) -> (r: Option<RedshiftTypeSystem>)
        ensures
            r == type_of_name(name@, nullable != 0),
    {
        let n = nullable != 0;
        if str_eq(name, "int8") || str_eq(name, "int4") {
            Some(RedshiftTypeSystem::Integer(n))
        } else if str_eq(name, "numeric") {
            Some(RedshiftTypeSystem::Float(n))
        } else if str_eq(name, "bpchar") || str_eq(name, "varchar") {
            Some(RedshiftTypeSystem::String(n))
        } else if str_eq(name, "date") {
            Some(RedshiftTypeSystem::Date(n))
        } else {
            None
        }
    }

    /// The variant of a result column; `None` where its declared type is
    /// absent or unmapped.
    pub fn from_column(m: &ColumnMeta) -> (r: Option<RedshiftTypeSystem>)
        ensures
            r == type_of_column(*m),
    {
        match &m.declared_type {
            Some(t) => RedshiftTypeSystem::from_declared_type(t.as_str(), m.nullable),
            None => None,
        }
    }
}

/// Character-wise equality of two strings.
pub fn str_eq(a: &str, b: &str) -> (r: bool)
    ensures
        r == (a@ == b@),
{
    let n = a.unicode_len();
    if n != b.unicode_len() {
        return false;
    }
    let mut i: usize = 0;
    while i < n
        invariant
            n == a@.len(),
            n == b@.len(),
            i <= n,
            forall|j: int| 0 <= j < i ==> a@[j] == b@[j],
        decreases n - i,
    {
        if a.get_char(i) != b.get_char(i) {
            return false;
        }
        i += 1;
    }
    assert(a@ =~= b@);
    true
}

} // verus!
