use vstd::prelude::*;
use crate::typesystem::ColumnMeta;

verus! {

/// One cell of a result page, as the job API returns it.
pub enum Field {
    /// The cell's null indicator is set.
    Null,
    Boolean(bool),
    Long(i64),
    /// A double-precision cell, as its IEEE-754 bit pattern.
    DoubleBits(u64),
    Text(String),
    /// A cell of a kind that no variant reads (a blob, or one the API added).
    Unsupported,
}

impl Field {
    /// An owned copy of the cell.
    pub fn duplicate(&self) -> (r: Field)
        ensures
            r == *self,
    {
        match self {
            Field::Null => Field::Null,
            Field::Boolean(b) => Field::Boolean(*b),
            Field::Long(v) => Field::Long(*v),
            Field::DoubleBits(b) => Field::DoubleBits(*b),
            Field::Text(s) => Field::Text(s.clone()),
            Field::Unsupported => Field::Unsupported,
        }
    }
}

/// One page of a finished job's result: a page-local grid of rows, the total
/// row count of the whole result, a continuation token when more pages
/// follow, and the columns' metadata.
pub struct ResultPage {
    pub records: Option<Vec<Vec<Field>>>,
    pub next_token: Option<String>,
    pub total_num_rows: i64,
    pub column_metadata: Option<Vec<ColumnMeta>>,
}

/// The rows that a page holds; a page without records holds none.
pub open spec fn page_rows(p: ResultPage) -> Seq<Seq<Field>> {
    match p.records {
        Some(rs) => rs@.map_values(|r: Vec<Field>| r@),
        None => Seq::empty(),
    }
}

/// Whether more pages follow this one.
pub open spec fn has_more(p: ResultPage) -> bool {
    p.next_token is Some
}

/// The number of rows that a page holds.
pub fn page_len(p: &ResultPage) -> (r: usize)
    ensures
        r == page_rows(*p).len(),
{
    match &p.records {
        Some(rs) => rs.len(),
        None => 0,
    }
}

/// Whether this page is the last one of its result.
pub fn is_last_page(p: &ResultPage) -> (r: bool)
    ensures
        r == !has_more(*p),
{
    p.next_token.is_none()
}

} // verus!
