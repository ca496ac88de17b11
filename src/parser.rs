use vstd::prelude::*;
use crate::errors::RedshiftSourceError;
use crate::page::{Field, ResultPage, page_rows, has_more, page_len, is_last_page};
use crate::typesystem::RedshiftTypeSystem;

verus! {

/// A value read out of a cell in the native representation of its column's
/// variant.
pub enum Value {
    /// The cell was null in a nullable column.
    Absent,
    Int(i64),
    /// A double, as its IEEE-754 bit pattern.
    FloatBits(u64),
    /// An owned copy of a text cell.
    Text(String),
    /// An owned copy of a date cell, in the API's `YYYY-MM-DD` text.
    DateText(String),
    /// A date converted to the seconds since the Unix epoch at its midnight
    /// UTC.
    Timestamp(i64),
}

/// The value that a cell yields for a column of variant `ty`; `None` where
/// the cell has another shape. A null cell of a nullable column yields
/// `Absent` and is never handed to a typed accessor.
pub open spec fn extract(ty: RedshiftTypeSystem, cell: Field) -> Option<Value> {
    if ty.spec_nullable() && cell is Null {
        Some(Value::Absent)
    } else {
        match (ty, cell) {
            (RedshiftTypeSystem::Integer(_), Field::Long(v)) => Some(Value::Int(v)),
            (RedshiftTypeSystem::Float(_), Field::DoubleBits(b)) => Some(Value::FloatBits(b)),
            (RedshiftTypeSystem::String(_), Field::Text(s)) => Some(Value::Text(s)),
            (RedshiftTypeSystem::Date(_), Field::Text(s)) => Some(Value::DateText(s)),
            _ => None,
        }
    }
}

/// The cell at page-local linear index `k` of a page read `ncols` cells to
/// a row: row `k / ncols`, column `k % ncols`.
pub open spec fn cell_of(page: ResultPage, ncols: int, k: int) -> Option<Field> {
    let rows = page_rows(page);
    let row = k / ncols;
    let col = k % ncols;
    if ncols > 0 && 0 <= k && row < rows.len() && col < rows[row].len() {
        Some(rows[row][col])
    } else {
        None
    }
}

/// What a call of `fetch_next` hands back.
pub enum FetchStep {
    /// This many rows are buffered; the flag says whether the stream ends
    /// with them.
    Batch(usize, bool),
    /// The buffered page is used up and more remain: fetch the page that
    /// this token names and hand it to `accept_page`.
    NeedPage(String),
}

/// A pull cursor over the pages of one partition's result, read in
/// row-major order.
pub struct RedshiftSourceParser {
    /// The buffered page.
    pub page: ResultPage,
    /// The job whose result this is.
    pub id: String,
    pub ncols: usize,
    /// Values produced so far, over all pages.
    pub produced: usize,
    /// Values produced before the buffered page.
    pub page_start: usize,
    /// Whether the first page has not been reported yet.
    pub init: bool,
}

impl RedshiftSourceParser {
    pub open spec fn wf(self) -> bool {
        self.page_start <= self.produced
    }

    /// The cursor: row and column of the next value over the whole result.
    pub open spec fn spec_cursor(self) -> (int, int) {
        (self.produced as int / self.ncols as int, self.produced as int % self.ncols as int)
    }

    /// The cell under the cursor, if the buffered page holds one there.
    pub open spec fn cell_at(self) -> Option<Field> {
        cell_of(self.page, self.ncols as int, self.produced - self.page_start)
    }

    /// `new` is `old` with the cursor moved by one value, where a value
    /// can be read at all.
    pub open spec fn advanced(old: Self, new: Self) -> bool {
        &&& new.page == old.page
        &&& new.id == old.id
        &&& new.ncols == old.ncols
        &&& new.page_start == old.page_start
        &&& new.init == old.init
        &&& new.produced == if old.ncols > 0 && old.produced < usize::MAX {
            old.produced + 1
        } else {
            old.produced as int
        }
    }

    /// What `fetch_next` answers: the first page's rows on the first call;
    /// afterwards a request for the next page while a token remains, and an
    /// empty last batch once none does.
    pub open spec fn next_step(self) -> FetchStep {
        if self.init {
            FetchStep::Batch(page_rows(self.page).len() as usize, !has_more(self.page))
        } else {
            match self.page.next_token {
                Some(t) => FetchStep::NeedPage(t),
                None => FetchStep::Batch(0, true),
            }
        }
    }

    /// A parser over a job's first result page, for `ncols` columns.
    pub fn new(page: ResultPage, id: String, ncols: usize) -> (r: Self)
        ensures
            r.wf(),
            r.page == page,
            r.id == id,
            r.ncols == ncols,
            r.produced == 0,
            r.page_start == 0,
            r.init,
    {
        RedshiftSourceParser { page, id, ncols, produced: 0, page_start: 0, init: true }
    }

    /// The cursor as (row, column); it moves in row-major order.
    pub fn cursor(&self) -> (r: (usize, usize))
        requires
            self.ncols > 0,
        ensures
            r.0 == self.spec_cursor().0,
            r.1 == self.spec_cursor().1,
    {
        (self.produced / self.ncols, self.produced % self.ncols)
    }

    /// Reports the buffered rows, or asks for the next page.
    pub fn fetch_next(&mut self) -> (r: FetchStep)
        requires
            old(self).wf(),
        ensures
            final(self).wf(),
            final(self).page == old(self).page,
            final(self).id == old(self).id,
            final(self).ncols == old(self).ncols,
            final(self).produced == old(self).produced,
            final(self).page_start == old(self).page_start,
            !final(self).init,
            r == old(self).next_step(),
    {
        if self.init {
            self.init = false;
            return FetchStep::Batch(page_len(&self.page), is_last_page(&self.page));
        }
        match &self.page.next_token {
            Some(t) => FetchStep::NeedPage(t.clone()),
            None => FetchStep::Batch(0, true),
        }
    }

    /// Replaces the buffered page by the one fetched with its token, and
    /// reports its rows; the page-local grid starts over at its first row.
    pub fn accept_page(&mut self, page: ResultPage) -> (r: (usize, bool))
        requires
            old(self).wf(),
        ensures
            final(self).wf(),
            final(self).page == page,
            final(self).id == old(self).id,
            final(self).ncols == old(self).ncols,
            final(self).produced == old(self).produced,
            final(self).page_start == old(self).produced,
            final(self).init == old(self).init,
            r.0 == page_rows(page).len(),
            r.1 == !has_more(page),
    {
        let n = page_len(&page);
        let last = is_last_page(&page);
        self.page = page;
        self.page_start = self.produced;
        (n, last)
    }

    /// A copy of the cell under the cursor.
    fn current_cell(&self) -> (r: Option<Field>)
        requires
            self.wf(),
        ensures
            r == self.cell_at(),
    {
        if self.ncols == 0 {
            return None;
        }
        let k = self.produced - self.page_start;
        let row = k / self.ncols;
        let col = k % self.ncols;
        match &self.page.records {
            Some(rs) => {
                proof {
                    assert(page_rows(self.page).len() == rs@.len());
                }
                if row < rs.len() && col < rs[row].len() {
                    proof {
                        assert(page_rows(self.page)[row as int] == rs@[row as int]@);
                    }
                    Some(rs[row][col].duplicate())
                } else {
                    None
                }
            },
            None => None,
        }
    }

    /// Moves the cursor by one value.
    fn next_loc(&mut self)
        requires
            old(self).wf(),
            old(self).ncols > 0,
            old(self).produced < usize::MAX,
        ensures
            final(self).wf(),
            Self::advanced(*old(self), *final(self)),
    {
        self.produced = self.produced + 1;
    }

    /// Reads the value under the cursor for a column of variant `ty`, and
    /// moves the cursor by one value.
    pub fn produce_value(&mut self, ty: RedshiftTypeSystem) -> (r: Result<Value, RedshiftSourceError>)
        requires
            old(self).wf(),
        ensures
            final(self).wf(),
            Self::advanced(*old(self), *final(self)),
            old(self).ncols > 0 && old(self).produced == usize::MAX ==> r matches Err(
                RedshiftSourceError::TooManyValues,
            ),
            old(self).ncols == 0 || old(self).produced < usize::MAX ==> match old(self).cell_at() {
                None => r matches Err(RedshiftSourceError::GetRecordsFailed),
                Some(c) => match extract(ty, c) {
                    Some(v) => (r matches Ok(x) && x == v),
                    None => r matches Err(RedshiftSourceError::ExtractionFailed),
                },
            },
            ty.spec_nullable() && old(self).cell_at() == Some(Field::Null)
                && old(self).produced < usize::MAX ==> r matches Ok(Value::Absent),
    {
        if self.ncols > 0 && self.produced == usize::MAX {
            return Err(RedshiftSourceError::TooManyValues);
        }
        let cell = self.current_cell();
        if self.ncols > 0 {
            self.next_loc();
        }
        match cell {
            None => Err(RedshiftSourceError::GetRecordsFailed),
            Some(c) => {
                if ty.nullable() && matches!(c, Field::Null) {
                    return Ok(Value::Absent);
                }
                match (ty, c) {
                    (RedshiftTypeSystem::Integer(_), Field::Long(v)) => Ok(Value::Int(v)),
                    (RedshiftTypeSystem::Float(_), Field::DoubleBits(b)) => Ok(Value::FloatBits(b)),
                    (RedshiftTypeSystem::String(_), Field::Text(s)) => Ok(Value::Text(s)),
                    (RedshiftTypeSystem::Date(_), Field::Text(s)) => Ok(Value::DateText(s)),
                    _ => Err(RedshiftSourceError::ExtractionFailed),
                }
            },
        }
    }

    /// Reads a non-null integer cell.
    pub fn produce_i64(&mut self) -> (r: Result<i64, RedshiftSourceError>)
        requires
            old(self).wf(),
        ensures
            final(self).wf(),
            Self::advanced(*old(self), *final(self)),
            old(self).ncols > 0 && old(self).produced == usize::MAX ==> r matches Err(
                RedshiftSourceError::TooManyValues,
            ),
            old(self).ncols == 0 || old(self).produced < usize::MAX ==> match old(self).cell_at() {
                None => r matches Err(RedshiftSourceError::GetRecordsFailed),
                Some(Field::Long(v)) => (r matches Ok(x) && x == v),
                Some(_) => r matches Err(RedshiftSourceError::ExtractionFailed),
            },
    {
        match self.produce_value(RedshiftTypeSystem::Integer(false)) {
            Ok(Value::Int(v)) => Ok(v),
            Ok(_) => Err(RedshiftSourceError::ExtractionFailed),
            Err(e) => Err(e),
        }
    }

    /// Reads a nullable integer cell: a null cell yields `None`.
    pub fn produce_opt_i64(&mut self) -> (r: Result<Option<i64>, RedshiftSourceError>)
        requires
            old(self).wf(),
        ensures
            final(self).wf(),
            Self::advanced(*old(self), *final(self)),
            old(self).ncols > 0 && old(self).produced == usize::MAX ==> r matches Err(
                RedshiftSourceError::TooManyValues,
            ),
            old(self).ncols == 0 || old(self).produced < usize::MAX ==> match old(self).cell_at() {
                None => r matches Err(RedshiftSourceError::GetRecordsFailed),
                Some(Field::Null) => r matches Ok(None),
                Some(Field::Long(v)) => (r matches Ok(Some(x)) && x == v),
                Some(_) => r matches Err(RedshiftSourceError::ExtractionFailed),
            },
    {
        match self.produce_value(RedshiftTypeSystem::Integer(true)) {
            Ok(Value::Int(v)) => Ok(Some(v)),
            Ok(Value::Absent) => Ok(None),
            Ok(_) => Err(RedshiftSourceError::ExtractionFailed),
            Err(e) => Err(e),
        }
    }
}

/// The cursor moves in row-major order: one read moves it one column to the
/// right, and from the last column to the first column of the next row; its
/// column always stays below the column count.
pub proof fn lemma_cursor_row_major(p: RedshiftSourceParser, q: RedshiftSourceParser)
    requires
        p.ncols > 0,
        p.produced < usize::MAX,
        RedshiftSourceParser::advanced(p, q),
    ensures
        0 <= p.spec_cursor().1 < p.ncols,
        0 <= q.spec_cursor().1 < q.ncols,
        p.spec_cursor().1 + 1 < p.ncols ==> q.spec_cursor() == (
            p.spec_cursor().0,
            p.spec_cursor().1 + 1,
        ),
        p.spec_cursor().1 + 1 == p.ncols ==> q.spec_cursor() == (p.spec_cursor().0 + 1, 0int),
{
    let c = p.ncols as int;
    let v = p.produced as int;
    assert(v == c * (v / c) + v % c) by (nonlinear_arith)
        requires c > 0;
    assert(0 <= v % c < c) by (nonlinear_arith)
        requires c > 0, v >= 0;
    let r = v / c;
    let k = v % c;
    if k + 1 < c {
        assert((v + 1) / c == r && (v + 1) % c == k + 1) by (nonlinear_arith)
            requires v == c * r + k, 0 <= k, k + 1 < c, c > 0;
    } else {
        assert((v + 1) / c == r + 1 && (v + 1) % c == 0) by (nonlinear_arith)
            requires v == c * r + k, k + 1 == c, c > 0;
    }
}

} // verus!
