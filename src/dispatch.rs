use vstd::prelude::*;
use crate::errors::RedshiftSourceError;
use crate::page::{Field, ResultPage, page_rows, has_more, page_len};
use crate::parser::{FetchStep, RedshiftSourceParser, Value, cell_of, extract};
use crate::transport::{BoundColumn, apply_rule, spec_apply_rule};

verus! {

/// The rows of a run of pages, concatenated in order.
pub open spec fn rows_of(pages: Seq<ResultPage>) -> Seq<Seq<Field>>
    decreases pages.len(),
{
    if pages.len() == 0 {
        Seq::empty()
    } else {
        rows_of(pages.drop_last()) + page_rows(pages.last())
    }
}

/// A reader of `pages` stops after the first `k`: each of the first `k - 1`
/// carries a continuation token, and page `k - 1` carries none.
pub open spec fn ends_at(pages: Seq<ResultPage>, k: int) -> bool {
    &&& 1 <= k <= pages.len()
    &&& forall|j: int| 0 <= j < k - 1 ==> has_more(#[trigger] pages[j])
    &&& !has_more(pages[k - 1])
}

/// Whether every page of a run carries a continuation token.
pub open spec fn all_have_more(pages: Seq<ResultPage>) -> bool {
    forall|j: int| 0 <= j < pages.len() ==> has_more(#[trigger] pages[j])
}

proof fn lemma_rows_of_step(pages: Seq<ResultPage>, k: int)
    requires
        0 <= k < pages.len(),
    ensures
        rows_of(pages.take(k + 1)) == rows_of(pages.take(k)) + page_rows(pages[k]),
{
    assert(pages.take(k + 1).drop_last() =~= pages.take(k));
}

/// A destination that keeps the values it consumes in memory, row-major,
/// `ncols` values to a row.
pub struct MemoryDestination {
    pub ncols: usize,
    pub nrows: usize,
    pub values: Vec<Value>,
}

impl MemoryDestination {
    pub open spec fn wf(self) -> bool {
        self.values@.len() == self.nrows * self.ncols
    }

    /// An empty destination for rows of `ncols` values.
    pub fn new(ncols: usize) -> (r: Self)
        ensures
            r.wf(),
            r.ncols == ncols,
            r.nrows == 0,
    {
        assert(0 * ncols == 0) by (nonlinear_arith);
        MemoryDestination { ncols, nrows: 0, values: Vec::new() }
    }
}

/// `a` is a prefix of `b`: what was written before stays in place.
pub open spec fn is_prefix(a: Seq<Value>, b: Seq<Value>) -> bool {
    a.len() <= b.len() && forall|j: int| 0 <= j < a.len() ==> #[trigger] b[j] == a[j]
}

/// The sum of a sequence of counts.
pub open spec fn total(s: Seq<usize>) -> int
    decreases s.len(),
{
    if s.len() == 0 {
        0
    } else {
        total(s.drop_last()) + s.last()
    }
}

/// The first `m` values read from local index `start` of a page laid out
/// `ncols` cells to a row, value `j` read as the variant of column
/// `j % cols.len()` and passed through that column's frozen rule; `None`
/// where some of those cells is missing, does not extract, or is refused by
/// its rule.
pub open spec fn batch_values(
    page: ResultPage,
    ncols: int,
    cols: Seq<BoundColumn>,
    start: int,
    m: nat,
) -> Option<Seq<Value>>
    decreases m,
{
    if m == 0 {
        Some(Seq::empty())
    } else {
        match batch_values(page, ncols, cols, start, (m - 1) as nat) {
            None => None,
            Some(prev) => match cell_of(page, ncols, start + m - 1) {
                None => None,
                Some(c) => match extract(cols[(m - 1) % (cols.len() as int)].src, c) {
                    None => None,
                    Some(v) => match spec_apply_rule(cols[(m - 1) % (cols.len() as int)], v) {
                        None => None,
                        Some(w) => Some(prev.push(w)),
                    },
                },
            },
        }
    }
}

proof fn lemma_batch_none_grows(
    page: ResultPage,
    ncols: int,
    cols: Seq<BoundColumn>,
    start: int,
    m: nat,
    m2: nat,
)
    requires
        m <= m2,
        batch_values(page, ncols, cols, start, m) is None,
    ensures
        batch_values(page, ncols, cols, start, m2) is None,
    decreases m2,
{
    if m2 > m {
        lemma_batch_none_grows(page, ncols, cols, start, m, (m2 - 1) as nat);
    }
}

proof fn lemma_batch_len(page: ResultPage, ncols: int, cols: Seq<BoundColumn>, start: int, m: nat)
    requires
        batch_values(page, ncols, cols, start, m) is Some,
    ensures
        batch_values(page, ncols, cols, start, m).unwrap().len() == m,
    decreases m,
{
    if m > 0 {
        lemma_batch_len(page, ncols, cols, start, (m - 1) as nat);
    }
}

/// Moves `n` rows from the parser into the destination, one value per
/// bound column in row-major order, each read by its column's frozen
/// variant and converted by its frozen rule. It succeeds exactly when each
/// of the `n * cols.len()` cells from the cursor on is there, extracts and
/// converts, and the counts fit a `usize`; the values appended are then
/// those conversions, in order.
pub fn write_batch(
    p: &mut RedshiftSourceParser,
    dest: &mut MemoryDestination,
    cols: &Vec<BoundColumn>,
    n: usize,
) -> (r: Result<(), RedshiftSourceError>)
    requires
        old(p).wf(),
        old(dest).wf(),
        cols@.len() == old(dest).ncols,
    ensures
        final(p).wf(),
        final(p).page == old(p).page,
        final(p).id == old(p).id,
        final(p).ncols == old(p).ncols,
        final(p).page_start == old(p).page_start,
        final(p).init == old(p).init,
        final(dest).ncols == old(dest).ncols,
        is_prefix(old(dest).values@, final(dest).values@),
        r is Ok <==> {
            &&& batch_values(
                old(p).page,
                old(p).ncols as int,
                cols@,
                old(p).produced - old(p).page_start,
                (n * cols@.len()) as nat,
            ) is Some
            &&& old(p).produced + n * cols@.len() <= usize::MAX
            &&& old(dest).nrows + n <= usize::MAX
        },
        r is Ok ==> {
            &&& final(dest).wf()
            &&& final(dest).nrows == old(dest).nrows + n
            &&& final(p).produced == old(p).produced + n * cols@.len()
            &&& final(dest).values@ == old(dest).values@ + batch_values(
                old(p).page,
                old(p).ncols as int,
                cols@,
                old(p).produced - old(p).page_start,
                (n * cols@.len()) as nat,
            ).unwrap()
        },
{
    let ghost start = old(dest).nrows;
    let ghost p0 = old(p).produced as int;
    let ghost s0 = old(p).produced - old(p).page_start;
    assert(p.produced == p0 && p.page_start == old(p).page_start && dest.nrows == start);
    let ghost nc = cols@.len() as int;
    let ghost total = (n * cols@.len()) as nat;
    let mut i: usize = 0;
    while i < n
        invariant
            p.wf(),
            p.page == old(p).page,
            p.id == old(p).id,
            p.ncols == old(p).ncols,
            p.page_start == old(p).page_start,
            p.init == old(p).init,
            dest.wf(),
            dest.ncols == cols@.len(),
            dest.ncols == old(dest).ncols,
            dest.nrows == start + i,
            is_prefix(old(dest).values@, dest.values@),
            i <= n,
            nc == cols@.len(),
            total == n * nc,
            start == old(dest).nrows,
            p0 == old(p).produced,
            s0 == p0 - old(p).page_start,
            p.produced == p0 + i * nc,
            batch_values(p.page, p.ncols as int, cols@, s0, (i * nc) as nat) is Some,
            dest.values@ == old(dest).values@ + batch_values(
                p.page,
                p.ncols as int,
                cols@,
                s0,
                (i * nc) as nat,
            ).unwrap(),
        decreases n - i,
    {
        assert(0 <= i * nc) by (nonlinear_arith)
            requires i >= 0, nc >= 0;
        assert(i * nc + nc <= n * nc) by (nonlinear_arith)
            requires i < n, nc >= 0;
        if dest.nrows == usize::MAX {
            return Err(RedshiftSourceError::TooManyValues);
        }
        let mut c: usize = 0;
        while c < cols.len()
            invariant
                p.wf(),
                p.page == old(p).page,
                p.id == old(p).id,
                p.ncols == old(p).ncols,
                p.page_start == old(p).page_start,
                p.init == old(p).init,
                dest.values@.len() == dest.nrows * dest.ncols + c,
                dest.ncols == cols@.len(),
                dest.ncols == old(dest).ncols,
                dest.nrows == start + i,
                is_prefix(old(dest).values@, dest.values@),
                c <= cols@.len(),
                i < n,
                nc == cols@.len(),
                total == n * nc,
                start == old(dest).nrows,
                p0 == old(p).produced,
                s0 == p0 - old(p).page_start,
                0 <= i * nc,
                i * nc + nc <= total,
                p.produced == p0 + i * nc + c,
                batch_values(p.page, p.ncols as int, cols@, s0, (i * nc + c) as nat) is Some,
                dest.values@ == old(dest).values@ + batch_values(
                    p.page,
                    p.ncols as int,
                    cols@,
                    s0,
                    (i * nc + c) as nat,
                ).unwrap(),
            decreases cols@.len() - c,
        {
            let ghost k = i * nc + c;
            assert(k % nc == c) by (nonlinear_arith)
                requires k == i * nc + c, 0 <= c < nc, i >= 0;
            assert(p.produced - p.page_start == s0 + k);
            let ghost before = dest.values@;
            let converted = match p.produce_value(cols[c].src) {
                Ok(v) => apply_rule(&cols[c], v),
                Err(e) => {
                    proof {
                        if !(p.ncols > 0 && p.produced == usize::MAX) {
                            assert(batch_values(p.page, p.ncols as int, cols@, s0, (k + 1) as nat) is None);
                            lemma_batch_none_grows(
                                p.page,
                                p.ncols as int,
                                cols@,
                                s0,
                                (k + 1) as nat,
                                total,
                            );
                        }
                    }
                    return Err(e);
                },
            };
            match converted {
                Some(v) => {
                    dest.values.push(v);
                    assert(dest.values@ =~= old(dest).values@ + batch_values(
                        p.page,
                        p.ncols as int,
                        cols@,
                        s0,
                        (k + 1) as nat,
                    ).unwrap());
                },
                None => {
                    proof {
                        assert(batch_values(p.page, p.ncols as int, cols@, s0, (k + 1) as nat) is None);
                        lemma_batch_none_grows(p.page, p.ncols as int, cols@, s0, (k + 1) as nat, total);
                    }
                    return Err(RedshiftSourceError::ExtractionFailed);
                },
            }
            c += 1;
        }
        let ghost k = dest.nrows as int;
        let ghost m = dest.ncols as int;
        assert(k * m + m == (k + 1) * m) by (nonlinear_arith);
        assert(i * nc + nc == (i + 1) * nc) by (nonlinear_arith);
        dest.nrows = dest.nrows + 1;
        i += 1;
    }
    Ok(())
}

/// The values of a whole page, read from its first cell as the bound
/// columns say.
pub open spec fn page_values(page: ResultPage, cols: Seq<BoundColumn>) -> Option<Seq<Value>> {
    batch_values(page, cols.len() as int, cols, 0, (page_rows(page).len() * cols.len()) as nat)
}

/// The values of a run of pages, joined in order; `None` where a page's
/// values cannot all be read.
pub open spec fn pages_values(pages: Seq<ResultPage>, cols: Seq<BoundColumn>) -> Option<Seq<Value>>
    decreases pages.len(),
{
    if pages.len() == 0 {
        Some(Seq::empty())
    } else {
        match pages_values(pages.drop_last(), cols) {
            None => None,
            Some(a) => match page_values(pages.last(), cols) {
                None => None,
                Some(b) => Some(a + b),
            },
        }
    }
}

/// The number of pages a reader of `pages` uses: up to the first page
/// without a continuation token.
pub open spec fn chain_end(pages: Seq<ResultPage>) -> int {
    choose|k: int| ends_at(pages, k)
}

/// The values a partition's pages yield, read to the end of the chain;
/// `None` where the chain has no end in hand or a read fails.
pub open spec fn chain_values(pages: Seq<ResultPage>, cols: Seq<BoundColumn>) -> Option<Seq<Value>> {
    if exists|k: int| ends_at(pages, k) {
        pages_values(pages.take(chain_end(pages)), cols)
    } else {
        None
    }
}

/// The number of rows in a partition's pages, read to the end of the chain.
pub open spec fn chain_rows(pages: Seq<ResultPage>) -> int {
    if exists|k: int| ends_at(pages, k) {
        rows_of(pages.take(chain_end(pages))).len() as int
    } else {
        0
    }
}

/// The partition can be read to its end into a destination that holds
/// `nrows` rows: its chain ends, every read extracts, and the counts fit.
pub open spec fn chain_fits(pages: Seq<ResultPage>, cols: Seq<BoundColumn>, nrows: int) -> bool {
    &&& chain_values(pages, cols) is Some
    &&& chain_values(pages, cols).unwrap().len() <= usize::MAX
    &&& nrows + chain_rows(pages) <= usize::MAX
}

proof fn lemma_chain_end(pages: Seq<ResultPage>, k: int)
    requires
        ends_at(pages, k),
    ensures
        chain_end(pages) == k,
{
    let k2 = chain_end(pages);
    assert(ends_at(pages, k2));
    if k < k2 {
        assert(has_more(pages[k - 1]));
    }
    if k2 < k {
        assert(has_more(pages[k2 - 1]));
    }
}

proof fn lemma_values_step(pages: Seq<ResultPage>, cols: Seq<BoundColumn>, k: int)
    requires
        0 <= k < pages.len(),
    ensures
        pages_values(pages.take(k + 1), cols) == match pages_values(pages.take(k), cols) {
            None => None,
            Some(a) => match page_values(pages[k], cols) {
                None => None,
                Some(b) => Some(a + b),
            },
        },
{
    assert(pages.take(k + 1).drop_last() =~= pages.take(k));
}

proof fn lemma_pages_prefix(pages: Seq<ResultPage>, cols: Seq<BoundColumn>, a: int, b: int)
    requires
        0 <= a <= b <= pages.len(),
        pages_values(pages.take(b), cols) is Some,
    ensures
        pages_values(pages.take(a), cols) is Some,
        pages_values(pages.take(a), cols).unwrap().len() <= pages_values(pages.take(b), cols).unwrap().len(),
        rows_of(pages.take(a)).len() <= rows_of(pages.take(b)).len(),
    decreases b - a,
{
    if a < b {
        lemma_values_step(pages, cols, b - 1);
        lemma_rows_of_step(pages, b - 1);
        lemma_pages_prefix(pages, cols, a, b - 1);
    }
}

/// Streams one partition's pages, in fetch order, into the destination, and
/// returns how many rows it wrote and how many pages it used. It succeeds
/// whenever the chain of pages ends, every read extracts and the counts
/// fit; the values appended are then the row-major extractions of the
/// pages used, in fetch order.
pub fn load_partition(
    pages: Vec<ResultPage>,
    cols: &Vec<BoundColumn>,
    dest: &mut MemoryDestination,
) -> (r: Result<(usize, usize), RedshiftSourceError>)
    requires
        old(dest).wf(),
        cols@.len() == old(dest).ncols,
    ensures
        final(dest).ncols == old(dest).ncols,
        all_have_more(pages@) ==> r is Err,
        chain_fits(pages@, cols@, old(dest).nrows as int) ==> r is Ok,
        r matches Ok((n, k)) ==> {
            &&& ends_at(pages@, k as int)
            &&& n == rows_of(pages@.take(k as int)).len()
            &&& final(dest).wf()
            &&& final(dest).nrows == old(dest).nrows + n
            &&& pages_values(pages@.take(k as int), cols@) is Some
            &&& final(dest).values@ == old(dest).values@ + pages_values(
                pages@.take(k as int),
                cols@,
            ).unwrap()
        },
        is_prefix(old(dest).values@, final(dest).values@),
{
    let ghost all = pages@;
    let ghost start = dest.nrows;
    let ghost v0 = dest.values@;
    let ghost fits = chain_fits(all, cols@, start as int);
    let total_pages = pages.len();
    if total_pages == 0 {
        return Err(RedshiftSourceError::GetRecordsFailed);
    }
    let mut rest = pages;
    let first = rest.remove(0);
    let mut p = RedshiftSourceParser::new(first, String::new(), cols.len());
    let mut last = match p.fetch_next() {
        FetchStep::Batch(_, l) => l,
        FetchStep::NeedPage(_) => false,
    };
    let n0 = page_len(&p.page);
    proof {
        lemma_rows_of_step(all, 0);
        lemma_values_step(all, cols@, 0);
        assert(all.take(0) =~= Seq::<ResultPage>::empty());
    }
    match write_batch(&mut p, dest, cols, n0) {
        Ok(()) => {
            proof {
                lemma_batch_len(all[0], cols@.len() as int, cols@, 0, (n0 * cols@.len()) as nat);
            }
        },
        Err(e) => {
            proof {
                if fits {
                    let kk = chain_end(all);
                    lemma_chain_end(all, kk);
                    lemma_pages_prefix(all, cols@, 1, kk);
                    lemma_batch_len(all[0], cols@.len() as int, cols@, 0, (n0 * cols@.len()) as nat);
                }
            }
            return Err(e);
        },
    }
    let mut rows: usize = n0;
    let mut used: usize = 1;
    while !last
        invariant
            1 <= used <= all.len(),
            all.len() == total_pages,
            all == pages@,
            start == old(dest).nrows,
            v0 == old(dest).values@,
            fits == chain_fits(all, cols@, start as int),
            rest@ == all.subrange(used as int, all.len() as int),
            p.wf(),
            !p.init,
            p.ncols == cols@.len(),
            p.page == all[used - 1],
            last == !has_more(p.page),
            forall|j: int| 0 <= j < used - 1 ==> has_more(#[trigger] all[j]),
            rows == rows_of(all.take(used as int)).len(),
            dest.wf(),
            dest.ncols == cols@.len(),
            dest.ncols == old(dest).ncols,
            dest.nrows == start + rows,
            is_prefix(old(dest).values@, dest.values@),
            pages_values(all.take(used as int), cols@) is Some,
            dest.values@ == v0 + pages_values(all.take(used as int), cols@).unwrap(),
            p.produced == pages_values(all.take(used as int), cols@).unwrap().len(),
        decreases rest@.len(),
    {
        match p.fetch_next() {
            FetchStep::NeedPage(_) => {
                assert(has_more(p.page));
                assert(rest@.len() == all.len() - used);
                if rest.len() == 0 {
                    assert(all_have_more(all));
                    proof {
                        if exists|k: int| ends_at(all, k) {
                            let k = choose|k: int| ends_at(all, k);
                            assert(has_more(all[k - 1]));
                        }
                    }
                    return Err(RedshiftSourceError::GetRecordsFailed);
                }
                let page = rest.remove(0);
                let (n, l) = p.accept_page(page);
                proof {
                    lemma_rows_of_step(all, used as int);
                    lemma_values_step(all, cols@, used as int);
                }
                match write_batch(&mut p, dest, cols, n) {
                    Ok(()) => {
                        proof {
                            lemma_batch_len(
                                all[used as int],
                                cols@.len() as int,
                                cols@,
                                0,
                                (n * cols@.len()) as nat,
                            );
                        }
                    },
                    Err(e) => {
                        proof {
                            if fits {
                                let kk = chain_end(all);
                                lemma_chain_end(all, kk);
                                if kk < used + 1 {
                                    assert(has_more(all[kk - 1]));
                                }
                                lemma_pages_prefix(all, cols@, used + 1, kk);
                                lemma_batch_len(
                                    all[used as int],
                                    cols@.len() as int,
                                    cols@,
                                    0,
                                    (n * cols@.len()) as nat,
                                );
                            }
                        }
                        return Err(e);
                    },
                }
                rows = rows + n;
                last = l;
                used += 1;
                assert(rest@ =~= all.subrange(used as int, all.len() as int));
            },
            FetchStep::Batch(_, l) => {
                last = l;
            },
        }
    }
    proof {
        if all_have_more(all) {
            assert(has_more(all[used - 1]));
        }
    }
    Ok((rows, used))
}

proof fn lemma_total_push(s: Seq<usize>, x: usize)
    ensures
        total(s.push(x)) == total(s) + x,
{
    assert(s.push(x).drop_last() =~= s);
}

/// The values of every partition, each read to the end of its chain,
/// joined in list order; `None` where some partition cannot be read.
pub open spec fn all_values(parts: Seq<Vec<ResultPage>>, cols: Seq<BoundColumn>) -> Option<Seq<Value>>
    decreases parts.len(),
{
    if parts.len() == 0 {
        Some(Seq::empty())
    } else {
        match all_values(parts.drop_last(), cols) {
            None => None,
            Some(a) => match chain_values(parts.last()@, cols) {
                None => None,
                Some(b) => Some(a + b),
            },
        }
    }
}

/// The rows of every partition, each read to the end of its chain.
pub open spec fn all_rows(parts: Seq<Vec<ResultPage>>) -> int
    decreases parts.len(),
{
    if parts.len() == 0 {
        0
    } else {
        all_rows(parts.drop_last()) + chain_rows(parts.last()@)
    }
}

proof fn lemma_all_step(parts: Seq<Vec<ResultPage>>, cols: Seq<BoundColumn>, i: int)
    requires
        0 <= i < parts.len(),
    ensures
        all_values(parts.take(i + 1), cols) == match all_values(parts.take(i), cols) {
            None => None,
            Some(a) => match chain_values(parts[i]@, cols) {
                None => None,
                Some(b) => Some(a + b),
            },
        },
        all_rows(parts.take(i + 1)) == all_rows(parts.take(i)) + chain_rows(parts[i]@),
{
    assert(parts.take(i + 1).drop_last() =~= parts.take(i));
}

proof fn lemma_chain_rows_nonneg(pages: Seq<ResultPage>)
    ensures
        chain_rows(pages) >= 0,
{
}

proof fn lemma_all_prefix(parts: Seq<Vec<ResultPage>>, cols: Seq<BoundColumn>, a: int, b: int)
    requires
        0 <= a <= b <= parts.len(),
        all_values(parts.take(b), cols) is Some,
    ensures
        all_values(parts.take(a), cols) is Some,
        all_values(parts.take(a), cols).unwrap().len() <= all_values(parts.take(b), cols).unwrap().len(),
        all_rows(parts.take(a)) <= all_rows(parts.take(b)),
    decreases b - a,
{
    if a < b {
        lemma_all_step(parts, cols, b - 1);
        lemma_chain_rows_nonneg(parts[b - 1]@);
        lemma_all_prefix(parts, cols, a, b - 1);
    }
}

/// Streams every partition, in list order, through the columns a transport
/// bound into one destination. It succeeds whenever every partition's chain
/// of pages ends, every read extracts and the counts fit. The destination
/// then holds exactly the partitions' values joined in list order, so
/// partition `i`'s rows directly follow those of the partitions before it,
/// and its row count is the sum of the partitions' row counts. Any failure
/// aborts the whole run.
pub fn dispatch(partitions: Vec<Vec<ResultPage>>, cols: &Vec<BoundColumn>) -> (r: Result<
    (MemoryDestination, Vec<usize>),
    RedshiftSourceError,
>)
    ensures
        (exists|i: int| 0 <= i < partitions@.len() && all_have_more(#[trigger] partitions@[i]@))
            ==> r is Err,
        all_values(partitions@, cols@) is Some && all_values(partitions@, cols@).unwrap().len()
            <= usize::MAX && all_rows(partitions@) <= usize::MAX ==> r is Ok,
        r matches Ok((d, counts)) ==> {
            &&& d.wf()
            &&& d.ncols == cols@.len()
            &&& counts@.len() == partitions@.len()
            &&& d.nrows == total(counts@)
            &&& forall|i: int|
                0 <= i < counts@.len() ==> #[trigger] counts@[i] == chain_rows(partitions@[i]@)
            &&& all_values(partitions@, cols@) is Some
            &&& d.values@ == all_values(partitions@, cols@).unwrap()
        },
{
    let ghost all = partitions@;
    let ghost fits = all_values(all, cols@) is Some && all_values(all, cols@).unwrap().len()
        <= usize::MAX && all_rows(all) <= usize::MAX;
    let mut rest = partitions;
    let mut dest = MemoryDestination::new(cols.len());
    let mut counts: Vec<usize> = Vec::new();
    proof {
        assert(all.take(0) =~= Seq::<Vec<ResultPage>>::empty());
        assert(all.take(all.len() as int) =~= all);
    }
    while rest.len() > 0
        invariant
            all == partitions@,
            all.take(all.len() as int) == all,
            fits == (all_values(all, cols@) is Some && all_values(all, cols@).unwrap().len()
                <= usize::MAX && all_rows(all) <= usize::MAX),
            rest@ == all.subrange(counts@.len() as int, all.len() as int),
            counts@.len() <= all.len(),
            dest.wf(),
            dest.ncols == cols@.len(),
            dest.nrows == total(counts@),
            dest.nrows == all_rows(all.take(counts@.len() as int)),
            all_values(all.take(counts@.len() as int), cols@) is Some,
            dest.values@ == all_values(all.take(counts@.len() as int), cols@).unwrap(),
            forall|i: int| 0 <= i < counts@.len() ==> !all_have_more(#[trigger] all[i]@),
            forall|i: int|
                0 <= i < counts@.len() ==> #[trigger] counts@[i] == chain_rows(all[i]@),
        decreases rest@.len(),
    {
        let pages = rest.remove(0);
        let ghost pv = pages@;
        let ghost i = counts@.len() as int;
        assert(pv == all[i]@);
        proof {
            lemma_all_step(all, cols@, i);
        }
        match load_partition(pages, cols, &mut dest) {
            Ok((n, k)) => {
                proof {
                    lemma_chain_end(pv, k as int);
                    lemma_total_push(counts@, n);
                    assert(!all_have_more(pv));
                }
                counts.push(n);
                assert(rest@ =~= all.subrange(counts@.len() as int, all.len() as int));
            },
            Err(e) => {
                proof {
                    if fits {
                        lemma_all_prefix(all, cols@, i + 1, all.len() as int);
                        assert(chain_fits(pv, cols@, all_rows(all.take(i))));
                    }
                }
                return Err(e);
            },
        }
    }
    assert(counts@.len() == all.len());
    Ok((dest, counts))
}

} // verus!
