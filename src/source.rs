use vstd::prelude::*;
use crate::config::{RedshiftConfig, parse_redshift_config, url_parts_of, config_matches};
use crate::errors::RedshiftSourceError;
use crate::page::ResultPage;
use crate::parser::RedshiftSourceParser;
use crate::typesystem::{ColumnMeta, RedshiftTypeSystem, type_of_column};

verus! {

/// The order in which a parser hands out a partition's values.
#[derive(Clone, Copy, Debug, PartialEq, Eq, Structural)]
pub enum DataOrder {
    RowMajor,
    ColumnMajor,
}

/// A source of job-style queries: its configuration, its queries, and once
/// the metadata is fetched, the names and variants of the result columns.
pub struct RedshiftSource {
    pub config: RedshiftConfig,
    pub origin_query: Option<String>,
    pub queries: Vec<String>,
    pub names: Vec<String>,
    pub schema: Vec<RedshiftTypeSystem>,
}

pub open spec fn name_of(m: ColumnMeta) -> Option<Seq<char>> {
    match m.name {
        Some(n) => Some(n@),
        None => None,
    }
}

/// Whether some column of the metadata lacks a name or a mapped type.
pub open spec fn some_column_unusable(meta: Seq<ColumnMeta>) -> bool {
    exists|i: int|
        0 <= i < meta.len() && (name_of(#[trigger] meta[i]) is None || type_of_column(meta[i]) is None)
}

impl RedshiftSource {
    /// A source for a connection descriptor, with no queries yet.
    pub fn new(conn: &str) -> (r: Result<Self, RedshiftSourceError>)
        ensures
            url_parts_of(conn@) is None ==> r matches Err(RedshiftSourceError::RedshiftUrlError(_)),
            url_parts_of(conn@) is Some ==> {
                let p = url_parts_of(conn@).unwrap();
                &&& (p.0.is_some() <==> r.is_ok())
                &&& (r matches Ok(s) ==> config_matches(p, s.config) && s.origin_query is None
                    && s.queries@.len() == 0 && s.names@.len() == 0 && s.schema@.len() == 0)
                &&& (r matches Err(e) ==> e is ClusterIDNotFound)
            },
    {
        match parse_redshift_config(conn) {
            Ok(config) => Ok(
                RedshiftSource {
                    config,
                    origin_query: None,
                    queries: Vec::new(),
                    names: Vec::new(),
                    schema: Vec::new(),
                },
            ),
            Err(e) => Err(e),
        }
    }

    /// Accepts row-major order only.
    pub fn set_data_order(&mut self, data_order: DataOrder) -> (r: Result<(), RedshiftSourceError>)
        ensures
            *final(self) == *old(self),
            r is Ok <==> data_order == DataOrder::RowMajor,
            r matches Err(e) ==> e is UnsupportedDataOrder,
    {
        match data_order {
            DataOrder::RowMajor => Ok(()),
            _ => Err(RedshiftSourceError::UnsupportedDataOrder),
        }
    }

    /// Sets the queries, one partition each.
    pub fn set_queries(&mut self, queries: Vec<String>)
        ensures
            final(self).queries == queries,
            final(self).config == old(self).config,
            final(self).origin_query == old(self).origin_query,
            final(self).names == old(self).names,
            final(self).schema == old(self).schema,
    {
        self.queries = queries;
    }

    /// Sets the query that the partition queries were split from.
    pub fn set_origin_query(&mut self, query: Option<String>)
        ensures
            final(self).origin_query == query,
            final(self).config == old(self).config,
            final(self).queries == old(self).queries,
            final(self).names == old(self).names,
            final(self).schema == old(self).schema,
    {
        self.origin_query = query;
    }

    /// The query whose one-row probe yields the metadata: the first one.
    pub fn probe_query(&self) -> (r: Option<String>)
        ensures
            self.queries@.len() == 0 ==> r is None,
            self.queries@.len() > 0 ==> r == Some(self.queries@[0]),
    {
        if self.queries.len() == 0 {
            None
        } else {
            Some(self.queries[0].clone())
        }
    }

    /// Reads the column names and variants out of the probe's result page.
    /// Absent or empty metadata, a column without a name, and a column
    /// whose declared type the table does not map are errors.
    pub fn fetch_metadata(&mut self, page: &ResultPage) -> (r: Result<(), RedshiftSourceError>)
        ensures
            final(self).config == old(self).config,
            final(self).queries == old(self).queries,
            final(self).origin_query == old(self).origin_query,
            r is Err ==> final(self).names == old(self).names && final(self).schema == old(self).schema,
            match page.column_metadata {
                None => r matches Err(RedshiftSourceError::MetadataFetchFailed),
                Some(meta) => {
                    &&& meta@.len() == 0 ==> (r matches Err(RedshiftSourceError::MetadataFetchFailed))
                    &&& meta@.len() > 0 ==> (r is Ok <==> !some_column_unusable(meta@))
                    &&& r is Ok ==> {
                        &&& final(self).names@.len() == meta@.len()
                        &&& final(self).schema@.len() == meta@.len()
                        &&& forall|i: int|
                            0 <= i < meta@.len() ==> name_of(#[trigger] meta@[i]) == Some(
                                final(self).names@[i]@,
                            ) && type_of_column(meta@[i]) == Some(final(self).schema@[i])
                    }
                },
            },
    {
        match &page.column_metadata {
            None => Err(RedshiftSourceError::MetadataFetchFailed),
            Some(meta) => {
                if meta.len() == 0 {
                    return Err(RedshiftSourceError::MetadataFetchFailed);
                }
                let mut names: Vec<String> = Vec::new();
                let mut schema: Vec<RedshiftTypeSystem> = Vec::new();
                let mut i: usize = 0;
                while i < meta.len()
                    invariant
                        page.column_metadata == Some(*meta),
                        i <= meta@.len(),
                        names@.len() == i,
                        schema@.len() == i,
                        forall|j: int|
                            0 <= j < i ==> name_of(#[trigger] meta@[j]) == Some(names@[j]@)
                                && type_of_column(meta@[j]) == Some(schema@[j]),
                    decreases meta@.len() - i,
                {
                    let m = &meta[i];
                    let t = RedshiftTypeSystem::from_column(m);
                    match (&m.name, t) {
                        (Some(n), Some(t)) => {
                            names.push(n.clone());
                            schema.push(t);
                        },
                        (None, _) => {
                            assert(name_of(meta@[i as int]) is None);
                            assert(some_column_unusable(meta@));
                            return Err(RedshiftSourceError::MetadataFetchFailed);
                        },
                        (_, None) => {
                            assert(name_of(meta@[i as int]) is None || type_of_column(meta@[i as int]) is None);
                            assert(some_column_unusable(meta@));
                            return Err(RedshiftSourceError::UnmappedType(m.declared_type.clone()));
                        },
                    }
                    i += 1;
                }
                self.names = names;
                self.schema = schema;
                Ok(())
            },
        }
    }

    /// Row counts are not known before the partitions run.
    pub fn result_rows(&self) -> (r: Option<usize>)
        ensures
            r is None,
    {
        None
    }

    /// The column names.
    pub fn names(&self) -> (r: Vec<String>)
        ensures
            r@ == self.names@,
    {
        self.names.clone()
    }

    /// The column variants.
    pub fn schema(&self) -> (r: Vec<RedshiftTypeSystem>)
        ensures
            r@ == self.schema@,
    {
        self.schema.clone()
    }

    /// One partition per query, bound to the job submitted for it.
    pub fn partition(self, ids: Vec<String>) -> (r: Vec<RedshiftSourcePartition>)
        requires
            ids@.len() == self.queries@.len(),
        ensures
            r@.len() == ids@.len(),
            forall|i: int|
                0 <= i < r@.len() ==> (#[trigger] r@[i]).id == ids@[i] && r@[i].schema@
                    == self.schema@ && r@[i].output is None && r@[i].nrows is None
                    && r@[i].ncols == self.schema@.len(),
    {
        let mut ret: Vec<RedshiftSourcePartition> = Vec::new();
        let mut i: usize = 0;
        while i < ids.len()
            invariant
                i <= ids@.len(),
                ret@.len() == i,
                forall|j: int|
                    0 <= j < i ==> (#[trigger] ret@[j]).id == ids@[j] && ret@[j].schema@
                        == self.schema@ && ret@[j].output is None && ret@[j].nrows is None
                        && ret@[j].ncols == self.schema@.len(),
            decreases ids@.len() - i,
        {
            ret.push(RedshiftSourcePartition::new(ids[i].clone(), &self.schema));
            i += 1;
        }
        ret
    }
}

/// One query's job, its schema, and the first result page once it is
/// buffered.
pub struct RedshiftSourcePartition {
    pub id: String,
    pub schema: Vec<RedshiftTypeSystem>,
    pub output: Option<ResultPage>,
    pub nrows: Option<u64>,
    pub ncols: usize,
}

impl RedshiftSourcePartition {
    /// A partition for the job `id`.
    pub fn new(id: String, schema: &Vec<RedshiftTypeSystem>) -> (r: Self)
        ensures
            r.id == id,
            r.schema@ == schema@,
            r.output is None,
            r.nrows is None,
            r.ncols == schema@.len(),
    {
        RedshiftSourcePartition { id, schema: schema.clone(), output: None, nrows: None, ncols: schema.len() }
    }

    /// Buffers the finished job's first page and takes the row count it
    /// reports; a negative count stays unknown.
    pub fn result_rows(&mut self, page: ResultPage)
        ensures
            final(self).output == Some(page),
            final(self).nrows == if page.total_num_rows >= 0 {
                Some(page.total_num_rows as u64)
            } else {
                None
            },
            final(self).id == old(self).id,
            final(self).schema == old(self).schema,
            final(self).ncols == old(self).ncols,
    {
        self.nrows = if page.total_num_rows >= 0 {
            Some(page.total_num_rows as u64)
        } else {
            None
        };
        self.output = Some(page);
    }

    /// Whether a first page must still be fetched before `parser`.
    pub fn needs_first_page(&self) -> (r: bool)
        ensures
            r == self.output is None,
    {
        self.output.is_none()
    }

    /// A parser over the first page: the buffered one where there is one,
    /// else the page handed in; with neither, no parser can be made.
    pub fn parser(&mut self, fetched: Option<ResultPage>) -> (r: Result<RedshiftSourceParser, RedshiftSourceError>)
        ensures
            final(self).output is None,
            final(self).id == old(self).id,
            final(self).schema == old(self).schema,
            final(self).nrows == old(self).nrows,
            final(self).ncols == old(self).ncols,
            old(self).output is None && fetched is None ==> r matches Err(
                RedshiftSourceError::GetRecordsFailed,
            ),
            r matches Ok(p) ==> p.wf() && p.init && p.produced == 0 && p.page_start == 0 && p.id
                == old(self).id && p.ncols == old(self).schema@.len() && Some(p.page) == if old(
                self,
            ).output is Some {
                old(self).output
            } else {
                fetched
            },
            old(self).output is Some || fetched is Some ==> r is Ok,
    {
        let first = match self.output.take() {
            Some(p) => Some(p),
            None => fetched,
        };
        match first {
            Some(page) => Ok(RedshiftSourceParser::new(page, self.id.clone(), self.schema.len())),
            None => Err(RedshiftSourceError::GetRecordsFailed),
        }
    }

    /// The number of rows, where known.
    pub fn nrows(&self) -> (r: Option<u64>)
        ensures
            r == self.nrows,
    {
        self.nrows
    }

    /// The number of columns.
    pub fn ncols(&self) -> (r: usize)
        ensures
            r == self.ncols,
    {
        self.ncols
    }
}

} // verus!
