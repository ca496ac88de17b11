use vstd::prelude::*;
use crate::poll::JobStatus;

verus! {

#[verifier::external_type_specification]
#[verifier::external_body]
pub struct ExParseError(url::ParseError);

/// Everything that can go wrong between a connection descriptor and the last
/// value read from a partition.
#[derive(Debug)]
pub enum RedshiftSourceError {
    /// The caller asked for an ordering other than row-major.
    UnsupportedDataOrder,
    /// A buffered page holds no records, or the cursor lies outside them.
    GetRecordsFailed,
    /// The connection descriptor names no host.
    ClusterIDNotFound,
    /// The probe query returned no column metadata.
    MetadataFetchFailed,
    /// A result column has a declared type that the table does not map.
    UnmappedType(Option<String>),
    /// The job ended in a status other than finished.
    QueryStatusError(JobStatus),
    /// The connection descriptor is not a URL.
    RedshiftUrlError(url::ParseError),
    /// The cursor has counted as many values as it can hold.
    TooManyValues,
    /// A typed read met a cell of another shape.
    ExtractionFailed,
}

} // verus!
