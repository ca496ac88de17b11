use vstd::prelude::*;
use vstd::string::*;
use crate::errors::RedshiftSourceError;

verus! {

/// Where and as whom the jobs of a source run.
#[derive(Clone, Debug)]
pub struct RedshiftConfig {
    pub cluster_identifier: String,
    pub database: String,
    pub db_user: String,
}

/// The parts of a parsed connection URL that a configuration is made from.
#[derive(Clone, Debug)]
pub struct UrlParts {
    pub host: Option<String>,
    pub path: String,
    pub username: String,
}

/// Host, path and user-info of the URL that a text parses to, or `None` where
/// it does not parse.
pub uninterp spec fn url_parts_of(s: Seq<char>) -> Option<(Option<Seq<char>>, Seq<char>, Seq<char>)>;

pub open spec fn opt_view(o: Option<String>) -> Option<Seq<char>> {
    match o {
        Some(s) => Some(s@),
        None => None,
    }
}

/// The parts as plain sequences.
pub open spec fn parts_view(p: UrlParts) -> (Option<Seq<char>>, Seq<char>, Seq<char>) {
    (opt_view(p.host), p.path@, p.username@)
}

/// Relies on `url::Url::parse`, read back through `Url::host_str`, `Url::path`
/// and `Url::username`: the parts depend on the text alone, and an error comes
/// exactly where no URL is parsed.
#[verifier::external_body]
fn parse_url(conn: &str) -> (r: Result<UrlParts, url::ParseError>)
    ensures
        match r {
            Ok(p) => url_parts_of(conn@) == Some(parts_view(p)),
            Err(_) => url_parts_of(conn@).is_none(),
        },
{
    let u = url::Url::parse(conn)?;
    Ok(
        UrlParts {
            host: u.host_str().map(|h| h.to_string()),
            path: u.path().to_string(),
            username: u.username().to_string(),
        },
    )
}

/// The path without its leading slash, if it has one.
pub open spec fn path_tail(path: Seq<char>) -> Seq<char> {
    if path.len() > 0 && path[0] == '/' {
        path.drop_first()
    } else {
        path
    }
}

/// `seg` is the first segment of `rest`: its longest prefix without a slash.
pub open spec fn is_first_segment(rest: Seq<char>, seg: Seq<char>) -> bool {
    &&& seg.len() <= rest.len()
    &&& seg == rest.take(seg.len() as int)
    &&& forall|j: int| 0 <= j < seg.len() ==> seg[j] != '/'
    &&& (seg.len() == rest.len() || rest[seg.len() as int] == '/')
}

/// What a configuration built from `p` holds: the host as cluster, the
/// first path segment as database, the user-info as user.
pub open spec fn config_matches(p: (Option<Seq<char>>, Seq<char>, Seq<char>), c: RedshiftConfig) -> bool {
    &&& p.0 == Some(c.cluster_identifier@)
    &&& is_first_segment(path_tail(p.1), c.database@)
    &&& c.db_user@ == p.2
}

/// The first segment of a URL path.
pub fn first_path_segment(path: &str) -> (r: String)
    ensures
        is_first_segment(path_tail(path@), r@),
{
    let n = path.unicode_len();
    let start: usize = if n > 0 && path.get_char(0) == '/' { 1 } else { 0 };
    let mut i: usize = start;
    while i < n && path.get_char(i) != '/'
        invariant
            start <= i <= n,
            n == path@.len(),
            path_tail(path@) == path@.subrange(start as int, n as int),
            forall|j: int| start <= j < i ==> path@[j] != '/',
        decreases n - i,
    {
        i += 1;
    }
    let seg = path.substring_char(start, i);
    let r = seg.to_owned();
    assert(path_tail(path@).take((i - start) as int) =~= r@);
    r
}

/// Builds a configuration from the parts of a parsed URL.
pub fn config_from_parts(parts: UrlParts) -> (r: Result<RedshiftConfig, RedshiftSourceError>)
    ensures
        match r {
            Ok(c) => config_matches(parts_view(parts), c),
            Err(e) => parts.host.is_none() && e is ClusterIDNotFound,
        },
        parts.host.is_some() <==> r.is_ok(),
{
    match parts.host {
        Some(h) => {
            let database = first_path_segment(parts.path.as_str());
            Ok(RedshiftConfig { cluster_identifier: h, database, db_user: parts.username })
        },
        None => Err(RedshiftSourceError::ClusterIDNotFound),
    }
}

/// Parses a connection descriptor `scheme://user@cluster/database`.
pub fn parse_redshift_config(conn: &str) -> (r: Result<RedshiftConfig, RedshiftSourceError>)
    ensures
        url_parts_of(conn@) is None ==> r matches Err(RedshiftSourceError::RedshiftUrlError(_)),
        url_parts_of(conn@) is Some ==> {
            let p = url_parts_of(conn@).unwrap();
            &&& (p.0.is_some() <==> r.is_ok())
            &&& (r matches Ok(c) ==> config_matches(p, c))
            &&& (r matches Err(e) ==> e is ClusterIDNotFound)
        },
{
    match parse_url(conn) {
        Ok(parts) => config_from_parts(parts),
        Err(e) => Err(RedshiftSourceError::RedshiftUrlError(e)),
    }
}

} // verus!
