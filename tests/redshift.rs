use redshift_source::config::parse_redshift_config;
use redshift_source::dispatch::{dispatch, load_partition, write_batch, MemoryDestination};
use redshift_source::errors::RedshiftSourceError;
use redshift_source::page::{Field, ResultPage};
use redshift_source::parser::{FetchStep, RedshiftSourceParser, Value};
use redshift_source::poll::{run_statuses, JobStatus, PollAction, PollOutcome, Poller};
use redshift_source::source::{DataOrder, RedshiftSource, RedshiftSourcePartition};
use redshift_source::transport::{
    apply_rule, bind, ConversionRule, DestKind, RedshiftArrowTransport, RedshiftPandasTransport, RuleKind,
    SourceKind, TransportError, Ymd,
};
use redshift_source::typesystem::{ColumnMeta, RedshiftTypeSystem};

fn page(rows: Vec<Vec<Field>>, token: Option<&str>) -> ResultPage {
    let n = rows.len() as i64;
    ResultPage {
        records: Some(rows),
        next_token: token.map(|t| t.to_string()),
        total_num_rows: n,
        column_metadata: None,
    }
}

fn text(s: &str) -> Field {
    Field::Text(s.to_string())
}

fn meta(name: &str, ty: &str, nullable: i32) -> ColumnMeta {
    ColumnMeta {
        name: Some(name.to_string()),
        declared_type: Some(ty.to_string()),
        nullable,
    }
}

#[test]
fn descriptor_parses_into_config() {
    let c = parse_redshift_config("redshift://alice@mycluster/mydb").unwrap();
    assert_eq!(c.cluster_identifier, "mycluster");
    assert_eq!(c.database, "mydb");
    assert_eq!(c.db_user, "alice");
}

#[test]
fn descriptor_database_is_first_segment() {
    let c = parse_redshift_config("redshift://bob@c1/sales/extra").unwrap();
    assert_eq!(c.database, "sales");
    let c = parse_redshift_config("redshift://bob@c1").unwrap();
    assert_eq!(c.database, "");
    assert_eq!(c.cluster_identifier, "c1");
}

#[test]
fn descriptor_without_host_fails() {
    let r = parse_redshift_config("redshift:/mydb");
    assert!(matches!(r, Err(RedshiftSourceError::ClusterIDNotFound)));
}

#[test]
fn descriptor_that_is_no_url_fails() {
    let r = parse_redshift_config("no scheme here");
    assert!(matches!(r, Err(RedshiftSourceError::RedshiftUrlError(_))));
}

#[test]
fn type_names_map_to_variants() {
    assert_eq!(RedshiftTypeSystem::from_declared_type("int8", 0), Some(RedshiftTypeSystem::Integer(false)));
    assert_eq!(RedshiftTypeSystem::from_declared_type("int4", 1), Some(RedshiftTypeSystem::Integer(true)));
    assert_eq!(RedshiftTypeSystem::from_declared_type("numeric", 0), Some(RedshiftTypeSystem::Float(false)));
    assert_eq!(RedshiftTypeSystem::from_declared_type("bpchar", 2), Some(RedshiftTypeSystem::String(true)));
    assert_eq!(RedshiftTypeSystem::from_declared_type("varchar", 0), Some(RedshiftTypeSystem::String(false)));
    assert_eq!(RedshiftTypeSystem::from_declared_type("date", 1), Some(RedshiftTypeSystem::Date(true)));
    assert_eq!(RedshiftTypeSystem::from_declared_type("timestamp", 1), None);
    assert_eq!(RedshiftTypeSystem::from_declared_type("int", 0), None);
    assert!(RedshiftTypeSystem::Date(true).nullable());
    assert!(!RedshiftTypeSystem::Float(false).nullable());
}

#[test]
fn poll_counts_waits_before_retrieval() {
    let statuses = vec![JobStatus::Submitted, JobStatus::Started, JobStatus::Started, JobStatus::Finished];
    let p = run_statuses(&statuses);
    assert_eq!(p.waits, 3);
    assert_eq!(p.reads, 4);
    assert_eq!(p.outcome, PollOutcome::Finished);
}

#[test]
fn poll_fails_on_other_status() {
    let p = run_statuses(&vec![JobStatus::Picked, JobStatus::Aborted, JobStatus::Finished]);
    assert_eq!(p.waits, 1);
    assert_eq!(p.outcome, PollOutcome::Failed(JobStatus::Aborted));
    let mut q = Poller::new();
    assert_eq!(q.step(JobStatus::Failed), PollAction::Fail(JobStatus::Failed));
    let p = run_statuses(&vec![JobStatus::Submitted, JobStatus::Submitted]);
    assert_eq!(p.waits, 2);
    assert_eq!(p.outcome, PollOutcome::Pending);
}

#[test]
fn two_pages_are_read_in_order() {
    let p1 = page(vec![vec![Field::Long(1), text("a")], vec![Field::Long(2), text("b")]], Some("t1"));
    let p2 = page(vec![vec![Field::Long(3), text("c")]], None);
    let mut p = RedshiftSourceParser::new(p1, "job".to_string(), 2);
    assert!(matches!(p.fetch_next(), FetchStep::Batch(2, false)));
    let mut ints = vec![];
    let mut strs = vec![];
    for _ in 0..2 {
        ints.push(p.produce_i64().unwrap());
        match p.produce_value(RedshiftTypeSystem::String(false)).unwrap() {
            Value::Text(s) => strs.push(s),
            _ => panic!("not text"),
        }
    }
    let token = match p.fetch_next() {
        FetchStep::NeedPage(t) => t,
        FetchStep::Batch(..) => panic!("expected a page request"),
    };
    assert_eq!(token, "t1");
    assert_eq!(p.accept_page(p2), (1, true));
    ints.push(p.produce_i64().unwrap());
    match p.produce_value(RedshiftTypeSystem::String(false)).unwrap() {
        Value::Text(s) => strs.push(s),
        _ => panic!("not text"),
    }
    assert_eq!(ints, vec![1, 2, 3]);
    assert_eq!(strs, vec!["a", "b", "c"]);
    assert_eq!(p.cursor(), (3, 0));
    assert!(matches!(p.fetch_next(), FetchStep::Batch(0, true)));
}

#[test]
fn cursor_moves_row_major() {
    let p1 = page(vec![vec![Field::Long(1), Field::Long(2), Field::Long(3)]], None);
    let mut p = RedshiftSourceParser::new(p1, "j".to_string(), 3);
    assert_eq!(p.cursor(), (0, 0));
    p.produce_i64().unwrap();
    assert_eq!(p.cursor(), (0, 1));
    p.produce_i64().unwrap();
    assert_eq!(p.cursor(), (0, 2));
    p.produce_i64().unwrap();
    assert_eq!(p.cursor(), (1, 0));
    assert!(matches!(p.produce_i64(), Err(RedshiftSourceError::GetRecordsFailed)));
}

#[test]
fn null_cells_read_as_absent() {
    let p1 = page(vec![vec![Field::Null, Field::Null, Field::Null, Field::Null, Field::Null]], None);
    let mut p = RedshiftSourceParser::new(p1, "j".to_string(), 5);
    assert!(matches!(p.produce_value(RedshiftTypeSystem::Integer(true)), Ok(Value::Absent)));
    assert!(matches!(p.produce_value(RedshiftTypeSystem::Float(true)), Ok(Value::Absent)));
    assert!(matches!(p.produce_value(RedshiftTypeSystem::String(true)), Ok(Value::Absent)));
    assert!(matches!(p.produce_opt_i64(), Ok(None)));
    assert!(matches!(
        p.produce_value(RedshiftTypeSystem::Integer(false)),
        Err(RedshiftSourceError::ExtractionFailed)
    ));
}

#[test]
fn wrong_shape_is_an_extraction_error() {
    let p1 = page(vec![vec![text("x"), Field::Long(7), Field::DoubleBits(9), text("2021-01-02")]], None);
    let mut p = RedshiftSourceParser::new(p1, "j".to_string(), 4);
    assert!(matches!(p.produce_i64(), Err(RedshiftSourceError::ExtractionFailed)));
    assert!(matches!(p.produce_opt_i64(), Ok(Some(7))));
    assert!(matches!(p.produce_value(RedshiftTypeSystem::Float(false)), Ok(Value::FloatBits(9))));
    match p.produce_value(RedshiftTypeSystem::Date(false)) {
        Ok(Value::DateText(s)) => assert_eq!(s, "2021-01-02"),
        _ => panic!("expected date text"),
    }
}

#[test]
fn page_without_records_is_an_empty_tail() {
    let empty = ResultPage { records: None, next_token: None, total_num_rows: 0, column_metadata: None };
    let mut p = RedshiftSourceParser::new(empty, "j".to_string(), 2);
    assert!(matches!(p.fetch_next(), FetchStep::Batch(0, true)));
    assert!(matches!(p.produce_i64(), Err(RedshiftSourceError::GetRecordsFailed)));
}

#[test]
fn draining_concatenates_pages_up_to_the_last() {
    let cols = RedshiftArrowTransport::bind(&vec![RedshiftTypeSystem::Integer(false)]).unwrap();
    let pages = vec![
        page(vec![vec![Field::Long(1)], vec![Field::Long(2)]], Some("a")),
        page(vec![], Some("b")),
        page(vec![vec![Field::Long(3)]], None),
        page(vec![vec![Field::Long(99)]], None),
    ];
    let mut dest = MemoryDestination::new(1);
    let (rows, used) = load_partition(pages, &cols, &mut dest).unwrap();
    assert_eq!(used, 3);
    assert_eq!(rows, 3);
    let vals: Vec<i64> = dest
        .values
        .iter()
        .map(|v| match v {
            Value::Int(x) => *x,
            _ => panic!("not an integer"),
        })
        .collect();
    assert_eq!(vals, vec![1, 2, 3]);
}

#[test]
fn draining_without_a_last_page_fails() {
    let cols = RedshiftArrowTransport::bind(&vec![RedshiftTypeSystem::Integer(false)]).unwrap();
    let pages = vec![page(vec![vec![Field::Long(1)]], Some("a"))];
    let mut dest = MemoryDestination::new(1);
    assert!(matches!(load_partition(pages, &cols, &mut dest), Err(RedshiftSourceError::GetRecordsFailed)));
    assert!(matches!(load_partition(vec![], &cols, &mut dest), Err(RedshiftSourceError::GetRecordsFailed)));
}

#[test]
fn dispatch_counts_rows_of_all_partitions() {
    let schema = vec![RedshiftTypeSystem::Integer(true), RedshiftTypeSystem::String(false)];
    let part_a = vec![
        page(vec![vec![Field::Long(1), text("a")], vec![Field::Null, text("b")]], Some("t")),
        page(vec![vec![Field::Long(3), text("c")]], None),
    ];
    let part_b = vec![page(vec![vec![Field::Long(4), text("d")]], None)];
    let cols = RedshiftArrowTransport::bind(&schema).unwrap();
    let (dest, counts) = dispatch(vec![part_a, part_b], &cols).unwrap();
    assert_eq!(counts, vec![3, 1]);
    assert_eq!(dest.nrows, 4);
    assert_eq!(dest.values.len(), 8);
    assert!(matches!(dest.values[0], Value::Int(1)));
    assert!(matches!(dest.values[2], Value::Absent));
    assert!(matches!(dest.values[6], Value::Int(4)));
    let d = MemoryDestination::new(2);
    assert_eq!(d.nrows, 0);
}

#[test]
fn pandas_dates_land_as_midnight_timestamps() {
    let schema = vec![RedshiftTypeSystem::Date(true), RedshiftTypeSystem::Float(false)];
    let cols = RedshiftPandasTransport::bind(&schema).unwrap();
    let part = vec![page(
        vec![vec![text("2021-01-02"), Field::DoubleBits(7)], vec![Field::Null, Field::DoubleBits(8)]],
        None,
    )];
    let (dest, counts) = dispatch(vec![part], &cols).unwrap();
    assert_eq!(counts, vec![2]);
    assert!(matches!(dest.values[0], Value::Timestamp(1609545600)));
    assert!(matches!(dest.values[1], Value::FloatBits(7)));
    assert!(matches!(dest.values[2], Value::Absent));
    let arrow = RedshiftArrowTransport::bind(&schema).unwrap();
    let part = vec![page(vec![vec![text("2021-01-02"), Field::DoubleBits(7)]], None)];
    let (dest, _) = dispatch(vec![part], &arrow).unwrap();
    assert!(matches!(&dest.values[0], Value::DateText(s) if s == "2021-01-02"));
}

#[test]
fn unparseable_dates_fail_the_custom_rule() {
    let cols = RedshiftPandasTransport::bind(&vec![RedshiftTypeSystem::Date(false)]).unwrap();
    let part = vec![page(vec![vec![text("2021-02-30")]], None)];
    assert!(matches!(dispatch(vec![part], &cols), Err(RedshiftSourceError::ExtractionFailed)));
    assert!(matches!(apply_rule(&cols[0], Value::Int(3)), Some(Value::Int(3))));
}

#[test]
fn write_batch_appends_row_major_values() {
    let schema = vec![RedshiftTypeSystem::Integer(false), RedshiftTypeSystem::Integer(true)];
    let cols = RedshiftArrowTransport::bind(&schema).unwrap();
    let pg = page(vec![vec![Field::Long(1), Field::Null], vec![Field::Long(3), Field::Long(4)]], None);
    let mut p = RedshiftSourceParser::new(pg, "j".to_string(), 2);
    let mut dest = MemoryDestination::new(2);
    write_batch(&mut p, &mut dest, &cols, 2).unwrap();
    assert_eq!(p.produced, 4);
    assert_eq!(dest.nrows, 2);
    assert!(matches!(dest.values[1], Value::Absent));
    assert!(matches!(dest.values[3], Value::Int(4)));
    let mut dest2 = MemoryDestination::new(2);
    assert!(matches!(
        write_batch(&mut p, &mut dest2, &cols, 1),
        Err(RedshiftSourceError::GetRecordsFailed)
    ));
}

#[test]
fn load_partition_reports_rows_and_pages() {
    let cols = RedshiftArrowTransport::bind(&vec![RedshiftTypeSystem::Integer(false)]).unwrap();
    let pages = vec![
        page(vec![vec![Field::Long(1)]], Some("t")),
        page(vec![vec![Field::Long(2)], vec![Field::Long(3)]], None),
        page(vec![vec![Field::Long(9)]], None),
    ];
    let mut dest = MemoryDestination::new(1);
    assert_eq!(load_partition(pages, &cols, &mut dest).unwrap(), (3, 2));
    assert!(matches!(dest.values[2], Value::Int(3)));
    assert_eq!(dest.values.len(), 3);
}

#[test]
fn failed_metadata_leaves_schema_alone() {
    let mut src = RedshiftSource::new("redshift://u@c/db").unwrap();
    let mut good = page(vec![], None);
    good.column_metadata = Some(vec![meta("id", "int8", 0)]);
    src.fetch_metadata(&good).unwrap();
    let mut bad = page(vec![], None);
    bad.column_metadata = Some(vec![meta("x", "int4", 0), meta("y", "json", 0)]);
    assert!(src.fetch_metadata(&bad).is_err());
    assert_eq!(src.names(), vec!["id".to_string()]);
    assert_eq!(src.schema(), vec![RedshiftTypeSystem::Integer(false)]);
}

#[test]
fn dispatch_aborts_on_a_failing_partition() {
    let schema = vec![RedshiftTypeSystem::Integer(false)];
    let good = vec![page(vec![vec![Field::Long(1)]], None)];
    let bad = vec![page(vec![vec![Field::Null]], None)];
    let cols = RedshiftArrowTransport::bind(&schema).unwrap();
    assert!(matches!(
        dispatch(vec![good, bad], &cols),
        Err(RedshiftSourceError::ExtractionFailed)
    ));
}

#[test]
fn binding_fails_on_a_missing_rule() {
    let table = vec![
        ConversionRule { src: SourceKind::Integer, dst: DestKind::ArrowInt64, kind: RuleKind::Identity },
        ConversionRule { src: SourceKind::String, dst: DestKind::ArrowLargeUtf8, kind: RuleKind::OwnedMaterialize },
    ];
    let schema = vec![
        RedshiftTypeSystem::Integer(false),
        RedshiftTypeSystem::Date(true),
        RedshiftTypeSystem::Float(false),
    ];
    assert_eq!(bind(&table, &schema), Err(TransportError::MissingRule(1)));
    let ok = bind(&table, &vec![RedshiftTypeSystem::String(true)]).unwrap();
    assert_eq!(ok[0].dst, DestKind::ArrowLargeUtf8);
    assert_eq!(ok[0].kind, RuleKind::OwnedMaterialize);
    assert!(ok[0].nullable);
}

#[test]
fn arrow_and_pandas_tables_cover_every_variant() {
    let schema = vec![
        RedshiftTypeSystem::Integer(false),
        RedshiftTypeSystem::Float(true),
        RedshiftTypeSystem::String(false),
        RedshiftTypeSystem::Date(false),
    ];
    let a = RedshiftArrowTransport::bind(&schema).unwrap();
    assert_eq!(a[1].dst, DestKind::ArrowFloat64);
    assert_eq!(a[2].kind, RuleKind::OwnedMaterialize);
    let p = RedshiftPandasTransport::bind(&schema).unwrap();
    assert_eq!(p[1].dst, DestKind::PandasI64);
    assert_eq!(p[1].kind, RuleKind::Custom);
    assert_eq!(p[3].dst, DestKind::PandasDateTime);
    assert_eq!(p[3].kind, RuleKind::Custom);
}

#[test]
fn dates_become_midnight_utc() {
    assert_eq!(RedshiftPandasTransport::convert(Ymd { year: 1970, month: 1, day: 1 }), Some(0));
    assert_eq!(RedshiftPandasTransport::convert(Ymd { year: 2021, month: 1, day: 2 }), Some(1609545600));
    assert_eq!(RedshiftPandasTransport::convert(Ymd { year: 2021, month: 2, day: 30 }), None);
}

#[test]
fn metadata_fills_names_and_schema() {
    let mut src = RedshiftSource::new("redshift://u@c/db").unwrap();
    assert!(src.set_data_order(DataOrder::RowMajor).is_ok());
    assert!(matches!(
        src.set_data_order(DataOrder::ColumnMajor),
        Err(RedshiftSourceError::UnsupportedDataOrder)
    ));
    assert_eq!(src.probe_query(), None);
    src.set_queries(vec!["select 1".to_string(), "select 2".to_string()]);
    assert_eq!(src.probe_query(), Some("select 1".to_string()));
    let mut probe = page(vec![], None);
    probe.column_metadata = Some(vec![meta("id", "int8", 0), meta("name", "varchar", 1)]);
    src.fetch_metadata(&probe).unwrap();
    assert_eq!(src.names(), vec!["id".to_string(), "name".to_string()]);
    assert_eq!(src.schema(), vec![RedshiftTypeSystem::Integer(false), RedshiftTypeSystem::String(true)]);
    assert_eq!(src.result_rows(), None);
    let parts = src.partition(vec!["j1".to_string(), "j2".to_string()]);
    assert_eq!(parts.len(), 2);
    assert_eq!(parts[1].id, "j2");
    assert_eq!(parts[0].ncols(), 2);
}

#[test]
fn metadata_errors() {
    let mut src = RedshiftSource::new("redshift://u@c/db").unwrap();
    let none = page(vec![], None);
    assert!(matches!(src.fetch_metadata(&none), Err(RedshiftSourceError::MetadataFetchFailed)));
    let mut empty = page(vec![], None);
    empty.column_metadata = Some(vec![]);
    assert!(matches!(src.fetch_metadata(&empty), Err(RedshiftSourceError::MetadataFetchFailed)));
    let mut unmapped = page(vec![], None);
    unmapped.column_metadata = Some(vec![meta("id", "int8", 0), meta("t", "timestamptz", 0)]);
    match src.fetch_metadata(&unmapped) {
        Err(RedshiftSourceError::UnmappedType(t)) => assert_eq!(t, Some("timestamptz".to_string())),
        _ => panic!("expected an unmapped type"),
    }
    assert!(matches!(
        RedshiftSource::new("redshift:/db"),
        Err(RedshiftSourceError::ClusterIDNotFound)
    ));
}

#[test]
fn partition_reuses_a_buffered_page() {
    let schema = vec![RedshiftTypeSystem::Integer(false)];
    let mut part = RedshiftSourcePartition::new("j".to_string(), &schema);
    assert!(part.needs_first_page());
    assert!(matches!(part.parser(None), Err(RedshiftSourceError::GetRecordsFailed)));
    part.result_rows(page(vec![vec![Field::Long(5)], vec![Field::Long(6)]], None));
    assert_eq!(part.nrows(), Some(2));
    assert!(!part.needs_first_page());
    let mut p = part.parser(Some(page(vec![], None))).unwrap();
    assert!(matches!(p.fetch_next(), FetchStep::Batch(2, true)));
    assert_eq!(p.produce_i64().unwrap(), 5);
    assert!(part.needs_first_page());
}
