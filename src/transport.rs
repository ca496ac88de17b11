use chrono::Datelike;
use vstd::prelude::*;
use crate::errors::RedshiftSourceError;
use crate::parser::Value;
use crate::typesystem::RedshiftTypeSystem;

verus! {

/// A source variant without its nullability.
#[derive(Clone, Copy, Debug, PartialEq, Eq, Structural)]
pub enum SourceKind {
    Integer,
    Float,
    String,
    Date,
}

/// A destination's native column type.
#[derive(Clone, Copy, Debug, PartialEq, Eq, Structural)]
pub enum DestKind {
    ArrowInt64,
    ArrowFloat64,
    ArrowLargeUtf8,
    ArrowDate32,
    PandasI64,
    PandasStr,
    PandasDateTime,
}

/// How a value crosses from the source's representation to the
/// destination's.
#[derive(Clone, Copy, Debug, PartialEq, Eq, Structural)]
pub enum RuleKind {
    /// The representations are the same: a plain copy.
    Identity,
    /// A null indicator selects "absent" instead of the typed read.
    NullableWrap,
    /// A borrowed representation is copied into an owned buffer.
    OwnedMaterialize,
    /// An explicit transformation.
    Custom,
}

/// One entry of a conversion table.
#[derive(Clone, Copy, Debug, PartialEq, Eq, Structural)]
pub struct ConversionRule {
    pub src: SourceKind,
    pub dst: DestKind,
    pub kind: RuleKind,
}

/// A column's conversion, resolved once when a transport is bound.
#[derive(Clone, Copy, Debug, PartialEq, Eq, Structural)]
pub struct BoundColumn {
    pub src: RedshiftTypeSystem,
    pub dst: DestKind,
    pub nullable: bool,
    pub kind: RuleKind,
}

/// Binding fails on the first column whose variant the table lacks.
#[derive(Clone, Copy, Debug, PartialEq, Eq, Structural)]
pub enum TransportError {
    MissingRule(usize),
}

pub open spec fn kind_of(t: RedshiftTypeSystem) -> SourceKind {
    match t {
        RedshiftTypeSystem::Integer(_) => SourceKind::Integer,
        RedshiftTypeSystem::Float(_) => SourceKind::Float,
        RedshiftTypeSystem::String(_) => SourceKind::String,
        RedshiftTypeSystem::Date(_) => SourceKind::Date,
    }
}

/// The variant's kind, without nullability.
pub fn source_kind(t: RedshiftTypeSystem) -> (r: SourceKind)
    ensures
        r == kind_of(t),
{
    match t {
        RedshiftTypeSystem::Integer(_) => SourceKind::Integer,
        RedshiftTypeSystem::Float(_) => SourceKind::Float,
        RedshiftTypeSystem::String(_) => SourceKind::String,
        RedshiftTypeSystem::Date(_) => SourceKind::Date,
    }
}

/// The first entry of the table, from index `i` on, for source kind `k`.
pub open spec fn rule_from(table: Seq<ConversionRule>, k: SourceKind, i: nat) -> Option<ConversionRule>
    decreases table.len() - i,
{
    if i >= table.len() {
        None
    } else if table[i as int].src == k {
        Some(table[i as int])
    } else {
        rule_from(table, k, i + 1)
    }
}

/// The first entry of the table for source kind `k`.
pub open spec fn rule_for(table: Seq<ConversionRule>, k: SourceKind) -> Option<ConversionRule> {
    rule_from(table, k, 0)
}

/// Whether the table has an entry for source kind `k`.
pub open spec fn has_rule(table: Seq<ConversionRule>, k: SourceKind) -> bool {
    rule_for(table, k) is Some
}

/// The column that a rule binds for a source variant.
pub open spec fn bound_with(t: RedshiftTypeSystem, rule: ConversionRule) -> BoundColumn {
    BoundColumn { src: t, dst: rule.dst, nullable: t.spec_nullable(), kind: rule.kind }
}

/// `cols` holds, for each column of the schema, its variant bound with the
/// table's first entry for it.
pub open spec fn bound_all(
    table: Seq<ConversionRule>,
    schema: Seq<RedshiftTypeSystem>,
    cols: Seq<BoundColumn>,
) -> bool {
    &&& cols.len() == schema.len()
    &&& forall|i: int|
        0 <= i < cols.len() ==> #[trigger] cols[i] == bound_with(
            schema[i],
            rule_for(table, kind_of(schema[i])).unwrap(),
        )
}

/// The first entry of the table for source kind `k`.
pub fn lookup(table: &Vec<ConversionRule>, k: SourceKind) -> (r: Option<ConversionRule>)
    ensures
        r == rule_for(table@, k),
{
    let mut i: usize = 0;
    while i < table.len()
        invariant
            i <= table@.len(),
            rule_from(table@, k, i as nat) == rule_for(table@, k),
        decreases table@.len() - i,
    {
        if table[i].src == k {
            return Some(table[i]);
        }
        i += 1;
    }
    None
}

/// Resolves every column of the schema against the table, once. Fails,
/// before any row is read, exactly when some column's variant has no entry;
/// the error names the first such column.
pub fn bind(table: &Vec<ConversionRule>, schema: &Vec<RedshiftTypeSystem>) -> (r: Result<
    Vec<BoundColumn>,
    TransportError,
>)
    ensures
        r is Err <==> exists|c: int|
            0 <= c < schema@.len() && !has_rule(table@, kind_of(#[trigger] schema@[c])),
        r matches Err(TransportError::MissingRule(c)) ==> c < schema@.len() && !has_rule(
            table@,
            kind_of(schema@[c as int]),
        ) && forall|j: int| 0 <= j < c ==> has_rule(table@, kind_of(#[trigger] schema@[j])),
        r matches Ok(cols) ==> bound_all(table@, schema@, cols@),
{
    let mut cols: Vec<BoundColumn> = Vec::new();
    let mut c: usize = 0;
    while c < schema.len()
        invariant
            c <= schema@.len(),
            cols@.len() == c,
            forall|j: int| 0 <= j < c ==> has_rule(table@, kind_of(#[trigger] schema@[j])),
            forall|i: int|
                0 <= i < c ==> #[trigger] cols@[i] == bound_with(
                    schema@[i],
                    rule_for(table@, kind_of(schema@[i])).unwrap(),
                ),
        decreases schema@.len() - c,
    {
        let t = schema[c];
        match lookup(table, source_kind(t)) {
            Some(rule) => {
                let b = BoundColumn { src: t, dst: rule.dst, nullable: t.nullable(), kind: rule.kind };
                cols.push(b);
            },
            None => {
                return Err(TransportError::MissingRule(c));
            },
        }
        c += 1;
    }
    Ok(cols)
}

/// The Arrow destination's entry for each source kind.
pub open spec fn arrow_rule(k: SourceKind) -> ConversionRule {
    match k {
        SourceKind::Integer => ConversionRule { src: k, dst: DestKind::ArrowInt64, kind: RuleKind::Identity },
        SourceKind::Float => ConversionRule { src: k, dst: DestKind::ArrowFloat64, kind: RuleKind::Identity },
        SourceKind::String => ConversionRule {
            src: k,
            dst: DestKind::ArrowLargeUtf8,
            kind: RuleKind::OwnedMaterialize,
        },
        SourceKind::Date => ConversionRule { src: k, dst: DestKind::ArrowDate32, kind: RuleKind::Identity },
    }
}

/// The pandas destination's entry for each source kind.
pub open spec fn pandas_rule(k: SourceKind) -> ConversionRule {
    match k {
        SourceKind::Integer => ConversionRule { src: k, dst: DestKind::PandasI64, kind: RuleKind::Identity },
        SourceKind::Float => ConversionRule { src: k, dst: DestKind::PandasI64, kind: RuleKind::Custom },
        SourceKind::String => ConversionRule { src: k, dst: DestKind::PandasStr, kind: RuleKind::Identity },
        SourceKind::Date => ConversionRule { src: k, dst: DestKind::PandasDateTime, kind: RuleKind::Custom },
    }
}

pub open spec fn arrow_rules() -> Seq<ConversionRule> {
    seq![
        ConversionRule { src: SourceKind::Integer, dst: DestKind::ArrowInt64, kind: RuleKind::Identity },
        ConversionRule { src: SourceKind::Float, dst: DestKind::ArrowFloat64, kind: RuleKind::Identity },
        ConversionRule {
            src: SourceKind::String,
            dst: DestKind::ArrowLargeUtf8,
            kind: RuleKind::OwnedMaterialize,
        },
        ConversionRule { src: SourceKind::Date, dst: DestKind::ArrowDate32, kind: RuleKind::Identity },
    ]
}

pub open spec fn pandas_rules() -> Seq<ConversionRule> {
    seq![
        ConversionRule { src: SourceKind::Integer, dst: DestKind::PandasI64, kind: RuleKind::Identity },
        ConversionRule { src: SourceKind::Float, dst: DestKind::PandasI64, kind: RuleKind::Custom },
        ConversionRule { src: SourceKind::String, dst: DestKind::PandasStr, kind: RuleKind::Identity },
        ConversionRule { src: SourceKind::Date, dst: DestKind::PandasDateTime, kind: RuleKind::Custom },
    ]
}

/// What can fail while moving a result into the Arrow destination.
#[derive(Debug)]
pub enum RedshiftArrowTransportError {
    Source(RedshiftSourceError),
    Transport(TransportError),
}

/// Conversions from the warehouse's variants to the Arrow destination's.
pub struct RedshiftArrowTransport;

impl RedshiftArrowTransport {
    /// The conversion table.
    pub fn table() -> (r: Vec<ConversionRule>)
        ensures
            r@ == arrow_rules(),
    {
        let r = vec![
            ConversionRule { src: SourceKind::Integer, dst: DestKind::ArrowInt64, kind: RuleKind::Identity },
            ConversionRule { src: SourceKind::Float, dst: DestKind::ArrowFloat64, kind: RuleKind::Identity },
            ConversionRule {
                src: SourceKind::String,
                dst: DestKind::ArrowLargeUtf8,
                kind: RuleKind::OwnedMaterialize,
            },
            ConversionRule { src: SourceKind::Date, dst: DestKind::ArrowDate32, kind: RuleKind::Identity },
        ];
        assert(r@ =~= arrow_rules());
        r
    }

    /// Binds a schema to the Arrow destination; every variant has an entry.
    pub fn bind(schema: &Vec<RedshiftTypeSystem>) -> (r: Result<Vec<BoundColumn>, TransportError>)
        ensures
            r matches Ok(cols) ==> bound_all(arrow_rules(), schema@, cols@) && forall|i: int|
                0 <= i < cols@.len() ==> #[trigger] cols@[i] == bound_with(
                    schema@[i],
                    arrow_rule(kind_of(schema@[i])),
                ),
            r is Ok,
    {
        let table = Self::table();
        proof {
            reveal_with_fuel(rule_from, 5);
            assert forall|k: SourceKind| rule_for(arrow_rules(), k) == Some(arrow_rule(k)) by {
                match k {
                    SourceKind::Integer => {},
                    SourceKind::Float => {},
                    SourceKind::String => {},
                    SourceKind::Date => {},
                }
            }
        }
        bind(&table, schema)
    }
}

/// A calendar date of the proleptic Gregorian calendar.
#[derive(Clone, Copy, Debug, PartialEq, Eq, Structural)]
pub struct Ymd {
    pub year: i32,
    pub month: u32,
    pub day: u32,
}

pub open spec fn is_leap_year(y: int) -> bool {
    y % 4 == 0 && (y % 100 != 0 || y % 400 == 0)
}

pub open spec fn days_in_month(y: int, m: int) -> int {
    if m == 2 {
        if is_leap_year(y) {
            29
        } else {
            28
        }
    } else if m == 4 || m == 6 || m == 9 || m == 11 {
        30
    } else {
        31
    }
}

/// A date of the proleptic Gregorian calendar, within the years that a
/// chrono date can hold.
pub open spec fn is_calendar_date(y: int, m: int, d: int) -> bool {
    &&& -262143 <= y <= 262142
    &&& 1 <= m <= 12
    &&& 1 <= d <= days_in_month(y, m)
}

/// Days from 1970-01-01 to a date (negative before it), counted in 400-year
/// eras of 146097 days from a year that starts in March.
pub open spec fn days_from_civil(y: int, m: int, d: int) -> int {
    let yy = if m <= 2 { y - 1 } else { y };
    let era = yy / 400;
    let yoe = yy - era * 400;
    let mp = if m > 2 { m - 3 } else { m + 9 };
    let doy = (153 * mp + 2) / 5 + d - 1;
    let doe = yoe * 365 + yoe / 4 - yoe / 100 + doy;
    era * 146097 + doe - 719468
}

/// Seconds since the Unix epoch at midnight UTC of a date, or `None` where
/// the triple is no date.
pub open spec fn midnight_utc_of(year: int, month: int, day: int) -> Option<int> {
    if is_calendar_date(year, month, day) {
        Some(days_from_civil(year, month, day) * 86400)
    } else {
        None
    }
}

/// Relies on chrono's `NaiveDate::from_ymd_opt` (a Gregorian date with a
/// year in `MIN_YEAR..=MAX_YEAR`), `NaiveDate::and_hms_opt` at midnight, and
/// `DateTime::timestamp` of that time taken as UTC: the days since the epoch
/// times 86400.
#[verifier::external_body]
fn midnight_utc(year: i32, month: u32, day: u32) -> (r: Option<i64>)
    ensures
        match r {
            Some(t) => midnight_utc_of(year as int, month as int, day as int) == Some(t as int),
            None => midnight_utc_of(year as int, month as int, day as int) is None,
        },
{
    chrono::NaiveDate::from_ymd_opt(year, month, day)
        .and_then(|d| d.and_hms_opt(0, 0, 0))
        .map(|dt| dt.and_utc().timestamp())
}

/// Year, month and day of the date that a `YYYY-MM-DD` text names, or
/// `None` where it names none.
pub uninterp spec fn date_of_text(s: Seq<char>) -> Option<(int, int, int)>;

/// Relies on chrono's `NaiveDate::parse_from_str` with the format
/// `%Y-%m-%d`, read back through `Datelike::year`, `month` and `day`: the
/// result depends on the text alone.
#[verifier::external_body]
fn parse_date(s: &str) -> (r: Option<Ymd>)
    ensures
        match r {
            Some(d) => date_of_text(s@) == Some((d.year as int, d.month as int, d.day as int)),
            None => date_of_text(s@) is None,
        },
{
    match chrono::NaiveDate::parse_from_str(s, "%Y-%m-%d") {
        Ok(d) => Some(Ymd { year: d.year(), month: d.month(), day: d.day() }),
        Err(_) => None,
    }
}

/// What a bound column's frozen rule makes of a value read for it: the
/// custom date rule of the pandas destination turns date text into the
/// timestamp of its midnight UTC, and fails on text that names no date;
/// every other rule keeps the value as read (a float's conversion, which
/// needs floating-point arithmetic, is left to the destination).
pub open spec fn spec_apply_rule(col: BoundColumn, v: Value) -> Option<Value> {
    if col.kind == RuleKind::Custom && col.dst == DestKind::PandasDateTime {
        match v {
            Value::DateText(s) => match date_of_text(s@) {
                None => None,
                Some(d) => match midnight_utc_of(d.0, d.1, d.2) {
                    None => None,
                    Some(t) => Some(Value::Timestamp(t as i64)),
                },
            },
            _ => Some(v),
        }
    } else {
        Some(v)
    }
}

/// Applies a bound column's frozen rule to a value read for it.
pub fn apply_rule(col: &BoundColumn, v: Value) -> (r: Option<Value>)
    ensures
        r == spec_apply_rule(*col, v),
{
    if col.kind == RuleKind::Custom && col.dst == DestKind::PandasDateTime {
        match v {
            Value::DateText(s) => match parse_date(s.as_str()) {
                None => None,
                Some(d) => match RedshiftPandasTransport::convert(d) {
                    None => None,
                    Some(t) => Some(Value::Timestamp(t)),
                },
            },
            _ => Some(v),
        }
    } else {
        Some(v)
    }
}

/// Conversions from the warehouse's variants to the pandas destination's.
pub struct RedshiftPandasTransport;

impl RedshiftPandasTransport {
    /// The custom conversion of a date column: the date becomes the
    /// timestamp, in seconds, of its midnight UTC.
    pub fn convert(val: Ymd) -> (r: Option<i64>)
        ensures
            match r {
                Some(t) => midnight_utc_of(val.year as int, val.month as int, val.day as int)
                    == Some(t as int),
                None => midnight_utc_of(val.year as int, val.month as int, val.day as int) is None,
            },
    {
        midnight_utc(val.year, val.month, val.day)
    }

    /// The conversion table.
    pub fn table() -> (r: Vec<ConversionRule>)
        ensures
            r@ == pandas_rules(),
    {
        let r = vec![
            ConversionRule { src: SourceKind::Integer, dst: DestKind::PandasI64, kind: RuleKind::Identity },
            ConversionRule { src: SourceKind::Float, dst: DestKind::PandasI64, kind: RuleKind::Custom },
            ConversionRule { src: SourceKind::String, dst: DestKind::PandasStr, kind: RuleKind::Identity },
            ConversionRule { src: SourceKind::Date, dst: DestKind::PandasDateTime, kind: RuleKind::Custom },
        ];
        assert(r@ =~= pandas_rules());
        r
    }

    /// Binds a schema to the pandas destination; every variant has an entry.
    pub fn bind(schema: &Vec<RedshiftTypeSystem>) -> (r: Result<Vec<BoundColumn>, TransportError>)
        ensures
            r matches Ok(cols) ==> bound_all(pandas_rules(), schema@, cols@) && forall|i: int|
                0 <= i < cols@.len() ==> #[trigger] cols@[i] == bound_with(
                    schema@[i],
                    pandas_rule(kind_of(schema@[i])),
                ),
            r is Ok,
    {
        let table = Self::table();
        proof {
            reveal_with_fuel(rule_from, 5);
            assert forall|k: SourceKind| rule_for(pandas_rules(), k) == Some(pandas_rule(k)) by {
                match k {
                    SourceKind::Integer => {},
                    SourceKind::Float => {},
                    SourceKind::String => {},
                    SourceKind::Date => {},
                }
            }
        }
        bind(&table, schema)
    }
}

} // verus!
