//! The storage adapter's statement builders: each repository operation is
//! translated into one parameterized SQL statement.  Caller-supplied
//! values are never interpolated into the statement text; every value is
//! carried as a bound parameter.

use vstd::prelude::*;

use crate::repo::views_of;

use sea_query_binder::SqlxBinder;

verus! {

/// The values that this adapter binds into a statement.
#[derive(Debug)]
pub enum DbValue {
    /// A 128-bit record identifier, bound as a uuid.
    Id(u128),
    /// A required text column.
    Text(String),
    /// A nullable text column.
    MaybeText(Option<String>),
    /// A small integer column.
    Small(i16),
}

/// The value view of a bound parameter: the value as it reaches the
/// engine.  A required text and a present nullable text bind identically,
/// as a non-null string, so both view as `Str`; a row limit appears as its
/// own bound value, the way the builder renders `LIMIT`.
pub enum DbValueV {
    Id(u128),
    Str(Option<Seq<char>>),
    Small(i16),
    Count(u64),
}

impl View for DbValue {
    type V = DbValueV;

    open spec fn view(&self) -> DbValueV {
        match self {
            DbValue::Id(u) => DbValueV::Id(*u),
            DbValue::Text(s) => DbValueV::Str(Some(s@)),
            DbValue::MaybeText(o) => DbValueV::Str(crate::monsters::opt_view(*o)),
            DbValue::Small(i) => DbValueV::Small(*i),
        }
    }
}

/// The views of a list of column names.
pub open spec fn names_of(s: Seq<&'static str>) -> Seq<Seq<char>> {
    s.map_values(|c: &'static str| c@)
}

/// The set of values bound into one prepared statement, in binding order.
#[verifier::external_type_specification]
#[verifier::external_body]
pub struct ExSqlxValues(sea_query_binder::SqlxValues);

/// A value as the statement builder carries it.
#[verifier::external_type_specification]
#[verifier::external_body]
pub struct ExSeaValue(sea_query::Value);

/// A column definition as the schema builder carries it.
#[verifier::external_type_specification]
#[verifier::external_body]
pub struct ExColumnDef(sea_query::ColumnDef);

/// What a `SqlxValues` holds, as the views of the adapter's values in
/// binding order.
pub uninterp spec fn binds_of(v: sea_query_binder::SqlxValues) -> Seq<DbValueV>;

/// The text of a SELECT with one equality condition and an optional row
/// limit, as the builder renders it for the relational engine.
pub uninterp spec fn select_sql(
    table: Seq<char>,
    cols: Seq<Seq<char>>,
    where_col: Seq<char>,
    limit: Option<u64>,
) -> Seq<char>;

/// The text of a SELECT over all rows.
pub uninterp spec fn select_all_sql(table: Seq<char>, cols: Seq<Seq<char>>) -> Seq<char>;

/// The text of an INSERT of one row.
pub uninterp spec fn insert_sql(table: Seq<char>, cols: Seq<Seq<char>>) -> Seq<char>;

/// The text of an UPDATE with one equality condition.
pub uninterp spec fn update_sql(
    table: Seq<char>,
    set_cols: Seq<Seq<char>>,
    where_col: Seq<char>,
) -> Seq<char>;

/// The text of a DELETE with one equality condition.
pub uninterp spec fn delete_sql(table: Seq<char>, where_col: Seq<char>) -> Seq<char>;

/// The text of a CREATE TABLE IF NOT EXISTS statement.
pub uninterp spec fn create_table_sql(
    table: Seq<char>,
    cols: Seq<ColumnSpecV>,
    fk: Option<FkSpecV>,
) -> Seq<char>;

/// The storage type of one column.
#[derive(Clone, Copy, Debug, PartialEq, Eq, Structural)]
pub enum ColKind {
    /// A uuid column.
    Identifier,
    /// A text column.
    Text,
    /// An integer column.
    Whole,
}

/// One column of a table's schema object.
#[derive(Debug)]
pub struct ColumnSpec {
    pub name: &'static str,
    pub kind: ColKind,
    /// Not-null when set; otherwise the column defaults to null.
    pub required: bool,
    pub primary: bool,
}

/// The value view of a column description.
pub struct ColumnSpecV {
    pub name: Seq<char>,
    pub kind: ColKind,
    pub required: bool,
    pub primary: bool,
}

impl View for ColumnSpec {
    type V = ColumnSpecV;

    open spec fn view(&self) -> ColumnSpecV {
        ColumnSpecV {
            name: self.name@,
            kind: self.kind,
            required: self.required,
            primary: self.primary,
        }
    }
}

/// A foreign-key clause: the named constraint links one column of the new
/// table to a column of another, cascading on delete and update.
#[derive(Debug)]
pub struct FkSpec {
    pub name: &'static str,
    pub from_col: &'static str,
    pub to_table: &'static str,
    pub to_col: &'static str,
}

/// The value view of a foreign-key clause.
pub struct FkSpecV {
    pub name: Seq<char>,
    pub from_col: Seq<char>,
    pub to_table: Seq<char>,
    pub to_col: Seq<char>,
}

impl View for FkSpec {
    type V = FkSpecV;

    open spec fn view(&self) -> FkSpecV {
        FkSpecV {
            name: self.name@,
            from_col: self.from_col@,
            to_table: self.to_table@,
            to_col: self.to_col@,
        }
    }
}

/// Relies on sea-query's `SelectStatement` builder and
/// `SqlxBinder::build_sqlx`: renders a SELECT of `cols` from `table` with
/// the single condition `where_col = $1` and an optional LIMIT, binding
/// `where_val` as the one parameter.  The rendered text is a function of
/// the arguments alone.
#[verifier::external_body]
pub(crate) fn build_select(
    table: &'static str,
    cols: &Vec<&'static str>,
    where_col: &'static str,
    where_val: DbValue,
    limit: Option<u64>,
) -> (r: (String, sea_query_binder::SqlxValues))
    ensures
        r.0@ == select_sql(table@, names_of(cols@), where_col@, limit),
        binds_of(r.1) == (match limit {
            None => seq![where_val@],
            Some(l) => seq![where_val@, DbValueV::Count(l)],
        }),
{
    let mut q = sea_query::Query::select();
    q.from(table).columns(cols.clone());
    q.and_where(sea_query::Expr::col(where_col).eq(raw_value(where_val)));
    if let Some(l) = limit {
        q.limit(l);
    }
    q.build_sqlx(sea_query::PostgresQueryBuilder)
}

/// Relies on sea-query's `SelectStatement` builder and
/// `SqlxBinder::build_sqlx`: renders a SELECT of `cols` over all rows of
/// `table`, binding nothing.
#[verifier::external_body]
pub(crate) fn build_select_all(table: &'static str, cols: &Vec<&'static str>) -> (r: (
    String,
    sea_query_binder::SqlxValues,
))
    ensures
        r.0@ == select_all_sql(table@, names_of(cols@)),
        binds_of(r.1) == Seq::<DbValueV>::empty(),
{
    let mut q = sea_query::Query::select();
    q.from(table).columns(cols.clone());
    q.build_sqlx(sea_query::PostgresQueryBuilder)
}

/// Relies on sea-query's `InsertStatement` builder and
/// `SqlxBinder::build_sqlx`: renders an INSERT of one row into `table`,
/// binding `vals` in order.  Its source reports an error exactly when the
/// number of values differs from the number of columns.
#[verifier::external_body]
pub(crate) fn build_insert(
    table: &'static str,
    cols: &Vec<&'static str>,
    vals: Vec<DbValue>,
) -> (r: Result<(String, sea_query_binder::SqlxValues), String>)
    requires
        vals@.len() > 0,
    ensures
        r is Ok <==> cols@.len() == vals@.len(),
        r is Ok ==> r->Ok_0.0@ == insert_sql(table@, names_of(cols@)) && binds_of(r->Ok_0.1)
            == views_of(vals@),
{
    let exprs: Vec<sea_query::SimpleExpr> =
        vals.into_iter().map(|v| sea_query::SimpleExpr::from(raw_value(v))).collect();
    let mut q = sea_query::Query::insert();
    q.into_table(table).columns(cols.clone());
    match q.values(exprs) {
        Ok(stmt) => Ok(stmt.build_sqlx(sea_query::PostgresQueryBuilder)),
        Err(e) => Err(e.to_string()),
    }
}

/// Relies on sea-query's `UpdateStatement` builder and
/// `SqlxBinder::build_sqlx`: renders an UPDATE of `set_cols` on `table`
/// with the single condition `where_col = $n`, binding the new values in
/// order and the condition value last.
#[verifier::external_body]
pub(crate) fn build_update(
    table: &'static str,
    set_cols: &Vec<&'static str>,
    set_vals: Vec<DbValue>,
    where_col: &'static str,
    where_val: DbValue,
) -> (r: (String, sea_query_binder::SqlxValues))
    requires
        set_cols@.len() == set_vals@.len(),

    ensures
        r.0@ == update_sql(table@, names_of(set_cols@), where_col@),
        binds_of(r.1) == views_of(set_vals@).push(where_val@),
{
    let pairs: Vec<(&'static str, sea_query::SimpleExpr)> = set_cols.iter().copied().zip(
        set_vals.into_iter().map(|v| sea_query::SimpleExpr::from(raw_value(v))),
    ).collect();
    let mut q = sea_query::Query::update();
    q.table(table).values(pairs);
    q.and_where(sea_query::Expr::col(where_col).eq(raw_value(where_val)));
    q.build_sqlx(sea_query::PostgresQueryBuilder)
}

/// Relies on sea-query's `DeleteStatement` builder and
/// `SqlxBinder::build_sqlx`: renders a DELETE on `table` with the single
/// condition `where_col = $1`, binding the condition value.
#[verifier::external_body]
pub(crate) fn build_delete(table: &'static str, where_col: &'static str, where_val: DbValue) -> (r:
    (String, sea_query_binder::SqlxValues))
    ensures
        r.0@ == delete_sql(table@, where_col@),
        binds_of(r.1) == seq![where_val@],
{
    let mut q = sea_query::Query::delete();
    q.from_table(table);
    q.and_where(sea_query::Expr::col(where_col).eq(raw_value(where_val)));
    q.build_sqlx(sea_query::PostgresQueryBuilder)
}

/// Relies on sea-query's `TableCreateStatement` builder: renders a CREATE
/// TABLE IF NOT EXISTS for `table` with the given columns, every optional
/// column defaulting to null, and the optional cascading foreign key.
#[verifier::external_body]
pub(crate) fn build_create_table(
    table: &'static str,
    cols: &Vec<ColumnSpec>,
    fk: Option<FkSpec>,
) -> (r: String)
    ensures
        r@ == create_table_sql(table@, views_of(cols@), opt_fk_view(fk)),
{
    let mut t = sea_query::Table::create();
    t.table(table).if_not_exists();
    for c in cols.iter() {
        t.col(column_def(c));
    }
    if let Some(f) = fk {
        let mut clause = sea_query::ForeignKey::create();
        clause.name(f.name).from(table, f.from_col).to(f.to_table, f.to_col);
        clause.on_delete(sea_query::ForeignKeyAction::Cascade);
        clause.on_update(sea_query::ForeignKeyAction::Cascade);
        t.foreign_key(&mut clause);
    }
    t.build(sea_query::PostgresQueryBuilder)
}

/// Relies on sea-query's `ColumnDef`: carries one column description as
/// its storage type together with its constraints, an optional column
/// defaulting to null.
#[verifier::external_body]
fn column_def(c: &ColumnSpec) -> sea_query::ColumnDef {
    let mut d = sea_query::ColumnDef::new(c.name);
    match c.kind {
        ColKind::Identifier => d.uuid(),
        ColKind::Text => d.string(),
        ColKind::Whole => d.integer(),
    };
    if c.required { d.not_null(); } else { d.default(sea_query::Value::String(None)); }
    if c.primary {
        d.primary_key();
    }
    d
}

/// The view of an optional foreign-key clause.
pub open spec fn opt_fk_view(fk: Option<FkSpec>) -> Option<FkSpecV> {
    match fk {
        Some(f) => Some(f@),
        None => None,
    }
}

/// Relies on sea-query's `Value`: carries one adapter value into the
/// builder — an identifier as a uuid, required and nullable text alike as
/// a possibly-null string, a small integer as itself.
#[verifier::external_body]
fn raw_value(v: DbValue) -> sea_query::Value {
    match v {
        DbValue::Id(u) => sea_query::Value::Uuid(Some(Box::new(uuid::Uuid::from_u128(u)))),
        DbValue::Text(s) => sea_query::Value::String(Some(Box::new(s))),
        DbValue::MaybeText(o) => sea_query::Value::String(o.map(Box::new)),
        DbValue::Small(i) => sea_query::Value::SmallInt(Some(i)),
    }
}

} // verus!
