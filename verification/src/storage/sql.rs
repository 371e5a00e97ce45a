//! The calls into SQLite. Nothing is proved of what SQLite does with a
//! statement: the functions here hand statements over and bring rows back.

use vstd::prelude::*;

verus! {

/// A connection to a database, of rusqlite.
#[verifier::external_type_specification]
#[verifier::external_body]
pub struct ExConnection(rusqlite::Connection);

/// The error of rusqlite.
#[verifier::external_type_specification]
#[verifier::external_body]
pub struct ExSqlError(rusqlite::Error);

/// A value bound to a placeholder of a statement.
#[derive(Debug)]
pub enum Param {
    Null,
    Integer(i64),
    Text(String),
}

/// What a parameter holds, as plain values.
pub enum ParamView {
    Null,
    Integer(int),
    Text(Seq<char>),
}

impl View for Param {
    type V = ParamView;

    open spec fn view(&self) -> ParamView {
        match self {
            Param::Null => ParamView::Null,
            Param::Integer(i) => ParamView::Integer(*i as int),
            Param::Text(s) => ParamView::Text(s@),
        }
    }
}

/// The views of a sequence of parameters.
pub open spec fn param_views(v: Seq<Param>) -> Seq<ParamView> {
    v.map_values(|p: Param| p@)
}

/// A value in a row that a query brought back. A floating-point number is
/// told apart from the rest and not read.
#[derive(Debug)]
pub enum Cell {
    Null,
    Integer(i64),
    Real,
    Text(String),
    Blob(Vec<u8>),
}

/// What a cell holds, as plain values.
pub enum CellView {
    Null,
    Integer(int),
    Real,
    Text(Seq<char>),
    Blob(Seq<u8>),
}

impl View for Cell {
    type V = CellView;

    open spec fn view(&self) -> CellView {
        match self {
            Cell::Null => CellView::Null,
            Cell::Integer(i) => CellView::Integer(*i as int),
            Cell::Real => CellView::Real,
            Cell::Text(s) => CellView::Text(s@),
            Cell::Blob(b) => CellView::Blob(b@),
        }
    }
}

/// The views of the cells of a row.
pub open spec fn cell_views(row: Seq<Cell>) -> Seq<CellView> {
    row.map_values(|c: Cell| c@)
}

/// A statement with the values for its placeholders.
#[derive(Debug)]
pub struct Statement {
    pub sql: String,
    pub params: Vec<Param>,
}

/// What a statement holds, as plain values.
pub struct StatementView {
    pub sql: Seq<char>,
    pub params: Seq<ParamView>,
}

impl View for Statement {
    type V = StatementView;

    open spec fn view(&self) -> StatementView {
        StatementView { sql: self.sql@, params: param_views(self.params@) }
    }
}

/// The views of rows.
pub open spec fn row_views(rows: Seq<Vec<Cell>>) -> Seq<Seq<CellView>> {
    rows.map_values(|r: Vec<Cell>| cell_views(r@))
}

/// The views of a sequence of statements.
pub open spec fn statement_views(v: Seq<Statement>) -> Seq<StatementView> {
    v.map_values(|s: Statement| s@)
}

/// Calls `Connection::open` of rusqlite, which opens the database file at
/// `path` and creates it where there is none. Nothing is claimed of the
/// result.
#[verifier::external_body]
pub(crate) fn open_file(path: &str) -> Result<rusqlite::Connection, rusqlite::Error> {
    rusqlite::Connection::open(path)
}

/// Calls `Connection::open_in_memory` of rusqlite. Nothing is claimed of the
/// result.
#[verifier::external_body]
pub(crate) fn open_memory() -> Result<rusqlite::Connection, rusqlite::Error> {
    rusqlite::Connection::open_in_memory()
}

/// Calls `Connection::pragma_update` of rusqlite on the main database.
/// Nothing is claimed of the result.
#[verifier::external_body]
pub(crate) fn set_pragma(
    conn: &rusqlite::Connection,
    name: &str,
    value: &rusqlite::types::Value,
) -> Result<(), rusqlite::Error> {
    conn.pragma_update(None, name, value)
}

/// Calls `Connection::busy_timeout` of rusqlite with `millis` milliseconds.
/// rusqlite panics on a time that does not fit 32 bits with a sign, so such a
/// time is not accepted. Nothing is claimed of the result.
#[verifier::external_body]
pub(crate) fn set_busy_timeout(conn: &rusqlite::Connection, millis: u64) -> Result<
    (),
    rusqlite::Error,
>
    requires
        millis <= 0x7fff_ffff,
{
    conn.busy_timeout(std::time::Duration::from_millis(millis))
}

/// Calls `Connection::execute_batch` of rusqlite, which runs the statements
/// of `sql` one after the other. Nothing is claimed of the result.
#[verifier::external_body]
pub(crate) fn run_batch(conn: &rusqlite::Connection, sql: &str) -> Result<(), rusqlite::Error> {
    conn.execute_batch(sql)
}

/// A value of SQLite, of rusqlite.
#[verifier::external_type_specification]
#[verifier::external_body]
pub struct ExSqlValue(rusqlite::types::Value);

/// Makes the value of rusqlite that stands for `param`: the variant of the
/// same name, with the same number or text.
#[verifier::external_body]
pub(crate) fn outside_value(param: &Param) -> rusqlite::types::Value {
    match param {
        Param::Null => rusqlite::types::Value::Null,
        Param::Integer(i) => rusqlite::types::Value::Integer(*i),
        Param::Text(s) => rusqlite::types::Value::Text(s.clone()),
    }
}

/// A value in a row, of rusqlite, borrowed from the row.
#[verifier::external_type_specification]
#[verifier::external_body]
pub struct ExSqlValueRef<'a>(rusqlite::types::ValueRef<'a>);

/// Tells the variants of a value of rusqlite apart, and copies what it holds,
/// but for a floating-point number. A text that is not UTF-8 gives the error
/// of rusqlite for it.
#[verifier::external_body]
pub(crate) fn cell_of(value: rusqlite::types::ValueRef<'_>) -> Result<Cell, rusqlite::Error> {
    match value {
        rusqlite::types::ValueRef::Null => Ok(Cell::Null),
        rusqlite::types::ValueRef::Integer(i) => Ok(Cell::Integer(i)),
        rusqlite::types::ValueRef::Real(_) => Ok(Cell::Real),
        rusqlite::types::ValueRef::Text(t) => Ok(Cell::Text(std::str::from_utf8(t)?.to_string())),
        rusqlite::types::ValueRef::Blob(b) => Ok(Cell::Blob(b.to_vec())),
    }
}

/// Calls `Connection::execute` of rusqlite with the statement `sql` and the
/// values `values` for its placeholders, in their order. Nothing is claimed
/// of the result, which on success is the number of rows changed.
#[verifier::external_body]
pub(crate) fn run(
    conn: &rusqlite::Connection,
    sql: &str,
    values: &Vec<rusqlite::types::Value>,
) -> Result<usize, rusqlite::Error> {
    conn.execute(sql, rusqlite::params_from_iter(values.iter()))
}

/// Calls `Connection::prepare` and `Statement::query` of rusqlite with the
/// query `sql` and the values `values` for its placeholders, and reads the
/// first `columns` columns of every row with `Row::get_ref`. Trusted: on
/// success every row has `columns` cells. Nothing is claimed of what they
/// hold.
#[verifier::external_body]
pub(crate) fn fetch(
    conn: &rusqlite::Connection,
    sql: &str,
    values: &Vec<rusqlite::types::Value>,
    columns: usize,
) -> (out: Result<Vec<Vec<Cell>>, rusqlite::Error>)
    ensures
        out matches Ok(rows) ==> forall|i: int|
            0 <= i < rows.len() ==> (#[trigger] rows[i]).len() == columns,
{
    let mut stmt = conn.prepare(sql)?;
    let mut rows = stmt.query(rusqlite::params_from_iter(values.iter()))?;
    let mut out = Vec::new();
    while let Some(row) = rows.next()? {
        out.push((0..columns).map(|i| row.get_ref(i).and_then(cell_of)).collect::<Result<_, _>>()?);
    }
    Ok(out)
}

/// The values of rusqlite for `params`, one for each, in their order.
fn bind(params: &Vec<Param>) -> (values: Vec<rusqlite::types::Value>)
    ensures
        values.len() == params.len(),
{
    let mut values: Vec<rusqlite::types::Value> = Vec::new();
    let mut i: usize = 0;
    while i < params.len()
        invariant
            i <= params.len(),
            values.len() == i,
        decreases params.len() - i,
    {
        values.push(outside_value(&params[i]));
        i += 1;
    }
    values
}

/// Sets the setting `name` of the connection to `value`.
pub(crate) fn pragma(conn: &rusqlite::Connection, name: &str, value: &Param) -> Result<
    (),
    rusqlite::Error,
> {
    let outside = outside_value(value);
    set_pragma(conn, name, &outside)
}

/// Runs `statement`. On success the result is the number of rows that SQLite
/// reports as changed.
pub(crate) fn execute(conn: &rusqlite::Connection, statement: &Statement) -> Result<
    usize,
    rusqlite::Error,
> {
    let values = bind(&statement.params);
    run(conn, statement.sql.as_str(), &values)
}

/// Runs the query `statement` and reads `columns` columns of every row that
/// it brings.
pub(crate) fn query(conn: &rusqlite::Connection, statement: &Statement, columns: usize) -> (out:
    Result<Vec<Vec<Cell>>, rusqlite::Error>)
    ensures
        out matches Ok(rows) ==> forall|i: int|
            0 <= i < rows.len() ==> (#[trigger] rows[i]).len() == columns,
{
    let values = bind(&statement.params);
    fetch(conn, statement.sql.as_str(), &values, columns)
}

/// The text of an error of rusqlite, for display. Nothing is claimed of it.
#[verifier::external_body]
pub(crate) fn error_text(error: &rusqlite::Error) -> String {
    error.to_string()
}

} // verus!
