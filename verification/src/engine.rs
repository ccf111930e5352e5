//! Running a statement: what to ask of the store, and what to make of its
//! answers.
//!
//! The store itself is out of reach from here. Whoever drives it performs
//! one action at a time and reports what came of it; the decisions are
//! taken here.

use crate::json::parse_string_array;
use crate::json::parse_view;
use crate::json::parsed_string_array;
use crate::json::render_count;
use crate::json::render_rows;
use crate::json::rows_text;
use crate::json::texts_view;
use crate::text::concat_text;
use crate::text::decimal;
use crate::values::json_of;
use crate::values::row_view;
use crate::values::rows_view;
use crate::values::sql_to_json;
use crate::values::JsonValue;
use crate::values::JsonView;
use crate::values::SqlValue;
use crate::values::SqlView;
use vstd::prelude::*;

verus! {

/// Where the store is, as resolved once when the process starts.
#[derive(Debug, PartialEq, Eq)]
pub enum DbConfig {
    /// The store is at this path.
    Resolved(String),
    /// The location could not be resolved; the text says why.
    Unresolved(String),
}

/// What [`DbConfig`] holds, in contracts.
pub enum DbConfigView {
    Resolved(Seq<char>),
    Unresolved(Seq<char>),
}

impl View for DbConfig {
    type V = DbConfigView;

    open spec fn view(&self) -> DbConfigView {
        match self {
            DbConfig::Resolved(path) => DbConfigView::Resolved(path@),
            DbConfig::Unresolved(why) => DbConfigView::Unresolved(why@),
        }
    }
}

/// The complaint about a location that could not be looked up.
pub open spec fn unresolved_text(why: Seq<char>) -> Seq<char> {
    "SQLITE_DB "@ + why
}

/// What a lookup of the location gives, in contracts.
pub open spec fn lookup_view(looked_up: Result<String, String>) -> DbConfigView {
    match looked_up {
        Ok(path) => DbConfigView::Resolved(path@),
        Err(why) => DbConfigView::Unresolved(unresolved_text(why@)),
    }
}

impl DbConfig {
    /// The name of the environment variable that holds the location.
    pub fn variable() -> (name: &'static str)
        ensures
            name@ == "SQLITE_DB"@,
    {
        "SQLITE_DB"
    }

    /// The configuration that a lookup of the variable leads to: the path
    /// found, or why none was.
    pub fn from_lookup(looked_up: Result<String, String>) -> (config: DbConfig)
        ensures
            config@ == lookup_view(looked_up),
    {
        match looked_up {
            Ok(path) => DbConfig::Resolved(path),
            Err(why) => DbConfig::Unresolved(concat_text("SQLITE_DB ", why.as_str())),
        }
    }
}

/// The two things that can be run.
#[derive(Debug, Clone, Copy, PartialEq, Eq, Structural)]
pub enum Capability {
    /// A statement that reads: the result is its rows.
    Query,
    /// A statement that writes: the result is the number of rows changed.
    Exec,
}

/// Why no statement was handed to the store.
#[derive(Debug, PartialEq, Eq)]
pub enum ExecError {
    /// The location of the store is not resolved.
    Configuration(String),
    /// The arguments are no JSON array of strings.
    Arguments(String),
    /// The array of arguments is empty.
    NoStatement(Capability),
}

/// What [`ExecError`] holds, in contracts.
pub enum ExecErrorView {
    Configuration(Seq<char>),
    Arguments(Seq<char>),
    NoStatement(Capability),
}

impl View for ExecError {
    type V = ExecErrorView;

    open spec fn view(&self) -> ExecErrorView {
        match self {
            ExecError::Configuration(why) => ExecErrorView::Configuration(why@),
            ExecError::Arguments(why) => ExecErrorView::Arguments(why@),
            ExecError::NoStatement(capability) => ExecErrorView::NoStatement(*capability),
        }
    }
}

/// What an [`ExecError`] says.
pub open spec fn exec_error_text(e: ExecErrorView) -> Seq<char> {
    match e {
        ExecErrorView::Configuration(why) => why,
        ExecErrorView::Arguments(why) => why,
        ExecErrorView::NoStatement(Capability::Query) => "no query arg given"@,
        ExecErrorView::NoStatement(Capability::Exec) => "no sql arg given"@,
    }
}

impl ExecError {
    /// What this error says.
    pub fn message(self) -> (text: String)
        ensures
            text@ == exec_error_text(self@),
    {
        match self {
            ExecError::Configuration(why) => why,
            ExecError::Arguments(why) => why,
            ExecError::NoStatement(Capability::Query) => String::from_str("no query arg given"),
            ExecError::NoStatement(Capability::Exec) => String::from_str("no sql arg given"),
        }
    }
}

/// A statement and the store to run it on.
#[derive(Debug, PartialEq, Eq)]
pub struct Statement {
    pub database: String,
    pub sql: String,
}

/// What [`Statement`] holds, in contracts.
pub struct StatementView {
    pub database: Seq<char>,
    pub sql: Seq<char>,
}

impl View for Statement {
    type V = StatementView;

    open spec fn view(&self) -> StatementView {
        StatementView { database: self.database@, sql: self.sql@ }
    }
}

/// The statement that parsed arguments ask for, or why there is none: the
/// arguments must be a JSON array of strings, and the first of them is the
/// SQL text.
pub open spec fn chosen(
    database: Seq<char>,
    capability: Capability,
    parsed: Result<Seq<Seq<char>>, Seq<char>>,
) -> Result<StatementView, ExecErrorView> {
    match parsed {
        Err(why) => Err(ExecErrorView::Arguments(why)),
        Ok(texts) => if texts.len() == 0 {
            Err(ExecErrorView::NoStatement(capability))
        } else {
            Ok(StatementView { database, sql: texts[0] })
        },
    }
}

/// The statement that `args` ask for, or why there is none. An unresolved
/// location fails every call, whatever the arguments.
pub open spec fn prepared(config: DbConfigView, capability: Capability, args: Seq<char>) -> Result<
    StatementView,
    ExecErrorView,
> {
    match config {
        DbConfigView::Unresolved(why) => Err(ExecErrorView::Configuration(why)),
        DbConfigView::Resolved(database) => chosen(
            database,
            capability,
            parsed_string_array(args),
        ),
    }
}

/// What [`prepare`] gives, in contracts.
pub open spec fn prepare_view(r: Result<Statement, ExecError>) -> Result<
    StatementView,
    ExecErrorView,
> {
    match r {
        Ok(statement) => Ok(statement@),
        Err(e) => Err(e@),
    }
}

/// Picks the statement out of the parsed arguments of an invocation.
pub fn choose_statement(
    database: &str,
    capability: Capability,
    parsed: Result<Vec<String>, String>,
) -> (r: Result<Statement, ExecError>)
    ensures
        prepare_view(r) == chosen(database@, capability, parse_view(parsed)),
{
    match parsed {
        Err(why) => Err(ExecError::Arguments(why)),
        Ok(texts) => {
            if texts.len() == 0 {
                Err(ExecError::NoStatement(capability))
            } else {
                let sql = texts[0].clone();
                assert(texts_view(texts)[0] == texts@[0]@);
                Ok(Statement { database: String::from_str(database), sql })
            }
        },
    }
}

/// Works out the statement to run from the configuration and the arguments
/// of an invocation.
pub fn prepare(config: &DbConfig, capability: Capability, args: &str) -> (r: Result<
    Statement,
    ExecError,
>)
    ensures
        prepare_view(r) == prepared(config@, capability, args@),
{
    match config {
        DbConfig::Unresolved(why) => Err(ExecError::Configuration(why.clone())),
        DbConfig::Resolved(database) => choose_statement(
            database.as_str(),
            capability,
            parse_string_array(args),
        ),
    }
}

/// Where a query stands.
#[derive(Debug, Clone, Copy, PartialEq, Eq, Structural)]
pub enum Phase {
    /// Between two rows: the next row has been asked for.
    BetweenRows,
    /// Inside a row: the next column has been asked for.
    InRow,
    /// Over: the result was delivered or the run aborted.
    Finished,
}

/// A query under way: the rows gathered and the row being read.
#[derive(Debug, PartialEq, Eq)]
pub struct QueryRun {
    pub rows: Vec<Vec<JsonValue>>,
    pub current: Vec<JsonValue>,
    pub phase: Phase,
}

/// What [`QueryRun`] holds, in contracts.
pub struct RunView {
    pub rows: Seq<Seq<JsonView>>,
    pub current: Seq<JsonView>,
    pub phase: Phase,
}

impl View for QueryRun {
    type V = RunView;

    open spec fn view(&self) -> RunView {
        RunView { rows: rows_view(self.rows@), current: row_view(self.current), phase: self.phase }
    }
}

/// What the store answered.
#[derive(Debug, PartialEq, Eq)]
pub enum EngineEvent {
    /// There is a next row.
    Row,
    /// There are no more rows.
    NoMoreRows,
    /// The column asked for holds this value.
    Value(SqlValue),
    /// The column asked for is out of range: the row has no such column.
    NoSuchColumn,
    /// The store failed; the text says how.
    Failed(String),
}

/// What [`EngineEvent`] holds, in contracts.
pub enum EventView {
    Row,
    NoMoreRows,
    Value(SqlView),
    NoSuchColumn,
    Failed(Seq<char>),
}

impl View for EngineEvent {
    type V = EventView;

    open spec fn view(&self) -> EventView {
        match self {
            EngineEvent::Row => EventView::Row,
            EngineEvent::NoMoreRows => EventView::NoMoreRows,
            EngineEvent::Value(value) => EventView::Value(value@),
            EngineEvent::NoSuchColumn => EventView::NoSuchColumn,
            EngineEvent::Failed(why) => EventView::Failed(why@),
        }
    }
}

/// What to do next.
#[derive(Debug, PartialEq, Eq)]
pub enum Action {
    /// Ask the store for the next row.
    NextRow,
    /// Ask the store for the column with this index of the row at hand.
    ReadColumn(usize),
    /// The query is done: this is its result, as JSON text.
    Deliver(Vec<u8>),
    /// The query has failed: this says how.
    Abort(String),
}

/// What [`Action`] holds, in contracts.
pub enum ActionView {
    NextRow,
    ReadColumn(int),
    Deliver(Seq<u8>),
    Abort(Seq<char>),
}

impl View for Action {
    type V = ActionView;

    open spec fn view(&self) -> ActionView {
        match self {
            Action::NextRow => ActionView::NextRow,
            Action::ReadColumn(index) => ActionView::ReadColumn(*index as int),
            Action::Deliver(text) => ActionView::Deliver(text@),
            Action::Abort(why) => ActionView::Abort(why@),
        }
    }
}

/// A query before its first row.
pub open spec fn started() -> RunView {
    RunView { rows: Seq::empty(), current: Seq::empty(), phase: Phase::BetweenRows }
}

/// The complaint about an answer to a question that was not asked.
pub open spec fn out_of_order() -> Seq<char> {
    "engine event out of order"@
}

/// The run as it aborts.
pub open spec fn aborted(run: RunView, why: Seq<char>) -> (RunView, ActionView) {
    (RunView { phase: Phase::Finished, ..run }, ActionView::Abort(why))
}

/// How a query goes on after an answer of the store.
///
/// Each row is probed column by column, from index 0 upwards, until the
/// store reports a column out of range; the row then has as many values as
/// were read. Every row is probed afresh. A failure of the store aborts the
/// run with the store's own words, and so does an answer that does not fit
/// the question.
pub open spec fn react(run: RunView, event: EventView) -> (RunView, ActionView) {
    match run.phase {
        Phase::BetweenRows => match event {
            EventView::Row => (
                RunView { current: Seq::empty(), phase: Phase::InRow, ..run },
                ActionView::ReadColumn(0),
            ),
            EventView::NoMoreRows => (
                RunView { phase: Phase::Finished, ..run },
                ActionView::Deliver(rows_text(run.rows)),
            ),
            EventView::Failed(why) => aborted(run, why),
            _ => aborted(run, out_of_order()),
        },
        Phase::InRow => match event {
            EventView::Value(value) => {
                let current = run.current.push(json_of(value));
                (RunView { current, ..run }, ActionView::ReadColumn(current.len() as int))
            },
            EventView::NoSuchColumn => (
                RunView {
                    rows: run.rows.push(run.current),
                    current: Seq::empty(),
                    phase: Phase::BetweenRows,
                },
                ActionView::NextRow,
            ),
            EventView::Failed(why) => aborted(run, why),
            _ => aborted(run, out_of_order()),
        },
        Phase::Finished => aborted(run, out_of_order()),
    }
}

impl QueryRun {
    /// A query before its first row, and the first thing to do: ask for a
    /// row.
    pub fn start() -> (begun: (QueryRun, Action))
        ensures
            begun.0@ == started(),
            begun.1@ == ActionView::NextRow,
    {
        let run = QueryRun { rows: Vec::new(), current: Vec::new(), phase: Phase::BetweenRows };
        assert(run@.rows =~= Seq::<Seq<JsonView>>::empty());
        assert(run@.current =~= Seq::<JsonView>::empty());
        (run, Action::NextRow)
    }

    /// This run as it aborts.
    fn abort(self, why: String) -> (next: (QueryRun, Action))
        ensures
            (next.0@, next.1@) == aborted(self@, why@),
    {
        (
            QueryRun { rows: self.rows, current: self.current, phase: Phase::Finished },
            Action::Abort(why),
        )
    }

    /// Takes the store's answer to the last action and says what to do
    /// next.
    pub fn step(self, event: EngineEvent) -> (next: (QueryRun, Action))
        ensures
            (next.0@, next.1@) == react(self@, event@),
    {
        match self.phase {
            Phase::BetweenRows => match event {
                EngineEvent::Row => {
                    let run = QueryRun {
                        rows: self.rows,
                        current: Vec::new(),
                        phase: Phase::InRow,
                    };
                    assert(run@.current =~= Seq::<JsonView>::empty());
                    (run, Action::ReadColumn(0))
                },
                EngineEvent::NoMoreRows => {
                    let text = render_rows(&self.rows);
                    (
                        QueryRun {
                            rows: self.rows,
                            current: self.current,
                            phase: Phase::Finished,
                        },
                        Action::Deliver(text),
                    )
                },
                EngineEvent::Failed(why) => self.abort(why),
                _ => self.abort(String::from_str("engine event out of order")),
            },
            Phase::InRow => match event {
                EngineEvent::Value(value) => {
                    let ghost before = row_view(self.current);
                    let mut current = self.current;
                    current.push(sql_to_json(value));
                    assert(row_view(current) =~= before.push(json_of(value@)));
                    let index = current.len();
                    (
                        QueryRun { rows: self.rows, current, phase: Phase::InRow },
                        Action::ReadColumn(index),
                    )
                },
                EngineEvent::NoSuchColumn => {
                    let ghost before = rows_view(self.rows@);
                    let mut rows = self.rows;
                    rows.push(self.current);
                    assert(rows_view(rows@) =~= before.push(row_view(self.current)));
                    let run = QueryRun { rows, current: Vec::new(), phase: Phase::BetweenRows };
                    assert(run@.current =~= Seq::<JsonView>::empty());
                    (run, Action::NextRow)
                },
                EngineEvent::Failed(why) => self.abort(why),
                _ => self.abort(String::from_str("engine event out of order")),
            },
            Phase::Finished => self.abort(String::from_str("engine event out of order")),
        }
    }
}

/// The values of a row as the result holds them.
pub open spec fn json_row(row: Seq<SqlView>) -> Seq<JsonView> {
    row.map_values(|v: SqlView| json_of(v))
}

/// The rows of a store as the result holds them.
pub open spec fn json_rows(rows: Seq<Seq<SqlView>>) -> Seq<Seq<JsonView>> {
    rows.map_values(|row: Seq<SqlView>| json_row(row))
}

/// The answers of the store while a row is probed: its values, one by one.
pub open spec fn value_events(row: Seq<SqlView>) -> Seq<EventView> {
    row.map_values(|v: SqlView| EventView::Value(v))
}

/// The answers of the store for one row: that there is one, its values,
/// and that there is no further column.
pub open spec fn row_events(row: Seq<SqlView>) -> Seq<EventView> {
    seq![EventView::Row] + value_events(row) + seq![EventView::NoSuchColumn]
}

/// The answers of a store that holds `rows` and does not fail, up to the
/// moment when the rows run out.
pub open spec fn store_events(rows: Seq<Seq<SqlView>>) -> Seq<EventView>
    decreases rows.len(),
{
    if rows.len() == 0 {
        Seq::empty()
    } else {
        store_events(rows.drop_last()) + row_events(rows.last())
    }
}

/// The run after a sequence of answers.
pub open spec fn after(run: RunView, events: Seq<EventView>) -> RunView
    decreases events.len(),
{
    if events.len() == 0 {
        run
    } else {
        react(after(run, events.drop_last()), events.last()).0
    }
}

/// After one answer, the run is where that answer takes it.
proof fn after_one(run: RunView, event: EventView)
    ensures
        after(run, seq![event]) == react(run, event).0,
{
    let one = seq![event];
    assert(one.drop_last() =~= Seq::<EventView>::empty());
    assert(after(run, one.drop_last()) == run);
    assert(one.last() == event);
}

/// Answers taken one after another are taken as one sequence.
proof fn after_both(run: RunView, first: Seq<EventView>, second: Seq<EventView>)
    ensures
        after(run, first + second) == after(after(run, first), second),
    decreases second.len(),
{
    if second.len() == 0 {
        assert(first + second =~= first);
    } else {
        assert((first + second).drop_last() =~= first + second.drop_last());
        after_both(run, first, second.drop_last());
    }
}

/// Inside a row, the values that the store hands out are gathered in their
/// order.
proof fn after_values(run: RunView, row: Seq<SqlView>)
    requires
        run.phase == Phase::InRow,
    ensures
        after(run, value_events(row)) == (RunView { current: run.current + json_row(row), ..run }),
    decreases row.len(),
{
    if row.len() == 0 {
        assert(run.current + json_row(row) =~= run.current);
    } else {
        after_values(run, row.drop_last());
        assert(value_events(row).drop_last() =~= value_events(row.drop_last()));
        assert(run.current + json_row(row) =~= (run.current + json_row(row.drop_last())).push(
            json_of(row.last()),
        ));
    }
}

/// Between rows, the answers for one row add that row to the rows gathered.
proof fn after_row(run: RunView, row: Seq<SqlView>)
    requires
        run.phase == Phase::BetweenRows,
    ensures
        after(run, row_events(row)) == (RunView {
            rows: run.rows.push(json_row(row)),
            current: Seq::empty(),
            phase: Phase::BetweenRows,
        }),
{
    let opened = RunView { current: Seq::empty(), phase: Phase::InRow, ..run };
    let read = RunView { current: json_row(row), ..opened };
    let opening = seq![EventView::Row];
    let closing = seq![EventView::NoSuchColumn];
    after_one(run, EventView::Row);
    after_both(run, opening, value_events(row));
    after_values(opened, row);
    assert(opened.current + json_row(row) =~= json_row(row));
    after_both(run, opening + value_events(row), closing);
    after_one(read, EventView::NoSuchColumn);
}

/// A query on a store that does not fail delivers every row, and of every
/// row every column: the result is the array of the rows, in their order,
/// and each row is the array of its values, in their order. So the result
/// has as many elements as the store has rows, and each element as many as
/// its row has columns, whether or not the rows are equally long.
pub proof fn query_delivers_every_row(rows: Seq<Seq<SqlView>>)
    ensures
        after(started(), store_events(rows)) == (RunView {
            rows: json_rows(rows),
            current: Seq::empty(),
            phase: Phase::BetweenRows,
        }),
        react(after(started(), store_events(rows)), EventView::NoMoreRows).1
            == ActionView::Deliver(rows_text(json_rows(rows))),
        json_rows(rows).len() == rows.len(),
        forall|i: int| 0 <= i < rows.len() ==> (#[trigger] json_rows(rows)[i]).len() == rows[i].len(),
    decreases rows.len(),
{
    if rows.len() == 0 {
        assert(json_rows(rows) =~= Seq::<Seq<JsonView>>::empty());
    } else {
        let earlier = rows.drop_last();
        query_delivers_every_row(earlier);
        after_both(started(), store_events(earlier), row_events(rows.last()));
        after_row(after(started(), store_events(earlier)), rows.last());
        assert(json_rows(rows) =~= json_rows(earlier).push(json_row(rows.last())));
    }
}

/// The result of a statement that wrote: the number of rows it changed, as
/// a JSON number.
pub fn exec_result(rows_changed: usize) -> (text: Vec<u8>)
    ensures
        text@ == decimal(rows_changed as nat),
{
    render_count(rows_changed as u64)
}

} // verus!
