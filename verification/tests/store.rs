use netpod_sqlite::engine::exec_result;
use netpod_sqlite::engine::Action;
use netpod_sqlite::engine::EngineEvent;
use netpod_sqlite::engine::QueryRun;
use netpod_sqlite::values::SqlValue;
use rusqlite::types::Value;
use rusqlite::Connection;

fn from_store(value: Value) -> SqlValue {
    match value {
        Value::Null => SqlValue::Null,
        Value::Integer(i) => SqlValue::Integer(i),
        Value::Real(f) => SqlValue::Real(serde_json::Value::from(f).to_string()),
        Value::Text(text) => SqlValue::Text(text),
        Value::Blob(bytes) => SqlValue::Blob(bytes),
    }
}

fn query(conn: &Connection, sql: &str) -> Result<Vec<u8>, String> {
    let mut statement = conn.prepare(sql).map_err(|e| e.to_string())?;
    let mut rows = statement.query([]).map_err(|e| e.to_string())?;
    let (mut run, mut action) = QueryRun::start();
    loop {
        match action {
            Action::Deliver(text) => return Ok(text),
            Action::Abort(why) => return Err(why),
            Action::ReadColumn(_) => panic!("no row at hand"),
            Action::NextRow => {}
        }
        match rows.next() {
            Ok(None) => {
                let (next, then) = run.step(EngineEvent::NoMoreRows);
                run = next;
                action = then;
            }
            Err(e) => {
                let (next, then) = run.step(EngineEvent::Failed(e.to_string()));
                run = next;
                action = then;
            }
            Ok(Some(row)) => {
                let (next, then) = run.step(EngineEvent::Row);
                run = next;
                action = then;
                while let Action::ReadColumn(index) = action {
                    let event = match row.get::<usize, Value>(index) {
                        Ok(value) => EngineEvent::Value(from_store(value)),
                        Err(rusqlite::Error::InvalidColumnIndex(_)) => EngineEvent::NoSuchColumn,
                        Err(e) => EngineEvent::Failed(e.to_string()),
                    };
                    let (next, then) = run.step(event);
                    run = next;
                    action = then;
                }
            }
        }
    }
}

fn exec(conn: &Connection, sql: &str) -> Result<Vec<u8>, String> {
    let mut statement = conn.prepare(sql).map_err(|e| e.to_string())?;
    let changed = statement.execute(()).map_err(|e| e.to_string())?;
    Ok(exec_result(changed))
}

fn store_with_table() -> Connection {
    let conn = Connection::open_in_memory().unwrap();
    assert_eq!(exec(&conn, "create table t (n integer, s text, r real, b blob)"), Ok(b"0".to_vec()));
    conn
}

#[test]
fn inserting_three_rows_returns_three() {
    let conn = store_with_table();
    let result = exec(&conn, "insert into t (n, s) values (1, 'a'), (2, 'b'), (3, 'c')");
    assert_eq!(result, Ok(b"3".to_vec()));
}

#[test]
fn update_and_delete_return_the_rows_changed() {
    let conn = store_with_table();
    exec(&conn, "insert into t (n, s) values (1, 'a'), (2, 'b'), (3, 'c')").unwrap();
    assert_eq!(exec(&conn, "update t set s = 'z' where n >= 2"), Ok(b"2".to_vec()));
    assert_eq!(exec(&conn, "delete from t where n = 1"), Ok(b"1".to_vec()));
    assert_eq!(exec(&conn, "delete from t where n = 100"), Ok(b"0".to_vec()));
}

#[test]
fn query_result_has_one_array_per_row_and_one_value_per_column() {
    let conn = store_with_table();
    exec(&conn, "insert into t (n, s) values (1, 'a'), (2, 'b'), (3, 'c')").unwrap();
    let text = query(&conn, "select n, s from t order by n").unwrap();
    assert_eq!(text, b"[[1,\"a\"],[2,\"b\"],[3,\"c\"]]".to_vec());
    let read: serde_json::Value = serde_json::from_slice(&text).unwrap();
    let rows = read.as_array().unwrap();
    assert_eq!(rows.len(), 3);
    for row in rows {
        assert_eq!(row.as_array().unwrap().len(), 2);
    }
}

#[test]
fn query_result_of_the_round_trip_value() {
    let conn = store_with_table();
    exec(&conn, "insert into t (n, s) values (1, 'a')").unwrap();
    assert_eq!(query(&conn, "select n, s from t"), Ok(b"[[1,\"a\"]]".to_vec()));
}

#[test]
fn query_without_rows_is_an_empty_array() {
    let conn = store_with_table();
    assert_eq!(query(&conn, "select * from t"), Ok(b"[]".to_vec()));
}

#[test]
fn query_maps_every_kind_of_value() {
    let conn = store_with_table();
    exec(&conn, "insert into t (n, s, r, b) values (-5, 'it''s', 1.5, x'00ff')").unwrap();
    exec(&conn, "insert into t (n, s, r, b) values (null, null, 2.0, null)").unwrap();
    let text = query(&conn, "select n, s, r, b from t order by rowid").unwrap();
    assert_eq!(
        String::from_utf8(text).unwrap(),
        "[[-5,\"it's\",1.5,null],[null,null,2.0,null]]"
    );
}

#[test]
fn query_with_bad_sql_fails_with_the_stores_words() {
    let conn = store_with_table();
    let failure = query(&conn, "select * from missing").unwrap_err();
    assert!(failure.contains("no such table"));
    let failure = exec(&conn, "insert into").unwrap_err();
    assert!(failure.contains("syntax error") || failure.contains("incomplete input"));
}
