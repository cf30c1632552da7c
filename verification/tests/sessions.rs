use cassandra_session::future::{ExecError, Outcome, QueryError};
use cassandra_session::result::QueryResult;
use cassandra_session::session::{
    pick_ready, ConnectError, ConnectEvent, Connection, ConnectionState, Session,
};
use cassandra_session::statement::Statement;
use cassandra_session::value::Value;

const INSERT_QUERY: &str = "INSERT INTO examples.log (key, time, entry) VALUES (?, ?, ?);";
const SELECT_QUERY: &str = "SELECT * FROM examples.log WHERE key = ?";

fn ready(address: &str) -> Connection {
    Connection::connect(address, 1000, 10, ConnectEvent::Established).expect("established in time")
}

fn closed(address: &str) -> Connection {
    let mut c = ready(address);
    c.close();
    c
}

fn three_ready() -> Session {
    Session::new(vec![ready("10.0.0.1"), ready("10.0.0.2"), ready("10.0.0.3")])
}

fn failed_with(e: ExecError) -> Outcome {
    Outcome::Failed(QueryError::Exec(e))
}

#[test]
fn connecting_reports_each_failure() {
    assert_eq!(
        Connection::connect("a", 1000, 1001, ConnectEvent::Established).err(),
        Some(ConnectError::Timeout)
    );
    assert_eq!(
        Connection::connect("a", 1000, 2000, ConnectEvent::Refused).err(),
        Some(ConnectError::Timeout)
    );
    assert_eq!(
        Connection::connect("a", 1000, 5, ConnectEvent::Refused).err(),
        Some(ConnectError::Refused)
    );
    assert_eq!(
        Connection::connect("a", 1000, 5, ConnectEvent::ProtocolMismatch).err(),
        Some(ConnectError::ProtocolMismatch)
    );
    assert_eq!(Connection::connect("a", 0, 0, ConnectEvent::Refused).err(), Some(ConnectError::Refused));
}

#[test]
fn a_connection_made_within_the_limit_is_ready_until_closed() {
    let mut c = Connection::connect("10.0.0.1", 1000, 1000, ConnectEvent::Established).unwrap();
    assert!(c.is_ready());
    assert_eq!(c.current_state(), ConnectionState::Ready);
    c.close();
    assert!(!c.is_ready());
    assert_eq!(c.current_state(), ConnectionState::Closed);
    let again = Connection::connect("10.0.0.1", 1000, 3, ConnectEvent::Established).unwrap();
    assert!(again.is_ready());
}

#[test]
fn the_choice_goes_round_the_ready_connections() {
    let pool = vec![ready("a"), closed("b"), ready("c"), closed("d")];
    assert_eq!(pick_ready(&pool, 0), Some(0));
    assert_eq!(pick_ready(&pool, 1), Some(2));
    assert_eq!(pick_ready(&pool, 2), Some(2));
    assert_eq!(pick_ready(&pool, 3), Some(0));
    assert_eq!(pick_ready(&pool, 4), Some(0));
    assert_eq!(pick_ready(&pool, 40), Some(0));
    let none = vec![closed("a"), closed("b")];
    assert_eq!(pick_ready(&none, 0), None);
    assert_eq!(pick_ready(&none, 1), None);
    assert_eq!(pick_ready(&Vec::new(), 0), None);
}

#[test]
fn requests_get_rising_ids_and_take_turns() {
    let mut session = three_ready();
    let stmt = Statement::new(SELECT_QUERY);
    let mut seen: Vec<(u64, usize)> = Vec::new();
    for _ in 0..7 {
        let s = session.execute(&stmt);
        assert!(!s.future.is_resolved());
        let d = s.dispatch.expect("a ready connection takes the request");
        seen.push((d.request_id, d.connection));
    }
    assert_eq!(seen, vec![(0, 0), (1, 1), (2, 2), (3, 0), (4, 1), (5, 2), (6, 0)]);
    assert_eq!(session.pending_count(), 7);
    assert!(!session.is_closed());
}

#[test]
fn an_answer_is_taken_once() {
    let mut session = three_ready();
    let stmt = Statement::new(SELECT_QUERY);
    let first = session.execute(&stmt).dispatch.unwrap();
    let second = session.execute(&stmt).dispatch.unwrap();
    assert_eq!(session.complete(second.request_id), Some(second.connection));
    assert_eq!(session.complete(second.request_id), None);
    assert_eq!(session.complete(99), None);
    assert_eq!(session.pending_count(), 1);
    assert_eq!(session.complete(first.request_id), Some(first.connection));
    assert_eq!(session.pending_count(), 0);
    assert_eq!(session.complete(first.request_id), None);
}

#[test]
fn a_session_whose_connections_are_all_closed_answers_session_closed() {
    let mut session = Session::new(vec![closed("10.0.0.1"), closed("10.0.0.2")]);
    assert!(session.is_closed());
    let s = session.execute(&Statement::new(SELECT_QUERY));
    assert!(s.dispatch.is_none());
    assert!(s.future.is_resolved());
    assert_eq!(s.future.poll(), Some(&failed_with(ExecError::SessionClosed)));
    assert_eq!(session.pending_count(), 0);
}

#[test]
fn without_a_ready_connection_none_is_available() {
    let mut session = three_ready();
    assert!(session.mark_failed(0));
    assert!(session.mark_failed(1));
    assert!(session.mark_failed(2));
    assert!(!session.mark_failed(3));
    assert!(!session.is_closed());
    let s = session.execute(&Statement::new(SELECT_QUERY));
    assert!(s.dispatch.is_none());
    assert_eq!(s.future.poll(), Some(&failed_with(ExecError::NoConnectionAvailable)));
    let mut empty = Session::new(Vec::new());
    let s = empty.execute(&Statement::new(SELECT_QUERY));
    assert_eq!(s.future.poll(), Some(&failed_with(ExecError::NoConnectionAvailable)));
    let mut mixed = Session::new(vec![closed("a"), ready("b")]);
    assert!(mixed.mark_failed(1));
    let s = mixed.execute(&Statement::new(SELECT_QUERY));
    assert_eq!(s.future.poll(), Some(&failed_with(ExecError::NoConnectionAvailable)));
}

#[test]
fn a_failed_connection_is_passed_over() {
    let mut session = three_ready();
    assert!(session.mark_failed(1));
    assert_eq!(session.connection_state(0), Some(ConnectionState::Ready));
    assert_eq!(session.connection_state(1), Some(ConnectionState::Failed));
    assert_eq!(session.connection_state(3), None);
    let stmt = Statement::new(SELECT_QUERY);
    let picks: Vec<usize> = (0..4).map(|_| session.execute(&stmt).dispatch.unwrap().connection).collect();
    assert_eq!(picks, vec![0, 2, 0, 2]);
}

#[test]
fn marking_a_closed_connection_leaves_it_closed() {
    let mut session = Session::new(vec![closed("a"), ready("b")]);
    assert!(session.mark_failed(0));
    assert_eq!(session.connection_state(0), Some(ConnectionState::Closed));
    assert_eq!(session.connection_state(1), Some(ConnectionState::Ready));
}

#[test]
fn shutting_down_fails_what_is_in_flight_and_closes_every_connection() {
    let mut session = three_ready();
    let stmt = Statement::new(SELECT_QUERY);
    let mut futures = Vec::new();
    for _ in 0..4 {
        futures.push(session.execute(&stmt));
    }
    assert_eq!(session.complete(1), Some(1));
    let failed = session.shutdown();
    let ids: Vec<u64> = failed.iter().map(|s| s.request_id).collect();
    assert_eq!(ids, vec![0, 2, 3]);
    for s in failed.iter() {
        assert_eq!(s.outcome, failed_with(ExecError::SessionClosed));
    }
    assert_eq!(session.pending_count(), 0);
    assert_eq!(session.connection_count(), 3);
    for i in 0..3 {
        assert_eq!(session.connection_state(i), Some(ConnectionState::Closed));
    }
    assert!(session.is_closed());
    for settlement in failed {
        let s = futures
            .iter_mut()
            .find(|s| s.dispatch.as_ref().unwrap().request_id == settlement.request_id)
            .expect("the request was submitted");
        s.future.resolve(settlement.outcome);
        assert_eq!(s.future.poll(), Some(&failed_with(ExecError::SessionClosed)));
    }
    assert!(!futures[1].future.is_resolved());
    let late = session.execute(&stmt);
    assert!(late.dispatch.is_none());
    assert_eq!(late.future.poll(), Some(&failed_with(ExecError::SessionClosed)));
    assert!(session.shutdown().is_empty());
    let mut empty = Session::new(Vec::new());
    assert!(empty.shutdown().is_empty());
    assert_eq!(
        empty.execute(&stmt).future.poll(),
        Some(&failed_with(ExecError::SessionClosed))
    );
}

#[test]
fn what_is_sent_is_the_statement_as_it_was_at_submission() {
    let mut session = three_ready();
    let mut stmt = Statement::new(SELECT_QUERY);
    assert_eq!(stmt.bind(0, Value::Text(String::from("test 0"))), Ok(()));
    let d = session.execute(&stmt).dispatch.unwrap();
    assert_eq!(stmt.bind(0, Value::Text(String::from("test 1"))), Ok(()));
    assert_eq!(d.statement.query_text().as_str(), SELECT_QUERY);
    assert_eq!(d.statement.slot(0).unwrap().value, Some(Value::Text(String::from("test 0"))));
    assert_eq!(stmt.slot(0).unwrap().value, Some(Value::Text(String::from("test 1"))));
}

fn text_of(stmt: &Statement, index: usize) -> String {
    stmt.slot(index).unwrap().value.as_ref().unwrap().get_text().unwrap().clone()
}

#[test]
fn interleaved_callers_see_only_their_own_rows() {
    let mut session = three_ready();
    let mut store: Vec<(String, u128, String)> = Vec::new();
    let mut clock: u128 = 0;
    for j in 0..5 {
        for i in 0..5 {
            let key = format!("test {}", i);
            let entry = format!("Log entry {}", j);
            clock += 1;
            let mut statement = Statement::new(INSERT_QUERY);
            assert_eq!(statement.bind(0, Value::Text(key)), Ok(()));
            assert_eq!(statement.bind(1, Value::Uuid(clock)), Ok(()));
            assert_eq!(statement.bind(2, Value::Text(entry)), Ok(()));
            assert!(statement.is_fully_bound());
            let mut submission = session.execute(&statement);
            let d = submission.dispatch.expect("Insert Ok");
            let time = d.statement.slot(1).unwrap().value.as_ref().unwrap().get_uuid().unwrap();
            store.push((text_of(&d.statement, 0), time, text_of(&d.statement, 2)));
            assert_eq!(session.complete(d.request_id), Some(d.connection));
            let empty = QueryResult::new(Vec::new(), Vec::new()).unwrap();
            submission.future.resolve(Outcome::Completed(empty));
            assert!(submission.future.is_resolved());
        }
    }
    for i in 0..5 {
        let key = format!("test {}", i);
        let mut statement = Statement::new(SELECT_QUERY);
        assert_eq!(statement.bind(0, Value::Text(key.clone())), Ok(()));
        let mut submission = session.execute(&statement);
        let d = submission.dispatch.unwrap();
        let wanted = text_of(&d.statement, 0);
        let rows: Vec<Vec<Value>> = store
            .iter()
            .filter(|r| r.0 == wanted)
            .map(|r| vec![Value::Text(r.0.clone()), Value::Uuid(r.1), Value::Text(r.2.clone())])
            .collect();
        let columns = vec![String::from("key"), String::from("time"), String::from("entry")];
        assert_eq!(session.complete(d.request_id), Some(d.connection));
        submission.future.resolve(Outcome::Completed(QueryResult::new(columns, rows).unwrap()));
        let result = match submission.future.poll() {
            Some(Outcome::Completed(r)) => r,
            _ => panic!("the select was answered"),
        };
        let mut results: Vec<(u128, String)> = Vec::new();
        let mut it = result.iter();
        while let Some(row) = it.next() {
            assert_eq!(row.get_by_name("key"), Ok(&Value::Text(key.clone())));
            let t = row.get(1).expect("time0").get_uuid().expect("time");
            let e = row.get_text(2).expect("entry").clone();
            results.push((t, e));
        }
        let mut uniques: Vec<u128> = results.iter().map(|kv| kv.0).collect();
        uniques.dedup();
        assert_eq!(5, uniques.len());
        let entries: Vec<String> = results.iter().map(|kv| kv.1.clone()).collect();
        let expected: Vec<String> = (0..5).map(|j| format!("Log entry {}", j)).collect();
        assert_eq!(entries, expected);
    }
    assert_eq!(session.pending_count(), 0);
}

#[test]
fn an_answer_becomes_the_outcome_of_its_request() {
    let mut session = three_ready();
    let stmt = Statement::new(SELECT_QUERY);
    let first = session.execute(&stmt).dispatch.unwrap().request_id;
    let second = session.execute(&stmt).dispatch.unwrap().request_id;
    let rows = QueryResult::new(vec![String::from("n")], vec![vec![Value::Int(4)]]).unwrap();
    let same = QueryResult::new(vec![String::from("n")], vec![vec![Value::Int(4)]]).unwrap();
    assert_eq!(session.on_answer(second, Ok(rows)), Some(Outcome::Completed(same)));
    assert_eq!(session.on_answer(first, Err(0x2200)), Some(failed_with(ExecError::RemoteFailure(0x2200))));
    assert_eq!(session.on_answer(first, Err(1)), None);
    assert_eq!(session.on_answer(77, Err(1)), None);
    assert_eq!(session.pending_count(), 0);
}

#[test]
fn a_connecting_connection_takes_requests_once_it_is_established() {
    let mut session = Session::new(vec![Connection::connecting("a"), Connection::connecting("b")]);
    let stmt = Statement::new(SELECT_QUERY);
    assert_eq!(session.connection_state(0), Some(ConnectionState::Connecting));
    assert_eq!(
        session.execute(&stmt).future.poll(),
        Some(&failed_with(ExecError::NoConnectionAvailable))
    );
    assert_eq!(session.connection_settled(0, 100, 101, ConnectEvent::Established), Some(ConnectError::Timeout));
    assert_eq!(session.connection_state(0), Some(ConnectionState::Failed));
    assert_eq!(session.connection_settled(0, 100, 1, ConnectEvent::Established), None);
    assert_eq!(session.connection_state(0), Some(ConnectionState::Failed));
    assert_eq!(session.connection_settled(1, 100, 100, ConnectEvent::Established), None);
    assert_eq!(session.connection_state(1), Some(ConnectionState::Ready));
    assert_eq!(session.connection_settled(2, 100, 1, ConnectEvent::Refused), None);
    assert_eq!(session.execute(&stmt).dispatch.unwrap().connection, 1);
    assert_eq!(session.execute(&stmt).dispatch.unwrap().connection, 1);
}

#[test]
fn settling_ends_only_an_attempt_that_is_under_way() {
    let mut c = Connection::connecting("10.0.0.9");
    assert!(!c.is_ready());
    assert_eq!(c.current_state(), ConnectionState::Connecting);
    assert_eq!(c.settle(50, 10, ConnectEvent::Refused), Some(ConnectError::Refused));
    assert_eq!(c.current_state(), ConnectionState::Failed);
    assert_eq!(c.settle(50, 10, ConnectEvent::Established), None);
    assert_eq!(c.current_state(), ConnectionState::Failed);
    let mut d = Connection::connecting("10.0.0.9");
    assert_eq!(d.settle(50, 10, ConnectEvent::ProtocolMismatch), Some(ConnectError::ProtocolMismatch));
    let mut e = Connection::connecting("10.0.0.9");
    assert_eq!(e.settle(50, 50, ConnectEvent::Established), None);
    assert!(e.is_ready());
    assert_eq!(e.settle(50, 90, ConnectEvent::Refused), None);
    assert!(e.is_ready());
    e.close();
    assert_eq!(e.settle(50, 1, ConnectEvent::Established), None);
    assert_eq!(e.current_state(), ConnectionState::Closed);
}

#[test]
fn closing_every_connection_closes_the_session() {
    let mut session = three_ready();
    let stmt = Statement::new(SELECT_QUERY);
    assert!(session.close_connection(0));
    assert!(session.close_connection(2));
    assert!(!session.close_connection(3));
    assert!(!session.is_closed());
    assert_eq!(session.execute(&stmt).dispatch.unwrap().connection, 1);
    assert!(session.close_connection(1));
    assert!(session.is_closed());
    let s = session.execute(&stmt);
    assert!(s.dispatch.is_none());
    assert_eq!(s.future.poll(), Some(&failed_with(ExecError::SessionClosed)));
    assert_eq!(session.pending_count(), 1);
}
