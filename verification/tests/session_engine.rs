use vtab_bench::session::{LoadError, QueryError, Session, Strategy};

fn fixture_connection() -> rusqlite::Connection {
    let conn = rusqlite::Connection::open_in_memory().expect("open in-memory database");
    conn.execute_batch(
        "CREATE TABLE StopTimesV(trip_id TEXT, stop_id TEXT, stop_sequence INTEGER);
         INSERT INTO StopTimesV VALUES ('T1','A',1);
         INSERT INTO StopTimesV VALUES ('T1','B',2);
         INSERT INTO StopTimesV VALUES ('T2','A',1);
         INSERT INTO StopTimesV VALUES ('T2','C',2);
         INSERT INTO StopTimesV VALUES ('T3','B',1);
         CREATE TABLE TripsV(trip_id TEXT, direction_id TEXT, route_id TEXT);
         INSERT INTO TripsV VALUES ('T1','0','R1');
         INSERT INTO TripsV VALUES ('T2','1','R1');
         INSERT INTO TripsV VALUES ('T3','0','R2');",
    )
    .expect("create fixture tables");
    conn
}

fn fixture_session() -> Session {
    Session::from_connection(fixture_connection())
}

#[test]
fn open_session() {
    assert!(Session::open().is_ok());
}

#[test]
fn scenario_counts_through_engine() {
    let mut session = fixture_session();
    let sql = session
        .define_join_view("TripSeqs", "StopTimes", "Trips", Strategy::Streaming)
        .expect("define join view");
    assert_eq!(
        sql,
        "CREATE VIEW TripSeqsV AS\nSELECT StopTimesV.stop_id, StopTimesV.stop_sequence, TripsV.direction_id, TripsV.route_id\nFROM StopTimesV\nINNER JOIN TripsV on StopTimesV.trip_id = TripsV.trip_id;"
    );
    let single = session.run_count("StopTimesV", "A").expect("single count");
    assert_eq!(single.count, 2);
    assert_eq!(
        single.sql,
        "SELECT count(*) FROM StopTimesV WHERE stop_id IS 'A';"
    );
    let join_a = session.run_count("TripSeqsV", "A").expect("join count A");
    assert_eq!(join_a.count, 2);
    let join_b = session.run_count("TripSeqsV", "B").expect("join count B");
    assert_eq!(join_b.count, 2);
}

#[test]
fn name_conflict_is_refused_not_overwritten() {
    let mut session = fixture_session();
    session
        .define_join_view("TripSeqs", "StopTimes", "Trips", Strategy::Streaming)
        .expect("first registration");
    let before = session.run_count("TripSeqsV", "A").expect("query view").count;
    match session.define_join_view("TripSeqs", "StopTimes", "Trips", Strategy::Streaming) {
        Err(LoadError::NameConflict(name)) => assert_eq!(name, "TripSeqsV"),
        _ => panic!("second registration under a used name must be a naming conflict"),
    }
    // the earlier registration still answers as before
    let after = session.run_count("TripSeqsV", "A").expect("query view").count;
    assert_eq!(before, after);
}

#[test]
fn materialized_counts_equal_streaming_counts() {
    let mut session = fixture_session();
    session
        .define_join_view("TripSeqs", "StopTimes", "Trips", Strategy::Streaming)
        .expect("streaming join view");
    let report = session
        .materialize_pair("StopTimes", "Trips", "TripSeqs")
        .expect("strategy switch");
    assert_eq!(
        report.first.sql,
        "CREATE TABLE StopTimesM AS SELECT * FROM StopTimesV;"
    );
    assert_eq!(
        report.second.sql,
        "CREATE TABLE TripsM AS SELECT * FROM TripsV;"
    );
    for literal in ["A", "B", "C", "Z"] {
        let v = session.run_count("StopTimesV", literal).expect("streaming count");
        let m = session.run_count("StopTimesM", literal).expect("materialized count");
        assert_eq!(v.count, m.count);
        let jv = session.run_count("TripSeqsV", literal).expect("streaming join");
        let jm = session.run_count("TripSeqsM", literal).expect("materialized join");
        assert_eq!(jv.count, jm.count);
    }
}

#[test]
fn materialization_preserves_total_row_count() {
    let mut session = fixture_session();
    let outcome = session.materialize("StopTimes").expect("materialize");
    assert_eq!(outcome.sql, "CREATE TABLE StopTimesM AS SELECT * FROM StopTimesV;");
    let streaming = session.run_count_all("StopTimesV").expect("streaming total");
    let materialized = session.run_count_all("StopTimesM").expect("materialized total");
    assert_eq!(streaming.count, 5);
    assert_eq!(materialized.count, streaming.count);
}

#[test]
fn materialize_conflicts_on_second_switch() {
    let mut session = fixture_session();
    session.materialize("StopTimes").expect("first switch");
    match session.materialize("StopTimes") {
        Err(LoadError::NameConflict(name)) => assert_eq!(name, "StopTimesM"),
        _ => panic!("second materialization under the same name must conflict"),
    }
}

#[test]
fn register_streaming_missing_file_is_engine_error() {
    let mut session = Session::open().expect("open session");
    match session.register_streaming("StopTimes", "no_such_fixture_file.txt") {
        Err(LoadError::Engine(_)) => {}
        _ => panic!("a missing backing file must surface as an engine failure"),
    }
}

#[test]
fn load_streaming_pair_missing_files_fails() {
    let mut session = Session::open().expect("open session");
    let r = session.load_streaming_pair(
        "StopTimes",
        "no_such_stop_times.txt",
        "Trips",
        "no_such_trips.txt",
        "TripSeqs",
    );
    assert!(matches!(r, Err(LoadError::Engine(_))));
}

#[test]
fn query_against_unknown_relation_is_engine_error() {
    let session = fixture_session();
    assert!(matches!(
        session.run_count("NoSuchRelation", "A"),
        Err(QueryError::Engine(_))
    ));
}

#[test]
fn count_query_with_no_result_row_is_reported() {
    let session = fixture_session();
    // a relation expression that yields no group at all, so the count
    // query produces zero rows instead of the one row it owes
    let r = session.run_count_all("StopTimesV WHERE 0 GROUP BY trip_id");
    assert!(matches!(r, Err(QueryError::NoRow)));
}

#[test]
fn run_probes_reports_one_outcome_per_literal() {
    let mut session = fixture_session();
    session
        .define_join_view("TripSeqs", "StopTimes", "Trips", Strategy::Streaming)
        .expect("join view");
    let probes = vec!["A".to_owned(), "B".to_owned(), "Z".to_owned()];
    let outcomes = session.run_probes("TripSeqsV", &probes).expect("probes");
    assert_eq!(outcomes.len(), 3);
    assert_eq!(outcomes[0].count, 2);
    assert_eq!(outcomes[1].count, 2);
    assert_eq!(outcomes[2].count, 0);
    assert_eq!(
        outcomes[2].sql,
        "SELECT count(*) FROM TripSeqsV WHERE stop_id IS 'Z';"
    );
}

#[test]
fn load_pair_conflicts_on_used_source_name() {
    let mut session = fixture_session();
    // take the name "ProbeV" first, through another registration
    session
        .define_join_view("Probe", "StopTimes", "Trips", Strategy::Streaming)
        .expect("first registration");
    // the loading pass must refuse the used left source name with the
    // naming-conflict cause, before anything is issued to the engine
    match session.load_streaming_pair("Probe", "a.txt", "Other", "b.txt", "View") {
        Err(LoadError::NameConflict(name)) => assert_eq!(name, "ProbeV"),
        _ => panic!("re-using a registered source name must be a naming conflict"),
    }
}

#[test]
fn switch_conflicts_on_rerun_with_conflict_cause() {
    let mut session = fixture_session();
    session
        .materialize_pair("StopTimes", "Trips", "TripSeqs")
        .expect("first strategy switch");
    let before = session.run_count_all("StopTimesM").expect("query copy").count;
    match session.materialize_pair("StopTimes", "Trips", "TripSeqs") {
        Err(LoadError::NameConflict(name)) => assert_eq!(name, "StopTimesM"),
        _ => panic!("re-running the strategy switch must be a naming conflict"),
    }
    // the earlier copy is not silently overwritten
    let after = session.run_count_all("StopTimesM").expect("query copy").count;
    assert_eq!(before, after);
}
