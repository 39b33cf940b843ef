use vtab_bench::session::{engine_name, suffix_str, Strategy};
use vtab_bench::sql::{
    count_all_sql, count_where_sql, create_join_view_sql, create_table_as_sql,
    create_virtual_table_sql, sql_quote,
};

#[test]
fn quote_plain_literal() {
    assert_eq!(sql_quote("893"), "'893'");
}

#[test]
fn quote_empty_literal() {
    assert_eq!(sql_quote(""), "''");
}

#[test]
fn quote_doubles_embedded_quotes() {
    assert_eq!(sql_quote("O'Hare"), "'O''Hare'");
    assert_eq!(sql_quote("''"), "''''''");
}

#[test]
fn virtual_table_statement_text() {
    assert_eq!(
        create_virtual_table_sql("StopTimesV", "stop_times.txt"),
        "CREATE VIRTUAL TABLE StopTimesV USING csv(filename='stop_times.txt', header=YES)"
    );
}

#[test]
fn materialize_statement_text() {
    assert_eq!(
        create_table_as_sql("StopTimesM", "StopTimesV"),
        "CREATE TABLE StopTimesM AS SELECT * FROM StopTimesV;"
    );
}

#[test]
fn join_view_statement_text() {
    assert_eq!(
        create_join_view_sql("TripSeqsV", "StopTimesV", "TripsV"),
        "CREATE VIEW TripSeqsV AS\nSELECT StopTimesV.stop_id, StopTimesV.stop_sequence, TripsV.direction_id, TripsV.route_id\nFROM StopTimesV\nINNER JOIN TripsV on StopTimesV.trip_id = TripsV.trip_id;"
    );
}

#[test]
fn count_query_text() {
    assert_eq!(
        count_where_sql("StopTimesV", "893"),
        "SELECT count(*) FROM StopTimesV WHERE stop_id IS '893';"
    );
}

#[test]
fn count_query_text_quotes_literal() {
    assert_eq!(
        count_where_sql("TripSeqsM", "a'b"),
        "SELECT count(*) FROM TripSeqsM WHERE stop_id IS 'a''b';"
    );
}

#[test]
fn count_all_query_text() {
    assert_eq!(count_all_sql("TripsV"), "SELECT count(*) FROM TripsV;");
}

#[test]
fn strategy_suffixes() {
    assert_eq!(suffix_str(Strategy::Streaming), "V");
    assert_eq!(suffix_str(Strategy::Materialized), "M");
}

#[test]
fn strategy_qualified_names() {
    assert_eq!(engine_name("StopTimes", Strategy::Streaming), "StopTimesV");
    assert_eq!(engine_name("Trips", Strategy::Materialized), "TripsM");
}
