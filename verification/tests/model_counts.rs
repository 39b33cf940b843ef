use vtab_bench::model::{count_join_rows, count_stop_rows, count_trip_rows, StopTimeRow, TripRow};

fn st(trip_id: &str, stop_id: &str, stop_sequence: u64) -> StopTimeRow {
    StopTimeRow {
        trip_id: trip_id.to_owned(),
        stop_id: stop_id.to_owned(),
        stop_sequence,
    }
}

fn tr(trip_id: &str, direction_id: u64, route_id: &str) -> TripRow {
    TripRow {
        trip_id: trip_id.to_owned(),
        direction_id,
        route_id: route_id.to_owned(),
    }
}

fn fixture_stop_times() -> Vec<StopTimeRow> {
    vec![
        st("T1", "A", 1),
        st("T1", "B", 2),
        st("T2", "A", 1),
        st("T2", "C", 2),
        st("T3", "B", 1),
    ]
}

fn fixture_trips() -> Vec<TripRow> {
    vec![tr("T1", 0, "R1"), tr("T2", 1, "R1"), tr("T3", 0, "R2")]
}

#[test]
fn single_relation_count_for_scenario() {
    let rows = fixture_stop_times();
    assert_eq!(count_stop_rows(&rows, &"A".to_owned()), 2);
    assert_eq!(count_stop_rows(&rows, &"B".to_owned()), 2);
    assert_eq!(count_stop_rows(&rows, &"C".to_owned()), 1);
    assert_eq!(count_stop_rows(&rows, &"Z".to_owned()), 0);
}

#[test]
fn single_relation_count_empty_relation() {
    let rows: Vec<StopTimeRow> = Vec::new();
    assert_eq!(count_stop_rows(&rows, &"A".to_owned()), 0);
}

#[test]
fn trip_count_for_scenario() {
    let trips = fixture_trips();
    assert_eq!(count_trip_rows(&trips, &"T1".to_owned()), 1);
    assert_eq!(count_trip_rows(&trips, &"T9".to_owned()), 0);
}

#[test]
fn join_count_for_scenario() {
    let rows = fixture_stop_times();
    let trips = fixture_trips();
    assert_eq!(count_join_rows(&rows, &trips, &"A".to_owned()), 2);
    assert_eq!(count_join_rows(&rows, &trips, &"B".to_owned()), 2);
    assert_eq!(count_join_rows(&rows, &trips, &"C".to_owned()), 1);
    assert_eq!(count_join_rows(&rows, &trips, &"Z".to_owned()), 0);
}

#[test]
fn join_excludes_stop_times_without_matching_trip() {
    let mut rows = fixture_stop_times();
    rows.push(st("T9", "A", 1));
    let trips = fixture_trips();
    // the extra stop-time has no trip partner, so the count is unchanged
    assert_eq!(count_join_rows(&rows, &trips, &"A".to_owned()), 2);
}

#[test]
fn join_multiplies_duplicate_trip_matches() {
    let rows = fixture_stop_times();
    let mut trips = fixture_trips();
    trips.push(tr("T1", 0, "R1"));
    // the stop-time (T1, A) now pairs with two T1 trip rows
    assert_eq!(count_join_rows(&rows, &trips, &"A".to_owned()), 3);
}

#[test]
fn join_against_empty_trips_is_empty() {
    let rows = fixture_stop_times();
    let trips: Vec<TripRow> = Vec::new();
    assert_eq!(count_join_rows(&rows, &trips, &"A".to_owned()), 0);
}

#[test]
fn counts_agree_under_reordering() {
    // the same contents in another order: the counts the lemmas speak of
    let rows = fixture_stop_times();
    let mut reordered = fixture_stop_times();
    reordered.reverse();
    let trips = fixture_trips();
    let mut trips_reordered = fixture_trips();
    trips_reordered.reverse();
    assert_eq!(
        count_stop_rows(&rows, &"A".to_owned()),
        count_stop_rows(&reordered, &"A".to_owned())
    );
    assert_eq!(
        count_join_rows(&rows, &trips, &"B".to_owned()),
        count_join_rows(&reordered, &trips_reordered, &"B".to_owned())
    );
}
