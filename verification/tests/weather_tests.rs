use clients::weather::Station;
use clients::weather::StationsResponse;

#[test]
fn station_shapes_hold_plain_values() {
    let station = Station {
        id: "GHCND:USC00042319".to_string(),
        mindate: "1906-01-01".to_string(),
        maxdate: "2016-09-30".to_string(),
    };
    let response = StationsResponse { results: vec![station.clone()] };
    assert_eq!(response.results.len(), 1);
    assert_eq!(response.results[0], station);
}
