use sensor_temps::fetch::{
    apply_fetch_message, message_for_response, DateTimeParseErrors, FetchBridge,
    SensorDataSearchForm,
};
use sensor_temps::measurements::{SensorTempMeasurement, SensorTempMeasurements, TempCelsius};
use sensor_temps::urls::{sensor_latest_url, sensor_range_url};

fn form(sensor_ref: &str, start: &str, end: &str) -> SensorDataSearchForm {
    let mut f = SensorDataSearchForm::new();
    f.sensor_ref = sensor_ref.to_string();
    f.start_datetime_str = start.to_string();
    f.end_datetime_str = end.to_string();
    f
}

fn reading(mantissa: i64, time: i64) -> SensorTempMeasurement {
    SensorTempMeasurement {
        temp_celsius: TempCelsius { mantissa, scale: 0 },
        measure_time: time,
    }
}

#[test]
fn latest_url_for_plain_sensor_reference() {
    assert_eq!(
        sensor_latest_url("bme280_1"),
        "http://localhost:8080/sensor/temperature/bme280_1"
    );
}

#[test]
fn range_url_renders_epochs_in_decimal() {
    assert_eq!(
        sensor_range_url("s1", 1704067200, 1704153600),
        "http://localhost:8080/sensor/temperature/range/s1/1704067200/1704153600"
    );
    assert_eq!(
        sensor_range_url("s1", -5, 0),
        "http://localhost:8080/sensor/temperature/range/s1/-5/0"
    );
}

#[test]
fn submit_reads_times_as_utc_epoch_seconds() {
    let mut bridge = FetchBridge::new();
    let url = bridge
        .submit(&form("s1", "1970-01-01 00:00:00", "1970-01-01 00:00:01"))
        .unwrap();
    assert_eq!(url, "http://localhost:8080/sensor/temperature/range/s1/0/1");
}

#[test]
fn submit_without_time_range_uses_latest_endpoint() {
    let mut bridge = FetchBridge::new();
    let url = bridge.submit(&form("bme280_1", "", "")).unwrap();
    assert_eq!(url, "http://localhost:8080/sensor/temperature/bme280_1");
    assert!(bridge.waiting_for_data);
}

#[test]
fn submit_with_valid_range_uses_range_endpoint() {
    let mut bridge = FetchBridge::new();
    let url = bridge
        .submit(&form("bme280_1", "2024-01-01 00:00:00", "2024-01-02 00:00:00"))
        .unwrap();
    assert_eq!(
        url,
        "http://localhost:8080/sensor/temperature/range/bme280_1/1704067200/1704153600"
    );
    assert!(bridge.waiting_for_data);
}

#[test]
fn submit_with_invalid_date_starts_no_fetch() {
    let mut bridge = FetchBridge::new();
    let err = bridge
        .submit(&form("s1", "not-a-date", "2024-01-02 00:00:00"))
        .unwrap_err();
    assert_eq!(err, DateTimeParseErrors { start_invalid: true, end_invalid: false });
    assert!(!bridge.waiting_for_data);

    let err = bridge
        .submit(&form("s1", "2024-01-01 00:00:00", "2024-13-99 00:00:00"))
        .unwrap_err();
    assert_eq!(err, DateTimeParseErrors { start_invalid: false, end_invalid: true });
    assert!(!bridge.waiting_for_data);

    // Both fields are validated even though the first already failed.
    let err = bridge.submit(&form("s1", "nope", "also bad")).unwrap_err();
    assert_eq!(err, DateTimeParseErrors { start_invalid: true, end_invalid: true });
    assert!(!bridge.waiting_for_data);
    assert!(bridge.poll().is_none());

    // One empty field is not "no range": it is a parse failure.
    let err = bridge.submit(&form("s1", "", "2024-01-02 00:00:00")).unwrap_err();
    assert_eq!(err, DateTimeParseErrors { start_invalid: true, end_invalid: false });
    assert!(!bridge.waiting_for_data);
}

#[test]
fn poll_without_result_keeps_waiting_and_never_blocks() {
    let mut bridge = FetchBridge::new();
    assert!(bridge.poll().is_none());

    bridge.submit(&form("s1", "", "")).unwrap();
    assert!(bridge.waiting_for_data);
    assert!(bridge.poll().is_none());
    assert!(bridge.waiting_for_data);
    assert!(bridge.poll().is_none());
    assert!(bridge.waiting_for_data);
}

#[test]
fn delivered_readings_are_stored_sorted() {
    let mut bridge = FetchBridge::new();
    let mut sensor_temps: Option<SensorTempMeasurements> = None;
    bridge.submit(&form("s1", "", "")).unwrap();

    let sender = bridge.result_sender();
    sender
        .send(Some(SensorTempMeasurements {
            temp_measurements: vec![reading(1, 100), reading(3, 300), reading(2, 200)],
        }))
        .unwrap();

    assert!(bridge.poll_and_store(&mut sensor_temps));
    assert!(!bridge.waiting_for_data);
    let stored = sensor_temps.unwrap();
    assert_eq!(
        stored.temp_measurements,
        vec![reading(3, 300), reading(2, 200), reading(1, 100)]
    );
}

#[test]
fn failed_fetch_clears_readings() {
    let mut bridge = FetchBridge::new();
    let mut sensor_temps = Some(SensorTempMeasurements {
        temp_measurements: vec![reading(1, 100)],
    });
    bridge.submit(&form("s1", "", "")).unwrap();
    bridge.result_sender().send(None).unwrap();
    assert!(bridge.poll_and_store(&mut sensor_temps));
    assert!(sensor_temps.is_none());
    assert!(!bridge.waiting_for_data);
}

#[test]
fn response_status_decides_the_message() {
    let body = SensorTempMeasurements { temp_measurements: vec![reading(1, 100)] };
    let msg = message_for_response(200, Some(body.clone()));
    assert_eq!(msg.unwrap().temp_measurements, body.temp_measurements);
    assert!(message_for_response(200, None).is_none());
    assert!(message_for_response(404, Some(body.clone())).is_none());
    assert!(message_for_response(500, None).is_none());
}

#[test]
fn apply_fetch_message_replaces_wholesale() {
    let mut current = Some(SensorTempMeasurements {
        temp_measurements: vec![reading(9, 900)],
    });
    apply_fetch_message(
        &mut current,
        Some(SensorTempMeasurements {
            temp_measurements: vec![reading(1, 100), reading(2, 200)],
        }),
    );
    assert_eq!(
        current.as_ref().unwrap().temp_measurements,
        vec![reading(2, 200), reading(1, 100)]
    );
    apply_fetch_message(&mut current, None);
    assert!(current.is_none());
}
