use sensor_temps::measurements::{
    PlotSample, SensorTempMeasurement, SensorTempMeasurements, TempCelsius,
};

fn reading(mantissa: i64, scale: u32, time: i64) -> SensorTempMeasurement {
    SensorTempMeasurement { temp_celsius: TempCelsius { mantissa, scale }, measure_time: time }
}

#[test]
fn sort_is_descending_and_keeps_entries() {
    let mut ms = SensorTempMeasurements {
        temp_measurements: vec![
            reading(10, 0, 5),
            reading(20, 0, 1),
            reading(30, 0, 9),
            reading(40, 0, 5),
            reading(10, 0, 5),
        ],
    };
    let mut expected_entries = ms.temp_measurements.clone();
    ms.sort_descending();
    let v = &ms.temp_measurements;
    for w in v.windows(2) {
        assert!(w[0].measure_time >= w[1].measure_time);
    }
    // Same entries, none dropped or duplicated.
    let mut got = v.clone();
    got.sort_by_key(|m| (m.measure_time, m.temp_celsius.mantissa));
    expected_entries.sort_by_key(|m| (m.measure_time, m.temp_celsius.mantissa));
    assert_eq!(got, expected_entries);
}

#[test]
fn three_increasing_timestamps_come_out_reversed() {
    let t1 = reading(1, 0, 100);
    let t2 = reading(2, 0, 200);
    let t3 = reading(3, 0, 300);
    let mut ms = SensorTempMeasurements { temp_measurements: vec![t1, t2, t3] };
    ms.sort_descending();
    assert_eq!(ms.temp_measurements, vec![t3, t2, t1]);
}

#[test]
fn empty_readings_project_to_empty_views() {
    let mut ms = SensorTempMeasurements { temp_measurements: Vec::new() };
    ms.sort_descending();
    assert!(ms.temp_measurements.is_empty());
    assert!(ms.plot_points().is_empty());
    assert!(ms.display_rows().is_empty());
}

#[test]
fn plot_points_keep_order_time_and_temperature() {
    let ms = SensorTempMeasurements {
        temp_measurements: vec![reading(215, 1, 1704067200), reading(-25, 2, -3)],
    };
    let pts = ms.plot_points();
    assert_eq!(
        pts,
        vec![
            PlotSample {
                seconds_since_epoch: 1704067200,
                temp_celsius: TempCelsius { mantissa: 215, scale: 1 },
            },
            PlotSample {
                seconds_since_epoch: -3,
                temp_celsius: TempCelsius { mantissa: -25, scale: 2 },
            },
        ]
    );
}

#[test]
fn temperature_text_places_the_point() {
    assert_eq!(TempCelsius { mantissa: 215, scale: 1 }.text(), "21.5");
    assert_eq!(TempCelsius { mantissa: 7, scale: 0 }.text(), "7");
    assert_eq!(TempCelsius { mantissa: -12, scale: 0 }.text(), "-12");
    assert_eq!(TempCelsius { mantissa: 5, scale: 3 }.text(), "0.005");
    assert_eq!(TempCelsius { mantissa: -25, scale: 2 }.text(), "-0.25");
    assert_eq!(TempCelsius { mantissa: 0, scale: 0 }.text(), "0");
    assert_eq!(TempCelsius { mantissa: 1234, scale: 4 }.text(), "0.1234");
    assert_eq!(TempCelsius { mantissa: 1234, scale: 2 }.text(), "12.34");
}

#[test]
fn display_rows_render_each_reading() {
    let ms = SensorTempMeasurements {
        temp_measurements: vec![reading(215, 1, 1704067200), reading(-5, 1, -7)],
    };
    let rows = ms.display_rows();
    assert_eq!(
        rows,
        vec![
            "temp: 21.5 C | time: 1704067200".to_string(),
            "temp: -0.5 C | time: -7".to_string(),
        ]
    );
}
