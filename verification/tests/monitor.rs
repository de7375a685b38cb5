use envmon::state::Sensor;
use envmon::state::State;
use envmon::state::Task;
use envmon::state::Variant;

#[test]
fn new_state_is_measuring_with_defaults() {
    let s = State::new();
    assert!(s.is_measuring());
    assert_eq!(s.task, Task::Measuring);
    assert_eq!(s.temp, 0);
    assert_eq!(s.light, 0);
    assert_eq!(s.humidity, 0);
    assert_eq!(s.temp_cfg.min, 1500);
    assert_eq!(s.temp_cfg.max, 4000);
    assert_eq!(s.light_cfg.min, 0);
    assert_eq!(s.light_cfg.max, 70);
    assert_eq!(s.humidity_cfg.min, 0);
    assert_eq!(s.humidity_cfg.max, 70);
}

#[test]
fn sensor_next_cycles() {
    assert_eq!(Sensor::Temperature.next(), Sensor::Light);
    assert_eq!(Sensor::Light.next(), Sensor::Humidity);
    assert_eq!(Sensor::Humidity.next(), Sensor::Temperature);
}

#[test]
fn switch_alternates_between_modes() {
    let mut s = State::new();
    assert!(s.is_measuring());
    s.switch();
    assert!(!s.is_measuring());
    assert_eq!(s.task, Task::Configuring(Sensor::Temperature, Variant::Min));
    s.switch();
    assert!(s.is_measuring());
    assert_eq!(s.task, Task::Measuring);
}

#[test]
fn switch_always_reenters_at_first_stop() {
    let mut s = State::new();
    s.switch();
    s.progress();
    s.progress();
    s.progress();
    assert_eq!(s.task, Task::Configuring(Sensor::Light, Variant::Max));
    s.switch();
    assert_eq!(s.task, Task::Measuring);
    s.switch();
    assert_eq!(s.task, Task::Configuring(Sensor::Temperature, Variant::Min));
}

#[test]
fn progress_tours_all_six_stops_and_wraps() {
    let mut s = State::new();
    s.switch();
    let expected = [
        Task::Configuring(Sensor::Temperature, Variant::Min),
        Task::Configuring(Sensor::Temperature, Variant::Max),
        Task::Configuring(Sensor::Light, Variant::Min),
        Task::Configuring(Sensor::Light, Variant::Max),
        Task::Configuring(Sensor::Humidity, Variant::Min),
        Task::Configuring(Sensor::Humidity, Variant::Max),
    ];
    for stop in expected {
        assert_eq!(s.task, stop);
        s.progress();
    }
    assert_eq!(s.task, Task::Configuring(Sensor::Temperature, Variant::Min));
}

#[test]
fn progress_is_noop_while_measuring() {
    let mut s = State::new();
    s.progress();
    assert_eq!(s.task, Task::Measuring);
    assert!(s.is_measuring());
}

#[test]
fn commit_writes_exactly_the_selected_edge() {
    let mut s = State::new();
    s.switch();
    s.progress();
    s.progress();
    s.progress();
    assert_eq!(s.task, Task::Configuring(Sensor::Light, Variant::Max));
    s.update_config(2048);
    assert_eq!(s.light_cfg.max, 50);
    assert_eq!(s.light_cfg.min, 0);
    assert_eq!(s.temp_cfg.min, 1500);
    assert_eq!(s.temp_cfg.max, 4000);
    assert_eq!(s.humidity_cfg.min, 0);
    assert_eq!(s.humidity_cfg.max, 70);
    assert_eq!(s.temp, 0);
    assert_eq!(s.light, 0);
    assert_eq!(s.humidity, 0);
    assert_eq!(s.task, Task::Configuring(Sensor::Light, Variant::Max));
}

#[test]
fn commit_is_noop_while_measuring() {
    let mut s = State::new();
    s.update_config(4095);
    assert_eq!(s.temp_cfg.min, 1500);
    assert_eq!(s.temp_cfg.max, 4000);
    assert_eq!(s.light_cfg.min, 0);
    assert_eq!(s.light_cfg.max, 70);
    assert_eq!(s.humidity_cfg.min, 0);
    assert_eq!(s.humidity_cfg.max, 70);
}

#[test]
fn commit_scales_temperature_by_one_hundred() {
    let mut s = State::new();
    s.switch();
    assert_eq!(s.task, Task::Configuring(Sensor::Temperature, Variant::Min));
    s.update_config(4095);
    assert_eq!(s.temp_cfg.min, 9997);
    s.update_config(0);
    assert_eq!(s.temp_cfg.min, 0);
    s.update_config(2048);
    assert_eq!(s.temp_cfg.min, 5000);
}

#[test]
fn ingest_normalizes_light_directly_and_humidity_inverted() {
    let mut s = State::new();
    s.update_measurements(2250, 2048, 2048);
    assert_eq!(s.temp, 2250);
    assert_eq!(s.light, 50);
    assert_eq!(s.humidity, 50);
}

#[test]
fn ingest_truncates_to_hundredths() {
    let mut s = State::new();
    s.update_measurements(0, 40, 4095);
    assert_eq!(s.light, 0);
    assert_eq!(s.humidity, 0);
    s.update_measurements(0, 41, 4055);
    assert_eq!(s.light, 1);
    assert_eq!(s.humidity, 1);
    s.update_measurements(0, 4095, 0);
    assert_eq!(s.light, 99);
    assert_eq!(s.humidity, 100);
}

#[test]
fn ingest_is_noop_while_configuring() {
    let mut s = State::new();
    s.update_measurements(2250, 2048, 2048);
    s.switch();
    s.update_measurements(-700, 100, 100);
    assert_eq!(s.temp, 2250);
    assert_eq!(s.light, 50);
    assert_eq!(s.humidity, 50);
}

#[test]
fn alarm_on_high_temperature_against_default_range() {
    let mut s = State::new();
    s.update_measurements(5000, 1229, 2867);
    assert!(s.bad_level());
}

#[test]
fn no_alarm_when_all_readings_inside_defaults() {
    let mut s = State::new();
    s.update_measurements(3000, 1229, 2867);
    assert_eq!(s.light, 30);
    assert_eq!(s.humidity, 30);
    assert!(!s.bad_level());
}

#[test]
fn alarm_on_fresh_state_with_zero_readings() {
    let s = State::new();
    assert!(s.bad_level());
}

#[test]
fn alarm_when_inverted_range_rejects_everything() {
    let mut s = State::new();
    s.switch();
    s.update_config(4095);
    assert_eq!(s.temp_cfg.min, 9997);
    s.switch();
    s.update_measurements(3000, 1229, 2867);
    assert!(s.bad_level());
}

#[test]
fn render_measuring_lists_the_three_readings() {
    let mut s = State::new();
    s.update_measurements(2250, 2048, 2048);
    let text = s.get_repr().to_string();
    assert_eq!(
        text,
        "MEASURING\n\n         Value\nTemp     22.50\nLight    0.50\nHumidity 0.50\n"
    );
}

#[test]
fn render_measuring_formats_negative_and_full_scale() {
    let mut s = State::new();
    s.update_measurements(-500, 0, 0);
    let text = s.get_repr().to_string();
    assert_eq!(
        text,
        "MEASURING\n\n         Value\nTemp     -5.00\nLight    0.00\nHumidity 1.00\n"
    );
}

#[test]
fn render_configuring_marks_first_stop() {
    let mut s = State::new();
    s.switch();
    let text = s.get_repr().to_string();
    assert_eq!(
        text,
        "CONFIGURING\n\n           Min    Max\nTemp     >15.00 40.00\nLight      0.00  0.70\nHumidity   0.00  0.70\n"
    );
}

#[test]
fn render_configuring_marks_humidity_max_only() {
    let mut s = State::new();
    s.switch();
    for _ in 0..5 {
        s.progress();
    }
    assert_eq!(s.task, Task::Configuring(Sensor::Humidity, Variant::Max));
    let text = s.get_repr().to_string();
    assert_eq!(
        text,
        "CONFIGURING\n\n          Min     Max\nTemp     15.00  40.00\nLight     0.00   0.70\nHumidity  0.00 > 0.70\n"
    );
    assert_eq!(text.chars().filter(|c| *c == '>').count(), 1);
}

#[test]
fn render_configuring_shows_committed_wide_value() {
    let mut s = State::new();
    s.switch();
    s.update_config(4095);
    let text = s.get_repr().to_string();
    assert_eq!(
        text,
        "CONFIGURING\n\n           Min    Max\nTemp     >99.97 40.00\nLight      0.00  0.70\nHumidity   0.00  0.70\n"
    );
}

#[test]
fn render_twice_without_mutation_is_identical() {
    let mut s = State::new();
    s.update_measurements(2250, 123, 4000);
    let first = s.get_repr().to_string();
    let second = s.get_repr().to_string();
    assert_eq!(first, second);
    s.switch();
    let third = s.get_repr().to_string();
    let fourth = s.get_repr().to_string();
    assert_eq!(third, fourth);
}
