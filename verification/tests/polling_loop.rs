use tesla_metrics::metrics::{record, Gauge, GaugeValue, Sample};
use tesla_metrics::poller::{
    Action, CarState, Event, FetchStage, Phase, PollConfig, PollLoop, Poller,
};
use tesla_metrics::tesla_api_client::dtos::{
    ErrorReply, Reading, Reply, TeslaApiError, Vehicle, VehicleChargeState, VehicleClimateState,
    VehicleData, VehicleDriveState, VehicleState,
};
use tesla_metrics::tesla_api_client::{HttpOutcome, TeslaApiClient};

fn reading(x: f64) -> Reading {
    Reading::from_bits(x.to_bits())
}

fn vehicle(id: i64, name: &str, state: &str) -> Vehicle {
    Vehicle { id, display_name: name.to_string(), state: state.to_string() }
}

fn snapshot(name: &str, shift: Option<&str>, charging: &str, fast: bool) -> VehicleData {
    VehicleData {
        id: 1,
        display_name: name.to_string(),
        state: "online".to_string(),
        drive_state: VehicleDriveState {
            heading: reading(0.0),
            latitude: reading(0.0),
            longitude: reading(0.0),
            power: reading(0.0),
            shift_state: shift.map(|s| s.to_string()),
            speed: None,
            timestamp: 0,
        },
        climate_state: VehicleClimateState {
            driver_temp_setting: reading(0.0),
            inside_temp: reading(0.0),
            outside_temp: reading(0.0),
            passenger_temp_setting: reading(0.0),
            timestamp: 0,
        },
        charge_state: VehicleChargeState {
            battery_level: 50,
            usable_battery_level: 50,
            battery_range: reading(0.0),
            charge_rate: reading(0.0),
            charger_actual_current: reading(0.0),
            charger_power: reading(0.0),
            charger_voltage: reading(0.0),
            charging_state: charging.to_string(),
            est_battery_range: reading(0.0),
            fast_charger_present: fast,
            ideal_battery_range: reading(0.0),
            minutes_to_full_charge: 0,
            timestamp: 0,
        },
        vehicle_state: VehicleState { odometer: reading(0.0), timestamp: 0 },
    }
}

fn online_loop() -> PollLoop {
    PollLoop::new(&vehicle(1, "Bellwood Auto", "online"), PollConfig::default())
}

fn asleep_loop() -> PollLoop {
    PollLoop::new(&vehicle(1, "Bellwood Auto", "asleep"), PollConfig::default())
}

fn fail_one_cycle(l: &mut PollLoop) -> Action {
    assert_eq!(l.step(Event::Proceed(false)), Action::Fetch);
    l.step(Event::Fetched(Err(TeslaApiError::Unknown)))
}

#[test]
fn loop_begins_idle() {
    let l = online_loop();
    assert_eq!(l.phase, Phase::Idle);
    assert_eq!(l.id, 1);
    assert_eq!(l.display_name, "Bellwood Auto");
    assert!(l.online);
    assert_eq!(l.errors, 0);
    assert!(matches!(l.car_state, CarState::Unknown));
    assert!(l.failure.is_none());
    assert!(!l.is_stopped());
    let l = asleep_loop();
    assert_eq!(l.phase, Phase::Idle);
    assert!(!l.online);
}

#[test]
fn online_vehicle_is_fetched_at_once() {
    let mut l = online_loop();
    assert_eq!(l.step(Event::Proceed(false)), Action::Fetch);
    assert_eq!(l.phase, Phase::Fetching(FetchStage::First));
}

#[test]
fn successful_cycle_records_and_waits_by_state() {
    let mut l = online_loop();
    assert_eq!(l.step(Event::Proceed(false)), Action::Fetch);
    let data = snapshot("Renamed", None, "Disconnected", false);
    assert_eq!(l.step(Event::Fetched(Ok(data))), Action::Record);
    assert_eq!(l.phase, Phase::Recording);
    assert!(matches!(l.car_state, CarState::Parked(_)));
    assert_eq!(l.display_name, "Renamed");
    assert!(l.online);
    assert_eq!(l.errors, 0);
    assert_eq!(l.step(Event::Recorded), Action::Sleep(30));
    assert_eq!(l.phase, Phase::Waiting);
    assert_eq!(l.wait(), 30);
    assert_eq!(
        l.report(),
        "Collected vehicle metrics: Vehicle=\"Renamed\" CarState=\"Parked\" is_online=\"true\" Waiting=\"30s\""
    );
    assert_eq!(l.step(Event::Slept(false)), Action::Proceed);
    assert_eq!(l.phase, Phase::Idle);
    assert_eq!(l.step(Event::Proceed(false)), Action::Fetch);
    assert_eq!(l.step(Event::Fetched(Ok(snapshot("Renamed", Some("D"), "x", false)))), Action::Record);
    assert_eq!(l.step(Event::Recorded), Action::Sleep(5));
    assert_eq!(l.step(Event::Slept(false)), Action::Proceed);
    assert_eq!(l.step(Event::Proceed(false)), Action::Fetch);
    assert_eq!(l.step(Event::Fetched(Ok(snapshot("Renamed", None, "Charging", false)))), Action::Record);
    assert_eq!(l.step(Event::Recorded), Action::Sleep(15));
}

#[test]
fn success_resets_the_failure_count() {
    let mut l = online_loop();
    for n in 1..=9u32 {
        assert_eq!(fail_one_cycle(&mut l), Action::Sleep(60));
        assert_eq!(l.errors, n);
        assert_eq!(l.step(Event::Slept(false)), Action::Proceed);
    }
    assert_eq!(l.step(Event::Proceed(false)), Action::Fetch);
    assert_eq!(l.step(Event::Fetched(Ok(snapshot("a", None, "Charging", true)))), Action::Record);
    assert_eq!(l.errors, 0);
    assert!(l.failure.is_none());
    assert_eq!(l.step(Event::Recorded), Action::Sleep(5));
    assert_eq!(l.step(Event::Slept(false)), Action::Proceed);
    for n in 1..=9u32 {
        assert_eq!(fail_one_cycle(&mut l), Action::Sleep(60));
        assert_eq!(l.errors, n);
        assert!(!l.is_stopped());
        assert_eq!(l.step(Event::Slept(false)), Action::Proceed);
    }
}

#[test]
fn stop_signal_during_waiting_ends_the_loop() {
    let mut l = online_loop();
    assert_eq!(l.step(Event::Proceed(false)), Action::Fetch);
    assert_eq!(l.step(Event::Fetched(Ok(snapshot("a", None, "Disconnected", false)))), Action::Record);
    assert_eq!(l.step(Event::Recorded), Action::Sleep(30));
    assert_eq!(l.step(Event::Slept(true)), Action::Exit);
    assert_eq!(l.phase, Phase::Stopped);
    assert!(l.is_stopped());
    assert_eq!(l.step(Event::Proceed(false)), Action::Exit);
    assert_eq!(l.step(Event::Slept(false)), Action::Exit);
    assert_eq!(l.step(Event::Fetched(Ok(snapshot("b", Some("D"), "", false)))), Action::Exit);
    assert_eq!(l.step(Event::Woke(Ok(vehicle(1, "a", "online")))), Action::Exit);
    assert_eq!(l.step(Event::Refreshed(Ok(()))), Action::Exit);
    assert_eq!(l.step(Event::Recorded), Action::Exit);
    assert_eq!(l.phase, Phase::Stopped);
    assert!(matches!(l.car_state, CarState::Parked(_)));
    assert_eq!(l.display_name, "a");
}

#[test]
fn stop_signal_after_a_failed_cycle_ends_the_loop() {
    let mut l = online_loop();
    assert_eq!(fail_one_cycle(&mut l), Action::Sleep(60));
    assert_eq!(l.step(Event::Slept(true)), Action::Exit);
    assert!(l.is_stopped());
    assert_eq!(l.errors, 1);
}

#[test]
fn refused_credential_is_refreshed_and_the_fetch_retried() {
    let mut l = online_loop();
    assert_eq!(l.step(Event::Proceed(false)), Action::Fetch);
    let first: Result<VehicleData, TeslaApiError> = TeslaApiClient::handle_reply(
        HttpOutcome::Status { code: 401, reply: None },
    );
    assert_eq!(l.step(Event::Fetched(first)), Action::Refresh);
    assert_eq!(l.phase, Phase::Fetching(FetchStage::Refreshing));
    assert_eq!(l.errors, 0);
    assert_eq!(l.step(Event::Refreshed(Ok(()))), Action::Fetch);
    assert_eq!(l.phase, Phase::Fetching(FetchStage::Retried));
    let second = TeslaApiClient::handle_reply(HttpOutcome::Decoded(Reply {
        response: snapshot("Bellwood Auto", Some("D"), "Disconnected", false),
    }));
    assert_eq!(l.step(Event::Fetched(second)), Action::Record);
    assert_eq!(l.phase, Phase::Recording);
    assert_eq!(l.errors, 0);
    assert!(l.failure.is_none());
    match &l.car_state {
        CarState::Driving(v) => assert_eq!(v.display_name, "Bellwood Auto"),
        other => panic!("{:?}", other),
    }
}

#[test]
fn second_refusal_fails_the_cycle() {
    let mut l = online_loop();
    assert_eq!(l.step(Event::Proceed(false)), Action::Fetch);
    assert_eq!(l.step(Event::Fetched(Err(TeslaApiError::LoginFailure))), Action::Refresh);
    assert_eq!(l.step(Event::Refreshed(Ok(()))), Action::Fetch);
    assert_eq!(l.step(Event::Fetched(Err(TeslaApiError::LoginFailure))), Action::Sleep(60));
    assert_eq!(l.phase, Phase::Waiting);
    assert_eq!(l.errors, 1);
    assert_eq!(l.failure, Some(TeslaApiError::LoginFailure));
    assert!(matches!(l.car_state, CarState::Unknown));
}

#[test]
fn failed_refresh_fails_the_cycle() {
    let mut l = online_loop();
    assert_eq!(l.step(Event::Proceed(false)), Action::Fetch);
    assert_eq!(l.step(Event::Fetched(Err(TeslaApiError::LoginFailure))), Action::Refresh);
    assert_eq!(l.step(Event::Refreshed(Err(TeslaApiError::Unknown))), Action::Sleep(60));
    assert_eq!(l.errors, 1);
    assert_eq!(l.failure, Some(TeslaApiError::Unknown));
}

#[test]
fn ten_consecutive_failures_stop_the_loop() {
    let mut failing = online_loop();
    let mut healthy = PollLoop::new(&vehicle(2, "Other", "online"), PollConfig::default());
    for n in 1..=9u32 {
        assert_eq!(fail_one_cycle(&mut failing), Action::Sleep(60));
        assert_eq!(failing.errors, n);
        assert_eq!(failing.phase, Phase::Waiting);
        assert_eq!(failing.step(Event::Slept(false)), Action::Proceed);

        assert_eq!(healthy.step(Event::Proceed(false)), Action::Fetch);
        assert_eq!(
            healthy.step(Event::Fetched(Ok(snapshot("Other", None, "Disconnected", false)))),
            Action::Record
        );
        assert_eq!(healthy.step(Event::Recorded), Action::Sleep(30));
        assert_eq!(healthy.step(Event::Slept(false)), Action::Proceed);
    }
    assert_eq!(fail_one_cycle(&mut failing), Action::GiveUp);
    assert_eq!(failing.errors, 10);
    assert_eq!(failing.phase, Phase::Stopped);
    assert!(failing.is_stopped());
    assert_eq!(failing.step(Event::Proceed(false)), Action::Exit);
    assert_eq!(failing.step(Event::Slept(false)), Action::Exit);
    assert_eq!(
        failing.report(),
        "Failed to collect vehicle metrics: Vehicle=\"Bellwood Auto\" CarState=\"Unknown\" is_online=\"true\" Waiting=\"stopped\" error=\"Unknown Error\""
    );

    assert!(!healthy.is_stopped());
    assert_eq!(healthy.errors, 0);
    assert_eq!(healthy.step(Event::Proceed(false)), Action::Fetch);
    assert_eq!(
        healthy.step(Event::Fetched(Ok(snapshot("Other", None, "Disconnected", false)))),
        Action::Record
    );
}

#[test]
fn failed_fetch_makes_the_state_unknown() {
    let mut l = online_loop();
    assert_eq!(l.step(Event::Proceed(false)), Action::Fetch);
    assert_eq!(l.step(Event::Fetched(Ok(snapshot("a", None, "Disconnected", false)))), Action::Record);
    assert_eq!(l.step(Event::Recorded), Action::Sleep(30));
    assert_eq!(l.step(Event::Slept(false)), Action::Proceed);
    assert_eq!(l.step(Event::Proceed(false)), Action::Fetch);
    let error = TeslaApiError::UnknownApiError(ErrorReply {
        error: "invalid".to_string(),
        error_description: String::new(),
        body: "{}".to_string(),
    });
    assert_eq!(l.step(Event::Fetched(Err(error))), Action::Sleep(60));
    assert!(matches!(l.car_state, CarState::Unknown));
    assert!(l.online);
    assert_eq!(l.errors, 1);
    assert_eq!(l.wait(), 60);
    assert_eq!(
        l.report(),
        "Failed to collect vehicle metrics: Vehicle=\"a\" CarState=\"Unknown\" is_online=\"true\" Waiting=\"60s\" error=\"Unknown Tesla API Error: ErrorReply { error: \"invalid\", error_description: \"\", body: \"{}\" }\""
    );
}

#[test]
fn unavailable_vehicle_is_woken_in_the_next_cycle() {
    let mut l = online_loop();
    assert_eq!(l.step(Event::Proceed(false)), Action::Fetch);
    assert_eq!(l.step(Event::Fetched(Err(TeslaApiError::VehicleUnavailable()))), Action::Sleep(60));
    assert!(!l.online);
    assert_eq!(l.step(Event::Slept(false)), Action::Proceed);
    assert_eq!(l.step(Event::Proceed(false)), Action::Wake(0));
    assert_eq!(l.phase, Phase::WakingUp(1));
    assert!(l.failure.is_none());
}

#[test]
fn asleep_vehicle_is_woken_then_fetched() {
    let mut l = asleep_loop();
    assert_eq!(l.step(Event::Proceed(false)), Action::Wake(0));
    assert_eq!(l.phase, Phase::WakingUp(1));
    assert_eq!(l.step(Event::Woke(Ok(vehicle(1, "a", "asleep")))), Action::Wake(5));
    assert_eq!(l.phase, Phase::WakingUp(2));
    assert_eq!(l.step(Event::Woke(Ok(vehicle(1, "a", "online")))), Action::Fetch);
    assert_eq!(l.phase, Phase::Fetching(FetchStage::First));
    assert!(l.online);
    assert_eq!(l.errors, 0);
}

#[test]
fn wake_up_times_out_after_six_requests() {
    let mut l = asleep_loop();
    assert_eq!(l.step(Event::Proceed(false)), Action::Wake(0));
    for n in 1..=5u32 {
        assert_eq!(l.phase, Phase::WakingUp(n));
        assert_eq!(l.step(Event::Woke(Ok(vehicle(1, "a", "asleep")))), Action::Wake(5));
    }
    assert_eq!(l.phase, Phase::WakingUp(6));
    assert_eq!(l.step(Event::Woke(Ok(vehicle(1, "a", "asleep")))), Action::Sleep(60));
    assert_eq!(l.phase, Phase::Waiting);
    assert_eq!(l.failure, Some(TeslaApiError::WakeTimeout()));
    assert_eq!(l.errors, 1);
    assert!(!l.online);
    assert_eq!(
        l.report(),
        "Failed to collect vehicle metrics: Vehicle=\"Bellwood Auto\" CarState=\"Unknown\" is_online=\"false\" Waiting=\"60s\" error=\"Cannot wake vehicle\""
    );
}

#[test]
fn failed_wake_up_keeps_the_operating_state() {
    let mut l = online_loop();
    assert_eq!(l.step(Event::Proceed(false)), Action::Fetch);
    assert_eq!(l.step(Event::Fetched(Ok(snapshot("a", None, "Charging", false)))), Action::Record);
    assert_eq!(l.step(Event::Recorded), Action::Sleep(15));
    l.online = false;
    assert_eq!(l.step(Event::Slept(false)), Action::Proceed);
    assert_eq!(l.step(Event::Proceed(false)), Action::Wake(0));
    assert_eq!(l.step(Event::Woke(Err(TeslaApiError::Unknown))), Action::Sleep(60));
    assert!(matches!(l.car_state, CarState::Charging(_)));
    assert_eq!(l.errors, 1);
    assert_eq!(l.failure, Some(TeslaApiError::Unknown));
    assert_eq!(l.wait(), 60);
}

#[test]
fn events_that_are_not_awaited_change_nothing() {
    let mut l = online_loop();
    assert_eq!(l.step(Event::Recorded), Action::Ignored);
    assert_eq!(l.step(Event::Slept(true)), Action::Ignored);
    assert_eq!(l.step(Event::Fetched(Err(TeslaApiError::Unknown))), Action::Ignored);
    assert_eq!(l.phase, Phase::Idle);
    assert_eq!(l.errors, 0);
    assert_eq!(l.step(Event::Proceed(false)), Action::Fetch);
    assert_eq!(l.step(Event::Proceed(false)), Action::Ignored);
    assert_eq!(l.step(Event::Refreshed(Ok(()))), Action::Ignored);
    assert_eq!(l.step(Event::Woke(Ok(vehicle(1, "a", "online")))), Action::Ignored);
    assert_eq!(l.phase, Phase::Fetching(FetchStage::First));
    assert_eq!(l.step(Event::Fetched(Err(TeslaApiError::LoginFailure))), Action::Refresh);
    assert_eq!(l.step(Event::Fetched(Ok(snapshot("a", None, "", false)))), Action::Ignored);
    assert_eq!(l.phase, Phase::Fetching(FetchStage::Refreshing));
}

#[test]
fn loop_follows_its_configuration() {
    let config = PollConfig {
        driving_wait: 1,
        fast_charging_wait: 2,
        slow_charging_wait: 3,
        parked_wait: 4,
        error_wait: 7,
        wake_attempts: 2,
        wake_interval: 9,
        error_ceiling: 2,
    };
    assert!(config.is_valid());
    let mut l = PollLoop::new(&vehicle(3, "c", "asleep"), config);
    assert_eq!(l.step(Event::Proceed(false)), Action::Wake(0));
    assert_eq!(l.step(Event::Woke(Ok(vehicle(3, "c", "asleep")))), Action::Wake(9));
    assert_eq!(l.step(Event::Woke(Ok(vehicle(3, "c", "asleep")))), Action::Sleep(7));
    assert_eq!(l.step(Event::Slept(false)), Action::Proceed);
    assert_eq!(l.step(Event::Proceed(false)), Action::Wake(0));
    assert_eq!(l.step(Event::Woke(Err(TeslaApiError::Unknown))), Action::GiveUp);
    assert!(l.is_stopped());
    assert_eq!(l.errors, 2);
}

#[test]
fn supervisor_starts_one_loop_for_each_vehicle() {
    let poller = Poller::fairing();
    assert_eq!(poller.config, PollConfig::default());
    let listing = Ok(vec![
        vehicle(1, "one", "online"),
        vehicle(2, "two", "asleep"),
        vehicle(3, "three", "offline"),
    ]);
    let loops = poller.start_jobs(&listing);
    assert_eq!(loops.len(), 3);
    for (i, l) in loops.iter().enumerate() {
        assert_eq!(l.id, i as i64 + 1);
        assert_eq!(l.phase, Phase::Idle);
        assert_eq!(l.errors, 0);
        assert_eq!(l.config, poller.config);
        assert!(matches!(l.car_state, CarState::Unknown));
    }
    assert_eq!(loops[0].display_name, "one");
    assert_eq!(loops[1].display_name, "two");
    assert_eq!(loops[2].display_name, "three");
    assert!(loops[0].online);
    assert!(!loops[1].online);
    assert!(!loops[2].online);
}

#[test]
fn supervisor_starts_nothing_without_a_listing() {
    let poller = Poller::fairing();
    assert!(poller.start_jobs(&Err(TeslaApiError::LoginFailure)).is_empty());
    assert!(poller.start_jobs(&Ok(vec![])).is_empty());
}

#[test]
fn supervisor_takes_only_a_valid_configuration() {
    let good = PollConfig { parked_wait: 900, ..PollConfig::default() };
    assert_eq!(Poller::with_config(good).map(|p| p.config), Some(good));
    let bad = PollConfig { error_ceiling: 0, ..PollConfig::default() };
    assert!(Poller::with_config(bad).is_none());
}

fn indicator(gauge: Gauge, label: &str, n: i64) -> Sample {
    Sample { gauge, label: label.to_string(), value: GaugeValue::Count(n) }
}

#[test]
fn recording_hands_over_the_snapshot_and_the_indicators() {
    let mut l = online_loop();
    assert_eq!(l.indicators(), vec![
        indicator(Gauge::CarState, "Bellwood Auto", 0),
        indicator(Gauge::Online, "Bellwood Auto", 1),
    ]);
    assert_eq!(l.samples(), l.indicators());
    assert_eq!(l.step(Event::Proceed(false)), Action::Fetch);
    let data = snapshot("Renamed", Some("D"), "Disconnected", false);
    let mut expected = record(&data);
    expected.push(indicator(Gauge::CarState, "Renamed", 3));
    expected.push(indicator(Gauge::Online, "Renamed", 1));
    assert_eq!(l.step(Event::Fetched(Ok(data))), Action::Record);
    assert_eq!(l.samples(), expected);
    assert_eq!(l.samples().len(), 22);
    assert_eq!(l.step(Event::Recorded), Action::Sleep(5));
    assert_eq!(l.step(Event::Slept(false)), Action::Proceed);
    assert_eq!(l.step(Event::Proceed(false)), Action::Fetch);
    assert_eq!(l.step(Event::Fetched(Err(TeslaApiError::VehicleUnavailable()))), Action::Sleep(60));
    assert_eq!(l.indicators(), vec![
        indicator(Gauge::CarState, "Renamed", 0),
        indicator(Gauge::Online, "Renamed", 0),
    ]);
    assert_eq!(l.samples(), l.indicators());
}

#[test]
fn stop_signal_before_the_first_cycle_ends_the_loop_at_once() {
    for mut l in [online_loop(), asleep_loop()] {
        let online = l.online;
        assert_eq!(l.step(Event::Proceed(true)), Action::Exit);
        assert!(l.is_stopped());
        assert_eq!(l.errors, 0);
        assert_eq!(l.online, online);
        assert!(l.failure.is_none());
        assert!(matches!(l.car_state, CarState::Unknown));
        assert!(l.due_samples(Action::Exit).is_empty());
        assert_eq!(l.due_report(Action::Exit), None);
        assert_eq!(l.step(Event::Proceed(false)), Action::Exit);
        assert_eq!(l.step(Event::Fetched(Err(TeslaApiError::Unknown))), Action::Exit);
        assert_eq!(l.errors, 0);
    }
}

#[test]
fn stop_signal_before_a_later_cycle_ends_the_loop() {
    let mut l = online_loop();
    assert_eq!(fail_one_cycle(&mut l), Action::Sleep(60));
    assert_eq!(l.step(Event::Slept(false)), Action::Proceed);
    assert_eq!(l.step(Event::Proceed(true)), Action::Exit);
    assert!(l.is_stopped());
    assert_eq!(l.errors, 1);
    assert!(l.due_samples(Action::Exit).is_empty());
    assert_eq!(l.due_report(Action::Exit), None);
}

#[test]
fn samples_and_lines_are_due_at_the_end_of_a_cycle() {
    let mut l = online_loop();
    let a = l.step(Event::Proceed(false));
    assert!(l.due_samples(a).is_empty());
    assert_eq!(l.due_report(a), None);
    let a = l.step(Event::Fetched(Ok(snapshot("a", None, "Disconnected", false))));
    assert_eq!(a, Action::Record);
    assert_eq!(l.due_samples(a), l.samples());
    assert_eq!(l.due_samples(a).len(), 22);
    assert_eq!(l.due_report(a), None);
    let a = l.step(Event::Recorded);
    assert_eq!(a, Action::Sleep(30));
    assert!(l.due_samples(a).is_empty());
    assert_eq!(l.due_report(a), Some(l.report()));
    let a = l.step(Event::Slept(false));
    assert!(l.due_samples(a).is_empty());
    assert_eq!(l.due_report(a), None);
    let a = fail_one_cycle(&mut l);
    assert_eq!(a, Action::Sleep(60));
    assert_eq!(l.due_samples(a), l.indicators());
    assert_eq!(l.due_report(a), Some(l.report()));
    let a = l.step(Event::Slept(true));
    assert_eq!(a, Action::Exit);
    assert!(l.failure.is_some());
    assert!(l.due_samples(a).is_empty());
    assert_eq!(l.due_report(a), None);
}

#[test]
fn giving_up_hands_over_the_indicators_and_a_line() {
    let config = PollConfig { error_ceiling: 1, ..PollConfig::default() };
    let mut l = PollLoop::new(&vehicle(1, "a", "online"), config);
    let a = fail_one_cycle(&mut l);
    assert_eq!(a, Action::GiveUp);
    assert_eq!(l.due_samples(a), l.indicators());
    assert_eq!(
        l.due_report(a),
        Some(
            "Failed to collect vehicle metrics: Vehicle=\"a\" CarState=\"Unknown\" is_online=\"true\" Waiting=\"stopped\" error=\"Unknown Error\""
                .to_string()
        )
    );
    let a = l.step(Event::Proceed(false));
    assert_eq!(a, Action::Exit);
    assert!(l.due_samples(a).is_empty());
    assert_eq!(l.due_report(a), None);
}

#[test]
fn loops_know_whether_they_are_well_formed() {
    let mut l = online_loop();
    assert!(l.is_valid());
    l.errors = 9;
    assert!(l.is_valid());
    l.errors = 10;
    assert!(!l.is_valid());
    l.phase = Phase::Stopped;
    assert!(l.is_valid());
    let mut l = asleep_loop();
    assert!(l.is_valid());
    l.phase = Phase::WakingUp(0);
    assert!(!l.is_valid());
    l.phase = Phase::WakingUp(1);
    assert!(l.is_valid());
    l.phase = Phase::WakingUp(6);
    assert!(l.is_valid());
    l.phase = Phase::WakingUp(7);
    assert!(!l.is_valid());
    l.phase = Phase::WakingUp(1);
    l.online = true;
    assert!(!l.is_valid());
    l.online = false;
    l.config.error_ceiling = 0;
    assert!(!l.is_valid());
    let mut l = asleep_loop();
    assert_eq!(l.step(Event::Proceed(false)), Action::Wake(0));
    assert!(l.is_valid());
    assert_eq!(l.step(Event::Woke(Ok(vehicle(1, "a", "asleep")))), Action::Wake(5));
    assert!(l.is_valid());
    assert_eq!(l.step(Event::Woke(Ok(vehicle(1, "a", "online")))), Action::Fetch);
    assert!(l.is_valid());
}

#[test]
fn one_loop_of_a_fleet_leaves_the_others_untouched() {
    let poller = Poller::fairing();
    let mut loops = poller.start_jobs(&Ok(vec![
        vehicle(1, "one", "online"),
        vehicle(2, "two", "online"),
    ]));
    for n in 1..=10u32 {
        assert_eq!(Poller::step_job(&mut loops, 0, Event::Proceed(false)), Action::Fetch);
        let a = Poller::step_job(&mut loops, 0, Event::Fetched(Err(TeslaApiError::Unknown)));
        assert_eq!(loops[0].errors, n);
        assert_eq!(loops[1].errors, 0);
        assert_eq!(loops[1].phase, Phase::Idle);
        assert!(loops[1].failure.is_none());
        if n < 10 {
            assert_eq!(a, Action::Sleep(60));
            assert_eq!(Poller::step_job(&mut loops, 0, Event::Slept(false)), Action::Proceed);
        } else {
            assert_eq!(a, Action::GiveUp);
        }
    }
    assert!(loops[0].is_stopped());
    assert!(!loops[1].is_stopped());
    assert_eq!(Poller::step_job(&mut loops, 1, Event::Proceed(false)), Action::Fetch);
    assert_eq!(
        Poller::step_job(
            &mut loops,
            1,
            Event::Fetched(Ok(snapshot("two", None, "Disconnected", false)))
        ),
        Action::Record
    );
    assert_eq!(Poller::step_job(&mut loops, 1, Event::Recorded), Action::Sleep(30));
    assert_eq!(loops[1].errors, 0);
    assert!(loops[0].is_stopped());
    assert_eq!(loops[0].errors, 10);
}
