//! Operating states, poll intervals and the per-vehicle polling loop.

use crate::metrics::{indicators, readings, record, record_indicators, Sample};
use crate::tesla_api_client::dtos::{TeslaApiError, Vehicle, VehicleData};
use crate::tesla_api_client::{wake_step, TeslaApiClient, WakeStep};
use crate::text::{digits, text_is, unsigned_text};
use vstd::prelude::*;
use vstd::string::*;

verus! {

/// The charging state of a vehicle with no charger attached.
pub open spec fn disconnected_text() -> Seq<char> {
    "Disconnected"@
}

/// Whether a snapshot shows the vehicle in motion: the shift position is
/// reverse, drive or neutral, or the speed is above zero. A missing shift
/// position or speed counts as standing still.
pub open spec fn moving(v: VehicleData) -> bool {
    ||| v.drive_state.shift() == Some("R"@)
    ||| v.drive_state.shift() == Some("D"@)
    ||| v.drive_state.shift() == Some("N"@)
    ||| match v.drive_state.speed {
        Some(speed) => speed.positive(),
        None => false,
    }
}

/// Whether a snapshot shows no charger attached.
pub open spec fn disconnected(v: VehicleData) -> bool {
    v.charge_state.charging_state@ == disconnected_text()
}

/// The operating state that a snapshot stands for. Motion is looked at
/// first, so a vehicle that rolls while it reports charge data is driving.
pub open spec fn classify(v: VehicleData) -> CarState {
    if moving(v) {
        CarState::Driving(v)
    } else if disconnected(v) {
        CarState::Parked(v)
    } else {
        CarState::Charging(v)
    }
}

/// The waits between polls, in seconds, and the limits of the polling loop.
#[derive(Clone, Copy, Debug, PartialEq, Eq, Structural)]
pub struct PollConfig {
    /// The wait after a snapshot of a driving vehicle.
    pub driving_wait: u64,
    /// The wait after a snapshot of a vehicle at a fast charger.
    pub fast_charging_wait: u64,
    /// The wait after a snapshot of a vehicle at any other charger.
    pub slow_charging_wait: u64,
    /// The wait after a snapshot of a parked vehicle.
    pub parked_wait: u64,
    /// The wait after a cycle that failed.
    pub error_wait: u64,
    /// How many wake requests one cycle may make.
    pub wake_attempts: u32,
    /// The pause between two wake requests.
    pub wake_interval: u64,
    /// The number of consecutive failed cycles at which a loop stops.
    pub error_ceiling: u32,
}

impl PollConfig {
    /// A configuration is well formed when a fast charger is polled more
    /// often than a slow one, a driving vehicle at least as often as a slow
    /// charger, a parked vehicle no more often than any other, the wait
    /// after a failure differs from every other wait, and at least one wake
    /// request and one failure are allowed.
    pub open spec fn wf(self) -> bool {
        &&& self.fast_charging_wait < self.slow_charging_wait
        &&& self.driving_wait <= self.slow_charging_wait
        &&& self.slow_charging_wait <= self.parked_wait
        &&& self.error_wait != self.driving_wait
        &&& self.error_wait != self.fast_charging_wait
        &&& self.error_wait != self.slow_charging_wait
        &&& self.error_wait != self.parked_wait
        &&& self.wake_attempts >= 1
        &&& self.error_ceiling >= 1
    }

    /// The standard configuration: 5 s driving, 5 s at a fast charger,
    /// 15 s at a slow one, 30 s parked, 60 s after a failure, 6 wake
    /// requests 5 s apart, and 10 consecutive failures.
    pub open spec fn standard() -> PollConfig {
        PollConfig {
            driving_wait: 5,
            fast_charging_wait: 5,
            slow_charging_wait: 15,
            parked_wait: 30,
            error_wait: 60,
            wake_attempts: 6,
            wake_interval: 5,
            error_ceiling: 10,
        }
    }

    /// Whether the configuration is well formed.
    pub fn is_valid(&self) -> (b: bool)
        ensures
            b == self.wf(),
    {
        self.fast_charging_wait < self.slow_charging_wait && self.driving_wait
            <= self.slow_charging_wait && self.slow_charging_wait <= self.parked_wait
            && self.error_wait != self.driving_wait && self.error_wait != self.fast_charging_wait
            && self.error_wait != self.slow_charging_wait && self.error_wait != self.parked_wait
            && self.wake_attempts >= 1 && self.error_ceiling >= 1
    }
}

impl Default for PollConfig {
    /// The standard configuration.
    fn default() -> (c: PollConfig)
        ensures
            c == PollConfig::standard(),
            c.wf(),
    {
        PollConfig {
            driving_wait: 5,
            fast_charging_wait: 5,
            slow_charging_wait: 15,
            parked_wait: 30,
            error_wait: 60,
            wake_attempts: 6,
            wake_interval: 5,
            error_ceiling: 10,
        }
    }
}

/// The operating state of a vehicle, with the snapshot that showed it.
/// `Unknown` stands for a cycle that brought no snapshot.
#[derive(Debug, Clone)]
pub enum CarState {
    Parked(VehicleData),
    Charging(VehicleData),
    Driving(VehicleData),
    Unknown,
}

impl CarState {
    /// The number that the state indicator shows: 0 unknown, 1 parked,
    /// 2 charging, 3 driving.
    pub open spec fn indicator(self) -> int {
        match self {
            CarState::Unknown => 0,
            CarState::Parked(_) => 1,
            CarState::Charging(_) => 2,
            CarState::Driving(_) => 3,
        }
    }

    /// The name of the state.
    pub open spec fn name_view(self) -> Seq<char> {
        match self {
            CarState::Parked(_) => "Parked"@,
            CarState::Charging(_) => "Charging"@,
            CarState::Driving(_) => "Driving"@,
            CarState::Unknown => "Unknown"@,
        }
    }

    /// The seconds to wait after a cycle that ended in this state.
    pub open spec fn next_wait(self, config: PollConfig) -> u64 {
        match self {
            CarState::Parked(_) => config.parked_wait,
            CarState::Charging(v) => if v.charge_state.fast_charger_present {
                config.fast_charging_wait
            } else {
                config.slow_charging_wait
            },
            CarState::Driving(_) => config.driving_wait,
            CarState::Unknown => config.error_wait,
        }
    }

    /// The number that the state indicator shows.
    pub fn value(&self) -> (n: i64)
        ensures
            n == self.indicator(),
    {
        match self {
            CarState::Unknown => 0,
            CarState::Parked(_) => 1,
            CarState::Charging(_) => 2,
            CarState::Driving(_) => 3,
        }
    }

    /// Whether the vehicle is parked.
    pub fn is_parked(&self) -> (b: bool)
        ensures
            b == (self is Parked),
    {
        match self {
            CarState::Parked(_) => true,
            _ => false,
        }
    }

    /// The seconds to wait under the standard configuration.
    pub fn wait(&self) -> (secs: u64)
        ensures
            secs == self.next_wait(PollConfig::standard()),
    {
        self.wait_with(&PollConfig::default())
    }

    /// The seconds to wait under a given configuration.
    pub fn wait_with(&self, config: &PollConfig) -> (secs: u64)
        ensures
            secs == self.next_wait(*config),
    {
        match self {
            CarState::Parked(_) => config.parked_wait,
            CarState::Charging(v) => {
                if v.charge_state.fast_charger_present {
                    config.fast_charging_wait
                } else {
                    config.slow_charging_wait
                }
            },
            CarState::Driving(_) => config.driving_wait,
            CarState::Unknown => config.error_wait,
        }
    }

    /// The name of the state.
    pub fn name(&self) -> (r: String)
        ensures
            r@ == self.name_view(),
    {
        match self {
            CarState::Parked(_) => String::from_str("Parked"),
            CarState::Charging(_) => String::from_str("Charging"),
            CarState::Driving(_) => String::from_str("Driving"),
            CarState::Unknown => String::from_str("Unknown"),
        }
    }
}

/// Whether a snapshot shows the vehicle in motion.
pub fn is_moving(v: &VehicleData) -> (b: bool)
    ensures
        b == moving(*v),
{
    let in_gear = match &v.drive_state.shift_state {
        Some(s) => text_is(s, "R") || text_is(s, "D") || text_is(s, "N"),
        None => false,
    };
    let rolling = match &v.drive_state.speed {
        Some(speed) => speed.is_positive(),
        None => false,
    };
    in_gear || rolling
}

impl From<VehicleData> for CarState {
    /// Classifies a snapshot and keeps it in the state.
    fn from(v: VehicleData) -> (s: CarState) {
        if is_moving(&v) {
            return CarState::Driving(v);
        }
        if text_is(&v.charge_state.charging_state, "Disconnected") {
            return CarState::Parked(v);
        }
        CarState::Charging(v)
    }
}

impl vstd::std_specs::convert::FromSpecImpl<VehicleData> for CarState {
    open spec fn obeys_from_spec() -> bool {
        true
    }

    open spec fn from_spec(v: VehicleData) -> CarState {
        classify(v)
    }
}

/// A snapshot whose shift position is reverse, drive or neutral, or whose
/// speed is above zero, is classified as driving, whatever it says of the
/// charger.
pub proof fn motion_means_driving(v: VehicleData)
    requires
        moving(v),
    ensures
        classify(v) == CarState::Driving(v),
{
}

/// A snapshot that shows no motion and no charger attached is classified
/// as parked.
pub proof fn disconnected_at_rest_means_parked(v: VehicleData)
    requires
        !moving(v),
        disconnected(v),
    ensures
        classify(v) == CarState::Parked(v),
{
}

/// A snapshot that shows no motion and a charger attached is classified as
/// charging.
pub proof fn connected_at_rest_means_charging(v: VehicleData)
    requires
        !moving(v),
        !disconnected(v),
    ensures
        classify(v) == CarState::Charging(v),
{
}

/// Every snapshot is classified as exactly one of driving, parked and
/// charging, never as unknown, and the state keeps the snapshot.
pub proof fn classification_is_total(v: VehicleData)
    ensures
        classify(v) !is Unknown,
        classify(v) is Driving <==> moving(v),
        classify(v) is Parked <==> !moving(v) && disconnected(v),
        classify(v) is Charging <==> !moving(v) && !disconnected(v),
{
}

/// At a fast charger the wait is strictly shorter than at a slow one.
pub proof fn fast_charging_polls_sooner(fast: VehicleData, slow: VehicleData, config: PollConfig)
    requires
        config.wf(),
        fast.charge_state.fast_charger_present,
        !slow.charge_state.fast_charger_present,
    ensures
        CarState::Charging(fast).next_wait(config) < CarState::Charging(slow).next_wait(config),
{
}

/// The wait while driving is at most the wait at a slow charger, which is
/// at most the wait while parked.
pub proof fn waits_grow_with_idleness(
    driving: VehicleData,
    charging: VehicleData,
    parked: VehicleData,
    config: PollConfig,
)
    requires
        config.wf(),
        !charging.charge_state.fast_charger_present,
    ensures
        CarState::Driving(driving).next_wait(config) <= CarState::Charging(charging).next_wait(
            config,
        ),
        CarState::Charging(charging).next_wait(config) <= CarState::Parked(parked).next_wait(
            config,
        ),
{
}

/// The wait after a failed cycle differs from the wait after any snapshot.
pub proof fn error_wait_is_distinct(state: CarState, config: PollConfig)
    requires
        config.wf(),
        state !is Unknown,
    ensures
        state.next_wait(config) != CarState::Unknown.next_wait(config),
{
}

/// How far the fetch of one cycle has come.
#[derive(Clone, Copy, Debug, PartialEq, Eq, Structural)]
pub enum FetchStage {
    /// The first fetch of the cycle is under way.
    First,
    /// The service refused the credential, and a refresh is under way.
    Refreshing,
    /// The fetch is under way again with the refreshed credential.
    Retried,
}

/// Where a polling loop stands.
#[derive(Clone, Copy, Debug, PartialEq, Eq, Structural)]
pub enum Phase {
    /// A cycle is about to begin.
    Idle,
    /// The vehicle is being woken; the number counts the wake requests
    /// made in this cycle, the one under way included.
    WakingUp(u32),
    /// A snapshot is being fetched.
    Fetching(FetchStage),
    /// The snapshot is being handed to the metrics sink.
    Recording,
    /// The loop sleeps until the next cycle.
    Waiting,
    /// The loop has ended and makes no further request.
    Stopped,
}

/// What the outside world reports to a polling loop.
#[derive(Debug)]
pub enum Event {
    /// A cycle may begin; the flag tells whether the stop signal is up.
    Proceed(bool),
    /// The reply to a wake request.
    Woke(Result<Vehicle, TeslaApiError>),
    /// The reply to a fetch of the snapshot.
    Fetched(Result<VehicleData, TeslaApiError>),
    /// The outcome of a credential refresh.
    Refreshed(Result<(), TeslaApiError>),
    /// The metrics sink has taken the samples.
    Recorded,
    /// The sleep is over; the flag tells whether the stop signal was up.
    Slept(bool),
}

/// What a polling loop asks the outside world to do next.
#[derive(Clone, Copy, Debug, PartialEq, Eq, Structural)]
pub enum Action {
    /// Read the stop signal and report it with `Event::Proceed`.
    Proceed,
    /// Pause for the given seconds, then send a wake request and report the
    /// reply.
    Wake(u64),
    /// Fetch the snapshot and report the reply.
    Fetch,
    /// Refresh the credential and report the outcome.
    Refresh,
    /// Hand the samples of the loop's snapshot to the metrics sink.
    Record,
    /// Sleep for the given seconds, then read the stop signal and report it.
    Sleep(u64),
    /// The failure budget is used up: end the worker.
    GiveUp,
    /// The loop has stopped: end the worker.
    Exit,
    /// The event was not awaited and has changed nothing.
    Ignored,
}

/// The polling loop of one vehicle.
#[derive(Debug)]
pub struct PollLoop {
    /// The waits and limits of the loop.
    pub config: PollConfig,
    /// The identifier of the vehicle.
    pub id: i64,
    /// The display name of the vehicle, as last reported.
    pub display_name: String,
    /// Where the loop stands.
    pub phase: Phase,
    /// Whether the vehicle was online when last heard of.
    pub online: bool,
    /// The number of failed cycles since the last successful one.
    pub errors: u32,
    /// The operating state that the last fetch showed.
    pub car_state: CarState,
    /// The error of the current cycle, if it has failed.
    pub failure: Option<TeslaApiError>,
}

impl PollLoop {
    /// A loop is well formed when its configuration is, a loop that has not
    /// stopped has failures left in its budget, and a loop that wakes its
    /// vehicle holds the vehicle for offline and has made at least one and
    /// at most the allowed number of wake requests.
    pub open spec fn wf(self) -> bool {
        &&& self.config.wf()
        &&& !(self.phase is Stopped) ==> self.errors < self.config.error_ceiling
        &&& match self.phase {
            Phase::WakingUp(n) => !self.online && 1 <= n <= self.config.wake_attempts,
            _ => true,
        }
    }

    /// The loop as it starts for a vehicle of the fleet listing.
    pub open spec fn initial(vehicle: Vehicle, config: PollConfig) -> PollLoop {
        PollLoop {
            config,
            id: vehicle.id,
            display_name: vehicle.display_name,
            phase: Phase::Idle,
            online: vehicle.online(),
            errors: 0,
            car_state: CarState::Unknown,
            failure: None,
        }
    }

    /// Whether an error shows that the vehicle is not online.
    pub open spec fn shows_offline(error: TeslaApiError) -> bool {
        error is VehicleUnavailable || error is WakeTimeout
    }

    /// The loop and its next action after a cycle has failed with `error`.
    /// The failure is counted; at the ceiling the loop gives up and stops,
    /// below it the loop waits for the time set for failures. A failed fetch makes the
    /// operating state unknown; a failed wake-up leaves it as it was.
    pub open spec fn failed(self, error: TeslaApiError, keep_state: bool) -> (PollLoop, Action) {
        let exhausted = self.errors + 1 >= self.config.error_ceiling;
        (
            PollLoop {
                phase: if exhausted {
                    Phase::Stopped
                } else {
                    Phase::Waiting
                },
                online: self.online && !Self::shows_offline(error),
                errors: (self.errors + 1) as u32,
                car_state: if keep_state {
                    self.car_state
                } else {
                    CarState::Unknown
                },
                failure: Some(error),
                ..self
            },
            if exhausted {
                Action::GiveUp
            } else {
                Action::Sleep(self.config.error_wait)
            },
        )
    }

    /// The loop and its next action after a snapshot has arrived: the
    /// snapshot is classified, the failure count starts again at zero, and
    /// the samples are due to the sink.
    pub open spec fn fetched(self, data: VehicleData) -> (PollLoop, Action) {
        (
            PollLoop {
                phase: Phase::Recording,
                display_name: data.display_name,
                online: true,
                errors: 0,
                car_state: classify(data),
                failure: None,
                ..self
            },
            Action::Record,
        )
    }

    /// The loop after an event, and what it asks for next.
    pub open spec fn next(self, event: Event) -> (PollLoop, Action) {
        match (self.phase, event) {
            (Phase::Stopped, _) => (self, Action::Exit),
            (Phase::Idle, Event::Proceed(stop)) => if stop {
                (PollLoop { phase: Phase::Stopped, ..self }, Action::Exit)
            } else if self.online {
                (
                    PollLoop { phase: Phase::Fetching(FetchStage::First), failure: None, ..self },
                    Action::Fetch,
                )
            } else {
                (PollLoop { phase: Phase::WakingUp(1), failure: None, ..self }, Action::Wake(0))
            },
            (Phase::WakingUp(n), Event::Woke(reply)) => match wake_step(
                n,
                self.config.wake_attempts,
                reply,
            ) {
                WakeStep::Online => (
                    PollLoop { phase: Phase::Fetching(FetchStage::First), online: true, ..self },
                    Action::Fetch,
                ),
                WakeStep::Again => (
                    PollLoop { phase: Phase::WakingUp((n + 1) as u32), ..self },
                    Action::Wake(self.config.wake_interval),
                ),
                WakeStep::Failed(error) => self.failed(error, true),
            },
            (Phase::Fetching(FetchStage::First), Event::Fetched(Ok(data))) => self.fetched(data),
            (Phase::Fetching(FetchStage::Retried), Event::Fetched(Ok(data))) => self.fetched(
                data,
            ),
            (Phase::Fetching(FetchStage::First), Event::Fetched(Err(error))) => if error
                is LoginFailure {
                (PollLoop { phase: Phase::Fetching(FetchStage::Refreshing), ..self }, Action::Refresh)
            } else {
                self.failed(error, false)
            },
            (Phase::Fetching(FetchStage::Retried), Event::Fetched(Err(error))) => self.failed(
                error,
                false,
            ),
            (Phase::Fetching(FetchStage::Refreshing), Event::Refreshed(Ok(_))) => (
                PollLoop { phase: Phase::Fetching(FetchStage::Retried), ..self },
                Action::Fetch,
            ),
            (Phase::Fetching(FetchStage::Refreshing), Event::Refreshed(Err(error))) => self.failed(
                error,
                false,
            ),
            (Phase::Recording, Event::Recorded) => (
                PollLoop { phase: Phase::Waiting, ..self },
                Action::Sleep(self.car_state.next_wait(self.config)),
            ),
            (Phase::Waiting, Event::Slept(stop)) => if stop {
                (PollLoop { phase: Phase::Stopped, ..self }, Action::Exit)
            } else {
                (PollLoop { phase: Phase::Idle, ..self }, Action::Proceed)
            },
            _ => (self, Action::Ignored),
        }
    }

    /// The seconds that the loop waits at the end of its cycle: the time
    /// set for failures after a cycle that failed, else the time that goes
    /// with the operating state.
    pub open spec fn chosen_wait(self) -> u64 {
        if self.failure is Some {
            self.config.error_wait
        } else {
            self.car_state.next_wait(self.config)
        }
    }

    /// The line that tells a reader how the cycle went: the vehicle's
    /// display name, the operating state, whether the vehicle is online and
    /// the wait chosen, or that the loop has stopped, and after a failure
    /// the error's message.
    pub open spec fn report_view(self) -> Seq<char> {
        let line = "Vehicle=\""@ + self.display_name@ + "\" CarState=\""@
            + self.car_state.name_view() + "\" is_online=\""@ + (if self.online {
            "true"@
        } else {
            "false"@
        }) + "\" Waiting=\""@ + (if self.phase is Stopped {
            "stopped"@
        } else {
            digits(self.chosen_wait() as nat) + "s"@
        }) + "\""@;
        match self.failure {
            None => "Collected vehicle metrics: "@ + line,
            Some(error) => "Failed to collect vehicle metrics: "@ + line + " error=\""@
                + error.message_view() + "\""@,
        }
    }

    /// The samples that show the loop's view of its vehicle: the operating
    /// state and whether the vehicle is online.
    pub open spec fn indicator_samples(self) -> Seq<Sample> {
        indicators(self.display_name, self.car_state, self.online)
    }

    /// The samples that are due to the sink after a fetch: every field of
    /// the snapshot, then the loop's view of its vehicle.
    pub open spec fn cycle_samples(self) -> Seq<Sample> {
        match self.car_state {
            CarState::Parked(v) => readings(v) + self.indicator_samples(),
            CarState::Charging(v) => readings(v) + self.indicator_samples(),
            CarState::Driving(v) => readings(v) + self.indicator_samples(),
            CarState::Unknown => self.indicator_samples(),
        }
    }

    /// The samples that are due to the sink after a step that asked for
    /// `action`: the snapshot and the indicators when the loop asks to
    /// record, the indicators alone when a cycle has failed, whether the
    /// loop then sleeps or gives up, and nothing after any other step.
    pub open spec fn due(self, action: Action) -> Seq<Sample> {
        match action {
            Action::Record => self.cycle_samples(),
            Action::Sleep(_) => if self.failure is Some {
                self.indicator_samples()
            } else {
                Seq::empty()
            },
            Action::GiveUp => self.indicator_samples(),
            _ => Seq::empty(),
        }
    }

    /// Whether a line is due to the reader after a step that asked for
    /// `action`: it is at the end of every cycle, when the loop sleeps or
    /// gives up.
    pub open spec fn reports(action: Action) -> bool {
        action is Sleep || action is GiveUp
    }

    /// The actions that a loop asks for, one after each of a series of
    /// events.
    pub open spec fn trace(self, events: Seq<Event>) -> Seq<Action>
        decreases events.len(),
    {
        if events.len() == 0 {
            Seq::empty()
        } else {
            seq![self.next(events[0]).1] + self.next(events[0]).0.trace(events.drop_first())
        }
    }

    /// The loop after a series of events.
    pub open spec fn after(self, events: Seq<Event>) -> PollLoop
        decreases events.len(),
    {
        if events.len() == 0 {
            self
        } else {
            self.next(events[0]).0.after(events.drop_first())
        }
    }

    /// Starts the loop of a vehicle of the fleet listing.
    pub fn new(vehicle: &Vehicle, config: PollConfig) -> (l: PollLoop)
        requires
            config.wf(),
        ensures
            l == PollLoop::initial(*vehicle, config),
            l.wf(),
    {
        PollLoop {
            config,
            id: vehicle.id,
            display_name: vehicle.display_name.clone(),
            phase: Phase::Idle,
            online: vehicle.is_online(),
            errors: 0,
            car_state: CarState::Unknown,
            failure: None,
        }
    }

    /// Whether the loop is well formed.
    pub fn is_valid(&self) -> (b: bool)
        ensures
            b == self.wf(),
    {
        let budget = match self.phase {
            Phase::Stopped => true,
            _ => self.errors < self.config.error_ceiling,
        };
        let waking = match self.phase {
            Phase::WakingUp(n) => !self.online && 1 <= n && n <= self.config.wake_attempts,
            _ => true,
        };
        self.config.is_valid() && budget && waking
    }

    /// Whether the loop has ended.
    pub fn is_stopped(&self) -> (b: bool)
        ensures
            b == (self.phase is Stopped),
    {
        match self.phase {
            Phase::Stopped => true,
            _ => false,
        }
    }

    /// The seconds that the loop waits at the end of its cycle.
    pub fn wait(&self) -> (secs: u64)
        ensures
            secs == self.chosen_wait(),
    {
        match &self.failure {
            Some(_) => self.config.error_wait,
            None => self.car_state.wait_with(&self.config),
        }
    }

    /// The samples that show the loop's view of its vehicle. They are due
    /// to the sink after every cycle, failed or not.
    pub fn indicators(&self) -> (samples: Vec<Sample>)
        ensures
            samples@ == self.indicator_samples(),
    {
        record_indicators(&self.display_name, &self.car_state, self.online)
    }

    /// The samples that are due to the sink when the loop asks to record.
    pub fn samples(&self) -> (samples: Vec<Sample>)
        ensures
            samples@ == self.cycle_samples(),
    {
        let mut last = self.indicators();
        match &self.car_state {
            CarState::Parked(v) | CarState::Charging(v) | CarState::Driving(v) => {
                let mut samples = record(v);
                samples.append(&mut last);
                samples
            },
            CarState::Unknown => last,
        }
    }

    /// The samples that are due to the sink after a step that asked for
    /// `action`.
    pub fn due_samples(&self, action: Action) -> (samples: Vec<Sample>)
        ensures
            samples@ == self.due(action),
    {
        match action {
            Action::Record => self.samples(),
            Action::Sleep(_) => {
                match &self.failure {
                    Some(_) => self.indicators(),
                    None => Vec::new(),
                }
            },
            Action::GiveUp => self.indicators(),
            _ => Vec::new(),
        }
    }

    /// The line that is due to the reader after a step that asked for
    /// `action`, if one is.
    pub fn due_report(&self, action: Action) -> (line: Option<String>)
        ensures
            line is Some <==> Self::reports(action),
            line is Some ==> line->0@ == self.report_view(),
    {
        match action {
            Action::Sleep(_) => Some(self.report()),
            Action::GiveUp => Some(self.report()),
            _ => None,
        }
    }

    /// The line that tells a reader how the cycle went.
    pub fn report(&self) -> (line: String)
        ensures
            line@ == self.report_view(),
    {
        let mut line = match &self.failure {
            None => String::from_str("Collected vehicle metrics: "),
            Some(_) => String::from_str("Failed to collect vehicle metrics: "),
        };
        line.append("Vehicle=\"");
        line.append(self.display_name.as_str());
        line.append("\" CarState=\"");
        line.append(self.car_state.name().as_str());
        line.append("\" is_online=\"");
        line.append(if self.online { "true" } else { "false" });
        line.append("\" Waiting=\"");
        if self.is_stopped() {
            line.append("stopped");
        } else {
            line.append(unsigned_text(self.wait()).as_str());
            line.append("s");
        }
        line.append("\"");
        match &self.failure {
            None => {},
            Some(error) => {
                line.append(" error=\"");
                line.append(error.message().as_str());
                line.append("\"");
            },
        }
        line
    }

    fn fail(&mut self, error: TeslaApiError, keep_state: bool) -> (action: Action)
        requires
            old(self).wf(),
            !(old(self).phase is Stopped),
        ensures
            (*final(self), action) == old(self).failed(error, keep_state),
            final(self).wf(),
    {
        let offline = match &error {
            TeslaApiError::VehicleUnavailable() => true,
            TeslaApiError::WakeTimeout() => true,
            _ => false,
        };
        self.online = self.online && !offline;
        self.errors = self.errors + 1;
        if !keep_state {
            self.car_state = CarState::Unknown;
        }
        self.failure = Some(error);
        if self.errors >= self.config.error_ceiling {
            self.phase = Phase::Stopped;
            Action::GiveUp
        } else {
            self.phase = Phase::Waiting;
            Action::Sleep(self.config.error_wait)
        }
    }

    fn take(&mut self, data: VehicleData) -> (action: Action)
        requires
            old(self).wf(),
        ensures
            (*final(self), action) == old(self).fetched(data),
            final(self).wf(),
    {
        self.phase = Phase::Recording;
        self.display_name = data.display_name.clone();
        self.online = true;
        self.errors = 0;
        self.car_state = CarState::from(data);
        self.failure = None;
        Action::Record
    }

    /// Takes one event and says what to do next.
    pub fn step(&mut self, event: Event) -> (action: Action)
        requires
            old(self).wf(),
        ensures
            (*final(self), action) == old(self).next(event),
            final(self).wf(),
    {
        match self.phase {
            Phase::Stopped => Action::Exit,
            Phase::Idle => match event {
                Event::Proceed(true) => {
                    self.phase = Phase::Stopped;
                    Action::Exit
                },
                Event::Proceed(false) => {
                    self.failure = None;
                    if self.online {
                        self.phase = Phase::Fetching(FetchStage::First);
                        Action::Fetch
                    } else {
                        self.phase = Phase::WakingUp(1);
                        Action::Wake(0)
                    }
                },
                _ => Action::Ignored,
            },
            Phase::WakingUp(n) => match event {
                Event::Woke(reply) => {
                    match TeslaApiClient::wake_vehicle_poll(n, self.config.wake_attempts, reply) {
                        WakeStep::Online => {
                            self.phase = Phase::Fetching(FetchStage::First);
                            self.online = true;
                            Action::Fetch
                        },
                        WakeStep::Again => {
                            self.phase = Phase::WakingUp(n + 1);
                            Action::Wake(self.config.wake_interval)
                        },
                        WakeStep::Failed(error) => self.fail(error, true),
                    }
                },
                _ => Action::Ignored,
            },
            Phase::Fetching(FetchStage::Refreshing) => match event {
                Event::Refreshed(Ok(_)) => {
                    self.phase = Phase::Fetching(FetchStage::Retried);
                    Action::Fetch
                },
                Event::Refreshed(Err(error)) => self.fail(error, false),
                _ => Action::Ignored,
            },
            Phase::Fetching(stage) => match event {
                Event::Fetched(Ok(data)) => self.take(data),
                Event::Fetched(Err(error)) => {
                    let expired = match &error {
                        TeslaApiError::LoginFailure => true,
                        _ => false,
                    };
                    let first = match stage {
                        FetchStage::First => true,
                        _ => false,
                    };
                    if first && expired {
                        self.phase = Phase::Fetching(FetchStage::Refreshing);
                        Action::Refresh
                    } else {
                        self.fail(error, false)
                    }
                },
                _ => Action::Ignored,
            },
            Phase::Recording => match event {
                Event::Recorded => {
                    self.phase = Phase::Waiting;
                    Action::Sleep(self.car_state.wait_with(&self.config))
                },
                _ => Action::Ignored,
            },
            Phase::Waiting => match event {
                Event::Slept(stop) => {
                    if stop {
                        self.phase = Phase::Stopped;
                        Action::Exit
                    } else {
                        self.phase = Phase::Idle;
                        Action::Proceed
                    }
                },
                _ => Action::Ignored,
            },
        }
    }
}

/// A snapshot that arrives while the loop fetches sets the failure count
/// to zero, whatever it was, and takes the loop to recording with the
/// snapshot classified.
pub proof fn success_resets_the_failure_count(l: PollLoop, data: VehicleData)
    requires
        l.wf(),
        l.phase == Phase::Fetching(FetchStage::First) || l.phase == Phase::Fetching(
            FetchStage::Retried,
        ),
    ensures
        l.next(Event::Fetched(Ok(data))).0.errors == 0,
        l.next(Event::Fetched(Ok(data))).0.phase == Phase::Recording,
        l.next(Event::Fetched(Ok(data))).0.car_state == classify(data),
        l.next(Event::Fetched(Ok(data))).0.failure is None,
        l.next(Event::Fetched(Ok(data))).1 == Action::Record,
{
}

/// A loop that has stopped stays stopped: whatever is reported to it, it
/// does not change and asks for nothing but the end of the worker.
pub proof fn stopped_is_final(l: PollLoop, events: Seq<Event>)
    requires
        l.phase is Stopped,
    ensures
        l.after(events) == l,
        l.trace(events).len() == events.len(),
        forall|i: int| 0 <= i < events.len() ==> l.trace(events)[i] == Action::Exit,
    decreases events.len(),
{
    if events.len() > 0 {
        stopped_is_final(l, events.drop_first());
    }
}

/// A loop that finds the stop signal up when its sleep ends stops, and
/// makes no fetch, wake request or refresh from then on, whatever is
/// reported to it.
pub proof fn stop_signal_ends_the_loop(l: PollLoop, later: Seq<Event>)
    requires
        l.wf(),
        l.phase is Waiting,
    ensures
        l.next(Event::Slept(true)).0.phase is Stopped,
        l.next(Event::Slept(true)).1 == Action::Exit,
        l.next(Event::Slept(true)).0.after(later).phase is Stopped,
        forall|i: int|
            0 <= i < later.len() ==> l.next(Event::Slept(true)).0.trace(later)[i] == Action::Exit,
{
    stopped_is_final(l.next(Event::Slept(true)).0, later);
}

/// A loop that finds the stop signal up when a cycle is about to begin,
/// the first cycle included, stops without a request, a sample or a sleep:
/// it changes in nothing but its phase, nothing is due to the sink or to
/// the reader, and it asks for nothing but the end of the worker from then
/// on.
pub proof fn stop_signal_before_a_cycle_ends_the_loop(l: PollLoop, later: Seq<Event>)
    requires
        l.wf(),
        l.phase is Idle,
    ensures
        l.next(Event::Proceed(true)) == (PollLoop { phase: Phase::Stopped, ..l }, Action::Exit),
        l.next(Event::Proceed(true)).0.due(Action::Exit) == Seq::<Sample>::empty(),
        !PollLoop::reports(Action::Exit),
        l.next(Event::Proceed(true)).0.after(later).phase is Stopped,
        forall|i: int|
            0 <= i < later.len() ==> l.next(Event::Proceed(true)).0.trace(later)[i]
                == Action::Exit,
{
    stopped_is_final(l.next(Event::Proceed(true)).0, later);
}

/// A cycle that fails adds one to the failure count. The loop gives up
/// and stops exactly when the count reaches the ceiling; below it the loop
/// waits for the time set for failures. Either way the indicators are due
/// to the sink and a line to the reader.
pub proof fn failures_use_up_the_budget(l: PollLoop, error: TeslaApiError, keep_state: bool)
    requires
        l.wf(),
        !(l.phase is Stopped),
    ensures
        l.failed(error, keep_state).0.errors == l.errors + 1,
        l.failed(error, keep_state).0.phase is Stopped <==> l.errors + 1
            == l.config.error_ceiling,
        l.failed(error, keep_state).0.phase is Stopped ==> l.failed(error, keep_state).1
            == Action::GiveUp,
        !(l.failed(error, keep_state).0.phase is Stopped) ==> l.failed(error, keep_state).0.phase
            is Waiting && l.failed(error, keep_state).1 == Action::Sleep(l.config.error_wait),
        l.failed(error, keep_state).0.due(l.failed(error, keep_state).1) == l.failed(
            error,
            keep_state,
        ).0.indicator_samples(),
        PollLoop::reports(l.failed(error, keep_state).1),
        l.failed(error, keep_state).0.wf(),
{
}

/// The end of the worker is asked for in two ways that tell the reason:
/// `GiveUp` comes only with the failure that uses up the budget, `Exit`
/// only from a loop that has found the stop signal up or had stopped
/// before. After `Exit` nothing is due to the sink or to the reader.
pub proof fn the_end_tells_its_reason(l: PollLoop, event: Event)
    requires
        l.wf(),
    ensures
        l.next(event).1 == Action::GiveUp ==> !(l.phase is Stopped) && l.next(event).0.errors
            == l.config.error_ceiling && l.next(event).0.failure is Some,
        l.next(event).1 == Action::Exit ==> l.next(event).0.errors == l.errors && l.next(
            event,
        ).0.failure == l.failure && l.next(event).0.car_state == l.car_state,
        l.next(event).1 == Action::Exit ==> l.next(event).0.due(Action::Exit) == Seq::<
            Sample,
        >::empty() && !PollLoop::reports(Action::Exit),
        l.next(event).1 == Action::Exit || l.next(event).1 == Action::GiveUp <==> l.next(
            event,
        ).0.phase is Stopped,
{
}

/// A refused credential is refreshed once in a cycle: the first refusal
/// asks for a refresh, a refusal after the refresh fails the cycle.
pub proof fn credential_is_refreshed_once(l: PollLoop)
    requires
        l.wf(),
    ensures
        l.phase == Phase::Fetching(FetchStage::First) ==> l.next(
            Event::Fetched(Err(TeslaApiError::LoginFailure)),
        ) == (PollLoop { phase: Phase::Fetching(FetchStage::Refreshing), ..l }, Action::Refresh),
        l.phase == Phase::Fetching(FetchStage::Retried) ==> l.next(
            Event::Fetched(Err(TeslaApiError::LoginFailure)),
        ) == l.failed(TeslaApiError::LoginFailure, false),
{
}

/// Every step keeps a well-formed loop well formed.
pub proof fn steps_keep_the_loop_well_formed(l: PollLoop, event: Event)
    requires
        l.wf(),
    ensures
        l.next(event).0.wf(),
        l.next(event).0.config == l.config,
        l.next(event).0.id == l.id,
{
}

/// The operating state becomes unknown only in a step that fails the
/// cycle and counts the failure.
pub proof fn unknown_only_after_failure(l: PollLoop, event: Event)
    requires
        l.wf(),
        !(l.car_state is Unknown),
        l.next(event).0.car_state is Unknown,
    ensures
        l.next(event).0.failure is Some,
        l.next(event).0.errors == l.errors + 1,
        l.next(event).1 == Action::Sleep(l.config.error_wait) || l.next(event).1
            == Action::GiveUp,
{
}

/// The events of one cycle of an online vehicle whose fetch fails with
/// `error`, the sleep after it included.
pub open spec fn failing_cycle(error: TeslaApiError) -> Seq<Event> {
    seq![Event::Proceed(false), Event::Fetched(Err(error)), Event::Slept(false)]
}

/// The events of `n` such cycles in a row.
pub open spec fn failing_cycles(error: TeslaApiError, n: nat) -> Seq<Event>
    decreases n,
{
    if n == 0 {
        Seq::empty()
    } else {
        failing_cycle(error) + failing_cycles(error, (n - 1) as nat)
    }
}

/// A loop that takes two series of events one after the other ends where
/// it ends on the two series joined.
pub proof fn after_joined_events(l: PollLoop, first: Seq<Event>, second: Seq<Event>)
    ensures
        l.after(first + second) == l.after(first).after(second),
    decreases first.len(),
{
    if first.len() == 0 {
    } else {
        assert((first + second).drop_first() =~= first.drop_first() + second);
        after_joined_events(l.next(first[0]).0, first.drop_first(), second);
    }
}

/// Failed fetches in a row use up the budget and no more: while fewer
/// cycles have failed than the ceiling allows the loop goes on, with every
/// failure counted, and with the failure that reaches the ceiling it stops
/// for good. The error is one that asks for no refresh and leaves the
/// vehicle online.
pub proof fn consecutive_failures_stop_the_loop(l: PollLoop, error: TeslaApiError, n: nat)
    requires
        l.wf(),
        l.phase is Idle,
        l.online,
        !(error is LoginFailure),
        !PollLoop::shows_offline(error),
    ensures
        l.errors + n < l.config.error_ceiling ==> l.after(failing_cycles(error, n)).phase is Idle
            && l.after(failing_cycles(error, n)).errors == l.errors + n,
        l.errors + n >= l.config.error_ceiling ==> l.after(failing_cycles(error, n)).phase
            is Stopped && l.after(failing_cycles(error, n)).errors == l.config.error_ceiling,
    decreases n,
{
    if n > 0 {
        let cycle = failing_cycle(error);
        let rest = failing_cycles(error, (n - 1) as nat);
        let fetching = l.next(cycle[0]).0;
        let failed = fetching.next(cycle[1]).0;
        let slept = failed.next(cycle[2]).0;
        assert(l.after(cycle) == slept) by {
            reveal_with_fuel(PollLoop::after, 4);
        }
        after_joined_events(l, cycle, rest);
        if slept.phase is Stopped {
            stopped_is_final(slept, rest);
        } else {
            consecutive_failures_stop_the_loop(slept, error, (n - 1) as nat);
        }
    }
}

/// The loops of a fleet do not depend on one another: whatever one loop
/// takes, be it the failure that uses up its budget, every other loop
/// stays as it was, with its own failure count, and a loop that had not
/// stopped has not stopped.
pub proof fn loops_are_independent(loops: Seq<PollLoop>, i: int, event: Event, j: int)
    requires
        0 <= i < loops.len(),
        0 <= j < loops.len(),
        i != j,
    ensures
        Poller::advanced(loops, i, event).len() == loops.len(),
        Poller::advanced(loops, i, event)[j] == loops[j],
        Poller::advanced(loops, i, event)[j].phase is Stopped <==> loops[j].phase is Stopped,
{
}

/// The supervisor of the fleet: it starts one polling loop for each
/// vehicle, all of them with its configuration.
#[derive(Clone, Copy, Debug)]
pub struct Poller {
    pub config: PollConfig,
}

impl Poller {
    /// The loops that the supervisor starts for a fleet listing: one for
    /// each vehicle, in the order of the listing.
    pub open spec fn jobs(self, vehicles: Seq<Vehicle>) -> Seq<PollLoop> {
        Seq::new(vehicles.len(), |i: int| PollLoop::initial(vehicles[i], self.config))
    }

    /// The supervisor with the standard configuration.
    pub fn fairing() -> (p: Poller)
        ensures
            p.config == PollConfig::standard(),
            p.config.wf(),
    {
        Poller { config: PollConfig::default() }
    }

    /// The supervisor with a configuration of the caller's, if it is well
    /// formed.
    pub fn with_config(config: PollConfig) -> (p: Option<Poller>)
        ensures
            p == if config.wf() {
                Some(Poller { config })
            } else {
                None
            },
    {
        if config.is_valid() {
            Some(Poller { config })
        } else {
            None
        }
    }

    /// The loops of a fleet after one of them has taken an event: that
    /// loop has made its step, and every other loop is as it was.
    pub open spec fn advanced(loops: Seq<PollLoop>, i: int, event: Event) -> Seq<PollLoop> {
        loops.update(i, loops[i].next(event).0)
    }

    /// Hands an event to one loop of a fleet and says what that loop asks
    /// for next. No other loop is touched.
    pub fn step_job(loops: &mut Vec<PollLoop>, i: usize, event: Event) -> (action: Action)
        requires
            i < old(loops).len(),
            old(loops)[i as int].wf(),
        ensures
            final(loops)@ == Self::advanced(old(loops)@, i as int, event),
            action == old(loops)[i as int].next(event).1,
            final(loops)[i as int].wf(),
    {
        let job = &mut loops[i];
        job.step(event)
    }

    /// Starts one polling loop for each vehicle of the fleet listing. A
    /// listing that failed starts none.
    pub fn start_jobs(&self, listing: &Result<Vec<Vehicle>, TeslaApiError>) -> (loops: Vec<
        PollLoop,
    >)
        requires
            self.config.wf(),
        ensures
            loops@ == match *listing {
                Ok(vehicles) => self.jobs(vehicles@),
                Err(_) => Seq::empty(),
            },
            forall|i: int| 0 <= i < loops.len() ==> (#[trigger] loops[i]).wf(),
    {
        let mut loops: Vec<PollLoop> = Vec::new();
        match listing {
            Ok(vehicles) => {
                let mut i: usize = 0;
                while i < vehicles.len()
                    invariant
                        self.config.wf(),
                        i <= vehicles.len(),
                        loops@ == self.jobs(vehicles@.take(i as int)),
                        forall|k: int| 0 <= k < loops.len() ==> (#[trigger] loops[k]).wf(),
                    decreases vehicles.len() - i,
                {
                    let job = PollLoop::new(&vehicles[i], self.config);
                    loops.push(job);
                    i += 1;
                }
            },
            Err(_) => {},
        }
        loops
    }
}

} // verus!
