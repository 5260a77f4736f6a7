//! The gauges that the engine feeds, and the samples that one snapshot
//! yields for them.

use crate::poller::CarState;
use crate::tesla_api_client::dtos::{shift_value, Reading, VehicleData};
use vstd::prelude::*;

verus! {

/// The name of the one label that every gauge has. The label's value is
/// the vehicle's display name.
pub open spec fn label_name() -> Seq<char> {
    "car_name"@
}

/// The name of the one label that every gauge has.
pub fn label() -> (r: &'static str)
    ensures
        r@ == label_name(),
{
    "car_name"
}

/// A gauge of the metrics sink. Every gauge has the one label `car_name`,
/// whose value is the vehicle's display name.
#[derive(Clone, Copy, Debug, PartialEq, Eq, Hash, Structural)]
pub enum Gauge {
    BatteryLevel,
    BatteryRange,
    EstBatteryRange,
    IdealBatteryRange,
    ChargerVoltage,
    ChargerPower,
    ChargerActualCurrent,
    MinutesToFullCharge,
    ChargeRate,
    Speed,
    Power,
    Odometer,
    InsideTemp,
    OutsideTemp,
    DriverTempSetting,
    PassengerTempSetting,
    Latitude,
    Longitude,
    Heading,
    CarState,
    Online,
    ShiftState,
}

impl Gauge {
    /// The name under which the gauge is exposed.
    pub open spec fn name_view(self) -> Seq<char> {
        match self {
            Gauge::BatteryLevel => "tesla_charge_state_battery_level"@,
            Gauge::BatteryRange => "tesla_charge_state_battery_range"@,
            Gauge::EstBatteryRange => "tesla_charge_state_est_battery_range"@,
            Gauge::IdealBatteryRange => "tesla_charge_state_ideal_battery_range"@,
            Gauge::ChargerVoltage => "tesla_charge_state_charger_voltage"@,
            Gauge::ChargerPower => "tesla_charge_state_charger_power"@,
            Gauge::ChargerActualCurrent => "tesla_charge_state_charger_actual_current"@,
            Gauge::MinutesToFullCharge => "tesla_charge_state_minutes_to_full_charge"@,
            Gauge::ChargeRate => "tesla_charge_state_charge_rate"@,
            Gauge::Speed => "tesla_drive_state_speed"@,
            Gauge::Power => "tesla_drive_state_power"@,
            Gauge::Odometer => "tesla_vehicle_state_odometer"@,
            Gauge::InsideTemp => "tesla_climate_state_inside_temp"@,
            Gauge::OutsideTemp => "tesla_climate_state_outside_temp"@,
            Gauge::DriverTempSetting => "tesla_climate_state_driver_temp_setting"@,
            Gauge::PassengerTempSetting => "tesla_climate_state_passenger_temp_setting"@,
            Gauge::Latitude => "tesla_drive_state_latitude"@,
            Gauge::Longitude => "tesla_drive_state_longitude"@,
            Gauge::Heading => "tesla_drive_state_heading"@,
            Gauge::CarState => "tesla_car_state"@,
            Gauge::Online => "tesla_is_online"@,
            Gauge::ShiftState => "tesla_drive_state_shift_state"@,
        }
    }

    /// The line that describes the gauge to a reader of the exposition.
    pub open spec fn help_view(self) -> Seq<char> {
        match self {
            Gauge::BatteryLevel => "Battery Level (%)"@,
            Gauge::BatteryRange => "Battery Range (Miles)"@,
            Gauge::EstBatteryRange => "Estimated Battery Range (Miles)"@,
            Gauge::IdealBatteryRange => "Ideal Battery Range (Miles)"@,
            Gauge::ChargerVoltage => "Charger Voltage"@,
            Gauge::ChargerPower => "Charger Power"@,
            Gauge::ChargerActualCurrent => "Charger Actual Current"@,
            Gauge::MinutesToFullCharge => "Time to Full Charge"@,
            Gauge::ChargeRate => "Battery Charge Rate"@,
            Gauge::Speed => "Vehicle speed (MPH)"@,
            Gauge::Power => "Vehicle Power"@,
            Gauge::Odometer => "Vehicle odometer (Miles)"@,
            Gauge::InsideTemp => "Inside Temperature (DegC)"@,
            Gauge::OutsideTemp => "Outside Temperature (DegC)"@,
            Gauge::DriverTempSetting => "Driver's Temperature Setting (DegC)"@,
            Gauge::PassengerTempSetting => "Passenger's Temperature Setting (DegC)"@,
            Gauge::Latitude => "Vehicle Latitude"@,
            Gauge::Longitude => "Vehicle Longitude"@,
            Gauge::Heading => "Vehicle Heading"@,
            Gauge::CarState => "Car State"@,
            Gauge::Online => "Is vehicle online"@,
            Gauge::ShiftState => "Vehicle Shift State"@,
        }
    }

    /// The names of the gauge's labels: the one label that every gauge has.
    pub open spec fn label_names(self) -> Seq<Seq<char>> {
        seq![label_name()]
    }

    /// Whether the gauge holds whole numbers. The other gauges hold
    /// double-precision readings.
    pub open spec fn integral(self) -> bool {
        match self {
            Gauge::BatteryLevel => true,
            Gauge::MinutesToFullCharge => true,
            Gauge::CarState => true,
            Gauge::Online => true,
            Gauge::ShiftState => true,
            _ => false,
        }
    }

    /// The name under which the gauge is exposed.
    pub fn name(&self) -> (r: &'static str)
        ensures
            r@ == self.name_view(),
    {
        match self {
            Gauge::BatteryLevel => "tesla_charge_state_battery_level",
            Gauge::BatteryRange => "tesla_charge_state_battery_range",
            Gauge::EstBatteryRange => "tesla_charge_state_est_battery_range",
            Gauge::IdealBatteryRange => "tesla_charge_state_ideal_battery_range",
            Gauge::ChargerVoltage => "tesla_charge_state_charger_voltage",
            Gauge::ChargerPower => "tesla_charge_state_charger_power",
            Gauge::ChargerActualCurrent => "tesla_charge_state_charger_actual_current",
            Gauge::MinutesToFullCharge => "tesla_charge_state_minutes_to_full_charge",
            Gauge::ChargeRate => "tesla_charge_state_charge_rate",
            Gauge::Speed => "tesla_drive_state_speed",
            Gauge::Power => "tesla_drive_state_power",
            Gauge::Odometer => "tesla_vehicle_state_odometer",
            Gauge::InsideTemp => "tesla_climate_state_inside_temp",
            Gauge::OutsideTemp => "tesla_climate_state_outside_temp",
            Gauge::DriverTempSetting => "tesla_climate_state_driver_temp_setting",
            Gauge::PassengerTempSetting => "tesla_climate_state_passenger_temp_setting",
            Gauge::Latitude => "tesla_drive_state_latitude",
            Gauge::Longitude => "tesla_drive_state_longitude",
            Gauge::Heading => "tesla_drive_state_heading",
            Gauge::CarState => "tesla_car_state",
            Gauge::Online => "tesla_is_online",
            Gauge::ShiftState => "tesla_drive_state_shift_state",
        }
    }

    /// The line that describes the gauge to a reader of the exposition.
    pub fn help(&self) -> (r: &'static str)
        ensures
            r@ == self.help_view(),
    {
        match self {
            Gauge::BatteryLevel => "Battery Level (%)",
            Gauge::BatteryRange => "Battery Range (Miles)",
            Gauge::EstBatteryRange => "Estimated Battery Range (Miles)",
            Gauge::IdealBatteryRange => "Ideal Battery Range (Miles)",
            Gauge::ChargerVoltage => "Charger Voltage",
            Gauge::ChargerPower => "Charger Power",
            Gauge::ChargerActualCurrent => "Charger Actual Current",
            Gauge::MinutesToFullCharge => "Time to Full Charge",
            Gauge::ChargeRate => "Battery Charge Rate",
            Gauge::Speed => "Vehicle speed (MPH)",
            Gauge::Power => "Vehicle Power",
            Gauge::Odometer => "Vehicle odometer (Miles)",
            Gauge::InsideTemp => "Inside Temperature (DegC)",
            Gauge::OutsideTemp => "Outside Temperature (DegC)",
            Gauge::DriverTempSetting => "Driver's Temperature Setting (DegC)",
            Gauge::PassengerTempSetting => "Passenger's Temperature Setting (DegC)",
            Gauge::Latitude => "Vehicle Latitude",
            Gauge::Longitude => "Vehicle Longitude",
            Gauge::Heading => "Vehicle Heading",
            Gauge::CarState => "Car State",
            Gauge::Online => "Is vehicle online",
            Gauge::ShiftState => "Vehicle Shift State",
        }
    }

    /// The names of the gauge's labels.
    pub fn labels(&self) -> (names: Vec<&'static str>)
        ensures
            names@.map_values(|n: &'static str| n@) == self.label_names(),
    {
        let mut names: Vec<&'static str> = Vec::new();
        names.push(label());
        names
    }

    /// Whether the gauge holds whole numbers.
    pub fn is_integral(&self) -> (b: bool)
        ensures
            b == self.integral(),
    {
        match self {
            Gauge::BatteryLevel => true,
            Gauge::MinutesToFullCharge => true,
            Gauge::CarState => true,
            Gauge::Online => true,
            Gauge::ShiftState => true,
            _ => false,
        }
    }
}

/// The gauges in the order in which they are registered.
pub open spec fn registered() -> Seq<Gauge> {
    seq![
        Gauge::BatteryLevel,
        Gauge::BatteryRange,
        Gauge::EstBatteryRange,
        Gauge::IdealBatteryRange,
        Gauge::ChargerVoltage,
        Gauge::ChargerPower,
        Gauge::ChargerActualCurrent,
        Gauge::MinutesToFullCharge,
        Gauge::ChargeRate,
        Gauge::Speed,
        Gauge::Power,
        Gauge::Odometer,
        Gauge::InsideTemp,
        Gauge::OutsideTemp,
        Gauge::DriverTempSetting,
        Gauge::PassengerTempSetting,
        Gauge::Latitude,
        Gauge::Longitude,
        Gauge::Heading,
        Gauge::CarState,
        Gauge::Online,
        Gauge::ShiftState,
    ]
}

/// The gauges that a sink has to register before the first sample arrives:
/// each of them once, no two under one name, and each with the one label
/// `car_name`.
pub fn register() -> (gauges: Vec<Gauge>)
    ensures
        gauges@ == registered(),
        gauges@.no_duplicates(),
        forall|i: int|
            0 <= i < gauges.len() ==> (#[trigger] gauges[i]).label_names() == seq![label_name()],
        forall|i: int, j: int|
            0 <= i < j < gauges.len() ==> (#[trigger] gauges[i]).name_view() != (
            #[trigger] gauges[j]).name_view(),
{
    let mut gauges: Vec<Gauge> = Vec::new();
    gauges.push(Gauge::BatteryLevel);
    gauges.push(Gauge::BatteryRange);
    gauges.push(Gauge::EstBatteryRange);
    gauges.push(Gauge::IdealBatteryRange);
    gauges.push(Gauge::ChargerVoltage);
    gauges.push(Gauge::ChargerPower);
    gauges.push(Gauge::ChargerActualCurrent);
    gauges.push(Gauge::MinutesToFullCharge);
    gauges.push(Gauge::ChargeRate);
    gauges.push(Gauge::Speed);
    gauges.push(Gauge::Power);
    gauges.push(Gauge::Odometer);
    gauges.push(Gauge::InsideTemp);
    gauges.push(Gauge::OutsideTemp);
    gauges.push(Gauge::DriverTempSetting);
    gauges.push(Gauge::PassengerTempSetting);
    gauges.push(Gauge::Latitude);
    gauges.push(Gauge::Longitude);
    gauges.push(Gauge::Heading);
    gauges.push(Gauge::CarState);
    gauges.push(Gauge::Online);
    gauges.push(Gauge::ShiftState);
    proof {
        assert forall|i: int, j: int| 0 <= i < j < gauges.len() implies (
        #[trigger] gauges[i]).name_view() != (#[trigger] gauges[j]).name_view() by {
            gauge_names_are_distinct(gauges[i], gauges[j]);
        }
    }
    gauges
}

/// Every gauge is registered, and none of them twice.
pub proof fn every_gauge_is_registered_once(g: Gauge)
    ensures
        registered().contains(g),
        registered().no_duplicates(),
{
}

/// The length of a text and its third character from the end.
spec fn mark(s: Seq<char>) -> (nat, char) {
    (s.len(), s[s.len() - 3])
}

/// The length of a gauge's name and its third character from the end:
/// between them they tell every name from every other.
spec fn name_mark(g: Gauge) -> (nat, char) {
    match g {
        Gauge::BatteryLevel => (32, 'v'),
        Gauge::BatteryRange => (32, 'n'),
        Gauge::EstBatteryRange => (36, 'n'),
        Gauge::IdealBatteryRange => (38, 'n'),
        Gauge::ChargerVoltage => (34, 'a'),
        Gauge::ChargerPower => (32, 'w'),
        Gauge::ChargerActualCurrent => (41, 'e'),
        Gauge::MinutesToFullCharge => (41, 'r'),
        Gauge::ChargeRate => (30, 'a'),
        Gauge::Speed => (23, 'e'),
        Gauge::Power => (23, 'w'),
        Gauge::Odometer => (28, 't'),
        Gauge::InsideTemp => (31, 'e'),
        Gauge::OutsideTemp => (32, 'e'),
        Gauge::DriverTempSetting => (39, 'i'),
        Gauge::PassengerTempSetting => (42, 'i'),
        Gauge::Latitude => (26, 'u'),
        Gauge::Longitude => (27, 'u'),
        Gauge::Heading => (25, 'i'),
        Gauge::CarState => (15, 'a'),
        Gauge::Online => (15, 'i'),
        Gauge::ShiftState => (29, 'a'),
    }
}

proof fn names_have_their_marks(g: Gauge)
    ensures
        mark(g.name_view()) == name_mark(g),
{
    reveal_strlit("tesla_charge_state_battery_level");
    reveal_strlit("tesla_charge_state_battery_range");
    reveal_strlit("tesla_charge_state_est_battery_range");
    reveal_strlit("tesla_charge_state_ideal_battery_range");
    reveal_strlit("tesla_charge_state_charger_voltage");
    reveal_strlit("tesla_charge_state_charger_power");
    reveal_strlit("tesla_charge_state_charger_actual_current");
    reveal_strlit("tesla_charge_state_minutes_to_full_charge");
    reveal_strlit("tesla_charge_state_charge_rate");
    reveal_strlit("tesla_drive_state_speed");
    reveal_strlit("tesla_drive_state_power");
    reveal_strlit("tesla_vehicle_state_odometer");
    reveal_strlit("tesla_climate_state_inside_temp");
    reveal_strlit("tesla_climate_state_outside_temp");
    reveal_strlit("tesla_climate_state_driver_temp_setting");
    reveal_strlit("tesla_climate_state_passenger_temp_setting");
    reveal_strlit("tesla_drive_state_latitude");
    reveal_strlit("tesla_drive_state_longitude");
    reveal_strlit("tesla_drive_state_heading");
    reveal_strlit("tesla_car_state");
    reveal_strlit("tesla_is_online");
    reveal_strlit("tesla_drive_state_shift_state");
}

/// No two gauges are exposed under one name.
pub proof fn gauge_names_are_distinct(a: Gauge, b: Gauge)
    requires
        a != b,
    ensures
        a.name_view() != b.name_view(),
{
    names_have_their_marks(a);
    names_have_their_marks(b);
}

/// The value of one sample: a whole number for a gauge that holds whole
/// numbers, a reading for any other.
#[derive(Clone, Copy, Debug, PartialEq, Eq, Structural)]
pub enum GaugeValue {
    Count(i64),
    Measure(Reading),
}

/// One value for one gauge, labelled by the vehicle's display name.
#[derive(Clone, Debug, PartialEq)]
pub struct Sample {
    pub gauge: Gauge,
    pub label: String,
    pub value: GaugeValue,
}

impl Sample {
    /// Whether the value is of the kind that the gauge holds.
    pub open spec fn well_typed(self) -> bool {
        self.gauge.integral() <==> self.value is Count
    }
}

/// The speed of a snapshot; a vehicle that reports none stands still.
pub open spec fn speed_or_zero(v: VehicleData) -> Reading {
    match v.drive_state.speed {
        Some(speed) => speed,
        None => Reading { bits: 0 },
    }
}

/// The samples that a snapshot yields: one for each gauge that shows a
/// field of the snapshot, labelled by the snapshot's display name.
pub open spec fn readings(v: VehicleData) -> Seq<Sample> {
    let label = v.display_name;
    seq![
        Sample {
            gauge: Gauge::BatteryLevel,
            label,
            value: GaugeValue::Count(v.charge_state.battery_level as i64),
        },
        Sample {
            gauge: Gauge::BatteryRange,
            label,
            value: GaugeValue::Measure(v.charge_state.battery_range),
        },
        Sample {
            gauge: Gauge::EstBatteryRange,
            label,
            value: GaugeValue::Measure(v.charge_state.est_battery_range),
        },
        Sample {
            gauge: Gauge::IdealBatteryRange,
            label,
            value: GaugeValue::Measure(v.charge_state.ideal_battery_range),
        },
        Sample {
            gauge: Gauge::MinutesToFullCharge,
            label,
            value: GaugeValue::Count(v.charge_state.minutes_to_full_charge),
        },
        Sample {
            gauge: Gauge::ChargeRate,
            label,
            value: GaugeValue::Measure(v.charge_state.charge_rate),
        },
        Sample {
            gauge: Gauge::ChargerVoltage,
            label,
            value: GaugeValue::Measure(v.charge_state.charger_voltage),
        },
        Sample {
            gauge: Gauge::ChargerPower,
            label,
            value: GaugeValue::Measure(v.charge_state.charger_power),
        },
        Sample {
            gauge: Gauge::ChargerActualCurrent,
            label,
            value: GaugeValue::Measure(v.charge_state.charger_actual_current),
        },
        Sample { gauge: Gauge::Speed, label, value: GaugeValue::Measure(speed_or_zero(v)) },
        Sample { gauge: Gauge::Power, label, value: GaugeValue::Measure(v.drive_state.power) },
        Sample {
            gauge: Gauge::Odometer,
            label,
            value: GaugeValue::Measure(v.vehicle_state.odometer),
        },
        Sample {
            gauge: Gauge::InsideTemp,
            label,
            value: GaugeValue::Measure(v.climate_state.inside_temp),
        },
        Sample {
            gauge: Gauge::OutsideTemp,
            label,
            value: GaugeValue::Measure(v.climate_state.outside_temp),
        },
        Sample {
            gauge: Gauge::DriverTempSetting,
            label,
            value: GaugeValue::Measure(v.climate_state.driver_temp_setting),
        },
        Sample {
            gauge: Gauge::PassengerTempSetting,
            label,
            value: GaugeValue::Measure(v.climate_state.passenger_temp_setting),
        },
        Sample {
            gauge: Gauge::Latitude,
            label,
            value: GaugeValue::Measure(v.drive_state.latitude),
        },
        Sample {
            gauge: Gauge::Longitude,
            label,
            value: GaugeValue::Measure(v.drive_state.longitude),
        },
        Sample {
            gauge: Gauge::Heading,
            label,
            value: GaugeValue::Measure(v.drive_state.heading),
        },
        Sample {
            gauge: Gauge::ShiftState,
            label,
            value: GaugeValue::Count(shift_value(v.drive_state.shift()) as i64),
        },
    ]
}

/// The samples that show a loop's own view of its vehicle: the operating
/// state as a number, and 1 for a vehicle that is online, 0 for any other.
pub open spec fn indicators(label: String, state: CarState, online: bool) -> Seq<Sample> {
    seq![
        Sample { gauge: Gauge::CarState, label, value: GaugeValue::Count(state.indicator() as i64) },
        Sample {
            gauge: Gauge::Online,
            label,
            value: GaugeValue::Count(
                if online {
                    1i64
                } else {
                    0i64
                },
            ),
        },
    ]
}

fn count(gauge: Gauge, label: &String, n: i64) -> (s: Sample)
    ensures
        s == (Sample { gauge, label: *label, value: GaugeValue::Count(n) }),
{
    Sample { gauge, label: label.clone(), value: GaugeValue::Count(n) }
}

fn measure(gauge: Gauge, label: &String, r: Reading) -> (s: Sample)
    ensures
        s == (Sample { gauge, label: *label, value: GaugeValue::Measure(r) }),
{
    Sample { gauge, label: label.clone(), value: GaugeValue::Measure(r) }
}

/// The samples that a snapshot yields for the sink.
pub fn record(vehicle_data: &VehicleData) -> (samples: Vec<Sample>)
    ensures
        samples@ == readings(*vehicle_data),
{
    let v = vehicle_data;
    let label = &v.display_name;
    let speed = match v.drive_state.speed {
        Some(speed) => speed,
        None => Reading::zero(),
    };
    let mut samples: Vec<Sample> = Vec::new();
    samples.push(count(Gauge::BatteryLevel, label, v.charge_state.battery_level as i64));
    samples.push(measure(Gauge::BatteryRange, label, v.charge_state.battery_range));
    samples.push(measure(Gauge::EstBatteryRange, label, v.charge_state.est_battery_range));
    samples.push(measure(Gauge::IdealBatteryRange, label, v.charge_state.ideal_battery_range));
    samples.push(count(Gauge::MinutesToFullCharge, label, v.charge_state.minutes_to_full_charge));
    samples.push(measure(Gauge::ChargeRate, label, v.charge_state.charge_rate));
    samples.push(measure(Gauge::ChargerVoltage, label, v.charge_state.charger_voltage));
    samples.push(measure(Gauge::ChargerPower, label, v.charge_state.charger_power));
    samples.push(
        measure(Gauge::ChargerActualCurrent, label, v.charge_state.charger_actual_current),
    );
    samples.push(measure(Gauge::Speed, label, speed));
    samples.push(measure(Gauge::Power, label, v.drive_state.power));
    samples.push(measure(Gauge::Odometer, label, v.vehicle_state.odometer));
    samples.push(measure(Gauge::InsideTemp, label, v.climate_state.inside_temp));
    samples.push(measure(Gauge::OutsideTemp, label, v.climate_state.outside_temp));
    samples.push(measure(Gauge::DriverTempSetting, label, v.climate_state.driver_temp_setting));
    samples.push(
        measure(Gauge::PassengerTempSetting, label, v.climate_state.passenger_temp_setting),
    );
    samples.push(measure(Gauge::Latitude, label, v.drive_state.latitude));
    samples.push(measure(Gauge::Longitude, label, v.drive_state.longitude));
    samples.push(measure(Gauge::Heading, label, v.drive_state.heading));
    samples.push(count(Gauge::ShiftState, label, v.drive_state.shift_state_value()));
    samples
}

/// The two samples that show a loop's own view of its vehicle.
pub fn record_indicators(label: &String, state: &CarState, online: bool) -> (samples: Vec<Sample>)
    ensures
        samples@ == indicators(*label, *state, online),
{
    let mut samples: Vec<Sample> = Vec::new();
    samples.push(count(Gauge::CarState, label, state.value()));
    samples.push(count(Gauge::Online, label, if online { 1 } else { 0 }));
    samples
}

/// Every sample of a snapshot has a value of the kind that its gauge
/// holds, and goes to a gauge that is registered.
pub proof fn readings_fit_their_gauges(v: VehicleData, i: int)
    requires
        0 <= i < readings(v).len(),
    ensures
        readings(v)[i].well_typed(),
        readings(v)[i].label == v.display_name,
        registered().contains(readings(v)[i].gauge),
{
    every_gauge_is_registered_once(readings(v)[i].gauge);
}

} // verus!
