//! Values exchanged with the telemetry service.

use crate::text::{debug_text, quoted, text_is, text_starts_with};
use vstd::prelude::*;
use vstd::string::*;

verus! {

/// The marker that opens the error text of a vehicle that cannot be reached.
pub open spec fn unavailable_marker() -> Seq<char> {
    "vehicle unavailable:"@
}

/// The state text of a vehicle that is online.
pub open spec fn online_text() -> Seq<char> {
    "online"@
}

/// The state text of a vehicle that is asleep.
pub open spec fn asleep_text() -> Seq<char> {
    "asleep"@
}

/// The number that stands for a shift position: reverse is -1, park 0,
/// neutral 1, drive 2; an absent or unknown position counts as park.
pub open spec fn shift_value(shift: Option<Seq<char>>) -> int {
    match shift {
        Some(s) => if s == "R"@ {
            -1
        } else if s == "P"@ {
            0
        } else if s == "N"@ {
            1
        } else if s == "D"@ {
            2
        } else {
            0
        },
        None => 0,
    }
}

/// A double-precision reading, held as its IEEE 754 bit pattern.
#[derive(Clone, Copy, Debug, PartialEq, Eq, Structural)]
pub struct Reading {
    pub bits: u64,
}

impl Reading {
    /// Whether the sign bit is set.
    pub open spec fn negative(self) -> bool {
        self.bits & 0x8000_0000_0000_0000u64 != 0
    }

    /// Whether the reading is a zero, of either sign.
    pub open spec fn is_zero(self) -> bool {
        self.bits & 0x7FFF_FFFF_FFFF_FFFFu64 == 0
    }

    /// Whether the reading is no number: all exponent bits are set and the
    /// fraction is not zero.
    pub open spec fn is_nan(self) -> bool {
        self.bits & 0x7FF0_0000_0000_0000u64 == 0x7FF0_0000_0000_0000u64 && self.bits
            & 0x000F_FFFF_FFFF_FFFFu64 != 0
    }

    /// Whether the reading compares greater than zero: it is a number, it
    /// is not zero and its sign bit is clear.
    pub open spec fn positive(self) -> bool {
        !self.is_nan() && !self.is_zero() && !self.negative()
    }

    /// The reading with the given bit pattern.
    pub fn from_bits(bits: u64) -> (r: Reading)
        ensures
            r.bits == bits,
    {
        Reading { bits }
    }

    /// The bit pattern of the reading.
    pub fn to_bits(&self) -> (bits: u64)
        ensures
            bits == self.bits,
    {
        self.bits
    }

    /// The reading of positive zero.
    pub fn zero() -> (r: Reading)
        ensures
            r.bits == 0,
            r.is_zero(),
            !r.negative(),
    {
        assert(0u64 & 0x7FFF_FFFF_FFFF_FFFFu64 == 0) by (bit_vector);
        assert(0u64 & 0x8000_0000_0000_0000u64 == 0) by (bit_vector);
        Reading { bits: 0 }
    }

    /// Whether the reading compares greater than zero.
    pub fn is_positive(&self) -> (b: bool)
        ensures
            b == self.positive(),
    {
        let bits = self.bits;
        assert((0 < bits && bits <= 0x7FF0_0000_0000_0000u64) <==> !(bits
            & 0x7FF0_0000_0000_0000u64 == 0x7FF0_0000_0000_0000u64 && bits
            & 0x000F_FFFF_FFFF_FFFFu64 != 0) && !(bits & 0x7FFF_FFFF_FFFF_FFFFu64 == 0) && !(bits
            & 0x8000_0000_0000_0000u64 != 0)) by (bit_vector);
        0 < bits && bits <= 0x7FF0_0000_0000_0000u64
    }
}

/// The body that the service sends with a failure status: its text as it
/// came, and the error and the description that it holds. A body that has
/// not the shape of an error reply has both empty.
#[derive(Debug, Clone, PartialEq)]
pub struct ErrorReply {
    pub error: String,
    pub error_description: String,
    pub body: String,
}

impl ErrorReply {
    /// Whether the reply says that the vehicle cannot be reached.
    pub open spec fn unavailable(self) -> bool {
        unavailable_marker().is_prefix_of(self.error@)
    }

    /// The reply that a body stands for: the text of the body, with the
    /// error and the description that were read from it, or with both
    /// empty where the body has not the shape of an error reply.
    pub fn of_body(body: String, decoded: Option<(String, String)>) -> (r: ErrorReply)
        ensures
            r.body == body,
            match decoded {
                Some(fields) => r.error == fields.0 && r.error_description == fields.1,
                None => r.error@ == Seq::<char>::empty() && r.error_description@ == Seq::<
                    char,
                >::empty(),
            },
            decoded is None ==> !r.unavailable(),
    {
        proof {
            reveal_strlit("vehicle unavailable:");
        }
        match decoded {
            Some(fields) => ErrorReply { error: fields.0, error_description: fields.1, body },
            None => ErrorReply { error: String::new(), error_description: String::new(), body },
        }
    }

    /// The reply as `Debug` shows it.
    pub open spec fn debug_view(self) -> Seq<char> {
        "ErrorReply { error: "@ + debug_text(self.error@) + ", error_description: "@ + debug_text(
            self.error_description@,
        ) + ", body: "@ + debug_text(self.body@) + " }"@
    }

    /// The reply as `Debug` shows it.
    pub fn debug(&self) -> (r: String)
        ensures
            r@ == self.debug_view(),
    {
        let mut r = String::from_str("ErrorReply { error: ");
        r.append(quoted(&self.error).as_str());
        r.append(", error_description: ");
        r.append(quoted(&self.error_description).as_str());
        r.append(", body: ");
        r.append(quoted(&self.body).as_str());
        r.append(" }");
        r
    }
}

/// What can go wrong in a call to the service.
#[derive(Debug, PartialEq)]
pub enum TeslaApiError {
    /// The service refused the credential.
    LoginFailure,
    /// The vehicle is asleep or out of connectivity.
    VehicleUnavailable(),
    /// The vehicle did not come online within the attempts allowed.
    WakeTimeout(),
    /// The service reported a failure of another kind; the reply carries
    /// the body's text.
    UnknownApiError(ErrorReply),
    /// The body of a successful reply did not have the expected shape.
    JsonDeserializationError(String),
    /// The request did not reach the service, or no reply came back.
    Unknown,
    /// The service blocked the request.
    Blocked(String),
}

impl TeslaApiError {
    /// The error that a failure body stands for.
    pub open spec fn of_reply(reply: ErrorReply) -> TeslaApiError {
        if reply.unavailable() {
            TeslaApiError::VehicleUnavailable()
        } else {
            TeslaApiError::UnknownApiError(reply)
        }
    }

    /// The text of the error's message.
    pub open spec fn message_view(self) -> Seq<char> {
        match self {
            TeslaApiError::LoginFailure => "Failed to login"@,
            TeslaApiError::VehicleUnavailable() => "Request Timeout vehicle unavailable"@,
            TeslaApiError::WakeTimeout() => "Cannot wake vehicle"@,
            TeslaApiError::UnknownApiError(reply) => "Unknown Tesla API Error: "@
                + reply.debug_view(),
            TeslaApiError::JsonDeserializationError(text) => "Failed to deserialize JSON: "@
                + debug_text(text@),
            TeslaApiError::Unknown => "Unknown Error"@,
            TeslaApiError::Blocked(text) => "Request was blocked: "@ + debug_text(text@),
        }
    }

    /// The error's message, as it is shown to a reader.
    pub fn message(&self) -> (r: String)
        ensures
            r@ == self.message_view(),
    {
        match self {
            TeslaApiError::LoginFailure => String::from_str("Failed to login"),
            TeslaApiError::VehicleUnavailable() => String::from_str(
                "Request Timeout vehicle unavailable",
            ),
            TeslaApiError::WakeTimeout() => String::from_str("Cannot wake vehicle"),
            TeslaApiError::UnknownApiError(reply) => {
                let r = String::from_str("Unknown Tesla API Error: ");
                r.concat(reply.debug().as_str())
            },
            TeslaApiError::JsonDeserializationError(text) => {
                let r = String::from_str("Failed to deserialize JSON: ");
                r.concat(quoted(text).as_str())
            },
            TeslaApiError::Unknown => String::from_str("Unknown Error"),
            TeslaApiError::Blocked(text) => {
                let r = String::from_str("Request was blocked: ");
                r.concat(quoted(text).as_str())
            },
        }
    }
}

impl From<ErrorReply> for TeslaApiError {
    /// A reply whose error text opens with the marker of an unreachable
    /// vehicle becomes `VehicleUnavailable`; any other reply is carried in
    /// `UnknownApiError`.
    fn from(reply: ErrorReply) -> (e: TeslaApiError) {
        if text_starts_with(&reply.error, "vehicle unavailable:") {
            return TeslaApiError::VehicleUnavailable();
        }
        TeslaApiError::UnknownApiError(reply)
    }
}

impl vstd::std_specs::convert::FromSpecImpl<ErrorReply> for TeslaApiError {
    open spec fn obeys_from_spec() -> bool {
        true
    }

    open spec fn from_spec(reply: ErrorReply) -> TeslaApiError {
        TeslaApiError::of_reply(reply)
    }
}

/// The access and refresh token pair that the service issued.
#[derive(Debug, Clone)]
pub struct AuthToken {
    pub access_token: String,
    pub refresh_token: String,
}

/// A vehicle as the fleet listing shows it.
#[derive(Debug, Clone)]
pub struct Vehicle {
    pub id: i64,
    pub display_name: String,
    pub state: String,
}

impl Vehicle {
    /// Whether the service reports the vehicle as online.
    pub open spec fn online(self) -> bool {
        self.state@ == online_text()
    }

    /// Whether the service reports the vehicle as asleep.
    pub open spec fn asleep(self) -> bool {
        self.state@ == asleep_text()
    }

    /// Whether the service reports the vehicle as online.
    pub fn is_online(&self) -> (b: bool)
        ensures
            b == self.online(),
    {
        text_is(&self.state, "online")
    }

    /// Whether the service reports the vehicle as asleep.
    pub fn is_asleep(&self) -> (b: bool)
        ensures
            b == self.asleep(),
    {
        text_is(&self.state, "asleep")
    }
}

/// What the vehicle reports of its motion.
#[derive(Debug, Clone)]
pub struct VehicleDriveState {
    pub heading: Reading,
    pub latitude: Reading,
    pub longitude: Reading,
    pub power: Reading,
    pub shift_state: Option<String>,
    pub speed: Option<Reading>,
    pub timestamp: i64,
}

impl VehicleDriveState {
    /// The shift position as a text, if the vehicle reports one.
    pub open spec fn shift(self) -> Option<Seq<char>> {
        match self.shift_state {
            Some(s) => Some(s@),
            None => None,
        }
    }

    /// The number that stands for the shift position.
    pub fn shift_state_value(&self) -> (n: i64)
        ensures
            n == shift_value(self.shift()),
    {
        match &self.shift_state {
            Some(s) => {
                if text_is(s, "R") {
                    -1
                } else if text_is(s, "P") {
                    0
                } else if text_is(s, "N") {
                    1
                } else if text_is(s, "D") {
                    2
                } else {
                    0
                }
            },
            None => 0,
        }
    }
}

/// What the vehicle reports of its cabin.
#[derive(Debug, Clone)]
pub struct VehicleClimateState {
    pub driver_temp_setting: Reading,
    pub inside_temp: Reading,
    pub outside_temp: Reading,
    pub passenger_temp_setting: Reading,
    pub timestamp: i64,
}

/// What the vehicle reports of its battery and charger.
#[derive(Debug, Clone)]
pub struct VehicleChargeState {
    pub battery_level: i32,
    pub usable_battery_level: i32,
    pub battery_range: Reading,
    pub charge_rate: Reading,
    pub charger_actual_current: Reading,
    pub charger_power: Reading,
    pub charger_voltage: Reading,
    pub charging_state: String,
    pub est_battery_range: Reading,
    pub fast_charger_present: bool,
    pub ideal_battery_range: Reading,
    pub minutes_to_full_charge: i64,
    pub timestamp: i64,
}

/// What the vehicle reports of itself as a whole.
#[derive(Debug, Clone)]
pub struct VehicleState {
    pub odometer: Reading,
    pub timestamp: i64,
}

/// Everything a vehicle reports at one point in time.
#[derive(Debug, Clone)]
pub struct VehicleData {
    pub id: i64,
    pub display_name: String,
    pub state: String,
    pub drive_state: VehicleDriveState,
    pub climate_state: VehicleClimateState,
    pub charge_state: VehicleChargeState,
    pub vehicle_state: VehicleState,
}

/// The envelope of a successful reply.
#[derive(Debug, Clone)]
pub struct Reply<T> {
    pub response: T,
}

} // verus!
