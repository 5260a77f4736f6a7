//! The gateway client: which requests it makes and how it reads replies.
//!
//! The client sends nothing itself. It describes each call as an
//! [`ApiRequest`], and classifies what came back, handed to it as an
//! [`HttpOutcome`].

use crate::tesla_api_client::dtos::{AuthToken, ErrorReply, Reply, TeslaApiError, Vehicle, VehicleData};
use crate::text::{decimal, signed_text};
use vstd::prelude::*;
use vstd::string::*;

pub mod dtos;

verus! {

/// The address of the telemetry service.
pub const API_URL: &'static str = "https://owner-api.teslamotors.com";

/// The address of the service that issues credentials.
pub const AUTH_API_URL: &'static str = "https://auth.tesla.com";

/// The name by which the client makes itself known to the service.
pub const USER_AGENT: &'static str = "tesla-api-exporter";

/// The seconds after which a read or a write of a request is given up.
pub const TIMEOUT_SECS: u64 = 5;

/// The status with which the service refuses a credential.
pub const STATUS_UNAUTHORIZED: u16 = 401;

/// The status with which the service blocks a client.
pub const STATUS_BLOCKED: u16 = 444;

/// An access and refresh token pair as the caller supplies it.
#[derive(Debug, Clone)]
pub struct Auth {
    pub access_token: String,
    pub refresh_token: String,
}

/// The method of a request.
#[derive(Clone, Copy, Debug, PartialEq, Eq, Structural)]
pub enum Method {
    Get,
    Post,
}

/// A named text: a header of a request, or a field of its body.
#[derive(Debug, Clone, PartialEq)]
pub struct Field {
    pub name: String,
    pub value: String,
}

impl View for Field {
    type V = (Seq<char>, Seq<char>);

    open spec fn view(&self) -> (Seq<char>, Seq<char>) {
        (self.name@, self.value@)
    }
}

/// A call to the service, ready to be sent.
#[derive(Debug, Clone, PartialEq)]
pub struct ApiRequest {
    pub method: Method,
    pub url: String,
    pub headers: Vec<Field>,
    /// The fields of the body, which is sent as one JSON object of texts;
    /// a request without fields has no body.
    pub form: Vec<Field>,
}

/// What a request says, as plain texts.
pub struct RequestView {
    pub method: Method,
    pub url: Seq<char>,
    pub headers: Seq<(Seq<char>, Seq<char>)>,
    pub form: Seq<(Seq<char>, Seq<char>)>,
}

impl View for ApiRequest {
    type V = RequestView;

    open spec fn view(&self) -> RequestView {
        RequestView {
            method: self.method,
            url: self.url@,
            headers: self.headers@.map_values(|f: Field| f@),
            form: self.form@.map_values(|f: Field| f@),
        }
    }
}

/// The headers that every request carries: the bearer credential and the
/// client's name.
pub open spec fn standard_headers(access_token: Seq<char>) -> Seq<(Seq<char>, Seq<char>)> {
    seq![("Authorization"@, "Bearer "@ + access_token), ("User-Agent"@, USER_AGENT@)]
}

/// The fields with which a refreshed credential is asked for.
pub open spec fn refresh_form(refresh_token: Seq<char>) -> Seq<(Seq<char>, Seq<char>)> {
    seq![
        ("grant_type"@, "refresh_token"@),
        ("client_id"@, "ownerapi"@),
        ("scope"@, "openid email offline_access"@),
        ("refresh_token"@, refresh_token),
    ]
}

/// The address of the fleet listing.
pub open spec fn vehicles_url() -> Seq<char> {
    API_URL@ + "/api/1/vehicles"@
}

/// The address of one vehicle.
pub open spec fn vehicle_url(id: int) -> Seq<char> {
    API_URL@ + "/api/1/vehicles/"@ + decimal(id)
}

/// The address of a vehicle's snapshot.
pub open spec fn vehicle_data_url(id: int) -> Seq<char> {
    API_URL@ + "/api/1/vehicles/"@ + decimal(id) + "/vehicle_data"@
}

/// The address at which a vehicle is woken.
pub open spec fn wake_url(id: int) -> Seq<char> {
    API_URL@ + "/api/1/vehicles/"@ + decimal(id) + "/wake_up"@
}

/// The address at which a credential is refreshed.
pub open spec fn refresh_url() -> Seq<char> {
    AUTH_API_URL@ + "/oauth2/v3/token"@
}

/// What came back from a request, as the transport saw it.
#[derive(Debug)]
pub enum HttpOutcome<T> {
    /// A success status, with a body of the expected shape.
    Decoded(T),
    /// A success status, with a body of another shape: the decoder's
    /// complaint and the body's text.
    Malformed { complaint: String, body: String },
    /// A failure status, with the body that came with it, or none where
    /// the body could not be read.
    Status { code: u16, reply: Option<ErrorReply> },
    /// No reply: the request timed out, or the connection failed.
    Transport,
}

/// The error that a failure status stands for. A refused credential is a
/// login failure, whatever came with it. A body that could not be read is
/// a failure of the transport. A blocked request carries the text of its
/// body. Any other status is read from its body: an unreachable vehicle
/// where the error text opens with the marker, else an unknown error that
/// carries the reply, and with it the body's text.
pub open spec fn status_error(code: u16, reply: Option<ErrorReply>) -> TeslaApiError {
    if code == STATUS_UNAUTHORIZED {
        TeslaApiError::LoginFailure
    } else {
        match reply {
            None => TeslaApiError::Unknown,
            Some(r) => if code == STATUS_BLOCKED {
                TeslaApiError::Blocked(r.body)
            } else {
                TeslaApiError::of_reply(r)
            },
        }
    }
}

/// Whether `result` is what the client makes of `outcome`. A decoded body
/// is handed on. A body of another shape is a deserialization error that
/// carries the complaint and the body. A failure status is the error that
/// it stands for. A request without reply is an unknown error.
pub open spec fn handled<T>(outcome: HttpOutcome<T>, result: Result<T, TeslaApiError>) -> bool {
    match outcome {
        HttpOutcome::Decoded(payload) => result == Ok::<T, TeslaApiError>(payload),
        HttpOutcome::Malformed { complaint, body } => match result {
            Err(TeslaApiError::JsonDeserializationError(text)) => text@ == complaint@ + ": "@
                + body@,
            _ => false,
        },
        HttpOutcome::Status { code, reply } => result == Err::<T, TeslaApiError>(
            status_error(code, reply),
        ),
        HttpOutcome::Transport => result == Err::<T, TeslaApiError>(TeslaApiError::Unknown),
    }
}

/// What to do after the reply to a wake request.
#[derive(Debug, PartialEq)]
pub enum WakeStep {
    /// The vehicle is online.
    Online,
    /// The vehicle is not online yet: pause, then ask again.
    Again,
    /// The wake-up has failed.
    Failed(TeslaApiError),
}

/// What follows from the reply to the wake request that was the `made`-th
/// of `allowed`: a vehicle that reports online is awake; one that does not
/// is asked again while requests are left, and has timed out when none is;
/// a request that failed ends the wake-up with its error.
pub open spec fn wake_step(made: u32, allowed: u32, reply: Result<Vehicle, TeslaApiError>)
    -> WakeStep {
    match reply {
        Ok(vehicle) => if vehicle.online() {
            WakeStep::Online
        } else if made < allowed {
            WakeStep::Again
        } else {
            WakeStep::Failed(TeslaApiError::WakeTimeout())
        },
        Err(error) => WakeStep::Failed(error),
    }
}

/// What the fleet-wide fetch does for one vehicle of the listing.
#[derive(Clone, Copy, Debug, PartialEq, Eq, Structural)]
pub struct Visit {
    /// The vehicle's identifier.
    pub id: i64,
    /// Whether the vehicle is woken before its snapshot is fetched.
    pub wake_first: bool,
}

/// The visits of a fleet: one for each vehicle, in the order of the
/// listing. A vehicle that is listed asleep is woken first, and no other.
/// The snapshot of every vehicle is fetched, whatever its wake-up gave.
pub open spec fn visits(vehicles: Seq<Vehicle>) -> Seq<Visit> {
    Seq::new(
        vehicles.len(),
        |i: int| (Visit { id: vehicles[i].id, wake_first: vehicles[i].asleep() }),
    )
}

/// The snapshots among a series of replies, in the order of the replies.
pub open spec fn snapshots(replies: Seq<Result<VehicleData, TeslaApiError>>) -> Seq<VehicleData>
    decreases replies.len(),
{
    if replies.len() == 0 {
        Seq::empty()
    } else {
        let rest = snapshots(replies.drop_last());
        match replies.last() {
            Ok(data) => rest.push(data),
            Err(_) => rest,
        }
    }
}

/// The client of the telemetry service. It holds the credential.
#[derive(Debug, Clone)]
pub struct TeslaApiClient {
    auth_token: AuthToken,
}

impl TeslaApiClient {
    /// The credential that the client holds.
    pub closed spec fn token(self) -> AuthToken {
        self.auth_token
    }

    /// The request that the client makes with a method, for an address and
    /// with the fields of a body.
    pub open spec fn request(
        self,
        method: Method,
        url: Seq<char>,
        form: Seq<(Seq<char>, Seq<char>)>,
    ) -> RequestView {
        RequestView { method, url, headers: standard_headers(self.token().access_token@), form }
    }

    /// A client that holds the given credential.
    pub fn create(auth_token: AuthToken) -> (r: Result<TeslaApiClient, TeslaApiError>)
        ensures
            r is Ok,
            r->Ok_0.token() == auth_token,
    {
        Ok(TeslaApiClient { auth_token })
    }

    /// The access token that the client presents.
    pub fn access_token(&self) -> (t: &String)
        ensures
            *t == self.token().access_token,
    {
        &self.auth_token.access_token
    }

    fn build(&self, method: Method, url: String, form: Vec<Field>) -> (r: ApiRequest)
        ensures
            r@ == self.request(method, url@, form@.map_values(|f: Field| f@)),
    {
        let mut headers: Vec<Field> = Vec::new();
        headers.push(
            Field {
                name: String::from_str("Authorization"),
                value: String::from_str("Bearer ").concat(self.auth_token.access_token.as_str()),
            },
        );
        headers.push(
            Field { name: String::from_str("User-Agent"), value: String::from_str(USER_AGENT) },
        );
        let r = ApiRequest { method, url, headers, form };
        assert(r@.headers =~= standard_headers(self.token().access_token@));
        r
    }

    fn build_plain(&self, method: Method, url: String) -> (r: ApiRequest)
        ensures
            r@ == self.request(method, url@, Seq::empty()),
    {
        let form: Vec<Field> = Vec::new();
        assert(form@.map_values(|f: Field| f@) =~= Seq::<(Seq<char>, Seq<char>)>::empty());
        self.build(method, url, form)
    }

    /// The request that asks for a refreshed credential.
    pub fn refresh_request(&self) -> (r: ApiRequest)
        ensures
            r@ == self.request(
                Method::Post,
                refresh_url(),
                refresh_form(self.token().refresh_token@),
            ),
    {
        let url = String::from_str(AUTH_API_URL).concat("/oauth2/v3/token");
        let mut form: Vec<Field> = Vec::new();
        form.push(
            Field {
                name: String::from_str("grant_type"),
                value: String::from_str("refresh_token"),
            },
        );
        form.push(
            Field { name: String::from_str("client_id"), value: String::from_str("ownerapi") },
        );
        form.push(
            Field {
                name: String::from_str("scope"),
                value: String::from_str("openid email offline_access"),
            },
        );
        form.push(
            Field {
                name: String::from_str("refresh_token"),
                value: self.auth_token.refresh_token.clone(),
            },
        );
        assert(form@.map_values(|f: Field| f@) =~= refresh_form(self.token().refresh_token@));
        self.build(Method::Post, url, form)
    }

    /// Takes the reply to a refresh request: a new credential replaces the
    /// one held, and a failure leaves it as it was.
    pub fn refresh_auth(&mut self, outcome: HttpOutcome<AuthToken>) -> (r: Result<
        (),
        TeslaApiError,
    >)
        ensures
            match r {
                Ok(_) => handled(outcome, Ok(final(self).token())),
                Err(error) => handled(outcome, Err(error)) && final(self).token() == old(
                    self,
                ).token(),
            },
    {
        match Self::handle_result(outcome) {
            Ok(token) => {
                self.auth_token = token;
                Ok(())
            },
            Err(error) => Err(error),
        }
    }

    /// The request that asks for one vehicle of the fleet.
    pub fn fetch_vehicle(&self, vehicle_id: &i64) -> (r: ApiRequest)
        ensures
            r@ == self.request(Method::Get, vehicle_url(*vehicle_id as int), Seq::empty()),
    {
        let url = String::from_str(API_URL).concat("/api/1/vehicles/").concat(
            signed_text(*vehicle_id).as_str(),
        );
        self.build_plain(Method::Get, url)
    }

    /// The request that asks for the fleet listing.
    pub fn fetch_vehicles(&self) -> (r: ApiRequest)
        ensures
            r@ == self.request(Method::Get, vehicles_url(), Seq::empty()),
    {
        let url = String::from_str(API_URL).concat("/api/1/vehicles");
        self.build_plain(Method::Get, url)
    }

    /// The request that asks for a vehicle's snapshot.
    pub fn fetch_vehicle_data(&self, vehicle_id: &i64) -> (r: ApiRequest)
        ensures
            r@ == self.request(Method::Get, vehicle_data_url(*vehicle_id as int), Seq::empty()),
    {
        let url = String::from_str(API_URL).concat("/api/1/vehicles/").concat(
            signed_text(*vehicle_id).as_str(),
        ).concat("/vehicle_data");
        self.build_plain(Method::Get, url)
    }

    /// The request that wakes a vehicle.
    pub fn wake_vehicle(&self, vehicle_id: &i64) -> (r: ApiRequest)
        ensures
            r@ == self.request(Method::Post, wake_url(*vehicle_id as int), Seq::empty()),
    {
        let url = String::from_str(API_URL).concat("/api/1/vehicles/").concat(
            signed_text(*vehicle_id).as_str(),
        ).concat("/wake_up");
        self.build_plain(Method::Post, url)
    }

    /// Classifies what came back from a request.
    pub fn handle_result<T>(outcome: HttpOutcome<T>) -> (r: Result<T, TeslaApiError>)
        ensures
            handled(outcome, r),
    {
        match outcome {
            HttpOutcome::Decoded(payload) => Ok(payload),
            HttpOutcome::Malformed { complaint, body } => {
                let text = complaint.concat(": ").concat(body.as_str());
                Err(TeslaApiError::JsonDeserializationError(text))
            },
            HttpOutcome::Status { code, reply } => {
                if code == STATUS_UNAUTHORIZED {
                    Err(TeslaApiError::LoginFailure)
                } else {
                    match reply {
                        None => Err(TeslaApiError::Unknown),
                        Some(r) => {
                            if code == STATUS_BLOCKED {
                                Err(TeslaApiError::Blocked(r.body))
                            } else {
                                Err(TeslaApiError::from(r))
                            }
                        },
                    }
                }
            },
            HttpOutcome::Transport => Err(TeslaApiError::Unknown),
        }
    }

    /// Classifies what came back from a request whose reply comes in an
    /// envelope, and takes the payload out of it.
    pub fn handle_reply<T>(outcome: HttpOutcome<Reply<T>>) -> (r: Result<T, TeslaApiError>)
        ensures
            match r {
                Ok(payload) => handled(outcome, Ok(Reply { response: payload })),
                Err(error) => handled(outcome, Err(error)),
            },
    {
        match Self::handle_result(outcome) {
            Ok(reply) => Ok(reply.response),
            Err(error) => Err(error),
        }
    }

    /// Decides what follows from the reply to a wake request, the `made`-th
    /// of `allowed`.
    pub fn wake_vehicle_poll(made: u32, allowed: u32, reply: Result<Vehicle, TeslaApiError>) -> (s:
        WakeStep)
        ensures
            s == wake_step(made, allowed, reply),
    {
        match reply {
            Ok(vehicle) => {
                if vehicle.is_online() {
                    WakeStep::Online
                } else if made < allowed {
                    WakeStep::Again
                } else {
                    WakeStep::Failed(TeslaApiError::WakeTimeout())
                }
            },
            Err(error) => WakeStep::Failed(error),
        }
    }

    /// Plans the fleet-wide fetch from the reply to the listing: one visit
    /// for each vehicle, in the order of the listing. It fails only where
    /// the listing failed, and then with the listing's error.
    pub fn fleet_plan(listing: Result<Vec<Vehicle>, TeslaApiError>) -> (plan: Result<
        Vec<Visit>,
        TeslaApiError,
    >)
        ensures
            match listing {
                Ok(vehicles) => plan is Ok && plan->Ok_0@ == visits(vehicles@),
                Err(error) => plan == Err::<Vec<Visit>, TeslaApiError>(error),
            },
    {
        match listing {
            Ok(vehicles) => {
                let mut plan: Vec<Visit> = Vec::new();
                let mut i: usize = 0;
                while i < vehicles.len()
                    invariant
                        i <= vehicles.len(),
                        plan@ == visits(vehicles@.take(i as int)),
                    decreases vehicles.len() - i,
                {
                    plan.push(Visit { id: vehicles[i].id, wake_first: vehicles[i].is_asleep() });
                    i += 1;
                }
                Ok(plan)
            },
            Err(error) => Err(error),
        }
    }

    /// Gathers the snapshots of a fleet from the replies to the fetches,
    /// one for each vehicle: the snapshots that arrived, in the order of
    /// the replies. A vehicle whose fetch failed is left out, and no
    /// other vehicle with it.
    pub fn fetch_all_vehicles_data(replies: Vec<Result<VehicleData, TeslaApiError>>) -> (all: Vec<
        VehicleData,
    >)
        ensures
            all@ == snapshots(replies@),
    {
        let mut replies = replies;
        let ghost given = replies@;
        let mut reversed: Vec<VehicleData> = Vec::new();
        while replies.len() > 0
            invariant
                snapshots(given) == snapshots(replies@) + reversed@.reverse(),
            decreases replies.len(),
        {
            let last = replies.pop();
            if let Some(Ok(data)) = last {
                reversed.push(data);
            }
        }
        let ghost gathered = reversed@;
        let mut all: Vec<VehicleData> = Vec::new();
        while reversed.len() > 0
            invariant
                all@ + reversed@.reverse() == gathered.reverse(),
            decreases reversed.len(),
        {
            let data = reversed.pop();
            if let Some(data) = data {
                all.push(data);
            }
        }
        all
    }
}

/// The snapshots of a fleet are never more than the replies, each of them
/// came with one of the replies, and where every fetch succeeded there is
/// one for each reply.
pub proof fn snapshots_come_from_replies(replies: Seq<Result<VehicleData, TeslaApiError>>)
    ensures
        snapshots(replies).len() <= replies.len(),
        forall|j: int|
            0 <= j < snapshots(replies).len() ==> replies.contains(
                Ok(#[trigger] snapshots(replies)[j]),
            ),
        (forall|i: int| 0 <= i < replies.len() ==> (#[trigger] replies[i]) is Ok) ==> snapshots(
            replies,
        ).len() == replies.len(),
    decreases replies.len(),
{
    if replies.len() > 0 {
        let rest = replies.drop_last();
        snapshots_come_from_replies(rest);
    }
}

/// A refused credential is a login failure for a payload of any type, and
/// whatever came with the status.
pub proof fn refused_credential_is_login_failure<T>(
    reply: Option<ErrorReply>,
    result: Result<T, TeslaApiError>,
)
    requires
        handled(HttpOutcome::<T>::Status { code: STATUS_UNAUTHORIZED, reply }, result),
    ensures
        result == Err::<T, TeslaApiError>(TeslaApiError::LoginFailure),
{
}

/// A failure status other than a refused credential and a blocked request,
/// with a body whose error text opens with the marker of an unreachable
/// vehicle, is `VehicleUnavailable`.
pub proof fn marked_reply_is_vehicle_unavailable<T>(
    code: u16,
    reply: ErrorReply,
    result: Result<T, TeslaApiError>,
)
    requires
        code != STATUS_UNAUTHORIZED,
        code != STATUS_BLOCKED,
        reply.unavailable(),
        handled(HttpOutcome::<T>::Status { code, reply: Some(reply) }, result),
    ensures
        result == Err::<T, TeslaApiError>(TeslaApiError::VehicleUnavailable()),
{
}

/// Any other failure status, again but for a refused credential and a
/// blocked request, is an unknown error that carries the text of the body,
/// whether or not the body has the shape of an error reply.
pub proof fn other_failure_carries_the_body<T>(
    code: u16,
    reply: ErrorReply,
    result: Result<T, TeslaApiError>,
)
    requires
        code != STATUS_UNAUTHORIZED,
        code != STATUS_BLOCKED,
        !reply.unavailable(),
        handled(HttpOutcome::<T>::Status { code, reply: Some(reply) }, result),
    ensures
        result == Err::<T, TeslaApiError>(TeslaApiError::UnknownApiError(reply)),
        result->Err_0->UnknownApiError_0.body == reply.body,
{
}

/// The classification of a failure status is total: every status, with or
/// without a body, stands for exactly one error, and never for a timed-out
/// wake-up or a deserialization error.
pub proof fn failure_status_is_one_error(code: u16, reply: Option<ErrorReply>)
    ensures
        status_error(code, reply) is LoginFailure <==> code == STATUS_UNAUTHORIZED,
        status_error(code, reply) is Unknown <==> code != STATUS_UNAUTHORIZED && reply is None,
        status_error(code, reply) is Blocked <==> code == STATUS_BLOCKED && reply is Some,
        status_error(code, reply) is VehicleUnavailable <==> code != STATUS_UNAUTHORIZED && code
            != STATUS_BLOCKED && reply is Some && reply->0.unavailable(),
        status_error(code, reply) is UnknownApiError <==> code != STATUS_UNAUTHORIZED && code
            != STATUS_BLOCKED && reply is Some && !reply->0.unavailable(),
        !(status_error(code, reply) is WakeTimeout),
        !(status_error(code, reply) is JsonDeserializationError),
{
}

} // verus!
