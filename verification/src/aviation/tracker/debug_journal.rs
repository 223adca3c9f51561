//! The debug journal of the tracker: what it records, and what it leaves out.

use vstd::prelude::*;
use vstd::string::StringExecFns;

use super::{
    FlightIdentifier, FlightModel, IdentifierModel, TargetConfirmation, TrackedFlight,
};
use crate::aviation::types::{
    AircraftModel, AltBaro, AviationstackFlightMetadata, MetadataModel, NearbyAircraft,
};
use crate::decimal::Decimal;
use crate::json;
use crate::json::{Json, JsonModel};
use crate::text::{chars, search, slice};
use crate::time;
use crate::time::Timestamp;

verus! {

/// Daily journal files that are kept on disk.
pub const DEBUG_JOURNAL_KEEP_FILES: usize = 30;

/// Members of an object that are never recorded.
pub open spec fn sensitive(key: Seq<char>) -> bool {
    ||| chars::same_ignoring_case(key, "access_key"@)
    ||| chars::same_ignoring_case(key, "api_key"@)
    ||| chars::same_ignoring_case(key, "authorization"@)
    ||| chars::same_ignoring_case(key, "token"@)
    ||| chars::same_ignoring_case(key, "raw_body"@)
    ||| chars::same_ignoring_case(key, "body"@)
}

/// Whether a member of an object is never recorded.
pub fn is_sensitive_key(key: &str) -> (b: bool)
    ensures
        b == sensitive(key@),
{
    slice::eq_ignoring_case(key, "access_key") || slice::eq_ignoring_case(key, "api_key")
        || slice::eq_ignoring_case(key, "authorization") || slice::eq_ignoring_case(key, "token")
        || slice::eq_ignoring_case(key, "raw_body") || slice::eq_ignoring_case(key, "body")
}

/// `v` with what follows each occurrence of `needle`, in any case, replaced up
/// to the next `&` or the end.
pub open spec fn redacted(v: Seq<char>, needle: Seq<char>) -> Seq<char>
    decreases v.len(),
{
    if needle.len() == 0 {
        v
    } else {
        match search::index_of(chars::ascii_lowered(v), needle) {
            None => v,
            Some(i) => {
                proof {
                    search::lemma_index_of(chars::ascii_lowered(v), needle);
                    search::lemma_index_of(v.skip(i + needle.len()), seq!['&']);
                }
                let end = i + needle.len();
                let rest = v.skip(end);
                match search::index_of(rest, seq!['&']) {
                    Some(amp) => v.take(end) + "<redacted>"@ + redacted(rest.skip(amp), needle),
                    None => v.take(end) + "<redacted>"@,
                }
            },
        }
    }
}

/// `key` and the sign behind it.
pub open spec fn parameter(key: Seq<char>) -> Seq<char> {
    key.push('=')
}

/// A text without the values of the parameters that carry credentials.
pub open spec fn sanitized_text(v: Seq<char>) -> Seq<char> {
    redacted(
        redacted(
            redacted(redacted(v, parameter("access_key"@)), parameter("api_key"@)),
            parameter("token"@),
        ),
        parameter("authorization"@),
    )
}

/// Replaces the values of the parameter `key`, whose name is in lower case and
/// matched in any case, up to the next `&` or the end.
pub fn redact_query_value(value: &str, key: &str) -> (r: String)
    ensures
        r@ == redacted(value@, parameter(key@)),
{
    let mut needle = slice::chars_of(key);
    needle.push('=');
    let v = slice::chars_of(value);
    let lowered = slice::chars_of(slice::to_ascii_lower(value).as_str());
    let mut amp_needle: Vec<char> = Vec::new();
    amp_needle.push('&');
    assert(amp_needle@ =~= seq!['&']);
    let mut out = String::new();
    let mut pos: usize = 0;
    proof {
        assert(v@.skip(0) =~= v@);
        assert(out@ + redacted(v@, needle@) =~= redacted(v@, needle@));
    }
    loop
        invariant
            pos <= v@.len(),
            v@ == value@,
            lowered@ == chars::ascii_lowered(v@),
            needle@ == parameter(key@),
            amp_needle@ == seq!['&'],
            out@ + redacted(v@.skip(pos as int), needle@) == redacted(v@, needle@),
        decreases v@.len() - pos,
    {
        let ghost rest = v@.skip(pos as int);
        assert(chars::ascii_lowered(rest) =~= lowered@.skip(pos as int));
        match search::find_from(&lowered, &needle, pos) {
            None => {
                out.append(slice::text_between(&v, pos, v.len()).as_str());
                assert(v@.subrange(pos as int, v@.len() as int) =~= rest);
                return out;
            },
            Some(i) => {
                assert(i + needle@.len() <= lowered.len());
                let key_end: usize = i + needle.len();
                let ghost end = (i - pos) + needle@.len();
                let ghost tail = rest.skip(end);
                assert(v@.subrange(pos as int, key_end as int) =~= rest.take(end));
                assert(v@.skip(key_end as int) =~= tail);
                let ghost before = out@;
                out.append(slice::text_between(&v, pos, key_end).as_str());
                out.append("<redacted>");
                match search::find_from(&v, &amp_needle, key_end) {
                    Some(amp) => {
                        proof {
                            assert(tail.skip(amp - key_end) =~= v@.skip(amp as int));
                            assert(out@ + redacted(v@.skip(amp as int), needle@) =~= before + (
                            rest.take(end) + "<redacted>"@ + redacted(
                                tail.skip(amp - key_end),
                                needle@,
                            )));
                        }
                        pos = amp;
                    },
                    None => {
                        assert(out@ =~= before + (rest.take(end) + "<redacted>"@));
                        return out;
                    },
                }
            },
        }
    }
}

/// A text without the values of the parameters that carry credentials.
pub fn sanitize_string(value: &str) -> (r: String)
    ensures
        r@ == sanitized_text(value@),
{
    let a = redact_query_value(value, "access_key");
    let b = redact_query_value(a.as_str(), "api_key");
    let c = redact_query_value(b.as_str(), "token");
    redact_query_value(c.as_str(), "authorization")
}

/// A value without sensitive members and without credentials in its texts, at
/// any depth.
pub open spec fn sanitized(j: JsonModel) -> JsonModel
    decreases j,
{
    match j {
        JsonModel::Object(members) => JsonModel::Object(sanitized_members(members)),
        JsonModel::List(items) => JsonModel::List(sanitized_items(items)),
        JsonModel::Text(s) => JsonModel::Text(sanitized_text(s)),
        other => other,
    }
}

pub open spec fn sanitized_items(items: Seq<JsonModel>) -> Seq<JsonModel>
    decreases items,
{
    if items.len() == 0 {
        Seq::empty()
    } else {
        sanitized_items(items.drop_last()).push(sanitized(items.last()))
    }
}

pub open spec fn sanitized_members(members: Seq<(Seq<char>, JsonModel)>) -> Seq<
    (Seq<char>, JsonModel),
>
    decreases members,
{
    if members.len() == 0 {
        Seq::empty()
    } else {
        let rest = sanitized_members(members.drop_last());
        if sensitive(members.last().0) {
            rest
        } else {
            rest.push((members.last().0, sanitized(members.last().1)))
        }
    }
}

/// A value without sensitive members and without credentials in its texts.
pub fn sanitize_value(value: &Json) -> (r: Json)
    ensures
        json::model(r) == sanitized(json::model(*value)),
    decreases value,
{
    match value {
        Json::Object(members) => Json::Object(sanitize_map(members)),
        Json::List(items) => Json::List(sanitize_list(items)),
        Json::Text(s) => Json::Text(sanitize_string(s.as_str())),
        Json::Null => Json::Null,
        Json::Bool(b) => Json::Bool(*b),
        Json::Int(n) => Json::Int(*n),
        Json::Dec(d) => Json::Dec(*d),
    }
}

/// The items of a list, sanitized one by one.
pub fn sanitize_list(items: &Vec<Json>) -> (r: Vec<Json>)
    ensures
        json::list_model(r@) == sanitized_items(json::list_model(items@)),
    decreases items,
{
    let mut out: Vec<Json> = Vec::new();
    let mut i: usize = 0;
    while i < items.len()
        invariant
            i <= items@.len(),
            json::list_model(out@) == sanitized_items(json::list_model(items@.take(i as int))),
        decreases items@.len() - i,
    {
        let item = sanitize_value(&items[i]);
        proof {
            let head = items@.take(i + 1);
            assert(head.drop_last() =~= items@.take(i as int));
            json::lemma_list_push(out@, item);
            assert(json::list_model(head).drop_last() =~= json::list_model(items@.take(i as int)));
        }
        out.push(item);
        i = i + 1;
    }
    assert(items@.take(i as int) =~= items@);
    out
}

/// The members of an object without the sensitive ones.
pub fn sanitize_map(members: &Vec<(String, Json)>) -> (r: Vec<(String, Json)>)
    ensures
        json::members_model(r@) == sanitized_members(json::members_model(members@)),
    decreases members,
{
    let mut out: Vec<(String, Json)> = Vec::new();
    let mut i: usize = 0;
    while i < members.len()
        invariant
            i <= members@.len(),
            json::members_model(out@) == sanitized_members(
                json::members_model(members@.take(i as int)),
            ),
        decreases members@.len() - i,
    {
        proof {
            let head = members@.take(i + 1);
            assert(head.drop_last() =~= members@.take(i as int));
            assert(json::members_model(head).drop_last() =~= json::members_model(
                members@.take(i as int),
            ));
        }
        if !is_sensitive_key(members[i].0.as_str()) {
            let item = sanitize_value(&members[i].1);
            json::put(&mut out, members[i].0.as_str(), item);
        }
        i = i + 1;
    }
    assert(members@.take(i as int) =~= members@);
    out
}

/// What came of a request to a provider.
#[derive(Debug)]
pub struct DebugHttpOutcome {
    pub provider: String,
    pub endpoint_kind: String,
    pub outcome: String,
    pub status: Option<u16>,
}

/// What a request outcome holds.
pub struct HttpOutcomeModel {
    pub provider: Seq<char>,
    pub endpoint_kind: Seq<char>,
    pub outcome: Seq<char>,
    pub status: Option<u16>,
}

impl View for DebugHttpOutcome {
    type V = HttpOutcomeModel;

    open spec fn view(&self) -> HttpOutcomeModel {
        HttpOutcomeModel {
            provider: self.provider@,
            endpoint_kind: self.endpoint_kind@,
            outcome: self.outcome@,
            status: self.status,
        }
    }
}

impl HttpOutcomeModel {
    pub open spec fn of(
        provider: Seq<char>,
        endpoint_kind: Seq<char>,
        outcome: Seq<char>,
        status: Option<u16>,
    ) -> HttpOutcomeModel {
        HttpOutcomeModel { provider, endpoint_kind, outcome, status }
    }

    /// The outcome as a JSON value. Without a status the member is left out.
    pub open spec fn json(self) -> JsonModel {
        let head = seq![
            ("provider"@, JsonModel::Text(self.provider)),
            ("endpoint_kind"@, JsonModel::Text(self.endpoint_kind)),
            ("outcome"@, JsonModel::Text(self.outcome)),
        ];
        JsonModel::Object(
            match self.status {
                Some(n) => head.push(("status"@, JsonModel::Int(n as int))),
                None => head,
            },
        )
    }
}

impl DebugHttpOutcome {
    pub fn client_response(provider: &str, endpoint_kind: &str, status: u16) -> (r: DebugHttpOutcome)
        ensures
            r@ == HttpOutcomeModel::of(provider@, endpoint_kind@, "client_response"@, Some(status)),
    {
        DebugHttpOutcome {
            provider: provider.to_owned(),
            endpoint_kind: endpoint_kind.to_owned(),
            outcome: "client_response".to_owned(),
            status: Some(status),
        }
    }

    pub fn forbidden_parked(provider: &str, endpoint_kind: &str, status: u16) -> (r: DebugHttpOutcome)
        ensures
            r@ == HttpOutcomeModel::of(provider@, endpoint_kind@, "forbidden_parked"@, Some(status)),
    {
        DebugHttpOutcome {
            provider: provider.to_owned(),
            endpoint_kind: endpoint_kind.to_owned(),
            outcome: "forbidden_parked".to_owned(),
            status: Some(status),
        }
    }

    pub fn rate_limited(provider: &str, endpoint_kind: &str) -> (r: DebugHttpOutcome)
        ensures
            r@ == HttpOutcomeModel::of(provider@, endpoint_kind@, "rate_limited"@, Some(429u16)),
    {
        DebugHttpOutcome {
            provider: provider.to_owned(),
            endpoint_kind: endpoint_kind.to_owned(),
            outcome: "rate_limited".to_owned(),
            status: Some(429),
        }
    }

    pub fn success(provider: &str, endpoint_kind: &str) -> (r: DebugHttpOutcome)
        ensures
            r@ == HttpOutcomeModel::of(provider@, endpoint_kind@, "success"@, None),
    {
        DebugHttpOutcome {
            provider: provider.to_owned(),
            endpoint_kind: endpoint_kind.to_owned(),
            outcome: "success".to_owned(),
            status: None,
        }
    }

    pub fn miss(provider: &str, endpoint_kind: &str) -> (r: DebugHttpOutcome)
        ensures
            r@ == HttpOutcomeModel::of(provider@, endpoint_kind@, "miss"@, None),
    {
        DebugHttpOutcome {
            provider: provider.to_owned(),
            endpoint_kind: endpoint_kind.to_owned(),
            outcome: "miss".to_owned(),
            status: None,
        }
    }

    pub fn error(provider: &str, endpoint_kind: &str) -> (r: DebugHttpOutcome)
        ensures
            r@ == HttpOutcomeModel::of(provider@, endpoint_kind@, "error"@, None),
    {
        DebugHttpOutcome {
            provider: provider.to_owned(),
            endpoint_kind: endpoint_kind.to_owned(),
            outcome: "error".to_owned(),
            status: None,
        }
    }

    pub fn timeout(provider: &str, endpoint_kind: &str) -> (r: DebugHttpOutcome)
        ensures
            r@ == HttpOutcomeModel::of(provider@, endpoint_kind@, "timeout"@, None),
    {
        DebugHttpOutcome {
            provider: provider.to_owned(),
            endpoint_kind: endpoint_kind.to_owned(),
            outcome: "timeout".to_owned(),
            status: None,
        }
    }

    /// The outcome as a JSON value.
    pub fn to_json(&self) -> (r: Json)
        ensures
            json::model(r) == self@.json(),
    {
        let mut m: Vec<(String, Json)> = Vec::new();
        json::put(&mut m, "provider", json::text(self.provider.as_str()));
        json::put(&mut m, "endpoint_kind", json::text(self.endpoint_kind.as_str()));
        json::put(&mut m, "outcome", json::text(self.outcome.as_str()));
        if let Some(n) = self.status {
            json::put(&mut m, "status", Json::Int(n as i64));
        }
        assert(JsonModel::Object(json::members_model(m@)) == self@.json()) by {
            let head = seq![
                ("provider"@, JsonModel::Text(self.provider@)),
                ("endpoint_kind"@, JsonModel::Text(self.endpoint_kind@)),
                ("outcome"@, JsonModel::Text(self.outcome@)),
            ];
            assert(Seq::<(Seq<char>, JsonModel)>::empty().push(
                ("provider"@, JsonModel::Text(self.provider@)),
            ).push(("endpoint_kind"@, JsonModel::Text(self.endpoint_kind@))).push(
                ("outcome"@, JsonModel::Text(self.outcome@)),
            ) =~= head);
        }
        Json::Object(m)
    }
}

/// One entry of the journal.
#[derive(Debug)]
pub struct FlightTrackerDebugEvent {
    pub event: String,
    pub ts: Option<String>,
    pub identifier: String,
    pub callsign: Option<String>,
    pub hex: Option<String>,
    pub phase: Option<String>,
    pub target_confirmation: Option<String>,
    /// Further members. Of several with one name the last one counts.
    pub payload: Vec<(String, Json)>,
}

/// What an entry of the journal holds.
#[verifier::ext_equal]
pub struct EventModel {
    pub event: Seq<char>,
    pub ts: Option<Seq<char>>,
    pub identifier: Seq<char>,
    pub callsign: Option<Seq<char>>,
    pub hex: Option<Seq<char>>,
    pub phase: Option<Seq<char>>,
    pub target_confirmation: Option<Seq<char>>,
    pub payload: Seq<(Seq<char>, JsonModel)>,
}

impl View for FlightTrackerDebugEvent {
    type V = EventModel;

    open spec fn view(&self) -> EventModel {
        EventModel {
            event: self.event@,
            ts: slice::opt_text(self.ts),
            identifier: self.identifier@,
            callsign: slice::opt_text(self.callsign),
            hex: slice::opt_text(self.hex),
            phase: slice::opt_text(self.phase),
            target_confirmation: slice::opt_text(self.target_confirmation),
            payload: json::members_model(self.payload@),
        }
    }
}

/// What the entries of a list hold.
pub open spec fn event_models(v: Seq<FlightTrackerDebugEvent>) -> Seq<EventModel> {
    v.map_values(|e: FlightTrackerDebugEvent| e@)
}

impl EventModel {
    /// An entry with nothing but its name and the flight.
    pub open spec fn bare(event: Seq<char>, identifier: Seq<char>) -> EventModel {
        EventModel {
            event,
            ts: None,
            identifier,
            callsign: None,
            hex: None,
            phase: None,
            target_confirmation: None,
            payload: Seq::empty(),
        }
    }

    /// The entry with further members, sanitized. Each takes the place of one
    /// with its name.
    pub open spec fn with_payload(self, members: Seq<(Seq<char>, JsonModel)>) -> EventModel {
        EventModel { payload: json::extended(self.payload, sanitized_members(members)), ..self }
    }

    /// The entry as a JSON object. What is not known is left out, and the
    /// further members follow the others.
    pub open spec fn json(self) -> JsonModel {
        JsonModel::Object(
            seq![("event"@, JsonModel::Text(self.event))] + json::opt_member("ts"@, self.ts)
                + seq![("identifier"@, JsonModel::Text(self.identifier))] + json::opt_member(
                "callsign"@,
                self.callsign,
            ) + json::opt_member("hex"@, self.hex) + json::opt_member("phase"@, self.phase)
                + json::opt_member("target_confirmation"@, self.target_confirmation) + self.payload,
        )
    }
}

impl FlightTrackerDebugEvent {
    /// The entry as a JSON object, which is one line of the journal.
    pub fn into_json(self) -> (r: Json)
        ensures
            json::model(r) == self@.json(),
    {
        let mut m: Vec<(String, Json)> = Vec::new();
        json::put(&mut m, "event", json::text(self.event.as_str()));
        assert(json::members_model(m@) =~= seq![("event"@, JsonModel::Text(self.event@))]);
        json::put_opt(&mut m, "ts", slice::borrow(&self.ts));
        let ghost before = json::members_model(m@);
        json::put(&mut m, "identifier", json::text(self.identifier.as_str()));
        assert(json::members_model(m@) =~= before + seq![
            ("identifier"@, JsonModel::Text(self.identifier@)),
        ]);
        json::put_opt(&mut m, "callsign", slice::borrow(&self.callsign));
        json::put_opt(&mut m, "hex", slice::borrow(&self.hex));
        json::put_opt(&mut m, "phase", slice::borrow(&self.phase));
        json::put_opt(&mut m, "target_confirmation", slice::borrow(&self.target_confirmation));
        let mut payload = self.payload;
        proof {
            json::lemma_members_concat(m@, payload@);
        }
        m.append(&mut payload);
        Json::Object(m)
    }

    pub fn new(event: &str, identifier: &str) -> (r: FlightTrackerDebugEvent)
        ensures
            r@ == EventModel::bare(event@, identifier@),
    {
        let payload: Vec<(String, Json)> = Vec::new();
        assert(json::members_model(payload@) =~= Seq::<(Seq<char>, JsonModel)>::empty());
        FlightTrackerDebugEvent {
            event: event.to_owned(),
            ts: None,
            identifier: identifier.to_owned(),
            callsign: None,
            hex: None,
            phase: None,
            target_confirmation: None,
            payload,
        }
    }

    pub fn callsign(self, callsign: &str) -> (r: FlightTrackerDebugEvent)
        ensures
            r@ == (EventModel { callsign: Some(callsign@), ..self@ }),
    {
        FlightTrackerDebugEvent { callsign: Some(callsign.to_owned()), ..self }
    }

    pub fn callsign_opt(self, callsign: Option<&str>) -> (r: FlightTrackerDebugEvent)
        ensures
            r@ == (EventModel { callsign: slice::opt_str(callsign), ..self@ }),
    {
        FlightTrackerDebugEvent { callsign: slice::own(callsign), ..self }
    }

    pub fn hex(self, hex: &str) -> (r: FlightTrackerDebugEvent)
        ensures
            r@ == (EventModel { hex: Some(hex@), ..self@ }),
    {
        FlightTrackerDebugEvent { hex: Some(hex.to_owned()), ..self }
    }

    pub fn hex_opt(self, hex: Option<&str>) -> (r: FlightTrackerDebugEvent)
        ensures
            r@ == (EventModel { hex: slice::opt_str(hex), ..self@ }),
    {
        FlightTrackerDebugEvent { hex: slice::own(hex), ..self }
    }

    pub fn phase(self, phase: &str) -> (r: FlightTrackerDebugEvent)
        ensures
            r@ == (EventModel { phase: Some(phase@), ..self@ }),
    {
        FlightTrackerDebugEvent { phase: Some(phase.to_owned()), ..self }
    }

    pub fn target_confirmation(self, target_confirmation: &str) -> (r: FlightTrackerDebugEvent)
        ensures
            r@ == (EventModel { target_confirmation: Some(target_confirmation@), ..self@ }),
    {
        FlightTrackerDebugEvent {
            target_confirmation: Some(target_confirmation.to_owned()),
            ..self
        }
    }

    /// Adds members, sanitized. Each takes the place of one with its name.
    pub fn payload(self, members: &Vec<(String, Json)>) -> (r: FlightTrackerDebugEvent)
        ensures
            r@ == self@.with_payload(json::members_model(members@)),
    {
        let mut payload = self.payload;
        json::extend(&mut payload, sanitize_map(members));
        FlightTrackerDebugEvent { payload, ..self }
    }

    /// The entry, stamped with the time of its recording.
    pub fn with_timestamp(self, now: Timestamp) -> (r: FlightTrackerDebugEvent)
        requires
            now.valid(),
        ensures
            r@ == (EventModel { ts: Some(now.rfc3339_view()), ..self@ }),
    {
        FlightTrackerDebugEvent { ts: Some(now.rfc3339()), ..self }
    }
}

/// An instant in RFC 3339, or null.
pub open spec fn opt_time_model(t: Option<Timestamp>) -> JsonModel {
    match t {
        Some(t) => JsonModel::Text(t.rfc3339_view()),
        None => JsonModel::Null,
    }
}

fn opt_time(t: Option<Timestamp>) -> (r: Json)
    requires
        t is Some ==> t->0.valid(),
    ensures
        json::model(r) == opt_time_model(t),
{
    match t {
        Some(t) => Json::Text(t.rfc3339()),
        None => Json::Null,
    }
}

/// The members of a route.
pub open spec fn route_members(f: FlightModel) -> Seq<(Seq<char>, JsonModel)> {
    seq![
        ("origin"@, JsonModel::Text((f.route->0).0)),
        ("destination"@, JsonModel::Text((f.route->0).1)),
        ("destination_coordinates_resolved"@, JsonModel::Bool(f.dest_lat is Some && f.dest_lon is Some)),
    ]
}

/// The route of a flight, or null.
pub open spec fn route_json(f: FlightModel) -> JsonModel {
    if f.route is Some {
        JsonModel::Object(route_members(f))
    } else {
        JsonModel::Null
    }
}

fn route_summary(flight: &TrackedFlight) -> (r: Json)
    ensures
        json::model(r) == route_json(flight@),
{
    match &flight.route {
        Some((origin, destination)) => {
            let mut m: Vec<(String, Json)> = Vec::new();
            json::put(&mut m, "origin", json::text(origin.as_str()));
            json::put(&mut m, "destination", json::text(destination.as_str()));
            json::put(&mut m, "destination_coordinates_resolved", Json::Bool(flight.dest_lat.is_some() && flight.dest_lon.is_some()));
            assert(json::members_model(m@) =~= route_members(flight@));
            Json::Object(m)
        },
        None => Json::Null,
    }
}

/// The members of a metadata summary.
pub open spec fn metadata_members(m: MetadataModel) -> Seq<(Seq<char>, JsonModel)> {
    seq![
        ("flight_iata"@, json::opt_text_model(m.flight_iata)),
        ("flight_icao"@, json::opt_text_model(m.flight_icao)),
        ("departure_iata"@, json::opt_text_model(m.departure_iata)),
        ("arrival_iata"@, json::opt_text_model(m.arrival_iata)),
        ("departure_scheduled"@, opt_time_model(m.departure_scheduled)),
        ("departure_actual"@, opt_time_model(m.departure_actual)),
        ("arrival_actual"@, opt_time_model(m.arrival_actual)),
        ("aircraft_icao24"@, json::opt_text_model(m.aircraft_icao24)),
        ("aircraft_icao"@, json::opt_text_model(m.aircraft_icao)),
    ]
}

fn metadata_summary(metadata: &AviationstackFlightMetadata) -> (r: Json)
    requires
        metadata@.valid(),
    ensures
        json::model(r) == JsonModel::Object(metadata_members(metadata@)),
{
    let mut m: Vec<(String, Json)> = Vec::new();
    json::put(&mut m, "flight_iata", json::opt_text(slice::borrow(&metadata.flight_iata)));
    json::put(&mut m, "flight_icao", json::opt_text(slice::borrow(&metadata.flight_icao)));
    json::put(&mut m, "departure_iata", json::opt_text(slice::borrow(&metadata.departure_iata)));
    json::put(&mut m, "arrival_iata", json::opt_text(slice::borrow(&metadata.arrival_iata)));
    json::put(&mut m, "departure_scheduled", opt_time(metadata.departure_scheduled));
    json::put(&mut m, "departure_actual", opt_time(metadata.departure_actual));
    json::put(&mut m, "arrival_actual", opt_time(metadata.arrival_actual));
    json::put(&mut m, "aircraft_icao24", json::opt_text(slice::borrow(&metadata.aircraft_icao24)));
    json::put(&mut m, "aircraft_icao", json::opt_text(slice::borrow(&metadata.aircraft_icao)));
    assert(json::members_model(m@) =~= metadata_members(metadata@));
    Json::Object(m)
}

/// The altitude that an aircraft reports, as a JSON value.
pub open spec fn altitude_json(a: Option<AltBaro>) -> JsonModel {
    match a {
        Some(AltBaro::Feet(ft)) => JsonModel::Object(seq![("feet"@, JsonModel::Int(ft as int))]),
        Some(AltBaro::Ground) => JsonModel::Text("ground"@),
        None => JsonModel::Null,
    }
}

fn altitude_summary(a: Option<AltBaro>) -> (r: Json)
    ensures
        json::model(r) == altitude_json(a),
{
    match a {
        Some(AltBaro::Feet(ft)) => {
            let mut m: Vec<(String, Json)> = Vec::new();
            json::put(&mut m, "feet", Json::Int(ft));
            assert(json::members_model(m@) =~= seq![("feet"@, JsonModel::Int(ft as int))]);
            Json::Object(m)
        },
        Some(AltBaro::Ground) => json::text("ground"),
        None => Json::Null,
    }
}

/// The members of an aircraft summary.
pub open spec fn aircraft_members(ac: AircraftModel) -> Seq<(Seq<char>, JsonModel)> {
    seq![
        ("hex"@, json::opt_text_model(ac.hex)),
        ("flight"@, json::opt_text_model(ac.callsign())),
        ("aircraft_type"@, json::opt_text_model(ac.t)),
        ("altitude_baro"@, altitude_json(ac.alt_baro)),
        ("lat"@, json::opt_dec_model(ac.lat)),
        ("lon"@, json::opt_dec_model(ac.lon)),
        ("ground_speed_kts"@, json::opt_dec_model(ac.gs)),
        ("baro_rate"@, json::opt_int_model(ac.baro_rate)),
        ("seen_pos"@, json::opt_dec_model(ac.seen_pos)),
    ]
}

fn aircraft_summary(aircraft: &NearbyAircraft) -> (r: Json)
    ensures
        json::model(r) == JsonModel::Object(aircraft_members(aircraft@)),
{
    let callsign = aircraft.aircraft_callsign();
    let mut m: Vec<(String, Json)> = Vec::new();
    json::put(&mut m, "hex", json::opt_text(slice::borrow(&aircraft.hex)));
    json::put(&mut m, "flight", json::opt_text(slice::borrow(&callsign)));
    json::put(&mut m, "aircraft_type", json::opt_text(slice::borrow(&aircraft.t)));
    json::put(&mut m, "altitude_baro", altitude_summary(aircraft.alt_baro));
    json::put(&mut m, "lat", json::opt_dec(aircraft.lat));
    json::put(&mut m, "lon", json::opt_dec(aircraft.lon));
    json::put(&mut m, "ground_speed_kts", json::opt_dec(aircraft.gs));
    json::put(&mut m, "baro_rate", json::opt_int(aircraft.baro_rate));
    json::put(&mut m, "seen_pos", json::opt_dec(aircraft.seen_pos));
    assert(json::members_model(m@) =~= aircraft_members(aircraft@));
    Json::Object(m)
}

/// The members that every entry about a flight has.
pub open spec fn flight_members(f: FlightModel) -> Seq<(Seq<char>, JsonModel)> {
    seq![
        ("tracked_by"@, JsonModel::Text(f.tracked_by)),
        ("route"@, route_json(f)),
        ("scheduled_departure_at"@, opt_time_model(f.scheduled_departure_at)),
        ("aircraft_type"@, json::opt_text_model(f.aircraft_type)),
    ]
}

impl FlightModel {
    /// An entry about the flight.
    pub open spec fn event(self, name: Seq<char>) -> EventModel {
        EventModel {
            callsign: self.callsign,
            hex: self.hex,
            phase: Some(self.phase.name()),
            target_confirmation: Some(self.target_confirmation.name()),
            ..EventModel::bare(name, self.identifier.text())
        }.with_payload(flight_members(self))
    }
}

/// What an entry about a poll records.
pub struct AdsbPollDebugInput<'a> {
    pub lookup_mode: &'a str,
    pub aliases: &'a Vec<String>,
    pub outcome: &'a str,
    pub aircraft: Option<&'a NearbyAircraft>,
    pub direct_target_confirmed: Option<bool>,
    pub sticky_confirmation: Option<bool>,
    pub phase_sample_eligible: Option<bool>,
    pub last_seen_age_secs: Option<i64>,
}

/// What an entry about a poll is to record.
pub struct PollInputModel {
    pub lookup_mode: Seq<char>,
    pub aliases: Seq<Seq<char>>,
    pub outcome: Seq<char>,
    pub aircraft: Option<AircraftModel>,
    pub direct_target_confirmed: Option<bool>,
    pub sticky_confirmation: Option<bool>,
    pub phase_sample_eligible: Option<bool>,
    pub last_seen_age_secs: Option<i64>,
}

impl<'a> View for AdsbPollDebugInput<'a> {
    type V = PollInputModel;

    open spec fn view(&self) -> PollInputModel {
        PollInputModel {
            lookup_mode: self.lookup_mode@,
            aliases: slice::texts(self.aliases@),
            outcome: self.outcome@,
            aircraft: match self.aircraft {
                Some(ac) => Some(ac@),
                None => None,
            },
            direct_target_confirmed: self.direct_target_confirmed,
            sticky_confirmation: self.sticky_confirmation,
            phase_sample_eligible: self.phase_sample_eligible,
            last_seen_age_secs: self.last_seen_age_secs,
        }
    }
}

/// The members of an entry about a poll.
pub open spec fn poll_members(input: PollInputModel) -> Seq<(Seq<char>, JsonModel)> {
    seq![
        ("lookup_mode"@, JsonModel::Text(input.lookup_mode)),
        ("aliases"@, JsonModel::List(input.aliases.map_values(|s: Seq<char>| JsonModel::Text(s)))),
        ("outcome"@, JsonModel::Text(input.outcome)),
        ("selected_aircraft"@, match input.aircraft {
            Some(ac) => JsonModel::Object(aircraft_members(ac)),
            None => JsonModel::Null,
        }),
        ("direct_target_confirmed"@, json::opt_bool_model(input.direct_target_confirmed)),
        ("sticky_confirmation"@, json::opt_bool_model(input.sticky_confirmation)),
        ("phase_sample_eligible"@, json::opt_bool_model(input.phase_sample_eligible)),
        ("last_seen_age_secs"@, json::opt_int_model(input.last_seen_age_secs)),
    ]
}

/// What an entry about a possible diversion records. Angles are in degrees.
#[derive(Clone, Copy, Debug)]
pub struct DiversionDebugInput {
    pub previous_lat: Decimal,
    pub previous_lon: Decimal,
    pub current_lat: Decimal,
    pub current_lon: Decimal,
    pub destination_lat: Decimal,
    pub destination_lon: Decimal,
    pub ground_track: Decimal,
    pub bearing_to_dest: Decimal,
    pub diff: Decimal,
    pub threshold: Decimal,
    pub anomalous: bool,
    pub counter_before: u32,
    pub counter_after: u32,
    pub alert_emitted: bool,
}

/// A position as a JSON value.
pub open spec fn position_json(lat: Decimal, lon: Decimal) -> JsonModel {
    JsonModel::Object(seq![("lat"@, JsonModel::Dec(lat)), ("lon"@, JsonModel::Dec(lon))])
}

fn position(lat: Decimal, lon: Decimal) -> (r: Json)
    ensures
        json::model(r) == position_json(lat, lon),
{
    let mut m: Vec<(String, Json)> = Vec::new();
    json::put(&mut m, "lat", Json::Dec(lat));
    json::put(&mut m, "lon", Json::Dec(lon));
    assert(json::members_model(m@) =~= seq![
        ("lat"@, JsonModel::Dec(lat)),
        ("lon"@, JsonModel::Dec(lon)),
    ]);
    Json::Object(m)
}

/// The members of an entry about a possible diversion.
pub open spec fn diversion_members(input: DiversionDebugInput) -> Seq<(Seq<char>, JsonModel)> {
    seq![
        ("previous_position"@, position_json(input.previous_lat, input.previous_lon)),
        ("current_position"@, position_json(input.current_lat, input.current_lon)),
        ("destination_position"@, position_json(input.destination_lat, input.destination_lon)),
        ("ground_track"@, JsonModel::Dec(input.ground_track)),
        ("bearing_to_dest"@, JsonModel::Dec(input.bearing_to_dest)),
        ("diff"@, JsonModel::Dec(input.diff)),
        ("threshold"@, JsonModel::Dec(input.threshold)),
        ("anomalous"@, JsonModel::Bool(input.anomalous)),
        ("counter_before"@, JsonModel::Int(input.counter_before as int)),
        ("counter_after"@, JsonModel::Int(input.counter_after as int)),
        ("alert_emitted"@, JsonModel::Bool(input.alert_emitted)),
    ]
}

/// The members of an entry about a new track.
pub open spec fn track_members(f: FlightModel, original_identifier: Seq<char>) -> Seq<
    (Seq<char>, JsonModel),
> {
    seq![
        ("original_identifier"@, JsonModel::Text(original_identifier)),
        ("normalized_identifier"@, JsonModel::Text(f.identifier.text())),
        ("user"@, JsonModel::Text(f.tracked_by)),
        ("aviationstack_checked"@, JsonModel::Bool(f.aviationstack_checked)),
    ]
}

/// The members of an entry about a change of phase.
pub open spec fn phase_members(f: FlightModel, old_phase: Seq<char>, new_phase: Seq<char>, takeoff_reset: bool) -> Seq<(Seq<char>, JsonModel)> {
    seq![
        ("old_phase"@, JsonModel::Text(old_phase)),
        ("new_phase"@, JsonModel::Text(new_phase)),
        ("altitude_ft"@, json::opt_int_model(f.altitude_ft)),
        ("vertical_rate_fpm"@, json::opt_int_model(f.vertical_rate_fpm)),
        ("ground_speed_kts"@, json::opt_dec_model(f.ground_speed_kts)),
        ("takeoff_reset"@, JsonModel::Bool(takeoff_reset)),
    ]
}

/// The members of an entry about a change of the confirmation.
pub open spec fn confirmation_members(before: Seq<char>, after: Seq<char>) -> Seq<(Seq<char>, JsonModel)> {
    seq![
        ("old_target_confirmation"@, JsonModel::Text(before)),
        ("new_target_confirmation"@, JsonModel::Text(after)),
    ]
}

/// The members of an entry about a change of the address.
pub open spec fn hex_members(old_hex: Option<Seq<char>>, new_hex: Option<Seq<char>>, old_source: Option<Seq<char>>, new_source: Option<Seq<char>>) -> Seq<(Seq<char>, JsonModel)> {
    seq![
        ("old_hex"@, json::opt_text_model(old_hex)),
        ("new_hex"@, json::opt_text_model(new_hex)),
        ("old_hex_source"@, json::opt_text_model(old_source)),
        ("new_hex_source"@, json::opt_text_model(new_source)),
    ]
}

/// The members of an entry about a command from the web.
pub open spec fn web_members(command: Seq<char>, identifier: Option<Seq<char>>) -> Seq<(Seq<char>, JsonModel)> {
    seq![
        ("command"@, JsonModel::Text(command)),
        ("identifier"@, json::opt_text_model(identifier)),
    ]
}

/// The members of an entry about the end of a track.
pub open spec fn removal_members(f: FlightModel, reason: Seq<char>, age: Option<i64>) -> Seq<(Seq<char>, JsonModel)> {
    seq![
        ("reason"@, JsonModel::Text(reason)),
        ("age_secs"@, json::opt_int_model(age)),
        ("last_seen_age_secs"@, json::opt_int_model(age)),
        ("route"@, route_json(f)),
    ]
}

/// The members of an entry about a route lookup.
pub open spec fn lookup_members(http: HttpOutcomeModel, origin: Option<Seq<char>>, destination: Option<Seq<char>>, resolved: bool) -> Seq<(Seq<char>, JsonModel)> {
    seq![
        ("http"@, http.json()),
        ("origin_iata"@, json::opt_text_model(origin)),
        ("destination_iata"@, json::opt_text_model(destination)),
        ("destination_coordinates_resolved"@, JsonModel::Bool(resolved)),
    ]
}

/// The members of a metadata query.
pub open spec fn query_members(identifier: IdentifierModel, callsign: Option<Seq<char>>) -> Seq<(Seq<char>, JsonModel)> {
    seq![
        ("identifier"@, JsonModel::Text(identifier.text())),
        ("callsign"@, json::opt_text_model(callsign)),
    ]
}

/// The members of an entry about a metadata lookup.
pub open spec fn enrichment_members(
    identifier: IdentifierModel,
    callsign: Option<Seq<char>>,
    http: HttpOutcomeModel,
    metadata: Option<MetadataModel>,
    cache_hit: bool,
) -> Seq<(Seq<char>, JsonModel)> {
    seq![
        ("query"@, JsonModel::Object(query_members(identifier, callsign))),
        ("http"@, http.json()),
        ("cache_hit"@, JsonModel::Bool(cache_hit)),
        ("metadata"@, match metadata {
            Some(m) => JsonModel::Object(metadata_members(m)),
            None => JsonModel::Null,
        }),
    ]
}

/// An entry about a poll.
pub open spec fn poll_event(f: FlightModel, input: PollInputModel) -> EventModel {
    f.event("adsb_poll_result"@).with_payload(poll_members(input))
}

/// An entry about the end of a track.
pub open spec fn removal_event(f: FlightModel, reason: Seq<char>, age: Option<i64>) -> EventModel {
    f.event("tracking_removal"@).with_payload(removal_members(f, reason, age))
}

/// An entry about a change of phase.
pub open spec fn phase_event(
    f: FlightModel,
    old_phase: Seq<char>,
    new_phase: Seq<char>,
    takeoff_reset: bool,
) -> EventModel {
    f.event("phase_transition"@).with_payload(
        phase_members(f, old_phase, new_phase, takeoff_reset),
    )
}

/// An entry about a possible diversion.
pub open spec fn diversion_event(f: FlightModel, input: DiversionDebugInput) -> EventModel {
    f.event("diversion_decision"@).with_payload(diversion_members(input))
}

/// An entry about a change of the confirmation.
pub open spec fn confirmation_event(
    f: FlightModel,
    before: TargetConfirmation,
    after: TargetConfirmation,
) -> EventModel {
    f.event("target_confirmation_transition"@).with_payload(
        confirmation_members(before.name(), after.name()),
    )
}

/// An entry about a change of the address.
pub open spec fn hex_event(
    f: FlightModel,
    old_hex: Option<Seq<char>>,
    new_hex: Option<Seq<char>>,
    old_source: Option<Seq<char>>,
    new_source: Option<Seq<char>>,
) -> EventModel {
    f.event("hex_assignment"@).with_payload(hex_members(old_hex, new_hex, old_source, new_source))
}

/// An entry about a new track.
pub open spec fn track_event(f: FlightModel, original_identifier: Seq<char>) -> EventModel {
    f.event("track_started"@).with_payload(track_members(f, original_identifier))
}

/// An entry about a metadata lookup.
pub open spec fn enrichment_event(
    identifier: IdentifierModel,
    callsign: Option<Seq<char>>,
    http: HttpOutcomeModel,
    metadata: Option<MetadataModel>,
    cache_hit: bool,
) -> EventModel {
    EventModel {
        callsign,
        ..EventModel::bare("aviationstack_metadata"@, identifier.text())
    }.with_payload(enrichment_members(identifier, callsign, http, metadata, cache_hit))
}

/// An entry about a route lookup.
pub open spec fn lookup_event(
    identifier: Seq<char>,
    callsign: Option<Seq<char>>,
    http: HttpOutcomeModel,
    origin: Option<Seq<char>>,
    destination: Option<Seq<char>>,
    resolved: bool,
) -> EventModel {
    EventModel {
        callsign,
        ..EventModel::bare("flight_route_lookup"@, identifier)
    }.with_payload(lookup_members(http, origin, destination, resolved))
}

impl FlightTrackerDebugEvent {
    /// An entry about a flight.
    pub fn for_flight(event: &str, flight: &TrackedFlight) -> (r: FlightTrackerDebugEvent)
        requires
            flight@.valid(),
        ensures
            r@ == flight@.event(event@),
    {
        let mut m: Vec<(String, Json)> = Vec::new();
        json::put(&mut m, "tracked_by", json::text(flight.tracked_by.as_str()));
        json::put(&mut m, "route", route_summary(flight));
        json::put(&mut m, "scheduled_departure_at", opt_time(flight.scheduled_departure_at));
        json::put(&mut m, "aircraft_type", json::opt_text(slice::borrow(&flight.aircraft_type)));
        assert(json::members_model(m@) =~= flight_members(flight@));
        Self::new(event, flight.identifier.as_str()).callsign_opt(slice::borrow(&flight.callsign)).hex_opt(
            slice::borrow(&flight.hex),
        ).phase(flight.phase.to_text()).target_confirmation(flight.target_confirmation.to_text()).payload(&m)
    }

    /// An entry about a new track, which was asked for by an identifier.
    pub fn track_started(flight: &TrackedFlight, original_identifier: &str) -> (r:
        FlightTrackerDebugEvent)
        requires
            flight@.valid(),
        ensures
            r@ == track_event(flight@, original_identifier@),
    {
        let mut m: Vec<(String, Json)> = Vec::new();
        json::put(&mut m, "original_identifier", json::text(original_identifier));
        json::put(&mut m, "normalized_identifier", json::text(flight.identifier.as_str()));
        json::put(&mut m, "user", json::text(flight.tracked_by.as_str()));
        json::put(&mut m, "aviationstack_checked", Json::Bool(flight.aviationstack_checked));
        assert(json::members_model(m@) =~= track_members(flight@, original_identifier@));
        Self::for_flight("track_started", flight).payload(&m)
    }

    /// An entry about a metadata lookup, which the cache may have answered.
    pub fn aviationstack_metadata(
        identifier: &FlightIdentifier,
        callsign: Option<&str>,
        outcome: &DebugHttpOutcome,
        metadata: Option<&AviationstackFlightMetadata>,
        cache_hit: bool,
    ) -> (r: FlightTrackerDebugEvent)
        requires
            metadata is Some ==> metadata->0@.valid(),
        ensures
            r@ == enrichment_event(
                identifier@,
                slice::opt_str(callsign),
                outcome@,
                match metadata {
                    Some(m) => Some(m@),
                    None => None,
                },
                cache_hit,
            ),
    {
        let mut query: Vec<(String, Json)> = Vec::new();
        json::put(&mut query, "identifier", json::text(identifier.as_str()));
        json::put(&mut query, "callsign", json::opt_text(callsign));
        assert(json::members_model(query@) =~= query_members(identifier@, slice::opt_str(callsign)));
        let summary = match metadata {
            Some(m) => metadata_summary(m),
            None => Json::Null,
        };
        let ghost held = match metadata {
            Some(m) => Some(m@),
            None => None,
        };
        let mut m: Vec<(String, Json)> = Vec::new();
        json::put(&mut m, "query", Json::Object(query));
        json::put(&mut m, "http", outcome.to_json());
        json::put(&mut m, "cache_hit", Json::Bool(cache_hit));
        json::put(&mut m, "metadata", summary);
        assert(json::members_model(m@) =~= enrichment_members(
            identifier@,
            slice::opt_str(callsign),
            outcome@,
            held,
            cache_hit,
        ));
        Self::new("aviationstack_metadata", identifier.as_str()).callsign_opt(callsign).payload(&m)
    }

    /// An entry about a route lookup.
    pub fn flight_route_lookup(
        identifier: &str,
        callsign: Option<&str>,
        outcome: &DebugHttpOutcome,
        origin: Option<&str>,
        destination: Option<&str>,
        destination_coordinates_resolved: bool,
    ) -> (r: FlightTrackerDebugEvent)
        ensures
            r@ == lookup_event(
                identifier@,
                slice::opt_str(callsign),
                outcome@,
                slice::opt_str(origin),
                slice::opt_str(destination),
                destination_coordinates_resolved,
            ),
    {
        let mut m: Vec<(String, Json)> = Vec::new();
        json::put(&mut m, "http", outcome.to_json());
        json::put(&mut m, "origin_iata", json::opt_text(origin));
        json::put(&mut m, "destination_iata", json::opt_text(destination));
        json::put(&mut m, "destination_coordinates_resolved", Json::Bool(destination_coordinates_resolved));
        assert(json::members_model(m@) =~= lookup_members(outcome@, slice::opt_str(origin), slice::opt_str(destination), destination_coordinates_resolved));
        Self::new("flight_route_lookup", identifier).callsign_opt(callsign).payload(&m)
    }

    /// An entry about a poll.
    pub fn adsb_poll_result(flight: &TrackedFlight, input: &AdsbPollDebugInput<'_>) -> (r: FlightTrackerDebugEvent)
        requires
            flight@.valid(),
        ensures
            r@ == poll_event(flight@, input@),
    {
        let aircraft = match input.aircraft {
            Some(ac) => aircraft_summary(ac),
            None => Json::Null,
        };
        let mut m: Vec<(String, Json)> = Vec::new();
        json::put(&mut m, "lookup_mode", json::text(input.lookup_mode));
        json::put(&mut m, "aliases", json::text_list(input.aliases));
        json::put(&mut m, "outcome", json::text(input.outcome));
        json::put(&mut m, "selected_aircraft", aircraft);
        json::put(&mut m, "direct_target_confirmed", json::opt_bool(input.direct_target_confirmed));
        json::put(&mut m, "sticky_confirmation", json::opt_bool(input.sticky_confirmation));
        json::put(&mut m, "phase_sample_eligible", json::opt_bool(input.phase_sample_eligible));
        json::put(&mut m, "last_seen_age_secs", json::opt_int(input.last_seen_age_secs));
        assert(json::members_model(m@) =~= poll_members(input@));
        Self::for_flight("adsb_poll_result", flight).payload(&m)
    }

    /// An entry about a change of phase.
    pub fn phase_transition(
        flight: &TrackedFlight,
        old_phase: &str,
        new_phase: &str,
        takeoff_reset: bool,
    ) -> (r: FlightTrackerDebugEvent)
        requires
            flight@.valid(),
        ensures
            r@ == phase_event(flight@, old_phase@, new_phase@, takeoff_reset),
    {
        let mut m: Vec<(String, Json)> = Vec::new();
        json::put(&mut m, "old_phase", json::text(old_phase));
        json::put(&mut m, "new_phase", json::text(new_phase));
        json::put(&mut m, "altitude_ft", json::opt_int(flight.altitude_ft));
        json::put(&mut m, "vertical_rate_fpm", json::opt_int(flight.vertical_rate_fpm));
        json::put(&mut m, "ground_speed_kts", json::opt_dec(flight.ground_speed_kts));
        json::put(&mut m, "takeoff_reset", Json::Bool(takeoff_reset));
        assert(json::members_model(m@) =~= phase_members(flight@, old_phase@, new_phase@, takeoff_reset));
        Self::for_flight("phase_transition", flight).payload(&m)
    }

    /// An entry about a possible diversion.
    pub fn diversion_decision(flight: &TrackedFlight, input: DiversionDebugInput) -> (r: FlightTrackerDebugEvent)
        requires
            flight@.valid(),
        ensures
            r@ == diversion_event(flight@, input),
    {
        let mut m: Vec<(String, Json)> = Vec::new();
        json::put(&mut m, "previous_position", position(input.previous_lat, input.previous_lon));
        json::put(&mut m, "current_position", position(input.current_lat, input.current_lon));
        json::put(&mut m, "destination_position", position(input.destination_lat, input.destination_lon));
        json::put(&mut m, "ground_track", Json::Dec(input.ground_track));
        json::put(&mut m, "bearing_to_dest", Json::Dec(input.bearing_to_dest));
        json::put(&mut m, "diff", Json::Dec(input.diff));
        json::put(&mut m, "threshold", Json::Dec(input.threshold));
        json::put(&mut m, "anomalous", Json::Bool(input.anomalous));
        json::put(&mut m, "counter_before", Json::Int(input.counter_before as i64));
        json::put(&mut m, "counter_after", Json::Int(input.counter_after as i64));
        json::put(&mut m, "alert_emitted", Json::Bool(input.alert_emitted));
        assert(json::members_model(m@) =~= diversion_members(input));
        Self::for_flight("diversion_decision", flight).payload(&m)
    }

    /// An entry about a change of the confirmation.
    pub fn target_confirmation_transition(
        flight: &TrackedFlight,
        old_confirmation: &str,
        new_confirmation: &str,
    ) -> (r: FlightTrackerDebugEvent)
        requires
            flight@.valid(),
        ensures
            r@ == flight@.event("target_confirmation_transition"@).with_payload(
                confirmation_members(old_confirmation@, new_confirmation@),
            ),
    {
        let mut m: Vec<(String, Json)> = Vec::new();
        json::put(&mut m, "old_target_confirmation", json::text(old_confirmation));
        json::put(&mut m, "new_target_confirmation", json::text(new_confirmation));
        assert(json::members_model(m@) =~= confirmation_members(old_confirmation@, new_confirmation@));
        Self::for_flight("target_confirmation_transition", flight).payload(&m)
    }

    /// An entry about a change of the address.
    pub fn hex_assignment(
        flight: &TrackedFlight,
        old_hex: Option<&str>,
        new_hex: Option<&str>,
        old_source: Option<&str>,
        new_source: Option<&str>,
    ) -> (r: FlightTrackerDebugEvent)
        requires
            flight@.valid(),
        ensures
            r@ == hex_event(
                flight@,
                slice::opt_str(old_hex),
                slice::opt_str(new_hex),
                slice::opt_str(old_source),
                slice::opt_str(new_source),
            ),
    {
        let mut m: Vec<(String, Json)> = Vec::new();
        json::put(&mut m, "old_hex", json::opt_text(old_hex));
        json::put(&mut m, "new_hex", json::opt_text(new_hex));
        json::put(&mut m, "old_hex_source", json::opt_text(old_source));
        json::put(&mut m, "new_hex_source", json::opt_text(new_source));
        assert(json::members_model(m@) =~= hex_members(slice::opt_str(old_hex), slice::opt_str(new_hex), slice::opt_str(old_source), slice::opt_str(new_source)));
        Self::for_flight("hex_assignment", flight).payload(&m)
    }

    /// An entry about a command from the web.
    pub fn web_command(command: &str, identifier: Option<&str>) -> (r: FlightTrackerDebugEvent)
        ensures
            r@ == EventModel::bare(
                "web_command"@,
                match identifier {
                    Some(s) => s@,
                    None => "<snapshot>"@,
                },
            ).with_payload(web_members(command@, slice::opt_str(identifier))),
    {
        let name = match identifier {
            Some(s) => s,
            None => "<snapshot>",
        };
        let mut m: Vec<(String, Json)> = Vec::new();
        json::put(&mut m, "command", json::text(command));
        json::put(&mut m, "identifier", json::opt_text(identifier));
        assert(json::members_model(m@) =~= web_members(command@, slice::opt_str(identifier)));
        Self::new("web_command", name).payload(&m)
    }

    /// An entry about the end of a track.
    pub fn tracking_removal(flight: &TrackedFlight, reason: &str, last_seen_age_secs: Option<i64>) -> (r: FlightTrackerDebugEvent)
        requires
            flight@.valid(),
        ensures
            r@ == removal_event(flight@, reason@, last_seen_age_secs),
    {
        let mut m: Vec<(String, Json)> = Vec::new();
        json::put(&mut m, "reason", json::text(reason));
        json::put(&mut m, "age_secs", json::opt_int(last_seen_age_secs));
        json::put(&mut m, "last_seen_age_secs", json::opt_int(last_seen_age_secs));
        json::put(&mut m, "route", route_summary(flight));
        assert(json::members_model(m@) =~= removal_members(flight@, reason@, last_seen_age_secs));
        Self::for_flight("tracking_removal", flight).payload(&m)
    }
}

} // verus!
