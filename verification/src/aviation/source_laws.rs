//! What holds of where flight data comes from: the aggregators, the metadata provider
//! and the tables at hand.

use vstd::prelude::*;

use super::airports;
use super::airports::PositionModel;
use super::client::adsb;
use super::client::adsb::{AdsbAggregator, EndpointModel, FetchErrorModel, Fetched};
use super::client::adsbdb;
use super::client::aviationstack;
use super::client::aviationstack::QueryKey;
use super::client::health;
use super::client::health::BackendHealth;
use super::client::merge;
use super::client::nominatim;
use super::codes;
use super::commands;
use super::commands::FlightPlan;
use super::tracker::IdentifierModel;
use super::types::{AircraftModel, AltBaro, AviationstackFlightMetadata, NearbyAircraft};
use crate::decimal::Decimal;
use crate::lists;
use crate::text::{chars, number, search, slice};
use crate::time::Moment;

verus! {

/// A report whose position is at least five seconds fresher beats the other one,
/// however strong the signals are, and one with a position beats one without.
pub proof fn law_fresher_reports_win(a: AircraftModel, b: AircraftModel)
    requires
        a.seen_pos is Some && a.seen_pos->0.micros >= 0,
        b.seen_pos is None || b.seen_pos->0.micros >= a.seen_pos->0.micros + 5_000_000,
    ensures
        a.beats(b),
        !b.beats(a),
        merge::winner(seq![a, b]) == a,
        merge::winner(seq![b, a]) == a,
{
    lemma_winner_of_two(a, b);
    lemma_winner_of_two(b, a);
}

/// Of two reports with positions of the same age the one with the stronger signal
/// wins, and of two equal ones the first.
pub proof fn law_stronger_reports_win(a: AircraftModel, b: AircraftModel)
    requires
        a.seen_pos == b.seen_pos,
        a.rssi is Some,
    ensures
        b.rssi is Some && a.rssi->0.micros > b.rssi->0.micros ==> merge::winner(seq![a, b]) == a
            && merge::winner(seq![b, a]) == a,
        b.rssi == a.rssi ==> merge::winner(seq![a, b]) == a && merge::winner(seq![b, a]) == b,
        b.rssi is None && a.rssi->0.micros > i64::MIN ==> merge::winner(seq![b, a]) == a,
{
    lemma_winner_of_two(a, b);
    lemma_winner_of_two(b, a);
}

proof fn lemma_winner_of_two(a: AircraftModel, b: AircraftModel)
    ensures
        merge::winner(seq![a, b]) == if b.beats(a) {
            b
        } else {
            a
        },
{
    assert(seq![a, b].drop_last() =~= seq![a]);
    assert(merge::winner(seq![a]) == a);
}

/// Reports are about one aircraft where their addresses agree, in whatever case.
pub proof fn law_addresses_tell_aircraft_apart(a: AircraftModel, b: AircraftModel)
    requires
        a.hex is Some && a.hex->0.len() > 0,
        b.hex is Some && b.hex->0.len() > 0,
    ensures
        a.key() == b.key() <==> chars::same_ignoring_case(a.hex->0, b.hex->0),
{
}

/// An aircraft transmits its callsign with padding, and a blank one is none.
pub proof fn law_callsigns_lose_their_padding(ac: AircraftModel, s: Seq<char>)
    ensures
        ac.flight is None ==> ac.callsign() is None,
        ac.flight == Some(s) && slice::trimmed(s).len() > 0 ==> ac.callsign() == Some(
            slice::trimmed(s),
        ),
        ac.flight == Some(s) && slice::trimmed(s).len() == 0 ==> ac.callsign() is None,
        ac.alt_baro == Some(AltBaro::Ground) ==> ac.altitude() == Some(0i64),
        ac.alt_baro is None ==> ac.altitude() is None,
{
}

/// An aggregator is asked under its own address, which may end in slashes or not.
pub proof fn law_addresses_of_aggregators(a: AdsbAggregator, b: AdsbAggregator, e: EndpointModel)
    requires
        a.path_style == b.path_style,
        b.base_url@ == a.base_url@ + seq!['/'],
    ensures
        e.url(a) == e.url(b),
{
    assert(b.base_url@.drop_last() =~= a.base_url@);
}

/// An aircraft is asked for by address or callsign, and a place by latitude, longitude
/// and radius, in this order.
pub proof fn law_paths_of_requests(
    a: AdsbAggregator,
    s: Seq<char>,
    lat: Seq<char>,
    lon: Seq<char>,
    radius_nm: u16,
)
    requires
        a.base_url@.len() > 0,
        a.base_url@.last() != '/',
    ensures
        EndpointModel::Hex(s).url(a) == a.base_url@ + ("/hex/"@ + s),
        EndpointModel::Callsign(s).url(a) == a.base_url@ + ("/callsign/"@ + s),
        a.path_style is ReadsbV2 ==> (EndpointModel::Point { lat, lon, radius_nm }).url(a)
            == a.base_url@ + ("/point/"@ + lat + "/"@ + lon + "/"@ + number::digits(
            radius_nm as nat,
        )),
        a.path_style is AdsbFiOpenData ==> (EndpointModel::Point { lat, lon, radius_nm }).url(a)
            == a.base_url@ + ("/lat/"@ + lat + "/lon/"@ + lon + "/dist/"@ + number::digits(
            radius_nm as nat,
        )),
{
}

/// Only a success is an answer. Too many requests are told apart from other refusals,
/// and anything else may pass.
pub proof fn law_statuses_of_answers(name: Seq<char>, status: u16, shown: Seq<char>)
    ensures
        ({
            let e = adsb::status_error(name, status, shown);
            &&& e is None <==> 200 <= status < 300
            &&& status == 429 <==> e == Some(FetchErrorModel::RateLimited)
            &&& 400 <= status < 500 && status != 429 <==> e == Some(
                FetchErrorModel::ProviderRefused { status },
            )
            &&& e is Some && !(400 <= status < 500) ==> e->0 is Retryable
        }),
{
}

/// An aggregator that answers is well, one that is overrun or forbids the request is
/// left alone, one that times out is no worse, and any other failure counts.
pub proof fn law_answers_show_the_health(
    h: BackendHealth,
    list: Vec<NearbyAircraft>,
    e: adsb::AdsbFetchError,
    until: Moment,
)
    ensures
        adsb::health_after(h, Ok(list), until) == (BackendHealth { error_streak: 0, ..h }),
        e@ is RateLimited || e@ == (FetchErrorModel::ProviderRefused { status: 403 })
            ==> adsb::health_after(h, Err(e), until) == (BackendHealth {
            parked_until: until,
            error_streak: 0,
        }),
        e@ is Timeout || e@ is Fatal ==> adsb::health_after(h, Err(e), until) == h,
        e@ is Retryable && h.error_streak < 2 ==> adsb::health_after(h, Err(e), until) == (
        BackendHealth { error_streak: (h.error_streak + 1) as u8, ..h }),
        e@ is Retryable && h.error_streak == 2 ==> adsb::health_after(
            h,
            Err(e),
            until,
        ).parked_until == until,
{
}

/// Every answer that came in is among the reports, in the order of the aggregators,
/// and nothing else is.
pub proof fn law_answers_are_gathered(
    backends: Seq<BackendHealth>,
    fetched: Seq<Fetched>,
    until: Moment,
    i: int,
)
    requires
        0 <= i < fetched.len(),
        fetched[i].result is Ok,
    ensures
        adsb::tally(backends, fetched, until).reports.contains(fetched[i].result->Ok_0),
    decreases fetched.len(),
{
    let front = fetched.drop_last();
    let before = adsb::tally(backends, front, until).reports;
    let all = adsb::tally(backends, fetched, until).reports;
    if i < fetched.len() - 1 {
        assert(front[i] == fetched[i]);
        law_answers_are_gathered(backends, front, until, i);
        let k = before.index_of(fetched[i].result->Ok_0);
        assert(all[k] == before[k]);
    } else {
        assert(all[before.len() as int] == fetched[i].result->Ok_0);
    }
}

/// An answer concerns the health of its own aggregator only.
pub proof fn law_answers_concern_their_aggregator(
    backends: Seq<BackendHealth>,
    f: Fetched,
    until: Moment,
    i: int,
)
    requires
        0 <= i < backends.len(),
    ensures
        adsb::health_with(backends, f, until).len() == backends.len(),
        i != f.index ==> adsb::health_with(backends, f, until)[i] == backends[i],
        i == f.index ==> adsb::health_with(backends, f, until)[i] == adsb::health_after(
            backends[i],
            f.result,
            until,
        ),
{
}

/// The aggregators that are asked are exactly those that are not left alone, in their
/// order.
pub proof fn law_live_aggregators(backends: Seq<BackendHealth>, now: Moment, i: int)
    requires
        0 <= i < backends.len(),
    ensures
        health::live_places(backends, now).contains(i) <==> backends[i].parked_until.nanos
            <= now.nanos,
        forall|a: int, b: int|
            0 <= a < b < health::live_places(backends, now).len() ==> (
            #[trigger] health::live_places(backends, now)[a]) < (#[trigger] health::live_places(
                backends,
                now,
            )[b]),
    decreases backends.len(),
{
    lemma_live(backends, now);
    let live = health::live_places(backends, now);
    if backends[i].parked_until.nanos <= now.nanos {
        assert(live.contains(i));
    } else if live.contains(i) {
        let k = live.index_of(i);
        assert(backends[live[k]].live(now));
    }
}

proof fn lemma_live(backends: Seq<BackendHealth>, now: Moment)
    ensures
        ({
            let live = health::live_places(backends, now);
            &&& forall|k: int|
                0 <= k < live.len() ==> 0 <= #[trigger] live[k] < backends.len()
                    && backends[live[k]].live(now)
            &&& forall|i: int|
                0 <= i < backends.len() && (#[trigger] backends[i]).live(now) ==> live.contains(i)
            &&& forall|a: int, b: int|
                0 <= a < b < live.len() ==> #[trigger] live[a] < #[trigger] live[b]
        }),
    decreases backends.len(),
{
    if backends.len() > 0 {
        let front = backends.drop_last();
        lemma_live(front, now);
        let before = health::live_places(front, now);
        let live = health::live_places(backends, now);
        assert forall|i: int| 0 <= i < backends.len() && (#[trigger] backends[i]).live(
            now,
        ) implies live.contains(i) by {
            if i < front.len() {
                assert(front[i] == backends[i]);
                let k = before.index_of(i);
                assert(live[k] == i);
            } else {
                assert(live[live.len() - 1] == i);
            }
        }
        assert forall|k: int| 0 <= k < live.len() implies 0 <= #[trigger] live[k] < backends.len()
            && backends[live[k]].live(now) by {
            if k < before.len() {
                assert(live[k] == before[k]);
                assert(front[before[k]] == backends[before[k]]);
            }
        }
    }
}

/// A flight number with the code of an airline is looked up under this code first,
/// and under the callsign of the operating airline next, where that is known.
pub proof fn law_marketing_codes_come_first(code: Seq<char>, operating: Seq<char>)
    requires
        slice::uppercased(slice::trimmed(code)) == code,
        slice::trimmed(code).len() > 0,
        codes::iata_flight_number(code),
        slice::uppercased(slice::trimmed(operating)) == operating,
        slice::trimmed(operating).len() > 0,
        codes::icao_flight_number(operating),
        operating != code,
    ensures
        aviationstack::queries(IdentifierModel::Callsign(code), Some(operating)) == seq![
            (QueryKey::FlightIata, code),
            (QueryKey::FlightIcao, operating),
        ],
        aviationstack::queries(IdentifierModel::Callsign(code), None) == seq![
            (QueryKey::FlightIata, code),
        ],
{
}

/// Any other callsign is looked up as that of the operating airline. For an address
/// the callsign is that of the aircraft, and without one nothing is looked up.
pub proof fn law_callsigns_are_looked_up(callsign: Seq<char>, hex: Seq<char>)
    requires
        slice::trimmed(callsign).len() > 0,
        !codes::iata_flight_number(slice::uppercased(slice::trimmed(callsign))),
    ensures
        ({
            let name = slice::uppercased(slice::trimmed(callsign));
            &&& aviationstack::queries(IdentifierModel::Callsign(callsign), None) == seq![
                (QueryKey::FlightIcao, name),
            ]
            &&& aviationstack::queries(IdentifierModel::Hex(hex), Some(callsign)) == seq![
                (QueryKey::FlightIcao, name),
            ]
            &&& aviationstack::queries(IdentifierModel::Hex(hex), None).len() == 0
        }),
{
}

/// The parameters of a lookup are those of the provider.
pub proof fn law_parameters()
    ensures
        QueryKey::FlightIata.name() == "flight_iata"@,
        QueryKey::FlightIcao.name() == "flight_icao"@,
{
}

/// A flight number is operated under the code of the airline with the same number.
pub proof fn law_numbers_are_operated(a: char, b: char, n: Seq<char>, icao: Seq<char>)
    ensures
        adsbdb::operated(seq![a, b] + n, Some(icao)) == icao + n,
        adsbdb::operated(seq![a, b] + n, None) == seq![a, b] + n,
{
    assert((seq![a, b] + n).skip(2) =~= n);
}

/// An airline is found by its code, the first one where there are several.
pub proof fn law_airlines_are_found(airlines: Seq<(Seq<char>, Seq<char>)>, iata: Seq<char>, i: int)
    requires
        0 <= i < airlines.len(),
        airlines[i].0 == iata,
        forall|j: int| 0 <= j < i ==> (#[trigger] airlines[j]).0 != iata,
    ensures
        adsbdb::icao_of(airlines, iata) == Some(airlines[i].1),
{
    lists::lemma_first_at(airlines, adsbdb::coded(iata), i);
}

/// An airport is found by its code: its latitude first, then its longitude.
pub proof fn law_airports_are_found(
    all: Seq<PositionModel>,
    iata: Seq<char>,
    written: Seq<char>,
    i: int,
)
    requires
        0 <= i < all.len(),
        all[i].iata == iata,
        forall|j: int| 0 <= j < i ==> (#[trigger] all[j]).iata != iata,
        slice::uppercased(slice::trimmed(written)) == iata,
    ensures
        airports::coords_of(all, iata) == Some((all[i].lat, all[i].lon)),
        airports::destination_coords(all, written) == Some((all[i].lat, all[i].lon)),
{
    lists::lemma_first_at(all, |r: PositionModel| r.iata == iata, i);
}

/// An airport that is not in the table has no place.
pub proof fn law_unknown_airports_have_no_place(all: Seq<PositionModel>, iata: Seq<char>)
    requires
        forall|j: int| 0 <= j < all.len() ==> (#[trigger] all[j]).iata != iata,
    ensures
        airports::coords_of(all, iata) is None,
{
    lists::lemma_first_none(all, |r: PositionModel| r.iata == iata);
}

/// Two capitals and one to four digits are a flight number, three capitals and a digit
/// are the beginning of a callsign, and six hexadecimal digits are an address.
pub proof fn law_codes(a: char, b: char, c: char, d: char, n: Seq<char>)
    requires
        'A' <= a <= 'Z' && 'A' <= b <= 'Z' && 'A' <= c <= 'Z' && '0' <= d <= '9',
        forall|i: int| 0 <= i < n.len() ==> '0' <= #[trigger] n[i] <= '9',
    ensures
        codes::iata_flight_number(seq![a, b] + n) <==> 1 <= n.len() <= 4,
        codes::icao_flight_number(seq![a, b, c, d] + n) <==> n.len() <= 3,
        !codes::iata_flight_number(seq![a, b, c] + n),
        codes::icao24(n) <==> n.len() == 6,
{
    assert((seq![a, b] + n).skip(2) =~= n);
    assert((seq![a, b, c, d] + n).skip(4) =~= n);
    let t = (seq![a, b, c] + n).skip(2);
    assert(t[0] == c);
}

/// A track is asked for with words that make up one identifier. Without any the user
/// is told how to ask.
pub proof fn law_tracks_are_asked_for(word: Seq<char>)
    ensures
        ({
            let code = slice::uppercased(slice::trimmed(word));
            let t = commands::track_target(seq![word]);
            &&& slice::trimmed(word).len() == 0 ==> t is Err
            &&& slice::trimmed(word).len() > 0 && codes::iata_flight_number(code) ==> t == Ok::<
                IdentifierModel,
                Seq<char>,
            >(IdentifierModel::Callsign(code))
            &&& slice::trimmed(word).len() > 0 && codes::icao24(code)
                && !codes::iata_flight_number(code) ==> t == Ok::<IdentifierModel, Seq<char>>(
                IdentifierModel::Hex(code),
            )
            &&& slice::trimmed(word).len() > 0 && code.len() > 8 ==> t is Err
        }),
        commands::track_target(Seq::empty()) is Err,
{
    assert(slice::joined(seq![word], " "@) == word);
    assert(slice::joined(Seq::<Seq<char>>::empty(), " "@).len() == 0);
}

/// A flight plan leads from the departure to the arrival and tells the flight level.
#[verifier::spinoff_prover]
#[verifier::rlimit(60)]
pub proof fn law_plans_lead_from_departure_to_arrival(p: FlightPlan, level: nat)
    requires
        level * 100 <= p.cruise_altitude_ft < (level + 1) * 100,
    ensures
        (p.departure_icao@ + " \u{2192} "@ + p.arrival_icao@ + " | "@
            + p.distance_nm.whole_text() + " nm | "@ + p.block_time@).is_prefix_of(
            commands::plan_text(p),
        ),
        (" | FL"@ + number::digits(level) + " | "@ + p.simbrief_url@).is_suffix_of(
            commands::plan_text(p),
        ),
{
    let head = p.departure_icao@ + " \u{2192} "@ + p.arrival_icao@ + " | "@
        + p.distance_nm.whole_text() + " nm | "@ + p.block_time@;
    lemma_five(head, " | FL"@, number::digits(level), " | "@, p.simbrief_url@);
}

#[verifier::spinoff_prover]
#[verifier::rlimit(60)]
proof fn lemma_five(a: Seq<char>, b: Seq<char>, c: Seq<char>, d: Seq<char>, e: Seq<char>)
    ensures
        a + b + c + d + e == a + (b + c + d + e),
{
    assert(a + b + c + d + e =~= a + (b + c + d + e));
}

/// A place is called by what stands before the first comma of its name.
pub proof fn law_places_are_called_shortly(name: Seq<char>, rest: Seq<char>)
    requires
        !name.contains(','),
    ensures
        nominatim::short_name(name + seq![','] + rest) == slice::trimmed(name),
        nominatim::short_name(name) == slice::trimmed(name),
{
    reveal_strlit(",");
    assert(","@ =~= seq![',']);
    search::lemma_pieces_front(name, ',', rest);
    assert((seq![name] + search::pieces(rest, seq![',']))[0] == name);
}

/// Numbers are rounded to the nearest whole one.
pub proof fn law_numbers_are_rounded(d: Decimal, n: nat)
    ensures
        -500_000 < d.micros - n * 1_000_000 < 500_000 && d.micros >= 0 ==> d.whole_text()
            == number::digits(n),
        -500_000 < -d.micros - n * 1_000_000 < 500_000 && d.micros < 0 ==> d.whole_text() == seq![
            '-',
        ] + number::digits(n),
{
}

/// A refusal of the provider is a miss, one that calls for action where the key, the
/// plan or the quota is at fault. Only a success is an answer.
pub proof fn law_verdicts_on_statuses(status: u16)
    ensures
        aviationstack::verdict_on(status) is Answer <==> 200 <= status < 300,
        aviationstack::verdict_on(status) is ActionableMiss <==> status == 401 || status == 403
            || status == 429,
        aviationstack::verdict_on(status) is Miss || aviationstack::verdict_on(status)
            is ActionableMiss <==> 400 <= status < 500,
{
}

/// A lookup ends with the first flight that is found, and fails only where its last
/// query does.
pub proof fn law_lookups_try_every_query(
    answer: Result<Option<AviationstackFlightMetadata>, ()>,
    index: int,
    count: int,
)
    requires
        0 <= index < count,
    ensures
        ({
            let next = aviationstack::next_after(answer, index, count);
            let found = answer is Ok && answer->Ok_0 is Some;
            &&& next is Found <==> found
            &&& next is TryNext <==> !found && index < count - 1
            &&& next is Failed <==> answer is Err && index == count - 1
        }),
{
}

/// A random flight needs an aircraft that is known and a time.
pub proof fn law_random_flights_need_an_aircraft_and_a_time(a: bool, t: bool, known: bool, valid: bool)
    ensures
        commands::obstacle(a, t, known, valid) is None <==> a && t && known && valid,
        a && t && !known ==> commands::obstacle(a, t, known, valid) == Some(
            "Das Flugzeug kenn ich nich FDM"@,
        ),
{
}

/// What the aggregators report is gathered in the order of the aggregators.
pub proof fn law_reports_are_gathered_in_order(
    lists: Seq<Vec<NearbyAircraft>>,
    last: Vec<NearbyAircraft>,
)
    ensures
        merge::gathered(lists.push(last)) == merge::gathered(lists) + merge::aircraft_models(last@),
        merge::gathered(Seq::empty()).len() == 0,
{
    assert(lists.push(last).drop_last() =~= lists);
}

/// A report about an outage tells what was asked for, how many aggregators there are,
/// how many of them are left alone, and how the last one failed.
pub proof fn law_outages_are_told(
    kind: Seq<char>,
    configured: nat,
    parked: nat,
    outcome: Seq<char>,
)
    ensures
        adsb::outage_text(kind, configured as int, parked as int, outcome)
            == "all_backends_unavailable endpoint_kind="@ + kind + " configured_backends="@
            + number::digits(configured) + " parked_backends="@ + number::digits(parked)
            + " last_provider_outcome="@ + outcome,
        EndpointModel::Hex(kind).kind() == "hex"@,
        EndpointModel::Callsign(kind).kind() == "callsign"@,
{
}

/// The way in which an aggregator failed is told with its name.
pub proof fn law_failures_of_aggregators(name: Seq<char>, e: FetchErrorModel, text: Seq<char>)
    ensures
        ({
            let said = adsb::outcome_text(name, e);
            &&& name.is_prefix_of(said)
            &&& e is RateLimited ==> said == name + ":rate_limited:429"@
            &&& e == (FetchErrorModel::ProviderRefused { status: 403 }) ==> said == name
                + ":forbidden_parked:403"@
            &&& e is Timeout ==> said == name + ":timeout"@
            &&& e is Retryable ==> said == name + ":retryable_error"@
            &&& e is Fatal ==> said == name + ":fatal_error"@
            &&& e == FetchErrorModel::Timeout(text) || e == FetchErrorModel::Retryable(text) || e
                == FetchErrorModel::Fatal(text) ==> adsb::cause_text(name, e) == text
        }),
{
}

/// Of several failures the last one is told.
pub proof fn law_the_last_failure_is_told(
    backends: Seq<BackendHealth>,
    fetched: Seq<Fetched>,
    f: Fetched,
    until: Moment,
)
    ensures
        ({
            let t = adsb::tally(backends, fetched.push(f), until);
            &&& f.result matches Err(e) ==> t.last == Some(
                (adsb::outcome_text(f.name@, e@), adsb::cause_text(f.name@, e@)),
            )
            &&& f.result is Ok ==> t.last == adsb::tally(backends, fetched, until).last
            &&& f.result is Err ==> t.reports == adsb::tally(backends, fetched, until).reports
            &&& t.backends == adsb::health_with(
                adsb::tally(backends, fetched, until).backends,
                f,
                until,
            )
        }),
{
    assert(fetched.push(f).drop_last() =~= fetched);
}

} // verus!
