//! What holds of the names under which flights go: addresses, callsigns and aliases.

use vstd::prelude::*;

use super::advance::{ObservationModel, OutcomeModel, Sighting, UpdateModel};
use super::cache;
use super::debug_journal;
use super::metadata;
use super::phase;
use super::{FlightModel, HexSource, IdentifierModel};
use crate::aviation::codes;
use crate::aviation::types::{AircraftModel, MetadataModel};
use crate::text::{chars, slice};
use crate::time::Timestamp;

verus! {

/// A flight without an address takes over one that is named, in capitals, together
/// with who named it.
pub proof fn law_first_addresses_are_taken_over(
    f: FlightModel,
    hex: Seq<char>,
    source: HexSource,
    promote: bool,
)
    requires
        f.hex is None,
        f.hex_source is None,
    ensures
        ({
            let g = metadata::with_hex(f, hex, source, promote);
            &&& codes::icao24(slice::trimmed(hex)) ==> g.hex == Some(
                chars::ascii_uppered(slice::trimmed(hex)),
            ) && g.hex_source == Some(source)
            &&& !codes::icao24(slice::trimmed(hex)) ==> g == f
            &&& g.callsign == f.callsign && g.identifier == f.identifier
        }),
{
}

/// A flight keeps its address. The one who vouches for it changes only where an
/// aircraft that is taken for the flight confirms what metadata said.
pub proof fn law_addresses_stay(
    f: FlightModel,
    hex: Seq<char>,
    source: HexSource,
    promote: bool,
)
    requires
        f.hex is Some,
        f.hex_source is Some,
    ensures
        ({
            let g = metadata::with_hex(f, hex, source, promote);
            let same = codes::icao24(slice::trimmed(hex)) && chars::same_ignoring_case(
                f.hex->0,
                chars::ascii_uppered(slice::trimmed(hex)),
            );
            &&& !same ==> g == f
            &&& same && source is Adsb && promote && f.hex_source->0 is AviationStack
                ==> g.hex_source == Some(HexSource::Adsb)
            &&& !(source is Adsb) || !promote || !(f.hex_source->0 is AviationStack)
                ==> g.hex_source == f.hex_source
        }),
{
}

/// Metadata with an address gives it to a flight that has none.
pub proof fn law_metadata_addresses(
    f: FlightModel,
    m: MetadataModel,
    coords: Option<(crate::decimal::Decimal, crate::decimal::Decimal)>,
    hex: Seq<char>,
)
    requires
        f.hex is None,
        f.hex_source is None,
        m.aircraft_icao24 == Some(hex),
        codes::icao24(slice::trimmed(hex)),
    ensures
        metadata::with_metadata(f, m, coords).hex == Some(
            chars::ascii_uppered(slice::trimmed(hex)),
        ),
        metadata::with_metadata(f, m, coords).hex_source == Some(HexSource::AviationStack),
{
}

/// A flight that gets another callsign still goes by the old one, and by the new one.
pub proof fn law_old_callsigns_stay_known(f: FlightModel, old_name: Seq<char>, new_name: Seq<char>)
    requires
        f.callsign == Some(old_name),
        slice::trimmed(old_name).len() > 0,
        slice::trimmed(new_name).len() > 0,
    ensures
        ({
            let g = metadata::operated_as(f, Some(new_name));
            &&& g.callsign == Some(new_name)
            &&& metadata::knows(g.alias_callsigns, slice::uppercased(slice::trimmed(old_name)))
            &&& metadata::knows(g.alias_callsigns, slice::uppercased(slice::trimmed(new_name)))
            &&& f.alias_callsigns.is_prefix_of(g.alias_callsigns)
        }),
{
    lemma_alias(f.alias_callsigns, old_name);
    let one = metadata::with_alias(f.alias_callsigns, old_name);
    lemma_alias(one, new_name);
    let a = slice::uppercased(slice::trimmed(old_name));
    let k = choose|k: int| 0 <= k < one.len() && chars::same_ignoring_case(#[trigger] one[k], a);
    let two = metadata::with_alias(one, new_name);
    assert(two[k] == one[k]);
}

proof fn lemma_alias(aliases: Seq<Seq<char>>, value: Seq<char>)
    ensures
        aliases.is_prefix_of(metadata::with_alias(aliases, value)),
        slice::trimmed(value).len() > 0 ==> metadata::knows(
            metadata::with_alias(aliases, value),
            slice::uppercased(slice::trimmed(value)),
        ),
{
    if slice::trimmed(value).len() > 0 {
        let alias = slice::uppercased(slice::trimmed(value));
        if !metadata::knows(aliases, alias) {
            assert(metadata::with_alias(aliases, value)[aliases.len() as int] == alias);
        }
    }
}

/// A blank alias, or one that is known already, is not added.
pub proof fn law_aliases_are_not_repeated(aliases: Seq<Seq<char>>, value: Seq<char>)
    ensures
        slice::trimmed(value).len() == 0 ==> metadata::with_alias(aliases, value) == aliases,
        metadata::knows(aliases, slice::uppercased(slice::trimmed(value))) ==> metadata::with_alias(
            aliases,
            value,
        ) == aliases,
{
}

/// A new track goes by the requested callsign and by the resolved one.
pub proof fn law_tracks_go_by_their_callsigns(f: FlightModel, asked: Seq<char>, flown: Seq<char>)
    requires
        f.identifier == IdentifierModel::Callsign(asked),
        f.callsign == Some(flown),
        slice::trimmed(asked).len() > 0,
        slice::trimmed(flown).len() > 0,
    ensures
        ({
            let g = metadata::seeded(f);
            &&& metadata::knows(g.alias_callsigns, slice::uppercased(slice::trimmed(asked)))
            &&& metadata::knows(g.alias_callsigns, slice::uppercased(slice::trimmed(flown)))
            &&& g.callsign == f.callsign && g.identifier == f.identifier
        }),
{
    lemma_alias(f.alias_callsigns, asked);
    let one = metadata::with_alias(f.alias_callsigns, asked);
    lemma_alias(one, flown);
    let a = slice::uppercased(slice::trimmed(asked));
    let k = choose|k: int| 0 <= k < one.len() && chars::same_ignoring_case(#[trigger] one[k], a);
    assert(metadata::with_alias(one, flown)[k] == one[k]);
}

/// A lookup is remembered under the requested callsign and under the resolved one.
pub proof fn law_lookups_go_by_both_callsigns(asked: Seq<char>, flown: Seq<char>)
    requires
        slice::trimmed(asked).len() > 0,
        slice::trimmed(flown).len() > 0,
    ensures
        ({
            let a = cache::query_aliases(IdentifierModel::Callsign(asked), Some(flown));
            &&& a.len() > 0 && a[0] == slice::uppercased(slice::trimmed(asked))
            &&& metadata::knows(a, slice::uppercased(slice::trimmed(flown)))
        }),
        cache::query_aliases(IdentifierModel::Hex(asked), Some(flown)) == seq![
            slice::uppercased(slice::trimmed(flown)),
        ],
{
    let none = Seq::<Seq<char>>::empty();
    let x = slice::uppercased(slice::trimmed(asked));
    let y = slice::uppercased(slice::trimmed(flown));
    assert(!metadata::knows(none, x));
    assert(!metadata::knows(none, y));
    lemma_alias(none, asked);
    lemma_alias(metadata::with_alias(none, asked), flown);
}

/// A result is remembered under the codes of the flight in the metadata, too.
pub proof fn law_results_go_by_the_codes(m: MetadataModel, iata: Seq<char>, icao: Seq<char>)
    requires
        m.flight_iata == Some(iata),
        m.flight_icao == Some(icao),
        slice::trimmed(iata).len() > 0,
        slice::trimmed(icao).len() > 0,
    ensures
        metadata::knows(cache::metadata_aliases(m), slice::uppercased(slice::trimmed(iata))),
        metadata::knows(cache::metadata_aliases(m), slice::uppercased(slice::trimmed(icao))),
{
    let none = Seq::<Seq<char>>::empty();
    let one = metadata::with_alias(none, iata);
    let two = metadata::with_alias(one, icao);
    let three = metadata::with_opt_alias(two, metadata::operating_callsign(m));
    lemma_alias(none, iata);
    lemma_alias(one, icao);
    if let Some(cs) = metadata::operating_callsign(m) {
        lemma_alias(two, cs);
    }
    let x = slice::uppercased(slice::trimmed(iata));
    let y = slice::uppercased(slice::trimmed(icao));
    let i = choose|i: int| 0 <= i < one.len() && chars::same_ignoring_case(#[trigger] one[i], x);
    let j = choose|j: int| 0 <= j < two.len() && chars::same_ignoring_case(#[trigger] two[j], y);
    assert(three[i] == one[i]);
    assert(three[j] == two[j]);
}

/// A flight that was asked for by address takes over the callsign of its aircraft, and
/// the route of this callsign is looked up.
pub proof fn law_addresses_get_callsigns(
    f: FlightModel,
    ac: AircraftModel,
    obs: ObservationModel,
    now: Timestamp,
    callsign: Seq<char>,
)
    requires
        f.identifier is Hex,
        f.callsign is None,
        f.route is None,
        obs.outcome == OutcomeModel::Hit(ac),
        obs.used_hex,
        ac.callsign() == Some(callsign),
    ensures
        f.advanced(obs, now).0.callsign == Some(callsign),
        f.advanced(obs, now).0.observed_callsign == Some(callsign),
        f.advanced(obs, now).1.followups.contains(callsign),
{
    reveal(super::advance::identity_update);
    reveal(super::advance::squawked);
    reveal(FlightModel::observed);
    reveal(FlightModel::phased);
    reveal(FlightModel::diverted);
    let v = f.advanced(obs, now).1;
    assert(v.followups =~= seq![callsign]);
    assert(v.followups[0] == callsign);
}

/// Each step of the schedule of a departure lasts until the next one begins.
pub proof fn law_steps_follow_one_another(f: FlightModel, now: Timestamp, departure: Timestamp)
    requires
        f.scheduled_departure_at == Some(departure),
        f.tracked_at.ticks < departure.spec_plus(43_200).ticks,
        f.pending_schedule(now) is Active,
    ensures
        ({
            let s = f.pending_schedule(now);
            let until = departure.spec_since(now);
            let since = now.spec_since(departure);
            let hour: int = 3_600_000_000_000;
            let half: int = 1_800_000_000_000;
            let after = until <= half && now.ticks > departure.ticks;
            &&& until > 3 * hour ==> s->refresh_at == Some(departure.spec_plus(-10_800))
            &&& hour < until <= 3 * hour ==> s->refresh_at == Some(departure.spec_plus(-3_600))
            &&& half < until <= hour ==> s->refresh_at == Some(departure.spec_plus(-1_800))
            &&& until <= half && now.ticks <= departure.ticks ==> s->refresh_at == Some(departure)
            &&& after && since <= 2_700 * 1_000_000_000 ==> s->refresh_at == Some(
                departure.spec_plus(2_700),
            )
            &&& after && 2_700 * 1_000_000_000 < since <= 3 * hour ==> s->refresh_at == Some(
                departure.spec_plus(10_800),
            )
        }),
{
}

/// A route is looked up only for a flight that has none, and only for a callsign that
/// it did not have.
pub proof fn law_known_routes_are_not_looked_up(f: FlightModel, obs: ObservationModel, now: Timestamp)
    requires
        f.advanced(obs, now).1.followups.len() > 0,
    ensures
        f.route is None,
        f.callsign is None,
{
    reveal(super::advance::identity_update);
    reveal(super::advance::squawked);
    reveal(FlightModel::observed);
    reveal(FlightModel::phased);
    reveal(FlightModel::diverted);
}

/// Only an aircraft that is taken for the flight itself vouches for an address that
/// metadata named.
pub proof fn law_strangers_vouch_for_no_address(f: FlightModel, ac: AircraftModel)
    requires
        f.hex is Some,
        f.hex_source == Some(HexSource::AviationStack),
    ensures
        f.addressed_by(ac, false) == f || f.addressed_by(ac, false).hex_source == Some(
            HexSource::AviationStack,
        ),
        f.addressed_by(ac, false).hex_source == f.hex_source,
        ac.hex is Some && metadata::hex_fits(f, ac.hex->0) ==> f.addressed_by(ac, true).hex_source
            == Some(HexSource::Adsb),
        ac.hex is None ==> f.addressed_by(ac, true) == f,
{
}

/// A change of phase is recorded from the old phase to the new one.
pub proof fn law_phase_changes_are_recorded(
    f: FlightModel,
    update: UpdateModel,
    ac: AircraftModel,
    s: Sighting,
    now: Timestamp,
)
    requires
        s.sample,
        phase::detected(f, ac) != f.phase,
    ensures
        ({
            let (g, v) = f.phased(update, ac, s, now);
            &&& v.debug.len() == update.debug.len() + 1
            &&& v.debug.last() == debug_journal::phase_event(
                g,
                f.phase.name(),
                phase::detected(f, ac).name(),
                phase::detected(f, ac) is Landing,
            )
        }),
{
    reveal(FlightModel::phased);
}

/// A change of address is recorded from the old address to the new one, with who
/// vouches for each.
pub proof fn law_address_changes_are_recorded(
    update: UpdateModel,
    before: FlightModel,
    after: FlightModel,
    ac: AircraftModel,
    s: Sighting,
)
    requires
        before.hex != after.hex,
    ensures
        ({
            let v = super::advance::identity_update(update, before, after, ac, s);
            let name = |o: Option<HexSource>|
                match o {
                    Some(x) => Some(x.name()),
                    None => None,
                };
            &&& v.debug.len() > 0
            &&& v.debug.last() == debug_journal::hex_event(
                after,
                before.hex,
                after.hex,
                name(before.hex_source),
                name(after.hex_source),
            )
        }),
{
    reveal(super::advance::identity_update);
}

/// A known type of aircraft stays, and an unknown one is taken from the aircraft.
pub proof fn law_types_of_aircraft(f: FlightModel, ac: AircraftModel)
    ensures
        f.aircraft_type is Some ==> f.measured_by(ac).aircraft_type == f.aircraft_type,
        f.aircraft_type is None ==> f.measured_by(ac).aircraft_type == ac.t,
{
}

} // verus!
