//! The cache of metadata lookups that `!track` and `!info` share.

use vstd::prelude::*;

use super::metadata;
use super::{
    CacheEntryModel, CachedFlightInfo, FlightIdentifier, FlightTrackerState, IdentifierModel,
    TrackerModel,
};
use crate::aviation::types::{AviationstackFlightMetadata, MetadataModel};
use crate::lists;
use crate::text::{chars, slice};
use crate::time;
use crate::time::Timestamp;

verus! {

/// Seconds for which a lookup without a result is remembered.
pub const MISS_TTL: i64 = 600;

/// Seconds for which metadata of a landed flight is remembered.
pub const LANDED_TTL: i64 = 86_400;

/// Seconds after the arrival for which metadata of a flight is remembered.
pub const ARRIVAL_TTL: i64 = 14_400;

/// The aliases with each of some more, unless it is blank or known already.
pub open spec fn with_aliases(base: Seq<Seq<char>>, more: Seq<Seq<char>>) -> Seq<Seq<char>>
    decreases more.len(),
{
    if more.len() == 0 {
        base
    } else {
        metadata::with_alias(with_aliases(base, more.drop_last()), more.last())
    }
}

/// The two lists have a text in common, up to the case of ASCII letters.
pub open spec fn share(a: Seq<Seq<char>>, b: Seq<Seq<char>>) -> bool {
    exists|i: int| 0 <= i < b.len() && metadata::knows(a, #[trigger] b[i])
}

impl CacheEntryModel {
    pub open spec fn expired(self, now: Timestamp) -> bool {
        self.expires_at.ticks <= now.ticks
    }

    /// The entry answers a lookup for the aliases.
    pub open spec fn serves(self, aliases: Seq<Seq<char>>, now: Timestamp) -> bool {
        !self.expired(now) && share(self.aliases, aliases)
    }

    /// A lookup for the aliases and the day is about the same flight.
    pub open spec fn joins(self, aliases: Seq<Seq<char>>, date: Option<Seq<char>>) -> bool {
        share(self.aliases, aliases) && (self.flight_date == date || self.flight_date is None
            || date is None)
    }
}

impl CachedFlightInfo {
    /// Whether the entry has expired.
    pub fn is_expired(&self, now: Timestamp) -> (b: bool)
        ensures
            b == self@.expired(now),
    {
        self.expires_at.ticks <= now.ticks
    }

    /// Whether the entry has one of the aliases.
    pub fn matches_any_alias(&self, aliases: &Vec<String>) -> (b: bool)
        ensures
            b == share(self@.aliases, slice::texts(aliases@)),
    {
        let mut i: usize = 0;
        while i < aliases.len()
            invariant
                i <= aliases@.len(),
                forall|j: int|
                    0 <= j < i ==> !metadata::knows(
                        self@.aliases,
                        #[trigger] slice::texts(aliases@)[j],
                    ),
            decreases aliases@.len() - i,
        {
            if metadata::known(&self.aliases, aliases[i].as_str()) {
                assert(metadata::knows(self@.aliases, slice::texts(aliases@)[i as int]));
                return true;
            }
            i = i + 1;
        }
        false
    }
}

/// Adds an optional alias, unless it is blank or known already.
pub fn push_cache_alias(aliases: &mut Vec<String>, value: Option<&str>)
    ensures
        slice::texts(final(aliases)@) == metadata::with_opt_alias(
            slice::texts(old(aliases)@),
            slice::opt_str(value),
        ),
        metadata::are_codes(slice::texts(old(aliases)@)) ==> metadata::are_codes(
            slice::texts(final(aliases)@),
        ),
{
    if let Some(v) = value {
        metadata::push_alias(aliases, v);
    }
}

/// The aliases under which a flight is looked up: the requested callsign, then
/// the resolved one.
pub open spec fn query_aliases(identifier: IdentifierModel, callsign: Option<Seq<char>>) -> Seq<
    Seq<char>,
> {
    metadata::with_opt_alias(
        metadata::with_opt_alias(Seq::empty(), identifier.callsign()),
        callsign,
    )
}

/// The aliases under which a flight is looked up, each without padding and in
/// upper case.
pub fn query_cache_aliases(identifier: &FlightIdentifier, callsign: Option<&str>) -> (r: Vec<String>)
    ensures
        slice::texts(r@) == query_aliases(identifier@, slice::opt_str(callsign)),
        metadata::are_codes(slice::texts(r@)),
{
    let mut aliases: Vec<String> = Vec::new();
    assert(slice::texts(aliases@) =~= Seq::<Seq<char>>::empty());
    push_cache_alias(&mut aliases, super::identifier_callsign(identifier));
    push_cache_alias(&mut aliases, callsign);
    aliases
}

/// The aliases that metadata gives a flight.
pub open spec fn metadata_aliases(m: MetadataModel) -> Seq<Seq<char>> {
    metadata::with_opt_alias(
        metadata::with_opt_alias(
            metadata::with_opt_alias(Seq::empty(), m.flight_iata),
            m.flight_icao,
        ),
        metadata::operating_callsign(m),
    )
}

/// The aliases that metadata gives a flight.
pub fn metadata_cache_aliases(metadata: &AviationstackFlightMetadata) -> (r: Vec<String>)
    ensures
        slice::texts(r@) == metadata_aliases(metadata@),
{
    let mut aliases: Vec<String> = Vec::new();
    assert(slice::texts(aliases@) =~= Seq::<Seq<char>>::empty());
    push_cache_alias(&mut aliases, slice::borrow(&metadata.flight_iata));
    push_cache_alias(&mut aliases, slice::borrow(&metadata.flight_icao));
    let callsign = metadata::metadata_callsign(metadata);
    push_cache_alias(&mut aliases, slice::borrow(&callsign));
    aliases
}

/// The day of a flight: the one that the provider gives, else the day of the
/// scheduled departure, the scheduled arrival or the estimated arrival.
pub open spec fn flight_day(m: MetadataModel) -> Option<Seq<char>> {
    if m.flight_date is Some && slice::trimmed(m.flight_date->0).len() > 0 {
        Some(slice::trimmed(m.flight_date->0))
    } else if m.departure_scheduled is Some {
        Some(time::utc_date_text(m.departure_scheduled->0.spec_secs()))
    } else if m.arrival_scheduled is Some {
        Some(time::utc_date_text(m.arrival_scheduled->0.spec_secs()))
    } else if m.arrival_estimated is Some {
        Some(time::utc_date_text(m.arrival_estimated->0.spec_secs()))
    } else {
        None
    }
}

/// The day of a flight.
pub fn metadata_flight_date(metadata: &AviationstackFlightMetadata) -> (r: Option<String>)
    requires
        metadata@.valid(),
    ensures
        slice::opt_text(r) == flight_day(metadata@),
{
    if let Some(date) = &metadata.flight_date {
        let date = slice::trim(date.as_str());
        if !date.as_str().is_empty() {
            return Some(date);
        }
    }
    if let Some(t) = metadata.departure_scheduled {
        return Some(t.date_text());
    }
    if let Some(t) = metadata.arrival_scheduled {
        return Some(t.date_text());
    }
    match metadata.arrival_estimated {
        Some(t) => Some(t.date_text()),
        None => None,
    }
}

impl MetadataModel {
    pub open spec fn landed(self) -> bool {
        self.flight_status is Some && chars::same_ignoring_case(self.flight_status->0, "landed"@)
    }

    /// The best known time of arrival.
    pub open spec fn arrival(self) -> Option<Timestamp> {
        if self.arrival_actual is Some {
            self.arrival_actual
        } else if self.arrival_estimated is Some {
            self.arrival_estimated
        } else {
            self.arrival_scheduled
        }
    }
}

/// When a lookup result is to be forgotten.
pub open spec fn expiry(m: Option<MetadataModel>, now: Timestamp) -> Timestamp {
    match m {
        None => now.spec_plus(MISS_TTL as int),
        Some(m) => if m.landed() {
            now.spec_plus(LANDED_TTL as int)
        } else if m.arrival() is Some && m.arrival()->0.spec_plus(ARRIVAL_TTL as int).ticks
            > now.ticks {
            m.arrival()->0.spec_plus(ARRIVAL_TTL as int)
        } else {
            now.spec_plus(ARRIVAL_TTL as int)
        },
    }
}

/// When a lookup result is to be forgotten.
pub fn flight_info_cache_expiry(
    metadata: Option<&AviationstackFlightMetadata>,
    now: Timestamp,
) -> (r: Timestamp)
    requires
        metadata is Some ==> metadata->0@.valid(),
        now.valid(),
    ensures
        r == expiry(
            match metadata {
                Some(m) => Some(m@),
                None => None,
            },
            now,
        ),
{
    let metadata = match metadata {
        Some(m) => m,
        None => return now.plus_secs(MISS_TTL),
    };
    if let Some(status) = &metadata.flight_status {
        if slice::eq_ignoring_case(status.as_str(), "landed") {
            return now.plus_secs(LANDED_TTL);
        }
    }
    let arrival = if metadata.arrival_actual.is_some() {
        metadata.arrival_actual
    } else if metadata.arrival_estimated.is_some() {
        metadata.arrival_estimated
    } else {
        metadata.arrival_scheduled
    };
    if let Some(t) = arrival {
        let at = t.plus_secs(ARRIVAL_TTL);
        if at.ticks > now.ticks {
            return at;
        }
    }
    now.plus_secs(ARRIVAL_TTL)
}

impl TrackerModel {
    /// The tracker without the lookup results that have expired.
    pub open spec fn pruned(self, now: Timestamp) -> TrackerModel {
        TrackerModel { cache: self.cache.filter(|e: CacheEntryModel| !e.expired(now)), ..self }
    }
}

/// Forgets the lookup results that have expired, and says whether there were
/// any.
pub fn prune_flight_info_cache(state: &mut FlightTrackerState, now: Timestamp) -> (changed: bool)
    ensures
        final(state)@ == old(state)@.pruned(now),
        changed == (final(state)@.cache.len() != old(state)@.cache.len()),
{
    let ghost p = |e: CacheEntryModel| !e.expired(now);
    let mut kept: Vec<CachedFlightInfo> = Vec::new();
    let mut i: usize = 0;
    let before: usize = state.flight_info_cache.len();
    assert(super::cache_models(kept@) =~= Seq::<CacheEntryModel>::empty());
    assert(old(state)@.cache.take(0) =~= Seq::<CacheEntryModel>::empty());
    assert(Seq::<CacheEntryModel>::empty().filter(p) =~= Seq::<CacheEntryModel>::empty()) by {
        reveal(Seq::filter);
    }
    while i < state.flight_info_cache.len()
        invariant
            i <= state.flight_info_cache@.len(),
            *state == *old(state),
            p == |e: CacheEntryModel| !e.expired(now),
            super::cache_models(kept@) == old(state)@.cache.take(i as int).filter(p),
        decreases state.flight_info_cache@.len() - i,
    {
        let ghost before_i = old(state)@.cache.take(i as int);
        let ghost after_i = old(state)@.cache.take(i + 1);
        assert(after_i.drop_last() =~= before_i);
        assert(after_i.last() == state.flight_info_cache@[i as int]@);
        assert(after_i.filter(p) == if p(after_i.last()) {
            before_i.filter(p).push(after_i.last())
        } else {
            before_i.filter(p)
        }) by {
            reveal(Seq::filter);
        }
        if !state.flight_info_cache[i].is_expired(now) {
            let ghost kept_before = super::cache_models(kept@);
            kept.push(state.flight_info_cache[i].duplicate());
            assert(super::cache_models(kept@) =~= kept_before.push(after_i.last()));
        }
        i = i + 1;
    }
    assert(old(state)@.cache.take(i as int) =~= old(state)@.cache);
    let changed = kept.len() != before;
    state.flight_info_cache = kept;
    assert(super::cache_models(kept@).len() == kept@.len());
    assert(old(state)@.cache.len() == before);
    changed
}

/// The newest entry that answers a lookup. Of entries of the same age it is the
/// last.
pub open spec fn answer(
    cache: Seq<CacheEntryModel>,
    aliases: Seq<Seq<char>>,
    now: Timestamp,
) -> Option<CacheEntryModel>
    decreases cache.len(),
{
    if cache.len() == 0 {
        None
    } else {
        let rest = answer(cache.drop_last(), aliases, now);
        if cache.last().serves(aliases, now) && (rest is None || rest->0.cached_at.ticks
            <= cache.last().cached_at.ticks) {
            Some(cache.last())
        } else {
            rest
        }
    }
}

/// What the cache knows about a flight: nothing, or the result of the newest
/// lookup, which may be that the provider has no data.
pub open spec fn remembered(
    cache: Seq<CacheEntryModel>,
    aliases: Seq<Seq<char>>,
    now: Timestamp,
) -> Option<Option<MetadataModel>> {
    match answer(cache, aliases, now) {
        Some(e) => Some(e.metadata),
        None => None,
    }
}

/// What an optional lookup result holds.
pub open spec fn opt_result(r: Option<Option<AviationstackFlightMetadata>>) -> Option<
    Option<MetadataModel>,
> {
    match r {
        Some(m) => Some(super::opt_metadata(m)),
        None => None,
    }
}

/// What the cache knows about a flight.
pub fn cached_flight_info(state: &FlightTrackerState, aliases: &Vec<String>, now: Timestamp) -> (r:
    Option<Option<AviationstackFlightMetadata>>)
    ensures
        opt_result(r) == remembered(state@.cache, slice::texts(aliases@), now),
{
    let mut best: Option<usize> = None;
    let mut i: usize = 0;
    let cache = &state.flight_info_cache;
    while i < cache.len()
        invariant
            i <= cache@.len(),
            cache@ == state.flight_info_cache@,
            best is Some ==> best->0 < i,
            answer(state@.cache.take(i as int), slice::texts(aliases@), now) == match best {
                Some(j) => Some(state@.cache[j as int]),
                None => None,
            },
        decreases cache@.len() - i,
    {
        let ghost after_i = state@.cache.take(i + 1);
        assert(after_i.drop_last() =~= state@.cache.take(i as int));
        assert(after_i.last() == cache@[i as int]@);
        if !cache[i].is_expired(now) && cache[i].matches_any_alias(aliases) {
            match best {
                Some(j) => {
                    assert(state@.cache[j as int] == cache@[j as int]@);
                    if cache[j].cached_at.ticks <= cache[i].cached_at.ticks {
                        best = Some(i);
                    }
                },
                None => {
                    best = Some(i);
                },
            }
        }
        i = i + 1;
    }
    assert(state@.cache.take(i as int) =~= state@.cache);
    match best {
        Some(j) => {
            assert(state@.cache[j as int] == cache@[j as int]@);
            Some(clone_metadata(&cache[j].metadata))
        },
        None => None,
    }
}

/// A copy of an optional metadata record.
pub fn clone_metadata(m: &Option<AviationstackFlightMetadata>) -> (r: Option<
    AviationstackFlightMetadata,
>)
    ensures
        super::opt_metadata(r) == super::opt_metadata(*m),
{
    match m {
        Some(m) => Some(m.duplicate()),
        None => None,
    }
}

impl CachedFlightInfo {
    /// A copy of the entry.
    pub fn duplicate(&self) -> (r: CachedFlightInfo)
        ensures
            r@ == self@,
    {
        CachedFlightInfo {
            aliases: slice::clone_texts(&self.aliases),
            flight_date: slice::clone_opt(&self.flight_date),
            metadata: clone_metadata(&self.metadata),
            cached_at: self.cached_at,
            expires_at: self.expires_at,
        }
    }
}

/// The aliases under which a lookup result is stored.
pub open spec fn stored_aliases(query: Seq<Seq<char>>, m: Option<MetadataModel>) -> Seq<Seq<char>> {
    match m {
        Some(m) => with_aliases(query, metadata_aliases(m)),
        None => query,
    }
}

/// The day under which a lookup result is stored.
pub open spec fn stored_day(m: Option<MetadataModel>) -> Option<Seq<char>> {
    match m {
        Some(m) => flight_day(m),
        None => None,
    }
}

/// The place of the entry that a lookup result goes into.
pub open spec fn place(
    cache: Seq<CacheEntryModel>,
    query: Seq<Seq<char>>,
    m: Option<MetadataModel>,
) -> Option<int> {
    let aliases = stored_aliases(query, m);
    let day = stored_day(m);
    lists::first_where(cache, |e: CacheEntryModel| e.joins(aliases, day))
}

/// The cache with a lookup result: in the first entry that is about the same
/// flight, else in a new one.
pub open spec fn upserted(
    cache: Seq<CacheEntryModel>,
    query: Seq<Seq<char>>,
    m: Option<MetadataModel>,
    now: Timestamp,
) -> Seq<CacheEntryModel> {
    let aliases = stored_aliases(query, m);
    let entry = CacheEntryModel {
        aliases,
        flight_date: stored_day(m),
        metadata: m,
        cached_at: now,
        expires_at: expiry(m, now),
    };
    if aliases.len() == 0 {
        cache
    } else {
        match place(cache, query, m) {
            Some(i) => cache.update(
                i,
                CacheEntryModel { aliases: with_aliases(cache[i].aliases, aliases), ..entry },
            ),
            None => cache.push(entry),
        }
    }
}

/// Whether two optional strings hold the same characters.
fn same_opt(a: &Option<String>, b: &Option<String>) -> (r: bool)
    ensures
        r == (slice::opt_text(*a) == slice::opt_text(*b)),
{
    match (a, b) {
        (Some(x), Some(y)) => slice::same(x.as_str(), y.as_str()),
        (None, None) => true,
        _ => false,
    }
}

/// Adds each alias of a list, unless it is blank or known already.
pub fn push_aliases(aliases: &mut Vec<String>, more: &Vec<String>)
    ensures
        slice::texts(final(aliases)@) == with_aliases(
            slice::texts(old(aliases)@),
            slice::texts(more@),
        ),
{
    let ghost base = slice::texts(aliases@);
    let mut i: usize = 0;
    while i < more.len()
        invariant
            i <= more@.len(),
            slice::texts(aliases@) == with_aliases(base, slice::texts(more@).take(i as int)),
        decreases more@.len() - i,
    {
        let ghost after = slice::texts(more@).take(i + 1);
        assert(after.drop_last() =~= slice::texts(more@).take(i as int));
        assert(after.last() == more@[i as int]@);
        metadata::push_alias(aliases, more[i].as_str());
        i = i + 1;
    }
    assert(slice::texts(more@).take(i as int) =~= slice::texts(more@));
}

/// Whether all entries were stored before an instant.
pub open spec fn stored_before(cache: Seq<CacheEntryModel>, now: Timestamp) -> bool {
    forall|j: int| 0 <= j < cache.len() ==> (#[trigger] cache[j]).cached_at.ticks < now.ticks
}

/// Stores a lookup result, which is then what the cache knows about the flight.
pub fn upsert_flight_info_cache(
    state: &mut FlightTrackerState,
    query_aliases: &Vec<String>,
    metadata: Option<AviationstackFlightMetadata>,
    now: Timestamp,
)
    requires
        metadata is Some ==> metadata->0@.valid(),
        now.valid(),
    ensures
        final(state)@ == (TrackerModel {
            cache: upserted(
                old(state)@.cache,
                slice::texts(query_aliases@),
                super::opt_metadata(metadata),
                now,
            ),
            ..old(state)@
        }),
        ({
            let query = slice::texts(query_aliases@);
            query.len() > 0 && metadata::are_codes(query) && stored_before(old(state)@.cache, now)
                ==> remembered(final(state)@.cache, query, now) == Some(
                super::opt_metadata(metadata),
            )
        }),
{
    let ghost query = slice::texts(query_aliases@);
    let ghost m = super::opt_metadata(metadata);
    let ghost read_back = query.len() > 0 && metadata::are_codes(query) && stored_before(
        state@.cache,
        now,
    );
    proof {
        law_results_outlive_their_storing(m, now);
        if read_back {
            law_stored_results_are_remembered(state@.cache, query, m, now, now);
        }
    }
    let mut aliases = slice::clone_texts(query_aliases);
    let mut flight_date: Option<String> = None;
    if let Some(metadata) = &metadata {
        flight_date = metadata_flight_date(metadata);
        push_aliases(&mut aliases, &metadata_cache_aliases(metadata));
    }
    assert(slice::texts(aliases@) == stored_aliases(query, m));
    assert(slice::opt_text(flight_date) == stored_day(m));
    if aliases.len() == 0 {
        assert(slice::texts(aliases@).len() == 0);
        return;
    }
    assert(slice::texts(aliases@).len() > 0);
    let expires_at = flight_info_cache_expiry(metadata.as_ref(), now);
    let ghost stored = slice::texts(aliases@);
    let ghost day = slice::opt_text(flight_date);
    let ghost p = |e: CacheEntryModel| e.joins(stored, day);
    let mut i: usize = 0;
    while i < state.flight_info_cache.len()
        invariant
            i <= state.flight_info_cache@.len(),
            *state == *old(state),
            stored == slice::texts(aliases@),
            day == slice::opt_text(flight_date),
            p == |e: CacheEntryModel| e.joins(stored, day),
            forall|j: int| 0 <= j < i ==> !p(#[trigger] state@.cache[j]),
            m == super::opt_metadata(metadata),
            query == slice::texts(query_aliases@),
            stored == stored_aliases(query, m),
            day == stored_day(m),
            stored.len() > 0,
            expires_at == expiry(m, now),
            read_back == (query.len() > 0 && metadata::are_codes(query) && stored_before(
                old(state)@.cache,
                now,
            )),
            read_back ==> remembered(upserted(old(state)@.cache, query, m, now), query, now)
                == Some(m),
        decreases state.flight_info_cache@.len() - i,
    {
        assert(state@.cache[i as int] == state.flight_info_cache@[i as int]@);
        if state.flight_info_cache[i].matches_any_alias(&aliases) && (same_opt(
            &state.flight_info_cache[i].flight_date,
            &flight_date,
        ) || state.flight_info_cache[i].flight_date.is_none() || flight_date.is_none()) {
            proof {
                assert(p(state@.cache[i as int]));
                lists::lemma_first_at(state@.cache, p, i as int);
                assert(place(old(state)@.cache, query, m) == Some(i as int));
            }
            let mut all = slice::clone_texts(&state.flight_info_cache[i].aliases);
            push_aliases(&mut all, &aliases);
            let entry = CachedFlightInfo {
                aliases: all,
                flight_date,
                metadata,
                cached_at: now,
                expires_at,
            };
            let ghost model = entry@;
            state.flight_info_cache.set(i, entry);
            assert(state@.cache =~= old(state)@.cache.update(i as int, model));
            return;
        }
        i = i + 1;
    }
    proof {
        lists::lemma_first_none(state@.cache, p);
        assert(place(old(state)@.cache, query, m) is None);
    }
    let entry = CachedFlightInfo { aliases, flight_date, metadata, cached_at: now, expires_at };
    let ghost model = entry@;
    state.flight_info_cache.push(entry);
    assert(state@.cache =~= old(state)@.cache.push(model));
}


/// The outcome of a metadata lookup.
#[derive(Debug)]
pub struct AviationstackLookup {
    /// The cache or the provider was asked.
    pub checked: bool,
    pub metadata: Option<AviationstackFlightMetadata>,
    /// The cache is not what it was before.
    pub cache_changed: bool,
    /// The provider did not answer.
    pub failed: bool,
}

/// What the outcome of a metadata lookup holds.
pub struct LookupModel {
    pub checked: bool,
    pub metadata: Option<MetadataModel>,
    pub cache_changed: bool,
    pub failed: bool,
}

impl View for AviationstackLookup {
    type V = LookupModel;

    open spec fn view(&self) -> LookupModel {
        LookupModel {
            checked: self.checked,
            metadata: super::opt_metadata(self.metadata),
            cache_changed: self.cache_changed,
            failed: self.failed,
        }
    }
}

impl AviationstackLookup {
    /// The outcome where nothing was looked up.
    pub fn skipped() -> (r: AviationstackLookup)
        ensures
            r@ == (LookupModel {
                checked: false,
                metadata: None,
                cache_changed: false,
                failed: false,
            }),
    {
        AviationstackLookup { checked: false, metadata: None, cache_changed: false, failed: false }
    }
}

/// How a metadata lookup goes on after the cache has been consulted.
#[derive(Debug)]
pub enum LookupStep {
    /// The provider is not to be asked: the cache has answered, where the flight
    /// counts as checked, or nothing can.
    Done(AviationstackLookup),
    /// The provider is to be asked. The answer is stored under the aliases.
    AskProvider { aliases: Vec<String>, cache_changed: bool },
}

/// How a metadata lookup goes on after the cache has been consulted.
pub enum LookupStepModel {
    Done(LookupModel),
    AskProvider { aliases: Seq<Seq<char>>, cache_changed: bool },
}

impl View for LookupStep {
    type V = LookupStepModel;

    open spec fn view(&self) -> LookupStepModel {
        match self {
            LookupStep::Done(l) => LookupStepModel::Done(l@),
            LookupStep::AskProvider { aliases, cache_changed } => LookupStepModel::AskProvider {
                aliases: slice::texts(aliases@),
                cache_changed: *cache_changed,
            },
        }
    }
}

impl TrackerModel {
    /// How a metadata lookup goes on after the cache has been consulted.
    pub open spec fn lookup_step(
        self,
        identifier: IdentifierModel,
        callsign: Option<Seq<char>>,
        provider_enabled: bool,
        now: Timestamp,
    ) -> LookupStepModel {
        let cache_changed = self.pruned(now).cache.len() != self.cache.len();
        let aliases = query_aliases(identifier, callsign);
        let known = remembered(self.pruned(now).cache, aliases, now);
        if aliases.len() > 0 && known is Some {
            LookupStepModel::Done(
                LookupModel { checked: true, metadata: known->0, cache_changed, failed: false },
            )
        } else if aliases.len() > 0 && provider_enabled {
            LookupStepModel::AskProvider { aliases, cache_changed }
        } else {
            LookupStepModel::Done(
                LookupModel { checked: false, metadata: None, cache_changed, failed: false },
            )
        }
    }
}

/// Begins a metadata lookup: forgets what has expired and consults the cache.
pub fn begin_lookup(
    state: &mut FlightTrackerState,
    identifier: &FlightIdentifier,
    callsign: Option<&str>,
    provider_enabled: bool,
    now: Timestamp,
) -> (r: LookupStep)
    ensures
        final(state)@ == old(state)@.pruned(now),
        r@ == old(state)@.lookup_step(
            identifier@,
            slice::opt_str(callsign),
            provider_enabled,
            now,
        ),
        match r {
            LookupStep::AskProvider { aliases, .. } => metadata::are_codes(slice::texts(aliases@)),
            LookupStep::Done(_) => true,
        },
{
    let cache_changed = prune_flight_info_cache(state, now);
    let aliases = query_cache_aliases(identifier, callsign);
    assert(slice::texts(aliases@).len() == aliases@.len());
    if aliases.len() == 0 {
        return LookupStep::Done(
            AviationstackLookup { checked: false, metadata: None, cache_changed, failed: false },
        );
    }
    if let Some(metadata) = cached_flight_info(state, &aliases, now) {
        return LookupStep::Done(
            AviationstackLookup { checked: true, metadata, cache_changed, failed: false },
        );
    }
    if !provider_enabled {
        return LookupStep::Done(
            AviationstackLookup { checked: false, metadata: None, cache_changed, failed: false },
        );
    }
    LookupStep::AskProvider { aliases, cache_changed }
}

/// What the provider said: metadata or that it has none, unless it failed.
pub open spec fn provider_model(answer: Result<Option<AviationstackFlightMetadata>, ()>) -> Result<
    Option<MetadataModel>,
    (),
> {
    match answer {
        Ok(m) => Ok(super::opt_metadata(m)),
        Err(e) => Err(e),
    }
}

/// Ends a metadata lookup with what the provider said. An answer is stored, a
/// failure is not.
pub fn finish_lookup(
    state: &mut FlightTrackerState,
    aliases: &Vec<String>,
    cache_changed: bool,
    answer: Result<Option<AviationstackFlightMetadata>, ()>,
    now: Timestamp,
) -> (r: AviationstackLookup)
    requires
        answer is Ok && answer->Ok_0 is Some ==> answer->Ok_0->0@.valid(),
        now.valid(),
    ensures
        match provider_model(answer) {
            Ok(m) => final(state)@ == (TrackerModel {
                cache: upserted(old(state)@.cache, slice::texts(aliases@), m, now),
                ..old(state)@
            }) && r@ == (LookupModel {
                checked: true,
                metadata: m,
                cache_changed: true,
                failed: false,
            }),
            Err(_) => final(state)@ == old(state)@ && r@ == (LookupModel {
                checked: true,
                metadata: None,
                cache_changed,
                failed: true,
            }),
        },
{
    match answer {
        Ok(metadata) => {
            upsert_flight_info_cache(state, aliases, clone_metadata(&metadata), now);
            AviationstackLookup { checked: true, metadata, cache_changed: true, failed: false }
        },
        Err(_) => AviationstackLookup {
            checked: true,
            metadata: None,
            cache_changed,
            failed: true,
        },
    }
}

/// A lookup result is forgotten only some time after it was stored.
pub proof fn law_results_outlive_their_storing(m: Option<MetadataModel>, now: Timestamp)
    requires
        now.valid(),
        m is Some ==> m->0.valid(),
    ensures
        expiry(m, now).ticks > now.ticks,
{
}

/// Aliases are only ever added behind those that are there.
proof fn lemma_aliases_extend(base: Seq<Seq<char>>, more: Seq<Seq<char>>)
    ensures
        base.is_prefix_of(with_aliases(base, more)),
    decreases more.len(),
{
    if more.len() > 0 {
        lemma_aliases_extend(base, more.drop_last());
    }
}

/// An added alias in normal form is known from then on.
proof fn lemma_alias_known(base: Seq<Seq<char>>, more: Seq<Seq<char>>, i: int)
    requires
        0 <= i < more.len(),
        metadata::is_code(more[i]),
    ensures
        metadata::knows(with_aliases(base, more), more[i]),
    decreases more.len(),
{
    let before = with_aliases(base, more.drop_last());
    let after = with_aliases(base, more);
    if i == more.len() - 1 {
        if !metadata::knows(before, more[i]) {
            assert(after.last() == more[i]);
            assert(chars::same_ignoring_case(after[after.len() - 1], more[i]));
        }
    } else {
        lemma_alias_known(base, more.drop_last(), i);
        let k = choose|k: int|
            0 <= k < before.len() && chars::same_ignoring_case(#[trigger] before[k], more[i]);
        assert(after[k] == before[k]);
    }
}

/// An entry that answers a lookup, and beside which every other such entry is
/// older, is the answer.
proof fn lemma_answer_at(
    cache: Seq<CacheEntryModel>,
    aliases: Seq<Seq<char>>,
    now: Timestamp,
    i: int,
)
    requires
        0 <= i < cache.len(),
        cache[i].serves(aliases, now),
        forall|j: int|
            0 <= j < cache.len() && j != i && (#[trigger] cache[j]).serves(aliases, now)
                ==> cache[j].cached_at.ticks < cache[i].cached_at.ticks || (j < i
                && cache[j].cached_at.ticks == cache[i].cached_at.ticks),
    ensures
        answer(cache, aliases, now) == Some(cache[i]),
    decreases cache.len(),
{
    let rest = cache.drop_last();
    if i == cache.len() - 1 {
        lemma_answer_among(rest, aliases, now);
    } else {
        assert(cache.last() == cache[cache.len() - 1]);
        lemma_answer_at(rest, aliases, now, i);
    }
}

/// The answer is one of the entries that answer the lookup, and no other such
/// entry is newer. Where there is no answer there is no such entry.
proof fn lemma_answer_among(cache: Seq<CacheEntryModel>, aliases: Seq<Seq<char>>, now: Timestamp)
    ensures
        match answer(cache, aliases, now) {
            Some(e) => e.serves(aliases, now) && cache.contains(e) && forall|j: int|
                0 <= j < cache.len() && (#[trigger] cache[j]).serves(aliases, now)
                    ==> cache[j].cached_at.ticks <= e.cached_at.ticks,
            None => forall|j: int|
                0 <= j < cache.len() ==> !(#[trigger] cache[j]).serves(aliases, now),
        },
    decreases cache.len(),
{
    if cache.len() > 0 {
        let rest = cache.drop_last();
        lemma_answer_among(rest, aliases, now);
        assert(cache.last() == cache[cache.len() - 1]);
        if answer(rest, aliases, now) is Some {
            let e = answer(rest, aliases, now)->0;
            let k = choose|k: int| 0 <= k < rest.len() && rest[k] == e;
            assert(cache[k] == e);
        }
        assert forall|j: int|
            0 <= j < cache.len() && (#[trigger] cache[j]).serves(aliases, now) implies answer(
            cache,
            aliases,
            now,
        ) is Some && cache[j].cached_at.ticks <= answer(cache, aliases, now)->0.cached_at.ticks by {
            if j < rest.len() {
                assert(rest[j] == cache[j]);
            }
        }
    }
}

/// What the cache knows about a flight is the result of a lookup for it that
/// has not expired, and none of those is newer.
pub proof fn law_answers_are_newest(
    cache: Seq<CacheEntryModel>,
    aliases: Seq<Seq<char>>,
    now: Timestamp,
)
    ensures
        match remembered(cache, aliases, now) {
            Some(m) => exists|i: int|
                0 <= i < cache.len() && (#[trigger] cache[i]).serves(aliases, now)
                    && cache[i].metadata == m && forall|j: int|
                    0 <= j < cache.len() && (#[trigger] cache[j]).serves(aliases, now)
                        ==> cache[j].cached_at.ticks <= cache[i].cached_at.ticks,
            None => forall|j: int|
                0 <= j < cache.len() ==> !(#[trigger] cache[j]).serves(aliases, now),
        },
{
    lemma_answer_among(cache, aliases, now);
    if answer(cache, aliases, now) is Some {
        let e = answer(cache, aliases, now)->0;
        let k = choose|k: int| 0 <= k < cache.len() && cache[k] == e;
        assert(cache[k].serves(aliases, now) && cache[k].metadata == remembered(
            cache,
            aliases,
            now,
        )->0);
    }
}

/// A stored lookup result is what the cache knows about the flight until it
/// expires. This takes aliases as they are made for a lookup, and that no other
/// entry for the flight is newer.
pub proof fn law_stored_results_are_remembered(
    cache: Seq<CacheEntryModel>,
    query: Seq<Seq<char>>,
    m: Option<MetadataModel>,
    now: Timestamp,
    later: Timestamp,
)
    requires
        query.len() > 0,
        metadata::are_codes(query),
        later.ticks < expiry(m, now).ticks,
        forall|j: int|
            0 <= j < cache.len() && Some(j) != place(cache, query, m) && (
            #[trigger] cache[j]).serves(query, later) ==> cache[j].cached_at.ticks < now.ticks || (
            cache[j].cached_at.ticks == now.ticks && (place(cache, query, m) is None || j < place(
                cache,
                query,
                m,
            )->0)),
    ensures
        remembered(upserted(cache, query, m, now), query, later) == Some(m),
{
    let aliases = stored_aliases(query, m);
    let after = upserted(cache, query, m, now);
    let day = stored_day(m);
    if m is Some {
        lemma_aliases_extend(query, metadata_aliases(m->0));
    }
    assert(aliases[0] == query[0]);
    assert(metadata::is_code(query[0]));
    lists::lemma_first_where(cache, |e: CacheEntryModel| e.joins(aliases, day));
    match place(cache, query, m) {
        Some(i) => {
            lemma_alias_known(cache[i].aliases, aliases, 0);
            assert(share(after[i].aliases, query));
            assert forall|j: int|
                0 <= j < after.len() && j != i && (#[trigger] after[j]).serves(
                    query,
                    later,
                ) implies after[j].cached_at.ticks < after[i].cached_at.ticks || (j < i
                && after[j].cached_at.ticks == after[i].cached_at.ticks) by {
                assert(after[j] == cache[j]);
            }
            lemma_answer_at(after, query, later, i);
        },
        None => {
            let i = cache.len() as int;
            assert(chars::same_ignoring_case(after[i].aliases[0], query[0]));
            assert(metadata::knows(after[i].aliases, query[0]));
            assert(share(after[i].aliases, query));
            assert forall|j: int|
                0 <= j < after.len() && j != i && (#[trigger] after[j]).serves(
                    query,
                    later,
                ) implies after[j].cached_at.ticks < after[i].cached_at.ticks || (j < i
                && after[j].cached_at.ticks == after[i].cached_at.ticks) by {
                assert(after[j] == cache[j]);
            }
            lemma_answer_at(after, query, later, i);
        },
    }
}

/// Storing a lookup result adds one entry at most and removes none, and changes
/// no entry but the one that it goes into.
pub proof fn law_storing_disturbs_no_other_entry(
    cache: Seq<CacheEntryModel>,
    query: Seq<Seq<char>>,
    m: Option<MetadataModel>,
    now: Timestamp,
)
    ensures
        ({
            let after = upserted(cache, query, m, now);
            &&& cache.len() <= after.len() <= cache.len() + 1
            &&& forall|j: int|
                0 <= j < cache.len() && Some(j) != place(cache, query, m) ==> #[trigger] after[j]
                    == cache[j]
        }),
{
    let aliases = stored_aliases(query, m);
    let day = stored_day(m);
    lists::lemma_first_where(cache, |e: CacheEntryModel| e.joins(aliases, day));
}

/// Forgetting what has expired changes no answer.
pub proof fn law_pruning_changes_no_answer(
    cache: Seq<CacheEntryModel>,
    aliases: Seq<Seq<char>>,
    now: Timestamp,
)
    ensures
        remembered(cache.filter(|e: CacheEntryModel| !e.expired(now)), aliases, now) == remembered(
            cache,
            aliases,
            now,
        ),
{
    lemma_pruned_answer(cache, aliases, now);
}

proof fn lemma_pruned_answer(cache: Seq<CacheEntryModel>, aliases: Seq<Seq<char>>, now: Timestamp)
    ensures
        answer(cache.filter(|e: CacheEntryModel| !e.expired(now)), aliases, now) == answer(
            cache,
            aliases,
            now,
        ),
    decreases cache.len(),
{
    reveal(Seq::filter);
    let p = |e: CacheEntryModel| !e.expired(now);
    if cache.len() > 0 {
        let rest = cache.drop_last();
        lemma_pruned_answer(rest, aliases, now);
        if p(cache.last()) {
            assert(rest.filter(p).push(cache.last()).drop_last() =~= rest.filter(p));
        }
    }
}

} // verus!
