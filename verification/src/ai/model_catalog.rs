//! The catalog of language models: which names they go by.

use vstd::prelude::*;

use crate::json;
use crate::json::{Json, JsonModel};
use crate::settings::{AiBackendKind, AiConnection, ConnectionModel};
use crate::text::{order, search, slice, table};
use crate::time::Moment;

verus! {

/// Where the catalog is to be had.
pub const OPENROUTER_MODELS_URL: &'static str = "https://openrouter.ai/api/v1/models";

/// Nanoseconds for which a catalog is fresh.
pub const CACHE_TTL_NANOS: u64 = 300_000_000_000;

/// Nanoseconds after a failed fetch in which none is tried.
pub const FAILURE_BACKOFF_NANOS: u64 = 60_000_000_000;

/// Whether a connection uses the service that has the catalog: it does by
/// default.
pub open spec fn uses_openrouter(c: ConnectionModel) -> bool {
    c.backend == AiBackendKind::OpenAi && match c.base_url {
        Some(url) => search::contains(url, "openrouter.ai"@),
        None => true,
    }
}

/// A name without the mark of a free model and without the colon after the
/// maker.
pub open spec fn normalized(raw: Seq<char>) -> Seq<char> {
    let name = slice::trimmed(raw);
    let bare = if search::finishes_with(name, " (free)"@) {
        name.take(name.len() - " (free)"@.len())
    } else {
        name
    };
    search::replaced(bare, ": "@, " "@)
}

/// The names by model.
pub open spec fn names(entries: Seq<(String, String)>) -> Map<Seq<char>, Seq<char>> {
    table::by_name(entries).map_values(|s: String| s@)
}

/// Whether a value is a text.
pub open spec fn is_text(o: Option<JsonModel>) -> bool {
    o matches Some(JsonModel::Text(_))
}

/// The text that a value is.
pub open spec fn text_in(o: Option<JsonModel>) -> Seq<char> {
    match o {
        Some(JsonModel::Text(s)) => s,
        _ => Seq::empty(),
    }
}

/// The names of the models in a list. What has no identifier or no name is
/// passed over; of two entries for one model, the last counts.
pub open spec fn listed_names(list: Seq<JsonModel>) -> Map<Seq<char>, Seq<char>>
    decreases list.len(),
{
    if list.len() == 0 {
        Map::empty()
    } else {
        let front = listed_names(list.drop_last());
        let id = json::field(list.last(), "id"@);
        let name = json::field(list.last(), "name"@);
        if is_text(id) && is_text(name) {
            front.insert(text_in(id), text_in(name))
        } else {
            front
        }
    }
}

/// The names of the models in a reply. There are none where it has no list.
pub open spec fn reply_names(reply: JsonModel) -> Option<Map<Seq<char>, Seq<char>>> {
    match json::field(reply, "data"@) {
        Some(JsonModel::List(list)) => Some(listed_names(list)),
        _ => None,
    }
}

/// The text that a member of an object is.
fn text_member<'a>(j: &'a Json, key: &str) -> (r: Option<&'a str>)
    ensures
        match r {
            Some(s) => json::field(json::model(*j), key@) == Some(JsonModel::Text(s@)),
            None => !is_text(json::field(json::model(*j), key@)),
        },
{
    match json::get(j, key) {
        Some(Json::Text(s)) => Some(s.as_str()),
        _ => None,
    }
}

/// The names of the models in a reply, each model once, or what is wrong with
/// the reply.
pub fn parse_openrouter_models(resp: &Json) -> (r: Result<Vec<(String, String)>, String>)
    ensures
        match r {
            Ok(v) => table::unique(v@) && reply_names(json::model(*resp)) == Some(names(v@)),
            Err(text) => reply_names(json::model(*resp)) is None && text@
                == "openrouter payload missing 'data' array"@,
        },
{
    let data = match json::get(resp, "data") {
        Some(Json::List(list)) => list,
        _ => {
            return Err("openrouter payload missing 'data' array".to_owned());
        },
    };
    let ghost all = json::list_model(data@);
    proof {
        json::lemma_list_model(data@);
    }
    let mut r: Vec<(String, String)> = Vec::new();
    let mut i: usize = 0;
    assert(names(r@) =~= listed_names(all.take(0)));
    while i < data.len()
        invariant
            i <= data@.len(),
            all == json::list_model(data@),
            all.len() == data@.len(),
            forall|j: int| 0 <= j < data@.len() ==> all[j] == json::model(data@[j]),
            table::unique(r@),
            names(r@) == listed_names(all.take(i as int)),
        decreases data@.len() - i,
    {
        let ghost after = all.take(i + 1);
        assert(after.drop_last() =~= all.take(i as int));
        let entry = &data[i];
        assert(after.last() == json::model(*entry));
        if let (Some(id), Some(name)) = (text_member(entry, "id"), text_member(entry, "name")) {
            let ghost before = table::by_name(r@);
            let name = name.to_owned();
            let ghost value = name;
            table::put(&mut r, id, name);
            assert(names(r@) =~= before.map_values(|s: String| s@).insert(id@, value@));
        }
        i = i + 1;
    }
    assert(all.take(i as int) =~= all);
    Ok(r)
}

/// A catalog and when it was fetched.
#[derive(Debug)]
pub struct CachedCatalog {
    pub fetched_at: Moment,
    pub by_id: Vec<(String, String)>,
}

/// The catalog as it was fetched last.
#[derive(Debug)]
pub struct ModelCatalog {
    entry: Option<CachedCatalog>,
    /// When a fetch failed last, unless one succeeded since.
    failed_at: Option<Moment>,
}

/// What the catalog holds.
#[verifier::ext_equal]
pub struct CatalogModel {
    /// The names by model, and when they were fetched.
    pub entry: Option<(Map<Seq<char>, Seq<char>>, Moment)>,
    pub failed_at: Option<Moment>,
}

impl View for ModelCatalog {
    type V = CatalogModel;

    closed spec fn view(&self) -> CatalogModel {
        CatalogModel {
            entry: match self.entry {
                Some(c) => Some((names(c.by_id@), c.fetched_at)),
                None => None,
            },
            failed_at: self.failed_at,
        }
    }
}

/// How a catalog is come by.
#[derive(Clone, Copy, Debug, PartialEq, Eq, Structural)]
pub enum CatalogStep {
    /// The one that is there is good enough.
    Cached,
    /// There is none, and it is too early to ask again.
    BackedOff,
    /// It has to be fetched.
    Fetch,
}

impl CatalogModel {
    /// Whether the catalog that is there is fresh.
    pub open spec fn fresh(self, now: Moment) -> bool {
        match self.entry {
            Some((_, fetched_at)) => now.nanos - fetched_at.nanos <= CACHE_TTL_NANOS,
            None => false,
        }
    }

    /// Whether it is too early to ask again.
    pub open spec fn backing_off(self, now: Moment) -> bool {
        match self.failed_at {
            Some(at) => now.nanos < at.nanos + FAILURE_BACKOFF_NANOS,
            None => false,
        }
    }

    /// How a catalog is come by.
    pub open spec fn step(self, now: Moment) -> CatalogStep {
        if self.fresh(now) {
            CatalogStep::Cached
        } else if self.backing_off(now) {
            if self.entry is Some {
                CatalogStep::Cached
            } else {
                CatalogStep::BackedOff
            }
        } else {
            CatalogStep::Fetch
        }
    }

    /// The catalog once it was asked for. Where that failed, what was there
    /// stays.
    pub open spec fn fetched(
        self,
        reply: Option<Map<Seq<char>, Seq<char>>>,
        now: Moment,
    ) -> CatalogModel {
        match reply {
            Some(by_id) => CatalogModel { entry: Some((by_id, now)), failed_at: None },
            None => CatalogModel { failed_at: Some(now), ..self },
        }
    }

    /// The name under which a model is shown: its identifier, where the
    /// connection uses another service, or the catalog does not have it or
    /// is not to be had.
    pub open spec fn shown_name(
        self,
        c: ConnectionModel,
        model_id: Seq<char>,
        to_be_had: bool,
    ) -> Seq<char> {
        match self.entry {
            Some((by_id, _)) => if uses_openrouter(c) && to_be_had && by_id.contains_key(model_id) {
                normalized(by_id[model_id])
            } else {
                model_id
            },
            None => model_id,
        }
    }
}

impl ModelCatalog {
    #[verifier::type_invariant]
    closed spec fn inv(self) -> bool {
        self.entry is Some ==> table::unique((self.entry->0).by_id@)
    }

    /// No catalog yet.
    pub fn new() -> (r: ModelCatalog)
        ensures
            r@ == (CatalogModel { entry: None, failed_at: None }),
    {
        ModelCatalog { entry: None, failed_at: None }
    }

    /// Whether a connection uses the service that has the catalog.
    pub fn is_openrouter(conn: &AiConnection) -> (b: bool)
        ensures
            b == uses_openrouter(conn@),
    {
        conn.backend == AiBackendKind::OpenAi && match &conn.base_url {
            Some(url) => search::has(url.as_str(), "openrouter.ai"),
            None => true,
        }
    }

    /// A name as it is shown.
    pub fn normalize_name(raw: &str) -> (r: String)
        ensures
            r@ == normalized(raw@),
    {
        proof {
            reveal_strlit(": ");
        }
        let trimmed = slice::trim(raw);
        match search::before_suffix(trimmed.as_str(), " (free)") {
            Some(bare) => search::replace_all(bare.as_str(), ": ", " "),
            None => search::replace_all(trimmed.as_str(), ": ", " "),
        }
    }

    /// Whether it is too early to ask again.
    pub fn in_fetch_backoff(&self, now: Moment) -> (b: bool)
        ensures
            b == self@.backing_off(now),
    {
        match self.failed_at {
            Some(at) => (now.nanos as u128) < at.nanos as u128 + FAILURE_BACKOFF_NANOS as u128,
            None => false,
        }
    }

    /// How a catalog is come by.
    pub fn next_step(&self, now: Moment) -> (r: CatalogStep)
        ensures
            r == self@.step(now),
    {
        if let Some(c) = &self.entry {
            if now.nanos <= c.fetched_at.nanos || now.nanos - c.fetched_at.nanos <= CACHE_TTL_NANOS {
                return CatalogStep::Cached;
            }
        }
        if self.in_fetch_backoff(now) {
            if self.entry.is_some() {
                CatalogStep::Cached
            } else {
                CatalogStep::BackedOff
            }
        } else {
            CatalogStep::Fetch
        }
    }

    /// Takes the reply to a fetch, or its failure, and returns whether there
    /// is a catalog now.
    pub fn store(&mut self, reply: Option<Vec<(String, String)>>, now: Moment) -> (b: bool)
        requires
            reply is Some ==> table::unique((reply->0)@),
        ensures
            final(self)@ == old(self)@.fetched(
                match reply {
                    Some(v) => Some(names(v@)),
                    None => None,
                },
                now,
            ),
            b == (final(self)@.entry is Some),
    {
        proof {
            use_type_invariant(&*self);
        }
        match reply {
            Some(by_id) => {
                self.failed_at = None;
                self.entry = Some(CachedCatalog { fetched_at: now, by_id });
                true
            },
            None => {
                self.failed_at = Some(now);
                self.entry.is_some()
            },
        }
    }

    /// The name under which a model is shown, where the catalog is to be had or
    /// not.
    pub fn display_name(&self, conn: &AiConnection, model_id: &str, to_be_had: bool) -> (r: String)
        ensures
            r@ == self@.shown_name(conn@, model_id@, to_be_had),
    {
        proof {
            use_type_invariant(self);
        }
        if !to_be_had || !Self::is_openrouter(conn) {
            return model_id.to_owned();
        }
        match &self.entry {
            Some(c) => match table::position(&c.by_id, model_id) {
                Some(i) => {
                    proof {
                        table::lemma_found(c.by_id@, i as int);
                    }
                    Self::normalize_name(c.by_id[i].1.as_str())
                },
                None => {
                    proof {
                        table::lemma_absent(c.by_id@, model_id@);
                    }
                    model_id.to_owned()
                },
            },
            None => model_id.to_owned(),
        }
    }

    /// All models with the names under which they are shown, in the order of
    /// these names.
    pub fn openrouter_model_entries(&self) -> (r: Option<Vec<(String, String)>>)
        ensures
            match (r, self@.entry) {
                (Some(v), Some((by_id, _))) => {
                    &&& table::unique(v@)
                    &&& names(v@) == by_id.map_values(|name: Seq<char>| normalized(name))
                    &&& order::ascending(labels(v@))
                },
                (None, None) => true,
                _ => false,
            },
    {
        proof {
            use_type_invariant(self);
        }
        let by_id = match &self.entry {
            Some(c) => &c.by_id,
            None => {
                return None;
            },
        };
        let mut r: Vec<(String, String)> = Vec::new();
        let mut i: usize = 0;
        assert(names(r@) =~= names(by_id@.take(0)).map_values(|name: Seq<char>| normalized(name)));
        while i < by_id.len()
            invariant
                i <= by_id@.len(),
                table::unique(by_id@),
                table::unique(r@),
                order::ascending(labels(r@)),
                forall|j: int| 0 <= j < r@.len() ==> exists|k: int|
                    0 <= k < i && (#[trigger] r@[j]).0@ == (#[trigger] by_id@[k]).0@,
                names(r@) == names(by_id@.take(i as int)).map_values(
                    |name: Seq<char>| normalized(name),
                ),
            decreases by_id@.len() - i,
        {
            let ghost before = r@;
            let ghost front = by_id@.take(i as int);
            let ghost after = by_id@.take(i + 1);
            let ghost f = |name: Seq<char>| normalized(name);
            assert(after.drop_last() =~= front);
            assert(after.last() == by_id@[i as int]);
            let e = (by_id[i].0.clone(), Self::normalize_name(by_id[i].1.as_str()));
            let ghost entry = e;
            assert forall|j: int| 0 <= j < r@.len() implies (#[trigger] r@[j]).0@ != e.0@ by {
                let k = choose|k: int|
                    0 <= k < i && r@[j].0@ == (#[trigger] by_id@[k]).0@;
                assert(by_id@[k].0@ != by_id@[i as int].0@);
            }
            proof {
                assert forall|k: int| 0 <= k <= before.len() implies {
                    &&& table::unique(#[trigger] before.insert(k, entry))
                    &&& names(before.insert(k, entry)) == names(after).map_values(f)
                } by {
                    table::lemma_insert(before, k, entry);
                    assert(names(before.insert(k, entry)) =~= names(before).insert(
                        entry.0@,
                        entry.1@,
                    ));
                    assert(names(after) =~= names(front).insert(
                        by_id@[i as int].0@,
                        by_id@[i as int].1@,
                    ));
                    assert(names(front).insert(by_id@[i as int].0@, by_id@[i as int].1@).map_values(
                        f,
                    ) =~= names(front).map_values(f).insert(entry.0@, entry.1@));
                }
            }
            let at: usize = place(&mut r, e);
            assert forall|j: int| 0 <= j < r@.len() implies exists|k: int|
                0 <= k < i + 1 && (#[trigger] r@[j]).0@ == (#[trigger] by_id@[k]).0@ by {
                if j == at {
                    assert(r@[j].0@ == by_id@[i as int].0@);
                } else {
                    let old_j = if j < at {
                        j
                    } else {
                        j - 1
                    };
                    assert(r@[j] == before[old_j]);
                }
            }
            i = i + 1;
        }
        assert(by_id@.take(i as int) =~= by_id@);
        Some(r)
    }
}

/// Puts a pair into its place among ascending ones, and returns the place.
fn place(v: &mut Vec<(String, String)>, e: (String, String)) -> (at: usize)
    requires
        order::ascending(labels(old(v)@)),
    ensures
        at <= old(v)@.len(),
        final(v)@ == old(v)@.insert(at as int, e),
        order::ascending(labels(final(v)@)),
{
    let ghost before = labels(v@);
    let ghost label = e.1@;
    let mut i: usize = 0;
    while i < v.len() && order::not_after(v[i].1.as_str(), e.1.as_str())
        invariant
            i <= v@.len(),
            v@ == old(v)@,
            before == labels(v@),
            label == e.1@,
            forall|j: int| 0 <= j < i ==> order::lex_le(#[trigger] before[j], label),
        decreases v@.len() - i,
    {
        assert(before[i as int] == v@[i as int].1@);
        i = i + 1;
    }
    proof {
        if i < v@.len() {
            assert(before[i as int] == v@[i as int].1@);
            order::lemma_lex_total(before[i as int], label);
        }
        assert forall|j: int| i <= j < before.len() implies order::lex_le(
            label,
            #[trigger] before[j],
        ) by {
            assert(order::lex_le(before[i as int], before[j]));
            order::lemma_lex_transitive(label, before[i as int], before[j]);
        }
        order::lemma_lex_total(label, label);
        assert(order::ascending(before.insert(i as int, label)));
        assert(labels(v@.insert(i as int, e)) =~= before.insert(i as int, label));
    }
    v.insert(i, e);
    i
}

/// The second parts of pairs.
pub open spec fn labels(v: Seq<(String, String)>) -> Seq<Seq<char>> {
    v.map_values(|e: (String, String)| e.1@)
}

/// After a failed fetch none is tried for a while, and what was known stays
/// known.
pub proof fn law_failures_are_not_repeated(c: CatalogModel, failed: Moment, now: Moment)
    requires
        now.nanos < failed.nanos + FAILURE_BACKOFF_NANOS,
    ensures
        c.fetched(None, failed).entry == c.entry,
        c.fetched(None, failed).step(now) != CatalogStep::Fetch,
{
}

/// After a fetch none is tried while its catalog is fresh.
pub proof fn law_fetches_last(
    c: CatalogModel,
    reply: Map<Seq<char>, Seq<char>>,
    fetched: Moment,
    now: Moment,
)
    requires
        now.nanos - fetched.nanos <= CACHE_TTL_NANOS,
    ensures
        c.fetched(Some(reply), fetched).step(now) == CatalogStep::Cached,
{
}

/// A name without white space around it, the mark and the colon is shown as it
/// is.
pub proof fn law_plain_names_stay(name: Seq<char>)
    requires
        slice::trimmed(name) == name,
        !search::finishes_with(name, " (free)"@),
        !search::contains(name, ": "@),
    ensures
        normalized(name) == name,
{
    search::lemma_replaced_absent(name, ": "@, " "@);
}

} // verus!
