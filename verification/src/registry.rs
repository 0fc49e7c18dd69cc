//! The provider registry: providers and their model mappings, and what the operator can do
//! with them.

use crate::forwarder::{event_is, join3, SystemEvent};
use crate::health::{after_reset, not_blacklisted, reset_failures};
use crate::models::{
    ModelMapInput, ModelMapResponse, Provider, ProviderCreate, ProviderModelMap,
    ProviderResponse, ProviderUpdate,
};
use crate::registry_wf::{
    lemma_create_keeps_wf, lemma_delete_keeps_wf, lemma_greatest_map_id,
    lemma_greatest_provider_id, lemma_reordered_keys, lemma_replace_keeps_wf,
    lemma_same_keys_keep_wf, lemma_update_keeps_wf, tables_wf,
};
use crate::routing::{lists_in_order, ordered_rows};
use crate::text::{decimal, decimal_of, opt_str_view};
use vstd::prelude::*;

verus! {

/// The provider registry: the providers and their model mappings, each table in the order in
/// which its rows were inserted.
#[derive(Debug)]
pub struct Registry {
    pub providers: Vec<Provider>,
    pub model_maps: Vec<ProviderModelMap>,
}

/// Why the registry refuses an operation.
#[derive(Debug, Clone, Copy, PartialEq, Eq, Structural)]
pub enum RegistryError {
    /// No provider has the id.
    NotFound,
    /// Another provider of the variant has the name.
    DuplicateName,
    /// Two of the mappings given have one source pattern.
    DuplicateMapping,
    /// No id is left for a new row.
    Full,
}

impl RegistryError {
    /// The text that reports the refusal.
    pub open spec fn text(self) -> Seq<char> {
        match self {
            RegistryError::NotFound => "Provider not found"@,
            RegistryError::DuplicateName => "A provider of this name exists for the variant"@,
            RegistryError::DuplicateMapping => "Two mappings have the same source model"@,
            RegistryError::Full => "No id is left"@,
        }
    }

    /// The text that reports the refusal.
    pub fn message(&self) -> (r: String)
        ensures
            r@ == self.text(),
    {
        match self {
            RegistryError::NotFound => String::from_str("Provider not found"),
            RegistryError::DuplicateName => String::from_str(
                "A provider of this name exists for the variant",
            ),
            RegistryError::DuplicateMapping => String::from_str(
                "Two mappings have the same source model",
            ),
            RegistryError::Full => String::from_str("No id is left"),
        }
    }
}

/// The index of the provider with the id.
pub open spec fn provider_index(providers: Seq<Provider>, id: i64) -> Option<int>
    decreases providers.len(),
{
    if providers.len() == 0 {
        None
    } else {
        match provider_index(providers.drop_last(), id) {
            Some(i) => Some(i),
            None => if providers.last().id == id {
                Some(providers.len() - 1)
            } else {
                None
            },
        }
    }
}

/// Whether a provider other than the one with id `except` is of the variant and has the name.
pub open spec fn name_taken(
    providers: Seq<Provider>,
    cli_type: Seq<char>,
    name: Seq<char>,
    except: i64,
) -> bool {
    exists|i: int|
        0 <= i < providers.len() && (#[trigger] providers[i]).id != except && providers[i].cli_type@
            == cli_type && providers[i].name@ == name
}

/// Whether two of the mappings given have one source pattern.
pub open spec fn sources_repeat(inputs: Seq<ModelMapInput>) -> bool {
    exists|i: int, j: int|
        0 <= i < j < inputs.len() && (#[trigger] inputs[i]).source_model@ == (
        #[trigger] inputs[j]).source_model@
}

/// The greatest id of the providers, and 0 where there is none above 0.
pub open spec fn greatest_provider_id(providers: Seq<Provider>) -> i64
    decreases providers.len(),
{
    if providers.len() == 0 {
        0
    } else {
        let earlier = greatest_provider_id(providers.drop_last());
        if providers.last().id > earlier {
            providers.last().id
        } else {
            earlier
        }
    }
}

/// The greatest id of the mappings, and 0 where there is none above 0.
pub open spec fn greatest_map_id(maps: Seq<ProviderModelMap>) -> i64
    decreases maps.len(),
{
    if maps.len() == 0 {
        0
    } else {
        let earlier = greatest_map_id(maps.drop_last());
        if maps.last().id > earlier {
            maps.last().id
        } else {
            earlier
        }
    }
}

/// The sort order that a new provider gets: one more than the greatest there is, and 1 in an
/// empty table; held at the end of the range of `i64`.
pub open spec fn next_sort_order(providers: Seq<Provider>) -> i64
    decreases providers.len(),
{
    if providers.len() == 0 {
        1
    } else {
        let greatest = greatest_sort_order(providers);
        if greatest < i64::MAX {
            (greatest + 1) as i64
        } else {
            greatest
        }
    }
}

/// The greatest sort order of a table that is not empty.
pub open spec fn greatest_sort_order(providers: Seq<Provider>) -> i64
    decreases providers.len(),
{
    if providers.len() <= 1 {
        if providers.len() == 1 {
            providers[0].sort_order
        } else {
            0
        }
    } else {
        let earlier = greatest_sort_order(providers.drop_last());
        if providers.last().sort_order > earlier {
            providers.last().sort_order
        } else {
            earlier
        }
    }
}

/// 1 for `true` and 0 for `false`, as the store holds a flag.
pub open spec fn stored_flag(b: bool) -> i64 {
    if b {
        1
    } else {
        0
    }
}

/// The mappings that belong to the provider with the id.
pub open spec fn of_provider(id: i64) -> spec_fn(ProviderModelMap) -> bool {
    |m: ProviderModelMap| m.provider_id == id
}

/// The mappings that do not belong to the provider with the id.
pub open spec fn of_others(id: i64) -> spec_fn(ProviderModelMap) -> bool {
    |m: ProviderModelMap| m.provider_id != id
}

/// The providers other than the one with the id.
pub open spec fn other_than(id: i64) -> spec_fn(Provider) -> bool {
    |p: Provider| p.id != id
}

/// The rows that the mappings given become for the provider, with ids from `first_id` on.
pub open spec fn rows_of(inputs: Seq<ModelMapInput>, provider_id: i64, first_id: int) -> Seq<
    ProviderModelMap,
> {
    Seq::new(
        inputs.len(),
        |k: int|
            ProviderModelMap {
                id: (first_id + k) as i64,
                provider_id,
                source_model: inputs[k].source_model,
                target_model: inputs[k].target_model,
                enabled: stored_flag(inputs[k].enabled),
            },
    )
}

/// The mapping table after the mappings of a provider have been replaced: the rows of the
/// other providers stay, the rows given follow them with ids above those that stay.
pub open spec fn maps_replaced(
    maps: Seq<ProviderModelMap>,
    provider_id: i64,
    inputs: Seq<ModelMapInput>,
) -> Seq<ProviderModelMap> {
    let kept = maps.filter(of_others(provider_id));
    kept + rows_of(inputs, provider_id, greatest_map_id(kept) + 1)
}

/// A mapping as it is shown.
pub open spec fn shown_map(m: ProviderModelMap) -> ModelMapResponse {
    ModelMapResponse {
        id: m.id,
        source_model: m.source_model,
        target_model: m.target_model,
        enabled: m.enabled != 0,
    }
}

/// The mappings of a provider as they are shown, in the order of the table.
pub open spec fn shown_maps(maps: Seq<ProviderModelMap>, provider_id: i64) -> Seq<
    ModelMapResponse,
> {
    let own = maps.filter(of_provider(provider_id));
    Seq::new(own.len(), |k: int| shown_map(own[k]))
}

/// Whether `r` shows the provider `p` at `now` with the mappings `maps`.
pub open spec fn shows(r: ProviderResponse, p: Provider, now: i64, maps: Seq<ModelMapResponse>)
    -> bool {
    &&& r.id == p.id
    &&& r.cli_type == p.cli_type
    &&& r.name == p.name
    &&& r.base_url == p.base_url
    &&& r.api_key == p.api_key
    &&& r.enabled == (p.enabled != 0)
    &&& r.failure_threshold == p.failure_threshold
    &&& r.blacklist_minutes == p.blacklist_minutes
    &&& r.consecutive_failures == p.consecutive_failures
    &&& r.blacklisted_until == p.blacklisted_until
    &&& r.sort_order == p.sort_order
    &&& r.is_blacklisted == !not_blacklisted(p, now)
    &&& r.model_maps@ == maps
}

/// Whether any field of the provider itself is to change.
pub open spec fn touches_provider(input: ProviderUpdate) -> bool {
    input.name is Some || input.base_url is Some || input.api_key is Some || input.enabled
        is Some || input.failure_threshold is Some || input.blacklist_minutes is Some
}

/// The provider after an update: each field that is given is set, and the row is stamped.
pub open spec fn updated(p: Provider, input: ProviderUpdate, now: i64) -> Provider {
    Provider {
        name: match input.name {
            Some(v) => v,
            None => p.name,
        },
        base_url: match input.base_url {
            Some(v) => v,
            None => p.base_url,
        },
        api_key: match input.api_key {
            Some(v) => v,
            None => p.api_key,
        },
        enabled: match input.enabled {
            Some(v) => stored_flag(v),
            None => p.enabled,
        },
        failure_threshold: match input.failure_threshold {
            Some(v) => v,
            None => p.failure_threshold,
        },
        blacklist_minutes: match input.blacklist_minutes {
            Some(v) => v,
            None => p.blacklist_minutes,
        },
        updated_at: now,
        ..p
    }
}

/// Whether a provider of the variant has the name.
pub open spec fn name_used(providers: Seq<Provider>, cli_type: Seq<char>, name: Seq<char>) -> bool {
    exists|i: int|
        0 <= i < providers.len() && (#[trigger] providers[i]).cli_type@ == cli_type
            && providers[i].name@ == name
}

/// The number of mappings given.
pub open spec fn given_maps(maps: Option<Vec<ModelMapInput>>) -> Seq<ModelMapInput> {
    match maps {
        Some(list) => list@,
        None => Seq::empty(),
    }
}

/// The variant of a provider that is created: the one given, or Assistant-A's.
pub open spec fn created_variant(input: ProviderCreate) -> Seq<char> {
    match input.cli_type {
        Some(c) => c@,
        None => "claude_code"@,
    }
}

/// Why a provider cannot be created, if it cannot.
pub open spec fn create_error(
    providers: Seq<Provider>,
    maps: Seq<ProviderModelMap>,
    input: ProviderCreate,
) -> Option<RegistryError> {
    if name_used(providers, created_variant(input), input.name@) {
        Some(RegistryError::DuplicateName)
    } else if sources_repeat(given_maps(input.model_maps)) {
        Some(RegistryError::DuplicateMapping)
    } else if greatest_provider_id(providers) == i64::MAX || greatest_map_id(maps) + given_maps(
        input.model_maps,
    ).len() > i64::MAX {
        Some(RegistryError::Full)
    } else {
        None
    }
}

/// Whether `row` is the row of a provider created from `input` at `now`: what is not given
/// has its default, and the health fields start clean.
pub open spec fn created_is(
    row: Provider,
    input: ProviderCreate,
    id: i64,
    sort_order: i64,
    now: i64,
) -> bool {
    &&& row.id == id
    &&& row.cli_type@ == created_variant(input)
    &&& row.name == input.name
    &&& row.base_url == input.base_url
    &&& row.api_key == input.api_key
    &&& row.enabled == stored_flag(
        match input.enabled {
            Some(b) => b,
            None => true,
        },
    )
    &&& row.failure_threshold == match input.failure_threshold {
        Some(n) => n,
        None => 3,
    }
    &&& row.blacklist_minutes == match input.blacklist_minutes {
        Some(n) => n,
        None => 10,
    }
    &&& row.consecutive_failures == 0
    &&& row.blacklisted_until is None
    &&& row.sort_order == sort_order
    &&& row.created_at == now
    &&& row.updated_at == now
}

/// Why a provider cannot be updated, if it cannot.
pub open spec fn update_error(
    providers: Seq<Provider>,
    maps: Seq<ProviderModelMap>,
    id: i64,
    input: ProviderUpdate,
) -> Option<RegistryError> {
    match provider_index(providers, id) {
        None => Some(RegistryError::NotFound),
        Some(i) => if input.name matches Some(name) && name_taken(
            providers,
            providers[i].cli_type@,
            name@,
            id,
        ) {
            Some(RegistryError::DuplicateName)
        } else if sources_repeat(given_maps(input.model_maps)) {
            Some(RegistryError::DuplicateMapping)
        } else if greatest_map_id(maps.filter(of_others(id))) + given_maps(input.model_maps).len()
            > i64::MAX {
            Some(RegistryError::Full)
        } else {
            None
        },
    }
}

/// What creating a provider does: nothing where it cannot be created; else the provider is
/// added at the end of its table with a fresh id and the next sort order, its mappings are
/// added with fresh ids, and the event `provider_created` is due.
pub open spec fn provider_created(
    before: Registry,
    after: Registry,
    input: ProviderCreate,
    now: i64,
    r: Result<(ProviderResponse, SystemEvent), RegistryError>,
) -> bool {
    match r {
        Err(e) => {
            &&& create_error(before.providers@, before.model_maps@, input) == Some(e)
            &&& after.providers@ == before.providers@
            &&& after.model_maps@ == before.model_maps@
        },
        Ok((shown, event)) => {
            let id = (greatest_provider_id(before.providers@) + 1) as i64;
            &&& create_error(before.providers@, before.model_maps@, input) is None
            &&& after.providers@.len() == before.providers@.len() + 1
            &&& after.providers@.drop_last() == before.providers@
            &&& created_is(
                after.providers@.last(),
                input,
                id,
                next_sort_order(before.providers@),
                now,
            )
            &&& after.model_maps@ == before.model_maps@ + rows_of(
                given_maps(input.model_maps),
                id,
                greatest_map_id(before.model_maps@) + 1,
            )
            &&& shows(shown, after.providers@.last(), now, shown_maps(after.model_maps@, id))
            &&& event_is(
                event,
                "info"@,
                "provider_created"@,
                "Provider "@ + input.name@ + " created"@,
                Some(input.name@),
                None,
            )
        },
    }
}

/// What updating a provider does: nothing where it cannot be updated; else the fields given
/// are set and the row is stamped, the mappings are replaced where mappings are given, and
/// the event `provider_updated` is due where anything was given.
pub open spec fn provider_updated(
    before: Registry,
    after: Registry,
    id: i64,
    input: ProviderUpdate,
    now: i64,
    r: Result<(ProviderResponse, Option<SystemEvent>), RegistryError>,
) -> bool {
    match r {
        Err(e) => {
            &&& update_error(before.providers@, before.model_maps@, id, input) == Some(e)
            &&& after.providers@ == before.providers@
            &&& after.model_maps@ == before.model_maps@
        },
        Ok((shown, event)) => {
            &&& update_error(before.providers@, before.model_maps@, id, input) is None
            &&& provider_index(before.providers@, id) matches Some(i)
            &&& after.providers@ == if touches_provider(input) {
                before.providers@.update(i, updated(before.providers@[i], input, now))
            } else {
                before.providers@
            }
            &&& after.model_maps@ == match input.model_maps {
                Some(list) => maps_replaced(before.model_maps@, id, list@),
                None => before.model_maps@,
            }
            &&& shows(shown, after.providers@[i], now, shown_maps(after.model_maps@, id))
            &&& match event {
                Some(e) => (touches_provider(input) || input.model_maps is Some) && event_is(
                    e,
                    "info"@,
                    "provider_updated"@,
                    "Provider "@ + before.providers@[i].name@ + " updated"@,
                    Some(before.providers@[i].name@),
                    None,
                ),
                None => !touches_provider(input) && input.model_maps is None,
            }
        },
    }
}

/// The name under which an operation on the provider with the id is reported: the name of
/// the provider, or `Provider#` and the id where no provider has it.
pub open spec fn logged_name(providers: Seq<Provider>, id: i64) -> Seq<char> {
    match provider_index(providers, id) {
        Some(i) => providers[i].name@,
        None => "Provider#"@ + decimal_of(id as int),
    }
}

/// A place in a list as a sort order.
pub open spec fn place_of(k: int) -> i64 {
    if k > i64::MAX {
        i64::MAX
    } else {
        k as i64
    }
}

/// The row with the sort order `place` where it has the id, else as it is.
pub open spec fn placed(p: Provider, id: i64, place: i64) -> Provider {
    if p.id == id {
        Provider { sort_order: place, ..p }
    } else {
        p
    }
}

/// The table in which the rows with the id have the sort order `place`.
pub open spec fn with_place(providers: Seq<Provider>, id: i64, place: i64) -> Seq<Provider> {
    Seq::new(providers.len(), |j: int| placed(providers[j], id, place))
}

/// The table after the providers named in `ids` have got their places as sort orders.
pub open spec fn reordered(providers: Seq<Provider>, ids: Seq<i64>) -> Seq<Provider>
    decreases ids.len(),
{
    if ids.len() == 0 {
        providers
    } else {
        with_place(reordered(providers, ids.drop_last()), ids.last(), place_of(ids.len() - 1))
    }
}

/// For each provider, whether it is listed when the providers of a variant, or all, are
/// asked for.
pub open spec fn variant_flags(providers: Seq<Provider>, cli_type: Option<Seq<char>>) -> Seq<
    bool,
> {
    Seq::new(
        providers.len(),
        |i: int|
            match cli_type {
                Some(c) => providers[i].cli_type@ == c,
                None => true,
            },
    )
}

/// Whether `listing` shows the providers of the variant asked for, or all, each once, in
/// order of priority, each with its mappings.
pub open spec fn providers_listed(
    listing: Seq<ProviderResponse>,
    order: Seq<usize>,
    providers: Seq<Provider>,
    maps: Seq<ProviderModelMap>,
    cli_type: Option<Seq<char>>,
    now: i64,
) -> bool {
    &&& lists_in_order(order, providers, variant_flags(providers, cli_type))
    &&& listing.len() == order.len()
    &&& forall|k: int|
        0 <= k < order.len() ==> shows(
            #[trigger] listing[k],
            providers[order[k] as int],
            now,
            shown_maps(maps, providers[order[k] as int].id),
        )
}

fn sources_repeat_in(inputs: &Vec<ModelMapInput>) -> (r: bool)
    ensures
        r == sources_repeat(inputs@),
{
    let mut j: usize = 0;
    while j < inputs.len()
        invariant
            j <= inputs.len(),
            forall|a: int, b: int|
                0 <= a < b < j ==> (#[trigger] inputs@[a]).source_model@ != (
                #[trigger] inputs@[b]).source_model@,
        decreases inputs.len() - j,
    {
        let mut i: usize = 0;
        while i < j
            invariant
                i <= j < inputs.len(),
                forall|a: int|
                    0 <= a < i ==> (#[trigger] inputs@[a]).source_model@
                        != inputs@[j as int].source_model@,
            decreases j - i,
        {
            if inputs[i].source_model == inputs[j].source_model {
                assert(inputs@[i as int].source_model@ == inputs@[j as int].source_model@);
                return true;
            }
            i += 1;
        }
        j += 1;
    }
    false
}

fn hold_next(x: i64, n: usize) -> (r: Option<i64>)
    requires
        x >= 0,
    ensures
        r == if x + n > i64::MAX {
            None::<i64>
        } else {
            Some(x)
        },
{
    let wide: u64 = n as u64;
    if wide > 0x7fff_ffff_ffff_ffff {
        None
    } else if x as i128 + wide as i128 > i64::MAX as i128 {
        None
    } else {
        Some(x)
    }
}

fn greatest_map(maps: &Vec<ProviderModelMap>) -> (r: i64)
    ensures
        r == greatest_map_id(maps@),
{
    let mut best: i64 = 0;
    let mut i: usize = 0;
    assert(maps@.take(0) =~= Seq::empty());
    while i < maps.len()
        invariant
            i <= maps.len(),
            best == greatest_map_id(maps@.take(i as int)),
        decreases maps.len() - i,
    {
        assert(maps@.take(i + 1).drop_last() =~= maps@.take(i as int));
        if maps[i].id > best {
            best = maps[i].id;
        }
        i += 1;
    }
    assert(maps@.take(maps.len() as int) =~= maps@);
    best
}

fn append_rows(
    maps: &mut Vec<ProviderModelMap>,
    inputs: &Vec<ModelMapInput>,
    provider_id: i64,
    greatest: i64,
)
    requires
        0 <= greatest,
        greatest + inputs@.len() <= i64::MAX,
    ensures
        final(maps)@ == old(maps)@ + rows_of(inputs@, provider_id, greatest + 1),
{
    let ghost before = maps@;
    let ghost rows = rows_of(inputs@, provider_id, greatest + 1);
    let mut k: usize = 0;
    let mut id: i64 = greatest;
    assert(maps@ =~= before + rows.take(0));
    while k < inputs.len()
        invariant
            k <= inputs.len(),
            id == greatest + k,
            greatest + inputs@.len() <= i64::MAX,
            rows == rows_of(inputs@, provider_id, greatest + 1),
            maps@ == before + rows.take(k as int),
        decreases inputs.len() - k,
    {
        id = id + 1;
        let input = &inputs[k];
        let enabled: i64 = if input.enabled {
            1
        } else {
            0
        };
        maps.push(
            ProviderModelMap {
                id,
                provider_id,
                source_model: input.source_model.clone(),
                target_model: input.target_model.clone(),
                enabled,
            },
        );
        k += 1;
        assert(maps@ =~= before + rows.take(k as int));
    }
    assert(rows.take(inputs.len() as int) =~= rows);
}

impl Registry {
    /// A registry without providers.
    pub fn new() -> (r: Registry)
        ensures
            r.providers@.len() == 0,
            r.model_maps@.len() == 0,
            r.wf(),
    {
        Registry { providers: Vec::new(), model_maps: Vec::new() }
    }

    /// What holds of every registry that these operations have made.
    pub open spec fn wf(&self) -> bool {
        tables_wf(self.providers@, self.model_maps@)
    }

    /// The index of the provider with the id.
    pub fn find(&self, id: i64) -> (r: Option<usize>)
        ensures
            match r {
                Some(i) => i < self.providers.len() && provider_index(self.providers@, id)
                    == Some(i as int) && self.providers@[i as int].id == id,
                None => provider_index(self.providers@, id) is None,
            },
    {
        let mut found: Option<usize> = None;
        let mut i: usize = 0;
        assert(self.providers@.take(0) =~= Seq::empty());
        while i < self.providers.len()
            invariant
                i <= self.providers.len(),
                match found {
                    Some(f) => f < i && provider_index(self.providers@.take(i as int), id) == Some(
                        f as int,
                    ) && self.providers@[f as int].id == id,
                    None => provider_index(self.providers@.take(i as int), id) is None,
                },
            decreases self.providers.len() - i,
        {
            assert(self.providers@.take(i + 1).drop_last() =~= self.providers@.take(i as int));
            if found.is_none() && self.providers[i].id == id {
                found = Some(i);
            }
            i += 1;
        }
        assert(self.providers@.take(self.providers.len() as int) =~= self.providers@);
        found
    }

    /// The mappings of a provider as they are shown.
    pub fn maps_shown(&self, provider_id: i64) -> (r: Vec<ModelMapResponse>)
        ensures
            r@ == shown_maps(self.model_maps@, provider_id),
    {
        let ghost pred = of_provider(provider_id);
        let mut out: Vec<ModelMapResponse> = Vec::new();
        let ghost mut own: Seq<ProviderModelMap> = Seq::empty();
        let mut i: usize = 0;
        proof {
            reveal(Seq::filter);
            assert(self.model_maps@.take(0) =~= Seq::empty());
        }
        while i < self.model_maps.len()
            invariant
                i <= self.model_maps.len(),
                pred == of_provider(provider_id),
                own == self.model_maps@.take(i as int).filter(pred),
                out@.len() == own.len(),
                forall|k: int| 0 <= k < own.len() ==> out@[k] == shown_map(own[k]),
            decreases self.model_maps.len() - i,
        {
            let m = &self.model_maps[i];
            proof {
                assert(self.model_maps@.take(i + 1) =~= self.model_maps@.take(i as int).push(*m));
                self.model_maps@.take(i as int).lemma_filter_push(*m, pred);
            }
            if m.provider_id == provider_id {
                out.push(
                    ModelMapResponse {
                        id: m.id,
                        source_model: m.source_model.clone(),
                        target_model: m.target_model.clone(),
                        enabled: m.enabled != 0,
                    },
                );
                proof {
                    own = own.push(*m);
                }
            }
            i += 1;
        }
        assert(self.model_maps@.take(self.model_maps.len() as int) =~= self.model_maps@);
        assert(out@ =~= shown_maps(self.model_maps@, provider_id));
        out
    }

    /// The provider with the id as it is shown at `now`, with its mappings.
    pub fn get_provider(&self, id: i64, now: i64) -> (r: Result<ProviderResponse, RegistryError>)
        ensures
            match r {
                Ok(shown) => provider_index(self.providers@, id) matches Some(i) && shows(
                    shown,
                    self.providers@[i],
                    now,
                    shown_maps(self.model_maps@, id),
                ),
                Err(e) => e == RegistryError::NotFound && provider_index(self.providers@, id)
                    is None,
            },
    {
        match self.find(id) {
            Some(i) => {
                let mut shown = ProviderResponse::from_provider(self.providers[i].duplicate(), now);
                shown.model_maps = self.maps_shown(id);
                Ok(shown)
            },
            None => Err(RegistryError::NotFound),
        }
    }

    /// The name under which an operation on the provider with the id is reported.
    pub fn name_for_log(&self, id: i64) -> (r: String)
        ensures
            r@ == logged_name(self.providers@, id),
    {
        match self.find(id) {
            Some(i) => self.providers[i].name.clone(),
            None => String::from_str("Provider#").concat(decimal(id).as_str()),
        }
    }

    /// Clears the failures and the blacklist of the provider with the id, as the operator
    /// asks, and gives the event that reports it. An id that no provider has changes nothing.
    pub fn reset_provider_failures(&mut self, id: i64, now: i64) -> (event: SystemEvent)
        ensures
            final(self).model_maps == old(self).model_maps,
            final(self).providers@ == match provider_index(old(self).providers@, id) {
                Some(i) => old(self).providers@.update(
                    i,
                    after_reset(old(self).providers@[i], now),
                ),
                None => old(self).providers@,
            },
            event_is(
                event,
                "info"@,
                "provider_reset"@,
                "Provider "@ + logged_name(old(self).providers@, id) + " status manually reset"@,
                Some(logged_name(old(self).providers@, id)),
                None,
            ),
            old(self).wf() ==> final(self).wf(),
    {
        let name = self.name_for_log(id);
        match self.find(id) {
            Some(i) => {
                let ghost before = self.providers@;
                let mut p = self.providers[i].duplicate();
                reset_failures(&mut p, now);
                self.providers.set(i, p);
                assert(self.providers@ =~= before.update(
                    i as int,
                    after_reset(before[i as int], now),
                ));
                proof {
                    if old(self).wf() {
                        lemma_same_keys_keep_wf(before, self.providers@, self.model_maps@);
                    }
                }
            },
            None => {},
        }
        SystemEvent {
            level: String::from_str("info"),
            event_type: String::from_str("provider_reset"),
            message: join3("Provider ", name.as_str(), " status manually reset"),
            provider_name: Some(name),
            details: None,
        }
    }

    /// Deletes the provider with the id and its mappings, and gives the event that reports it.
    pub fn delete_provider(&mut self, id: i64) -> (event: SystemEvent)
        ensures
            final(self).providers@ == old(self).providers@.filter(other_than(id)),
            final(self).model_maps@ == old(self).model_maps@.filter(of_others(id)),
            event_is(
                event,
                "info"@,
                "provider_deleted"@,
                "Provider "@ + logged_name(old(self).providers@, id) + " deleted"@,
                Some(logged_name(old(self).providers@, id)),
                None,
            ),
            old(self).wf() ==> final(self).wf(),
    {
        proof {
            if old(self).wf() {
                lemma_delete_keeps_wf(self.providers@, self.model_maps@, id);
            }
        }
        let name = self.name_for_log(id);
        let mut providers: Vec<Provider> = Vec::new();
        let mut i: usize = 0;
        proof {
            reveal(Seq::filter);
            assert(self.providers@.take(0) =~= Seq::empty());
            assert(self.model_maps@.take(0) =~= Seq::empty());
        }
        while i < self.providers.len()
            invariant
                i <= self.providers.len(),
                *self == *old(self),
                providers@ == self.providers@.take(i as int).filter(other_than(id)),
            decreases self.providers.len() - i,
        {
            proof {
                assert(self.providers@.take(i + 1) =~= self.providers@.take(i as int).push(
                    self.providers@[i as int],
                ));
                self.providers@.take(i as int).lemma_filter_push(
                    self.providers@[i as int],
                    other_than(id),
                );
            }
            if self.providers[i].id != id {
                providers.push(self.providers[i].duplicate());
            }
            i += 1;
        }
        assert(self.providers@.take(self.providers.len() as int) =~= self.providers@);
        let maps = self.maps_of_others(id);
        self.providers = providers;
        self.model_maps = maps;
        SystemEvent {
            level: String::from_str("info"),
            event_type: String::from_str("provider_deleted"),
            message: join3("Provider ", name.as_str(), " deleted"),
            provider_name: Some(name),
            details: None,
        }
    }

    /// The mappings of the providers other than the one with the id.
    pub fn maps_of_others(&self, id: i64) -> (r: Vec<ProviderModelMap>)
        ensures
            r@ == self.model_maps@.filter(of_others(id)),
    {
        let mut maps: Vec<ProviderModelMap> = Vec::new();
        let mut k: usize = 0;
        proof {
            reveal(Seq::filter);
            assert(self.model_maps@.take(0) =~= Seq::empty());
        }
        while k < self.model_maps.len()
            invariant
                k <= self.model_maps.len(),
                maps@ == self.model_maps@.take(k as int).filter(of_others(id)),
            decreases self.model_maps.len() - k,
        {
            proof {
                assert(self.model_maps@.take(k + 1) =~= self.model_maps@.take(k as int).push(
                    self.model_maps@[k as int],
                ));
                self.model_maps@.take(k as int).lemma_filter_push(
                    self.model_maps@[k as int],
                    of_others(id),
                );
            }
            if self.model_maps[k].provider_id != id {
                maps.push(self.model_maps[k].duplicate());
            }
            k += 1;
        }
        assert(self.model_maps@.take(self.model_maps.len() as int) =~= self.model_maps@);
        maps
    }

    /// Gives each provider named in `ids` its place in `ids` as sort order; of two places of
    /// one id the later counts. Ids that no provider has are passed over.
    pub fn reorder_providers(&mut self, ids: &Vec<i64>)
        ensures
            final(self).providers@ == reordered(old(self).providers@, ids@),
            final(self).model_maps == old(self).model_maps,
            old(self).wf() ==> final(self).wf(),
    {
        proof {
            if old(self).wf() {
                lemma_reordered_keys(self.providers@, ids@);
                lemma_same_keys_keep_wf(
                    self.providers@,
                    reordered(self.providers@, ids@),
                    self.model_maps@,
                );
            }
        }
        let mut k: usize = 0;
        assert(ids@.take(0) =~= Seq::empty());
        while k < ids.len()
            invariant
                k <= ids.len(),
                self.model_maps == old(self).model_maps,
                self.providers@ == reordered(old(self).providers@, ids@.take(k as int)),
            decreases ids.len() - k,
        {
            assert(ids@.take(k + 1).drop_last() =~= ids@.take(k as int));
            let wide: u64 = k as u64;
            let place: i64 = if wide > 0x7fff_ffff_ffff_ffff {
                i64::MAX
            } else {
                wide as i64
            };
            assert(place == place_of(k as int));
            assert(ids@.take(k + 1).last() == ids@[k as int]);
            let ghost before = self.providers@;
            let mut i: usize = 0;
            while i < self.providers.len()
                invariant
                    i <= self.providers.len(),
                    k < ids.len(),
                    self.model_maps == old(self).model_maps,
                    self.providers@.len() == before.len(),
                    forall|j: int|
                        0 <= j < i ==> #[trigger] self.providers@[j] == placed(
                            before[j],
                            ids@[k as int],
                            place,
                        ),
                    forall|j: int|
                        i <= j < before.len() ==> #[trigger] self.providers@[j] == before[j],
                decreases self.providers.len() - i,
            {
                if self.providers[i].id == ids[k] {
                    let mut p = self.providers[i].duplicate();
                    p.sort_order = place;
                    self.providers.set(i, p);
                }
                i += 1;
            }
            assert(self.providers@ =~= with_place(before, ids@[k as int], place));
            k += 1;
        }
        assert(ids@.take(ids.len() as int) =~= ids@);
    }

    /// Whether a provider other than the one with id `except` is of the variant and has the
    /// name.
    pub fn name_is_taken(&self, cli_type: &String, name: &String, except: Option<i64>) -> (r: bool)
        ensures
            r == match except {
                Some(id) => name_taken(self.providers@, cli_type@, name@, id),
                None => name_used(self.providers@, cli_type@, name@),
            },
    {
        let mut i: usize = 0;
        while i < self.providers.len()
            invariant
                i <= self.providers.len(),
                forall|j: int|
                    0 <= j < i ==> !((except is None || (#[trigger] self.providers@[j]).id
                        != except->0) && self.providers@[j].cli_type@ == cli_type@
                        && self.providers@[j].name@ == name@),
            decreases self.providers.len() - i,
        {
            let p = &self.providers[i];
            let other = match except {
                Some(id) => p.id != id,
                None => true,
            };
            if other && p.cli_type == *cli_type && p.name == *name {
                assert(self.providers@[i as int].cli_type@ == cli_type@);
                return true;
            }
            i += 1;
        }
        false
    }

    /// The greatest id of the providers, and 0 where there is none above 0.
    pub fn greatest_provider(&self) -> (r: i64)
        ensures
            r == greatest_provider_id(self.providers@),
    {
        let mut best: i64 = 0;
        let mut i: usize = 0;
        assert(self.providers@.take(0) =~= Seq::empty());
        while i < self.providers.len()
            invariant
                i <= self.providers.len(),
                best == greatest_provider_id(self.providers@.take(i as int)),
            decreases self.providers.len() - i,
        {
            assert(self.providers@.take(i + 1).drop_last() =~= self.providers@.take(i as int));
            if self.providers[i].id > best {
                best = self.providers[i].id;
            }
            i += 1;
        }
        assert(self.providers@.take(self.providers.len() as int) =~= self.providers@);
        best
    }

    /// The sort order that a new provider gets.
    pub fn next_sort(&self) -> (r: i64)
        ensures
            r == next_sort_order(self.providers@),
    {
        if self.providers.len() == 0 {
            return 1;
        }
        let mut best: i64 = self.providers[0].sort_order;
        let mut i: usize = 1;
        assert(self.providers@.take(1).len() == 1);
        while i < self.providers.len()
            invariant
                1 <= i <= self.providers.len(),
                best == greatest_sort_order(self.providers@.take(i as int)),
            decreases self.providers.len() - i,
        {
            assert(self.providers@.take(i + 1).drop_last() =~= self.providers@.take(i as int));
            if self.providers[i].sort_order > best {
                best = self.providers[i].sort_order;
            }
            i += 1;
        }
        assert(self.providers@.take(self.providers.len() as int) =~= self.providers@);
        if best < i64::MAX {
            best + 1
        } else {
            best
        }
    }

    /// Creates a provider from what the operator entered.
    pub fn create_provider(&mut self, input: ProviderCreate, now: i64) -> (r: Result<
        (ProviderResponse, SystemEvent),
        RegistryError,
    >)
        ensures
            provider_created(*old(self), *final(self), input, now, r),
            old(self).wf() ==> final(self).wf(),
    {
        let cli_type = match &input.cli_type {
            Some(c) => c.clone(),
            None => String::from_str("claude_code"),
        };
        if self.name_is_taken(&cli_type, &input.name, None) {
            return Err(RegistryError::DuplicateName);
        }
        let no_maps: Vec<ModelMapInput> = Vec::new();
        let given: &Vec<ModelMapInput> = match &input.model_maps {
            Some(list) => list,
            None => &no_maps,
        };
        assert(given@ =~= given_maps(input.model_maps));
        if sources_repeat_in(given) {
            return Err(RegistryError::DuplicateMapping);
        }
        let greatest = self.greatest_provider();
        let greatest_map = greatest_map(&self.model_maps);
        proof {
            lemma_greatest_map_id(self.model_maps@);
            lemma_greatest_provider_id(self.providers@);
        }
        if greatest == i64::MAX || hold_next(greatest_map, given.len()).is_none() {
            return Err(RegistryError::Full);
        }
        let id: i64 = greatest + 1;
        let sort_order = self.next_sort();
        let name = input.name.clone();
        let enabled: i64 = match input.enabled {
            Some(false) => 0,
            _ => 1,
        };
        let row = Provider {
            id,
            cli_type,
            name: input.name.clone(),
            base_url: input.base_url.clone(),
            api_key: input.api_key.clone(),
            enabled,
            failure_threshold: match input.failure_threshold {
                Some(n) => n,
                None => 3,
            },
            blacklist_minutes: match input.blacklist_minutes {
                Some(n) => n,
                None => 10,
            },
            consecutive_failures: 0,
            blacklisted_until: None,
            sort_order,
            created_at: now,
            updated_at: now,
        };
        let mut shown = ProviderResponse::from_provider(row.duplicate(), now);
        let ghost before = self.providers@;
        proof {
            if old(self).wf() {
                lemma_create_keeps_wf(before, self.model_maps@, row, given@);
            }
        }
        self.providers.push(row);
        assert(self.providers@.drop_last() =~= before);
        append_rows(&mut self.model_maps, given, id, greatest_map);
        shown.model_maps = self.maps_shown(id);
        let event = SystemEvent {
            level: String::from_str("info"),
            event_type: String::from_str("provider_created"),
            message: join3("Provider ", name.as_str(), " created"),
            provider_name: Some(name),
            details: None,
        };
        Ok((shown, event))
    }

    /// Changes the provider with the id as the operator asks.
    pub fn update_provider(&mut self, id: i64, input: ProviderUpdate, now: i64) -> (r: Result<
        (ProviderResponse, Option<SystemEvent>),
        RegistryError,
    >)
        ensures
            provider_updated(*old(self), *final(self), id, input, now, r),
            old(self).wf() ==> final(self).wf(),
    {
        let i = match self.find(id) {
            Some(i) => i,
            None => {
                return Err(RegistryError::NotFound);
            },
        };
        match &input.name {
            Some(name) => {
                if self.name_is_taken(&self.providers[i].cli_type, name, Some(id)) {
                    return Err(RegistryError::DuplicateName);
                }
            },
            None => {},
        }
        let has_maps = input.model_maps.is_some();
        let no_maps: Vec<ModelMapInput> = Vec::new();
        let given: &Vec<ModelMapInput> = match &input.model_maps {
            Some(list) => list,
            None => &no_maps,
        };
        assert(given@ =~= given_maps(input.model_maps));
        if sources_repeat_in(given) {
            return Err(RegistryError::DuplicateMapping);
        }
        let mut kept = self.maps_of_others(id);
        let greatest_map = greatest_map(&kept);
        proof {
            lemma_greatest_map_id(kept@);
        }
        if hold_next(greatest_map, given.len()).is_none() {
            return Err(RegistryError::Full);
        }
        let old_name = self.providers[i].name.clone();
        let touches = input.name.is_some() || input.base_url.is_some() || input.api_key.is_some()
            || input.enabled.is_some() || input.failure_threshold.is_some()
            || input.blacklist_minutes.is_some();
        if has_maps {
            proof {
                if old(self).wf() {
                    assert(self.providers@[i as int].id == id);
                    lemma_replace_keeps_wf(self.providers@, self.model_maps@, id, given@);
                }
            }
            append_rows(&mut kept, given, id, greatest_map);
            self.model_maps = kept;
        }
        if touches {
            let ghost before = self.providers@;
            proof {
                if old(self).wf() {
                    lemma_update_keeps_wf(before, self.model_maps@, i as int, input, now);
                }
            }
            let p = &self.providers[i];
            let row = Provider {
                id: p.id,
                cli_type: p.cli_type.clone(),
                name: match &input.name {
                    Some(v) => v.clone(),
                    None => p.name.clone(),
                },
                base_url: match &input.base_url {
                    Some(v) => v.clone(),
                    None => p.base_url.clone(),
                },
                api_key: match &input.api_key {
                    Some(v) => v.clone(),
                    None => p.api_key.clone(),
                },
                enabled: match input.enabled {
                    Some(true) => 1,
                    Some(false) => 0,
                    None => p.enabled,
                },
                failure_threshold: match input.failure_threshold {
                    Some(v) => v,
                    None => p.failure_threshold,
                },
                blacklist_minutes: match input.blacklist_minutes {
                    Some(v) => v,
                    None => p.blacklist_minutes,
                },
                consecutive_failures: p.consecutive_failures,
                blacklisted_until: p.blacklisted_until,
                sort_order: p.sort_order,
                created_at: p.created_at,
                updated_at: now,
            };
            self.providers.set(i, row);
            assert(self.providers@ =~= before.update(
                i as int,
                updated(before[i as int], input, now),
            ));
        }
        let mut shown = ProviderResponse::from_provider(self.providers[i].duplicate(), now);
        shown.model_maps = self.maps_shown(id);
        let event = if touches || has_maps {
            Some(
                SystemEvent {
                    level: String::from_str("info"),
                    event_type: String::from_str("provider_updated"),
                    message: join3("Provider ", old_name.as_str(), " updated"),
                    provider_name: Some(old_name),
                    details: None,
                },
            )
        } else {
            None
        };
        Ok((shown, event))
    }

    /// The providers of a variant, or all, as they are shown at `now`, in order of priority.
    pub fn get_providers(&self, cli_type: Option<&str>, now: i64) -> (r: Vec<ProviderResponse>)
        ensures
            exists|order: Seq<usize>|
                #[trigger] providers_listed(
                    r@,
                    order,
                    self.providers@,
                    self.model_maps@,
                    opt_str_view(cli_type),
                    now,
                ),
    {
        let ghost wanted = opt_str_view(cli_type);
        let tag: Option<String> = match cli_type {
            Some(c) => Some(String::from_str(c)),
            None => None,
        };
        let mut keep: Vec<bool> = Vec::new();
        let mut i: usize = 0;
        while i < self.providers.len()
            invariant
                i <= self.providers.len(),
                keep@.len() == i,
                match tag {
                    Some(t) => wanted == Some(t@),
                    None => wanted is None,
                },
                forall|j: int|
                    0 <= j < i ==> keep@[j] == variant_flags(self.providers@, wanted)[j],
            decreases self.providers.len() - i,
        {
            let listed = match &tag {
                Some(t) => self.providers[i].cli_type == *t,
                None => true,
            };
            keep.push(listed);
            i += 1;
        }
        assert(keep@ =~= variant_flags(self.providers@, wanted));
        let order = ordered_rows(self.providers.as_slice(), &keep);
        let mut out: Vec<ProviderResponse> = Vec::new();
        let mut k: usize = 0;
        while k < order.len()
            invariant
                k <= order.len(),
                out@.len() == k,
                lists_in_order(order@, self.providers@, keep@),
                forall|j: int|
                    0 <= j < k ==> shows(
                        #[trigger] out@[j],
                        self.providers@[order@[j] as int],
                        now,
                        shown_maps(self.model_maps@, self.providers@[order@[j] as int].id),
                    ),
            decreases order.len() - k,
        {
            let p = &self.providers[order[k]];
            let mut shown = ProviderResponse::from_provider(p.duplicate(), now);
            shown.model_maps = self.maps_shown(p.id);
            out.push(shown);
            k += 1;
        }
        assert(providers_listed(
            out@,
            order@,
            self.providers@,
            self.model_maps@,
            wanted,
            now,
        ));
        out
    }
}

} // verus!
