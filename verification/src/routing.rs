//! The selector: which provider serves a request.

use crate::health::not_blacklisted;
use crate::models::{Provider, ProviderModelMap};
use vstd::prelude::*;

verus! {

/// A provider together with its model mappings.
#[derive(Debug, Clone)]
pub struct ProviderWithMaps {
    pub provider: Provider,
    pub model_maps: Vec<ProviderModelMap>,
}

/// Whether `p` can serve the variant tagged `tag` at `now`: it is tagged for the variant, it
/// is enabled, and it is not blacklisted.
pub open spec fn eligible(p: Provider, tag: Seq<char>, now: i64) -> bool {
    p.cli_type@ == tag && p.enabled != 0 && not_blacklisted(p, now)
}

/// Whether `a` comes strictly before `b` in order of priority: by sort order, then by id.
pub open spec fn precedes(a: Provider, b: Provider) -> bool {
    a.sort_order < b.sort_order || (a.sort_order == b.sort_order && a.id < b.id)
}

/// The index of the eligible provider of highest priority; among equals, the first in the
/// table.
pub open spec fn best_index(providers: Seq<Provider>, tag: Seq<char>, now: i64) -> Option<int>
    decreases providers.len(),
{
    if providers.len() == 0 {
        None
    } else {
        let last = providers.len() - 1;
        let earlier = best_index(providers.drop_last(), tag, now);
        if !eligible(providers[last], tag, now) {
            earlier
        } else {
            match earlier {
                Some(j) => if precedes(providers[last], providers[j]) {
                    Some(last)
                } else {
                    Some(j)
                },
                None => Some(last),
            }
        }
    }
}

/// The mappings that are loaded with a provider.
pub open spec fn loaded_with(provider_id: i64) -> spec_fn(ProviderModelMap) -> bool {
    |m: ProviderModelMap| m.provider_id == provider_id && m.enabled != 0
}

/// The enabled mappings of a provider, in the order in which they were inserted.
pub open spec fn maps_of(maps: Seq<ProviderModelMap>, provider_id: i64) -> Seq<
    ProviderModelMap,
> {
    maps.filter(loaded_with(provider_id))
}

/// What selection gives: the provider at `best_index` with its enabled mappings.
pub open spec fn selection_is(
    r: Option<ProviderWithMaps>,
    providers: Seq<Provider>,
    maps: Seq<ProviderModelMap>,
    tag: Seq<char>,
    now: i64,
) -> bool {
    match r {
        Some(found) => {
            &&& best_index(providers, tag, now) matches Some(i)
            &&& found.provider == providers[i]
            &&& found.model_maps@ == maps_of(maps, providers[i].id)
        },
        None => best_index(providers, tag, now) is None,
    }
}

/// The selected provider is eligible, no eligible provider comes before it, and nothing is
/// selected only where no provider is eligible.
pub proof fn lemma_best_index(providers: Seq<Provider>, tag: Seq<char>, now: i64)
    ensures
        match best_index(providers, tag, now) {
            Some(i) => {
                &&& 0 <= i < providers.len()
                &&& eligible(providers[i], tag, now)
                &&& forall|j: int|
                    0 <= j < providers.len() && eligible(#[trigger] providers[j], tag, now)
                        ==> !precedes(providers[j], providers[i])
            },
            None => forall|j: int|
                0 <= j < providers.len() ==> !eligible(#[trigger] providers[j], tag, now),
        },
    decreases providers.len(),
{
    if providers.len() > 0 {
        let shorter = providers.drop_last();
        lemma_best_index(shorter, tag, now);
        assert forall|j: int| 0 <= j < shorter.len() implies shorter[j] == providers[j] by {}
        match best_index(providers, tag, now) {
            Some(i) => {
                assert forall|j: int|
                    0 <= j < providers.len() && eligible(
                        #[trigger] providers[j],
                        tag,
                        now,
                    ) implies !precedes(providers[j], providers[i]) by {
                    if j < shorter.len() {
                        assert(eligible(shorter[j], tag, now));
                    }
                }
            },
            None => {
                assert forall|j: int| 0 <= j < providers.len() implies !eligible(
                    #[trigger] providers[j],
                    tag,
                    now,
                ) by {
                    if j < shorter.len() {
                        assert(!eligible(shorter[j], tag, now));
                    }
                }
            },
        }
    }
}

/// A provider that is blacklisted at `now` is not selected: after the failure that
/// blacklists it, no request reaches it before the expiry.
pub proof fn lemma_blacklisted_is_not_selected(
    providers: Seq<Provider>,
    tag: Seq<char>,
    now: i64,
    i: int,
)
    requires
        0 <= i < providers.len(),
        !not_blacklisted(providers[i], now),
    ensures
        best_index(providers, tag, now) != Some(i),
{
    lemma_best_index(providers, tag, now);
}

impl Provider {
    /// A second record with the same fields.
    pub fn duplicate(&self) -> (r: Provider)
        ensures
            r == *self,
    {
        Provider {
            id: self.id,
            cli_type: self.cli_type.clone(),
            name: self.name.clone(),
            base_url: self.base_url.clone(),
            api_key: self.api_key.clone(),
            enabled: self.enabled,
            failure_threshold: self.failure_threshold,
            blacklist_minutes: self.blacklist_minutes,
            consecutive_failures: self.consecutive_failures,
            blacklisted_until: self.blacklisted_until,
            sort_order: self.sort_order,
            created_at: self.created_at,
            updated_at: self.updated_at,
        }
    }
}

impl ProviderModelMap {
    /// A second record with the same fields.
    pub fn duplicate(&self) -> (r: ProviderModelMap)
        ensures
            r == *self,
    {
        ProviderModelMap {
            id: self.id,
            provider_id: self.provider_id,
            source_model: self.source_model.clone(),
            target_model: self.target_model.clone(),
            enabled: self.enabled,
        }
    }
}

/// The enabled mappings of a provider, in insertion order.
pub fn load_maps(maps: &[ProviderModelMap], provider_id: i64) -> (r: Vec<ProviderModelMap>)
    ensures
        r@ == maps_of(maps@, provider_id),
{
    let mut out: Vec<ProviderModelMap> = Vec::new();
    let mut i: usize = 0;
    proof {
        reveal(Seq::filter);
        assert(maps@.take(0) =~= Seq::empty());
    }
    while i < maps.len()
        invariant
            i <= maps.len(),
            out@ == maps@.take(i as int).filter(loaded_with(provider_id)),
        decreases maps.len() - i,
    {
        proof {
            assert(maps@.take(i + 1) =~= maps@.take(i as int).push(maps@[i as int]));
            maps@.take(i as int).lemma_filter_push(maps@[i as int], loaded_with(provider_id));
        }
        if maps[i].provider_id == provider_id && maps[i].enabled != 0 {
            out.push(maps[i].duplicate());
        }
        i += 1;
    }
    assert(maps@.take(maps.len() as int) =~= maps@);
    out
}

/// Whether `p` can serve the variant tagged `tag` at `now`.
pub fn is_eligible(p: &Provider, tag: &String, now: i64) -> (r: bool)
    ensures
        r == eligible(*p, tag@, now),
{
    let free = match p.blacklisted_until {
        Some(until) => until <= now,
        None => true,
    };
    p.cli_type == *tag && p.enabled != 0 && free
}

/// Selects the provider for a request of the variant tagged `cli_type` at `now`: the
/// eligible provider that comes first by sort order and then by id, with its enabled
/// mappings in insertion order; nothing where no provider is eligible.
pub fn select_provider(
    providers: &[Provider],
    maps: &[ProviderModelMap],
    cli_type: &str,
    now: i64,
) -> (r: Option<ProviderWithMaps>)
    ensures
        selection_is(r, providers@, maps@, cli_type@, now),
{
    let tag = String::from_str(cli_type);
    let mut best: Option<usize> = None;
    let mut i: usize = 0;
    assert(providers@.take(0) =~= Seq::empty());
    while i < providers.len()
        invariant
            i <= providers.len(),
            tag@ == cli_type@,
            match best {
                Some(b) => b < i && best_index(providers@.take(i as int), tag@, now) == Some(
                    b as int,
                ),
                None => best_index(providers@.take(i as int), tag@, now) is None,
            },
        decreases providers.len() - i,
    {
        proof {
            let longer = providers@.take(i + 1);
            assert(longer.drop_last() =~= providers@.take(i as int));
            assert(longer[i as int] == providers@[i as int]);
            if let Some(b) = best {
                assert(longer[b as int] == providers@[b as int]);
            }
        }
        if is_eligible(&providers[i], &tag, now) {
            best = match best {
                Some(b) => {
                    let a = &providers[i];
                    let c = &providers[b];
                    if a.sort_order < c.sort_order || (a.sort_order == c.sort_order && a.id
                        < c.id) {
                        Some(i)
                    } else {
                        Some(b)
                    }
                },
                None => Some(i),
            };
        }
        i += 1;
    }
    assert(providers@.take(providers.len() as int) =~= providers@);
    match best {
        Some(b) => {
            let provider = providers[b].duplicate();
            let model_maps = load_maps(maps, provider.id);
            Some(ProviderWithMaps { provider, model_maps })
        },
        None => None,
    }
}

/// Whether the row at index `i` comes before the row at index `j` in an ordered listing: by
/// sort order, then by id, and among rows equal in both as they stand in the table.
pub open spec fn listed_before(providers: Seq<Provider>, i: int, j: int) -> bool {
    precedes(providers[i], providers[j]) || (!precedes(providers[j], providers[i]) && i < j)
}

/// Whether `order` lists exactly the rows of `providers` that are marked in `keep`, each
/// once, in order of priority.
pub open spec fn lists_in_order(order: Seq<usize>, providers: Seq<Provider>, keep: Seq<bool>)
    -> bool {
    &&& forall|k: int|
        0 <= k < order.len() ==> (#[trigger] order[k]) < providers.len() && keep[order[k] as int]
    &&& forall|a: int, b: int|
        0 <= a < b < order.len() ==> listed_before(
            providers,
            #[trigger] order[a] as int,
            #[trigger] order[b] as int,
        )
    &&& forall|i: int|
        0 <= i < providers.len() && #[trigger] keep[i] ==> exists|k: int|
            0 <= k < order.len() && #[trigger] order[k] == i
}

/// For each row, whether it can serve the variant tagged `tag` at `now`.
pub open spec fn eligible_flags(providers: Seq<Provider>, tag: Seq<char>, now: i64) -> Seq<bool> {
    Seq::new(providers.len(), |i: int| eligible(providers[i], tag, now))
}

proof fn lemma_listed_before_transitive(providers: Seq<Provider>, i: int, j: int, k: int)
    requires
        listed_before(providers, i, j),
        listed_before(providers, j, k),
    ensures
        listed_before(providers, i, k),
{
}

fn row_before(providers: &[Provider], i: usize, j: usize) -> (r: bool)
    requires
        i < providers.len(),
        j < providers.len(),
    ensures
        r == listed_before(providers@, i as int, j as int),
{
    let a = &providers[i];
    let b = &providers[j];
    let a_first = a.sort_order < b.sort_order || (a.sort_order == b.sort_order && a.id < b.id);
    let b_first = b.sort_order < a.sort_order || (b.sort_order == a.sort_order && b.id < a.id);
    a_first || (!b_first && i < j)
}

/// The indices of the rows that are marked in `keep`, in order of priority.
pub(crate) fn ordered_rows(providers: &[Provider], keep: &Vec<bool>) -> (order: Vec<usize>)
    requires
        keep.len() == providers.len(),
    ensures
        lists_in_order(order@, providers@, keep@),
{
    let mut order: Vec<usize> = Vec::new();
    let mut i: usize = 0;
    while i < providers.len()
        invariant
            i <= providers.len(),
            keep.len() == providers.len(),
            forall|k: int|
                0 <= k < order@.len() ==> (#[trigger] order@[k]) < i && keep@[order@[k] as int],
            forall|a: int, b: int|
                0 <= a < b < order@.len() ==> listed_before(
                    providers@,
                    #[trigger] order@[a] as int,
                    #[trigger] order@[b] as int,
                ),
            forall|j: int|
                0 <= j < i && #[trigger] keep@[j] ==> exists|k: int|
                    0 <= k < order@.len() && #[trigger] order@[k] == j,
        decreases providers.len() - i,
    {
        if keep[i] {
            let mut pos: usize = 0;
            while pos < order.len() && row_before(providers, order[pos], i)
                invariant
                    pos <= order.len(),
                    i < providers.len(),
                    forall|k: int| 0 <= k < order@.len() ==> (#[trigger] order@[k]) < i,
                    forall|k: int|
                        0 <= k < pos ==> listed_before(
                            providers@,
                            #[trigger] order@[k] as int,
                            i as int,
                        ),
                decreases order.len() - pos,
            {
                pos += 1;
            }
            let ghost before = order@;
            order.insert(pos, i);
            proof {
                assert forall|a: int, b: int| 0 <= a < b < order@.len() implies listed_before(
                    providers@,
                    #[trigger] order@[a] as int,
                    #[trigger] order@[b] as int,
                ) by {
                    if b == pos {
                        assert(order@[a] == before[a]);
                    } else if a == pos {
                        assert(order@[b] == before[b - 1]);
                        if b - 1 > pos {
                            assert(listed_before(
                                providers@,
                                before[pos as int] as int,
                                before[b - 1] as int,
                            ));
                            lemma_listed_before_transitive(
                                providers@,
                                i as int,
                                before[pos as int] as int,
                                before[b - 1] as int,
                            );
                        }
                    } else {
                        let a0 = if a < pos {
                            a
                        } else {
                            a - 1
                        };
                        let b0 = if b < pos {
                            b
                        } else {
                            b - 1
                        };
                        assert(order@[a] == before[a0]);
                        assert(order@[b] == before[b0]);
                    }
                }
                assert forall|j: int| 0 <= j < i + 1 && #[trigger] keep@[j] implies exists|k: int|
                    0 <= k < order@.len() && #[trigger] order@[k] == j by {
                    if j == i {
                        assert(order@[pos as int] == i);
                    } else {
                        let k0 = choose|k: int| 0 <= k < before.len() && #[trigger] before[k] == j;
                        let k1 = if k0 < pos {
                            k0
                        } else {
                            k0 + 1
                        };
                        assert(order@[k1] == j);
                    }
                }
                assert forall|k: int| 0 <= k < order@.len() implies (#[trigger] order@[k]) < i
                    + 1 && keep@[order@[k] as int] by {
                    if k < pos {
                        assert(order@[k] == before[k]);
                    } else if k > pos {
                        assert(order@[k] == before[k - 1]);
                    }
                }
            }
        }
        i += 1;
    }
    order
}

/// For each row, whether it can serve the variant tagged `cli_type` at `now`.
pub fn mark_eligible(providers: &[Provider], cli_type: &str, now: i64) -> (keep: Vec<bool>)
    ensures
        keep@ == eligible_flags(providers@, cli_type@, now),
{
    let tag = String::from_str(cli_type);
    let mut keep: Vec<bool> = Vec::new();
    let mut i: usize = 0;
    while i < providers.len()
        invariant
            i <= providers.len(),
            tag@ == cli_type@,
            keep@.len() == i,
            forall|j: int| 0 <= j < i ==> keep@[j] == eligible(providers@[j], cli_type@, now),
        decreases providers.len() - i,
    {
        keep.push(is_eligible(&providers[i], &tag, now));
        i += 1;
    }
    assert(keep@ =~= eligible_flags(providers@, cli_type@, now));
    keep
}

/// Whether `listing` holds the providers that can serve the variant tagged `tag` at `now`,
/// each once, in order of priority, each with its enabled mappings.
pub open spec fn available_listed(
    listing: Seq<ProviderWithMaps>,
    order: Seq<usize>,
    providers: Seq<Provider>,
    maps: Seq<ProviderModelMap>,
    tag: Seq<char>,
    now: i64,
) -> bool {
    &&& lists_in_order(order, providers, eligible_flags(providers, tag, now))
    &&& listing.len() == order.len()
    &&& forall|k: int|
        0 <= k < order.len() ==> (#[trigger] listing[k]).provider == providers[order[k] as int]
            && listing[k].model_maps@ == maps_of(maps, providers[order[k] as int].id)
}

/// The providers that can serve the variant tagged `cli_type` at `now`, in order of
/// priority, each with its enabled mappings.
pub fn get_available_providers(
    providers: &[Provider],
    maps: &[ProviderModelMap],
    cli_type: &str,
    now: i64,
) -> (r: Vec<ProviderWithMaps>)
    ensures
        exists|order: Seq<usize>|
            #[trigger] available_listed(r@, order, providers@, maps@, cli_type@, now),
{
    let keep = mark_eligible(providers, cli_type, now);
    let order = ordered_rows(providers, &keep);
    let mut out: Vec<ProviderWithMaps> = Vec::new();
    let mut k: usize = 0;
    while k < order.len()
        invariant
            k <= order.len(),
            out@.len() == k,
            lists_in_order(order@, providers@, keep@),
            forall|j: int|
                0 <= j < k ==> (#[trigger] out@[j]).provider == providers@[order@[j] as int]
                    && out@[j].model_maps@ == maps_of(maps@, providers@[order@[j] as int].id),
        decreases order.len() - k,
    {
        let provider = providers[order[k]].duplicate();
        let model_maps = load_maps(maps, provider.id);
        out.push(ProviderWithMaps { provider, model_maps });
        k += 1;
    }
    assert(available_listed(out@, order@, providers@, maps@, cli_type@, now));
    out
}

} // verus!
