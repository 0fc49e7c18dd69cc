//! What holds of the tables of the registry, and why its operations keep it.

use crate::models::{ModelMapInput, Provider, ProviderModelMap, ProviderUpdate};
use crate::registry::{
    greatest_map_id, greatest_provider_id, maps_replaced, name_taken, name_used, of_others,
    other_than, reordered, rows_of, sources_repeat, updated,
};
use vstd::prelude::*;

verus! {

/// Whether the ids of the providers rise along the table.
pub open spec fn ids_rise(providers: Seq<Provider>) -> bool {
    forall|i: int, j: int|
        0 <= i < j < providers.len() ==> (#[trigger] providers[i]).id < (#[trigger] providers[j]).id
}

/// Whether no two providers of one variant have one name.
pub open spec fn names_differ(providers: Seq<Provider>) -> bool {
    forall|i: int, j: int|
        0 <= i < j < providers.len() ==> !((#[trigger] providers[i]).cli_type@ == (
        #[trigger] providers[j]).cli_type@ && providers[i].name@ == providers[j].name@)
}

/// Whether the ids of the mappings rise along the table.
pub open spec fn map_ids_rise(maps: Seq<ProviderModelMap>) -> bool {
    forall|i: int, j: int|
        0 <= i < j < maps.len() ==> (#[trigger] maps[i]).id < (#[trigger] maps[j]).id
}

/// Whether no two mappings of one provider have one source pattern.
pub open spec fn sources_differ(maps: Seq<ProviderModelMap>) -> bool {
    forall|i: int, j: int|
        0 <= i < j < maps.len() ==> !((#[trigger] maps[i]).provider_id == (
        #[trigger] maps[j]).provider_id && maps[i].source_model@ == maps[j].source_model@)
}

/// Whether a provider has the id.
pub open spec fn has_provider(providers: Seq<Provider>, id: i64) -> bool {
    exists|j: int| 0 <= j < providers.len() && (#[trigger] providers[j]).id == id
}

/// Whether every mapping belongs to a provider of the table.
pub open spec fn maps_owned(maps: Seq<ProviderModelMap>, providers: Seq<Provider>) -> bool {
    forall|k: int| 0 <= k < maps.len() ==> has_provider(providers, (#[trigger] maps[k]).provider_id)
}

/// What holds of the two tables of a registry: ids rise in the order of insertion, a variant
/// has no two providers of one name, a provider has no two mappings of one source pattern,
/// and every mapping belongs to a provider.
pub open spec fn tables_wf(providers: Seq<Provider>, maps: Seq<ProviderModelMap>) -> bool {
    &&& ids_rise(providers)
    &&& names_differ(providers)
    &&& map_ids_rise(maps)
    &&& sources_differ(maps)
    &&& maps_owned(maps, providers)
}

/// For a filtered sequence, the places in the sequence that its elements come from: they rise.
proof fn lemma_filter_places<A>(s: Seq<A>, pred: spec_fn(A) -> bool) -> (places: Seq<int>)
    ensures
        places.len() == s.filter(pred).len(),
        forall|k: int|
            0 <= k < places.len() ==> 0 <= #[trigger] places[k] < s.len() && s.filter(pred)[k]
                == s[places[k]] && pred(s[places[k]]),
        forall|a: int, b: int|
            0 <= a < b < places.len() ==> #[trigger] places[a] < #[trigger] places[b],
    decreases s.len(),
{
    reveal(Seq::filter);
    if s.len() == 0 {
        Seq::empty()
    } else {
        let earlier = lemma_filter_places(s.drop_last(), pred);
        if pred(s.last()) {
            earlier.push(s.len() - 1)
        } else {
            earlier
        }
    }
}

proof fn lemma_greatest_map_bound(maps: Seq<ProviderModelMap>)
    ensures
        forall|j: int| 0 <= j < maps.len() ==> (#[trigger] maps[j]).id <= greatest_map_id(maps),
    decreases maps.len(),
{
    if maps.len() > 0 {
        lemma_greatest_map_bound(maps.drop_last());
        assert forall|j: int| 0 <= j < maps.len() implies (#[trigger] maps[j]).id
            <= greatest_map_id(maps) by {
            if j < maps.len() - 1 {
                assert(maps.drop_last()[j] == maps[j]);
            }
        }
    }
}

/// Deleting a provider with its mappings keeps the tables well formed.
pub proof fn lemma_delete_keeps_wf(providers: Seq<Provider>, maps: Seq<ProviderModelMap>, id: i64)
    requires
        tables_wf(providers, maps),
    ensures
        tables_wf(providers.filter(other_than(id)), maps.filter(of_others(id))),
{
    let left = providers.filter(other_than(id));
    let kept = maps.filter(of_others(id));
    let from = lemma_filter_places(providers, other_than(id));
    let map_from = lemma_filter_places(maps, of_others(id));
    assert forall|i: int, j: int| 0 <= i < j < left.len() implies (#[trigger] left[i]).id < (
    #[trigger] left[j]).id && !(left[i].cli_type@ == left[j].cli_type@ && left[i].name@
        == left[j].name@) by {
        assert(left[i] == providers[from[i]] && left[j] == providers[from[j]]);
    }
    assert forall|i: int, j: int| 0 <= i < j < kept.len() implies (#[trigger] kept[i]).id < (
    #[trigger] kept[j]).id && !(kept[i].provider_id == kept[j].provider_id
        && kept[i].source_model@ == kept[j].source_model@) by {
        assert(kept[i] == maps[map_from[i]] && kept[j] == maps[map_from[j]]);
    }
    assert forall|k: int| 0 <= k < kept.len() implies has_provider(
        left,
        (#[trigger] kept[k]).provider_id,
    ) by {
        let m = maps[map_from[k]];
        assert(kept[k] == m);
        let j = choose|j: int| 0 <= j < providers.len() && (#[trigger] providers[j]).id
            == m.provider_id;
        providers.lemma_filter_contains(other_than(id), j);
        let at = choose|at: int| 0 <= at < left.len() && left[at] == providers[j];
        assert(left[at].id == m.provider_id);
    }
}

/// Changing fields of a provider other than its id, its variant and its name keeps the
/// tables well formed; so do a reset of its failures and a reordering.
pub proof fn lemma_same_keys_keep_wf(
    providers: Seq<Provider>,
    changed: Seq<Provider>,
    maps: Seq<ProviderModelMap>,
)
    requires
        tables_wf(providers, maps),
        changed.len() == providers.len(),
        forall|i: int|
            0 <= i < providers.len() ==> (#[trigger] changed[i]).id == providers[i].id
                && changed[i].cli_type@ == providers[i].cli_type@ && changed[i].name@
                == providers[i].name@,
    ensures
        tables_wf(changed, maps),
{
    assert forall|i: int, j: int| 0 <= i < j < changed.len() implies (#[trigger] changed[i]).id < (
    #[trigger] changed[j]).id && !(changed[i].cli_type@ == changed[j].cli_type@
        && changed[i].name@ == changed[j].name@) by {
        assert(providers[i].id < providers[j].id);
    }
    assert forall|k: int| 0 <= k < maps.len() implies has_provider(
        changed,
        (#[trigger] maps[k]).provider_id,
    ) by {
        let j = choose|j: int| 0 <= j < providers.len() && (#[trigger] providers[j]).id
            == maps[k].provider_id;
        assert(changed[j].id == maps[k].provider_id);
    }
}

pub(crate) proof fn lemma_reordered_keys(providers: Seq<Provider>, ids: Seq<i64>)
    ensures
        reordered(providers, ids).len() == providers.len(),
        forall|i: int|
            0 <= i < providers.len() ==> (#[trigger] reordered(providers, ids)[i]).id
                == providers[i].id && reordered(providers, ids)[i].cli_type
                == providers[i].cli_type && reordered(providers, ids)[i].name == providers[i].name,
    decreases ids.len(),
{
    if ids.len() > 0 {
        lemma_reordered_keys(providers, ids.drop_last());
    }
}

/// Replacing the mappings of a provider of the table by mappings without a repeated source
/// pattern keeps the mapping table well formed.
pub proof fn lemma_replace_keeps_wf(
    providers: Seq<Provider>,
    maps: Seq<ProviderModelMap>,
    id: i64,
    inputs: Seq<ModelMapInput>,
)
    requires
        map_ids_rise(maps),
        sources_differ(maps),
        maps_owned(maps, providers),
        has_provider(providers, id),
        !sources_repeat(inputs),
        greatest_map_id(maps.filter(of_others(id))) + inputs.len() <= i64::MAX,
    ensures
        map_ids_rise(maps_replaced(maps, id, inputs)),
        sources_differ(maps_replaced(maps, id, inputs)),
        maps_owned(maps_replaced(maps, id, inputs), providers),
{
    let kept = maps.filter(of_others(id));
    let rows = rows_of(inputs, id, greatest_map_id(kept) + 1);
    let all = maps_replaced(maps, id, inputs);
    let from = lemma_filter_places(maps, of_others(id));
    lemma_greatest_map_bound(kept);
    lemma_greatest_map_id(kept);
    assert forall|i: int, j: int| 0 <= i < j < all.len() implies (#[trigger] all[i]).id < (
    #[trigger] all[j]).id && !(all[i].provider_id == all[j].provider_id && all[i].source_model@
        == all[j].source_model@) by {
        if j < kept.len() {
            assert(all[i] == maps[from[i]] && all[j] == maps[from[j]]);
        } else if i < kept.len() {
            assert(all[i] == maps[from[i]]);
            assert(all[j] == rows[j - kept.len()]);
        } else {
            assert(all[i] == rows[i - kept.len()]);
            assert(all[j] == rows[j - kept.len()]);
            assert(inputs[i - kept.len()].source_model@ != inputs[j - kept.len()].source_model@);
        }
    }
    assert forall|k: int| 0 <= k < all.len() implies has_provider(
        providers,
        (#[trigger] all[k]).provider_id,
    ) by {
        if k < kept.len() {
            assert(all[k] == maps[from[k]]);
        } else {
            assert(all[k] == rows[k - kept.len()]);
        }
    }
}

/// Adding a provider whose name is free in its variant, with an id above all ids, and
/// mappings for it without a repeated source pattern, keeps the tables well formed.
pub proof fn lemma_create_keeps_wf(
    providers: Seq<Provider>,
    maps: Seq<ProviderModelMap>,
    row: Provider,
    inputs: Seq<ModelMapInput>,
)
    requires
        tables_wf(providers, maps),
        row.id == greatest_provider_id(providers) + 1,
        !name_used(providers, row.cli_type@, row.name@),
        !sources_repeat(inputs),
        greatest_map_id(maps) + inputs.len() <= i64::MAX,
    ensures
        tables_wf(
            providers.push(row),
            maps + rows_of(inputs, row.id, greatest_map_id(maps) + 1),
        ),
{
    let more = providers.push(row);
    let rows = rows_of(inputs, row.id, greatest_map_id(maps) + 1);
    let all = maps + rows;
    lemma_greatest_provider_id(providers);
    lemma_greatest_map_bound(maps);
    lemma_greatest_map_id(maps);
    assert forall|i: int, j: int| 0 <= i < j < more.len() implies (#[trigger] more[i]).id < (
    #[trigger] more[j]).id && !(more[i].cli_type@ == more[j].cli_type@ && more[i].name@
        == more[j].name@) by {
        assert(more[i] == providers[i]);
        if j < providers.len() {
            assert(more[j] == providers[j]);
        }
    }
    assert forall|i: int, j: int| 0 <= i < j < all.len() implies (#[trigger] all[i]).id < (
    #[trigger] all[j]).id && !(all[i].provider_id == all[j].provider_id && all[i].source_model@
        == all[j].source_model@) by {
        if j < maps.len() {
            assert(all[i] == maps[i] && all[j] == maps[j]);
        } else if i < maps.len() {
            assert(all[i] == maps[i]);
            assert(all[j] == rows[j - maps.len()]);
            let owner = choose|o: int| 0 <= o < providers.len() && (#[trigger] providers[o]).id
                == maps[i].provider_id;
            assert(providers[owner].id <= greatest_provider_id(providers));
        } else {
            assert(all[i] == rows[i - maps.len()]);
            assert(all[j] == rows[j - maps.len()]);
            assert(inputs[i - maps.len()].source_model@ != inputs[j - maps.len()].source_model@);
        }
    }
    assert forall|k: int| 0 <= k < all.len() implies has_provider(
        more,
        (#[trigger] all[k]).provider_id,
    ) by {
        if k < maps.len() {
            assert(all[k] == maps[k]);
            let owner = choose|o: int| 0 <= o < providers.len() && (#[trigger] providers[o]).id
                == maps[k].provider_id;
            assert(more[owner].id == maps[k].provider_id);
        } else {
            assert(all[k] == rows[k - maps.len()]);
            assert(more[providers.len() as int].id == row.id);
        }
    }
}

/// Renaming a provider to a name that no other provider of its variant has keeps the
/// provider table well formed.
pub proof fn lemma_update_keeps_wf(
    providers: Seq<Provider>,
    maps: Seq<ProviderModelMap>,
    i: int,
    input: ProviderUpdate,
    now: i64,
)
    requires
        tables_wf(providers, maps),
        0 <= i < providers.len(),
        input.name matches Some(name) ==> !name_taken(
            providers,
            providers[i].cli_type@,
            name@,
            providers[i].id,
        ),
    ensures
        tables_wf(providers.update(i, updated(providers[i], input, now)), maps),
{
    let changed = providers.update(i, updated(providers[i], input, now));
    assert forall|a: int, b: int| 0 <= a < b < changed.len() implies (#[trigger] changed[a]).id < (
    #[trigger] changed[b]).id && !(changed[a].cli_type@ == changed[b].cli_type@
        && changed[a].name@ == changed[b].name@) by {
        assert(providers[a].id < providers[b].id);
        if a == i {
            assert(changed[b] == providers[b]);
        } else if b == i {
            assert(changed[a] == providers[a]);
        }
    }
    assert forall|k: int| 0 <= k < maps.len() implies has_provider(
        changed,
        (#[trigger] maps[k]).provider_id,
    ) by {
        let j = choose|j: int| 0 <= j < providers.len() && (#[trigger] providers[j]).id
            == maps[k].provider_id;
        assert(changed[j].id == maps[k].provider_id);
    }
}

pub(crate) proof fn lemma_greatest_map_id(maps: Seq<ProviderModelMap>)
    ensures
        greatest_map_id(maps) >= 0,
    decreases maps.len(),
{
    if maps.len() > 0 {
        lemma_greatest_map_id(maps.drop_last());
    }
}

pub(crate) proof fn lemma_greatest_provider_id(providers: Seq<Provider>)
    ensures
        greatest_provider_id(providers) >= 0,
        forall|j: int|
            0 <= j < providers.len() ==> (#[trigger] providers[j]).id <= greatest_provider_id(
                providers,
            ),
    decreases providers.len(),
{
    if providers.len() > 0 {
        lemma_greatest_provider_id(providers.drop_last());
        assert forall|j: int| 0 <= j < providers.len() implies (#[trigger] providers[j]).id
            <= greatest_provider_id(providers) by {
            if j < providers.len() - 1 {
                assert(providers.drop_last()[j] == providers[j]);
            }
        }
    }
}

} // verus!
