//! What holds of every scan and of every selection of a default backend.

use vstd::prelude::*;

use crate::engine::backend::backend_enum::{State, Type};
use crate::engine::backend::backend_manager::{
    defaults_after_set, first_named, first_of_type, is_auto_select, resolve, selection, Selection,
};
use crate::engine::backend::backend_plugin::{fallback_view, PluginView};
use crate::engine::backend::backend_probe::{
    descriptor, has_path, scan, verdict, CandidateView, Verdict,
};

verus! {

/// The entry at `i` is the first of its name, so `first_named` finds it.
pub proof fn lemma_first_named_at(catalog: Seq<PluginView>, name: Seq<char>, i: int)
    requires
        0 <= i < catalog.len(),
        catalog[i].name == name,
        forall|k: int| 0 <= k < i ==> (#[trigger] catalog[k]).name != name,
    ensures
        first_named(catalog, name) == Some(catalog[i]),
    decreases i,
{
    if i > 0 {
        let rest = catalog.drop_first();
        assert(catalog[0].name != name);
        assert forall|k: int| 0 <= k < i - 1 implies (#[trigger] rest[k]).name != name by {
            assert(rest[k] == catalog[k + 1]);
        }
        lemma_first_named_at(rest, name, i - 1);
    }
}

/// The entry at `i` is the first of its type, so `first_of_type` finds it.
pub proof fn lemma_first_of_type_at(catalog: Seq<PluginView>, backend_type: Type, i: int)
    requires
        0 <= i < catalog.len(),
        catalog[i].backend_type == backend_type,
        forall|k: int| 0 <= k < i ==> (#[trigger] catalog[k]).backend_type != backend_type,
    ensures
        first_of_type(catalog, backend_type) == Some(catalog[i]),
    decreases i,
{
    if i > 0 {
        let rest = catalog.drop_first();
        assert(catalog[0].backend_type != backend_type);
        assert forall|k: int| 0 <= k < i - 1 implies (#[trigger] rest[k]).backend_type
            != backend_type by {
            assert(rest[k] == catalog[k + 1]);
        }
        lemma_first_of_type_at(rest, backend_type, i - 1);
    }
}

/// `first_of_type` finds nothing exactly when no entry has the type.
pub proof fn lemma_first_of_type_none(catalog: Seq<PluginView>, backend_type: Type)
    ensures
        first_of_type(catalog, backend_type) is None <==> forall|k: int|
            0 <= k < catalog.len() ==> (#[trigger] catalog[k]).backend_type != backend_type,
    decreases catalog.len(),
{
    if catalog.len() > 0 {
        let rest = catalog.drop_first();
        lemma_first_of_type_none(rest, backend_type);
        if catalog[0].backend_type != backend_type {
            if first_of_type(rest, backend_type) is None {
                assert forall|k: int| 0 <= k < catalog.len() implies (
                #[trigger] catalog[k]).backend_type != backend_type by {
                    if k > 0 {
                        assert(rest[k - 1] == catalog[k]);
                    }
                }
            } else {
                let k = choose|k: int|
                    0 <= k < rest.len() && (#[trigger] rest[k]).backend_type == backend_type;
                assert(catalog[k + 1] == rest[k]);
            }
        }
    }
}

/// What `first_named` finds bears the name, and is an entry of the catalog.
pub proof fn lemma_first_named_found(catalog: Seq<PluginView>, name: Seq<char>)
    requires
        first_named(catalog, name) is Some,
    ensures
        first_named(catalog, name)->0.name == name,
        catalog.contains(first_named(catalog, name)->0),
    decreases catalog.len(),
{
    if catalog.first().name == name {
        assert(catalog[0] == catalog.first());
    } else {
        let rest = catalog.drop_first();
        lemma_first_named_found(rest, name);
        let found = first_named(rest, name)->0;
        let k = choose|k: int| 0 <= k < rest.len() && rest[k] == found;
        assert(catalog[k + 1] == found);
    }
}

/// What `first_of_type` finds has the type, and is an entry of the catalog.
pub proof fn lemma_first_of_type_found(catalog: Seq<PluginView>, backend_type: Type)
    requires
        first_of_type(catalog, backend_type) is Some,
    ensures
        first_of_type(catalog, backend_type)->0.backend_type == backend_type,
        catalog.contains(first_of_type(catalog, backend_type)->0),
    decreases catalog.len(),
{
    if catalog.first().backend_type == backend_type {
        assert(catalog[0] == catalog.first());
    } else {
        let rest = catalog.drop_first();
        lemma_first_of_type_found(rest, backend_type);
        let found = first_of_type(rest, backend_type)->0;
        let k = choose|k: int| 0 <= k < rest.len() && rest[k] == found;
        assert(catalog[k + 1] == found);
    }
}

/// The selection of a default backend always gives a descriptor: an entry
/// of the catalog, or else the fallback. What it gives for a name that asks
/// for automatic selection has the requested type.
pub proof fn lemma_resolve_gives_entry_or_fallback(
    catalog: Seq<PluginView>,
    configured: Seq<char>,
    backend_type: Type,
)
    ensures
        catalog.contains(resolve(catalog, configured, backend_type)) || resolve(
            catalog,
            configured,
            backend_type,
        ) == fallback_view(backend_type),
        is_auto_select(configured) ==> resolve(catalog, configured, backend_type).backend_type
            == backend_type,
{
    if first_of_type(catalog, backend_type) is Some {
        lemma_first_of_type_found(catalog, backend_type);
    }
    if first_named(catalog, configured) is Some {
        lemma_first_named_found(catalog, configured);
    }
}

/// The fallback descriptor is selected exactly in fallback mode: when the
/// catalog holds neither a backend of the configured name nor one of the
/// requested type. This holds of a catalog in which no entry is itself a
/// fallback descriptor.
pub proof fn lemma_fallback_mode(
    catalog: Seq<PluginView>,
    configured: Seq<char>,
    backend_type: Type,
)
    requires
        forall|k: int|
            0 <= k < catalog.len() ==> #[trigger] catalog[k] != fallback_view(
                catalog[k].backend_type,
            ),
    ensures
        selection(catalog, configured, backend_type) == Selection::Fallback <==> resolve(
            catalog,
            configured,
            backend_type,
        ) == fallback_view(backend_type),
{
    lemma_resolve_gives_entry_or_fallback(catalog, configured, backend_type);
    if selection(catalog, configured, backend_type) != Selection::Fallback {
        let entry = resolve(catalog, configured, backend_type);
        if first_named(catalog, configured) is Some {
            lemma_first_named_found(catalog, configured);
        }
        if first_of_type(catalog, backend_type) is Some {
            lemma_first_of_type_found(catalog, backend_type);
        }
        assert(catalog.contains(entry));
        let k = choose|k: int| 0 <= k < catalog.len() && catalog[k] == entry;
        assert(catalog[k] != fallback_view(catalog[k].backend_type));
        if entry == fallback_view(backend_type) {
            assert(entry.backend_type == backend_type);
        }
    }
}

/// Every entry of a scanned catalog is the descriptor of a candidate that
/// could be loaded and lacks no entry point, and is unloaded.
pub proof fn lemma_scan_entries(candidates: Seq<CandidateView>, k: int)
    requires
        0 <= k < scan(candidates).len(),
    ensures
        scan(candidates)[k].state == State::Unloaded,
        exists|i: int|
            0 <= i < candidates.len() && (#[trigger] candidates[i]).module is Some
                && candidates[i].module->0.first_missing() is None && scan(candidates)[k]
                == descriptor(candidates[i]),
    decreases candidates.len(),
{
    let before = scan(candidates.drop_last());
    if verdict(before, candidates.last()) == Verdict::Added && k == before.len() {
        let i = candidates.len() - 1;
        assert(candidates[i] == candidates.last());
    } else {
        lemma_scan_entries(candidates.drop_last(), k);
        let i = choose|i: int|
            0 <= i < candidates.drop_last().len() && (#[trigger] candidates.drop_last()[i]).module
                is Some && candidates.drop_last()[i].module->0.first_missing() is None
                && scan(candidates.drop_last())[k] == descriptor(candidates.drop_last()[i]);
        assert(candidates[i] == candidates.drop_last()[i]);
    }
}

/// A candidate that could be loaded and lacks no entry point is in the
/// scanned catalog by its path: it was added, or an earlier candidate of
/// the same path was.
pub proof fn lemma_scan_keeps_complete(candidates: Seq<CandidateView>, i: int)
    requires
        0 <= i < candidates.len(),
        candidates[i].module is Some,
        candidates[i].module->0.first_missing() is None,
    ensures
        has_path(scan(candidates), candidates[i].path),
    decreases candidates.len(),
{
    let before = scan(candidates.drop_last());
    let after = scan(candidates);
    if i == candidates.len() - 1 {
        if verdict(before, candidates.last()) == Verdict::Added {
            assert(after[before.len() as int].path == candidates[i].path);
        } else {
            assert(has_path(before, candidates[i].path));
        }
    } else {
        lemma_scan_keeps_complete(candidates.drop_last(), i);
        assert(candidates.drop_last()[i] == candidates[i]);
        let path = candidates[i].path;
        let k = choose|k: int| 0 <= k < before.len() && #[trigger] before[k].path == path;
        assert(after[k] == before[k]);
        assert(after[k].path == candidates[i].path);
    }
}

/// Without a backend of the requested type, the fallback descriptor is
/// selected, whatever the configuration says, unless it names a backend of
/// the catalog (which then has another type, and is selected for its name).
pub proof fn lemma_no_backend_of_type_gives_fallback(
    catalog: Seq<PluginView>,
    configured: Seq<char>,
    backend_type: Type,
)
    requires
        forall|k: int|
            0 <= k < catalog.len() ==> (#[trigger] catalog[k]).backend_type != backend_type,
        is_auto_select(configured) || first_named(catalog, configured) is None,
    ensures
        resolve(catalog, configured, backend_type) == fallback_view(backend_type),
{
    lemma_first_of_type_none(catalog, backend_type);
}

/// A configured name selects the backend of that name and of the requested
/// type, even if other backends of the type come before it in scan order.
///
/// The entry has to be the one that a search for the configured name meets
/// first. A name that asks for automatic selection selects the entry only
/// where it is the first of its type.
pub proof fn lemma_configured_name_wins(
    catalog: Seq<PluginView>,
    configured: Seq<char>,
    backend_type: Type,
    i: int,
)
    requires
        0 <= i < catalog.len(),
        catalog[i].name == configured,
        catalog[i].backend_type == backend_type,
        if is_auto_select(configured) {
            forall|k: int| 0 <= k < i ==> (#[trigger] catalog[k]).backend_type != backend_type
        } else {
            forall|k: int| 0 <= k < i ==> (#[trigger] catalog[k]).name != configured
        },
    ensures
        resolve(catalog, configured, backend_type) == catalog[i],
{
    if is_auto_select(configured) {
        lemma_first_of_type_at(catalog, backend_type, i);
    } else {
        lemma_first_named_at(catalog, configured, i);
    }
}

/// Choosing a default and then resolving the same capability gives the
/// backend that was chosen: the first entry of that name in the catalog at
/// the time of resolving, provided that it still holds one.
///
/// The name must not be one that asks for automatic selection.
pub proof fn lemma_set_default_round_trip(
    catalog_at_set: Seq<PluginView>,
    catalog_at_resolve: Seq<PluginView>,
    defaults: Seq<Seq<char>>,
    backend_type: Type,
    name: Seq<char>,
)
    requires
        defaults.len() == 4,
        first_named(catalog_at_set, name) is Some,
        first_named(catalog_at_resolve, name) is Some,
        !is_auto_select(name),
    ensures
        resolve(
            catalog_at_resolve,
            defaults_after_set(catalog_at_set, defaults, backend_type, name)[backend_type.slot()],
            backend_type,
        ) == first_named(catalog_at_resolve, name)->0,
        first_named(catalog_at_resolve, name)->0.name == name,
{
    lemma_first_named_found(catalog_at_resolve, name);
}

/// Choosing a default changes no other capability's default.
pub proof fn lemma_set_default_keeps_others(
    catalog: Seq<PluginView>,
    defaults: Seq<Seq<char>>,
    backend_type: Type,
    name: Seq<char>,
    other: Type,
)
    requires
        defaults.len() == 4,
        other != backend_type,
    ensures
        defaults_after_set(catalog, defaults, backend_type, name)[other.slot()]
            == defaults[other.slot()],
        defaults_after_set(catalog, defaults, backend_type, name).len() == 4,
{
}

} // verus!
