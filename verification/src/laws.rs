use vstd::prelude::*;

use crate::args::ArgData;
use crate::bundle::{
    entry_ids, first_source, has_message, overridden_ids, register_entries, registered,
};
use crate::handler::{construction_sources, format_text, LoadOutcome};
use crate::resource::{parse_ok, resource_entry_list};

verus! {

proof fn lemma_register_entries_preserves(
    table: Map<Seq<char>, bool>,
    entries: Seq<(bool, Seq<char>)>,
    key: Seq<char>,
)
    requires
        table.contains_key(key),
    ensures
        register_entries(table, entries).contains_key(key),
        register_entries(table, entries)[key] == table[key],
    decreases entries.len(),
{
    if entries.len() > 0 {
        let e = entries.first();
        let table2 = if table.contains_key(e.1) {
            table
        } else {
            table.insert(e.1, e.0)
        };
        lemma_register_entries_preserves(table2, entries.drop_first(), key);
    }
}

proof fn lemma_register_entries_source(
    table: Map<Seq<char>, bool>,
    entries: Seq<(bool, Seq<char>)>,
    key: Seq<char>,
)
    requires
        register_entries(table, entries).contains_key(key),
        !table.contains_key(key),
    ensures
        exists|j: int| 0 <= j < entries.len() && (#[trigger] entries[j]).1 == key,
    decreases entries.len(),
{
    assert(entries.len() > 0);
    let e = entries.first();
    if e.1 == key {
        assert(entries[0].1 == key);
    } else {
        let table2 = if table.contains_key(e.1) {
            table
        } else {
            table.insert(e.1, e.0)
        };
        lemma_register_entries_source(table2, entries.drop_first(), key);
        let j = choose|j: int|
            0 <= j < entries.drop_first().len() && (#[trigger] entries.drop_first()[j]).1 == key;
        assert(entries[j + 1].1 == key);
    }
}

proof fn lemma_register_entries_covers(
    table: Map<Seq<char>, bool>,
    entries: Seq<(bool, Seq<char>)>,
    key: Seq<char>,
)
    requires
        table.contains_key(key) || exists|j: int|
            0 <= j < entries.len() && (#[trigger] entries[j]).1 == key,
    ensures
        register_entries(table, entries).contains_key(key),
    decreases entries.len(),
{
    if entries.len() > 0 {
        let e = entries.first();
        let table2 = if table.contains_key(e.1) {
            table
        } else {
            table.insert(e.1, e.0)
        };
        if !table.contains_key(key) && e.1 != key {
            let j = choose|j: int| 0 <= j < entries.len() && (#[trigger] entries[j]).1 == key;
            assert(j != 0);
            assert(entries.drop_first()[j - 1].1 == key);
        }
        lemma_register_entries_covers(table2, entries.drop_first(), key);
    }
}

proof fn lemma_registered_covers(sources: Seq<Seq<char>>, key: Seq<char>)
    requires
        exists|i: int| 0 <= i < sources.len() && entry_ids(#[trigger] sources[i]).contains(key),
    ensures
        registered(sources).contains_key(key),
    decreases sources.len(),
{
    let i = choose|i: int| 0 <= i < sources.len() && entry_ids(#[trigger] sources[i]).contains(key);
    let butlast = sources.drop_last();
    let list = resource_entry_list(sources.last());
    if i < sources.len() - 1 {
        assert(butlast[i] == sources[i]);
        lemma_registered_covers(butlast, key);
        lemma_register_entries_preserves(registered(butlast), list, key);
    } else {
        let ids = list.map_values(|e: (bool, Seq<char>)| e.1);
        assert(ids.contains(key));
        let j = choose|j: int| 0 <= j < ids.len() && ids[j] == key;
        assert(list[j].1 == key);
        lemma_register_entries_covers(registered(butlast), list, key);
    }
}

proof fn lemma_registered_appears(sources: Seq<Seq<char>>, key: Seq<char>)
    requires
        registered(sources).contains_key(key),
    ensures
        exists|i: int| 0 <= i < sources.len() && entry_ids(#[trigger] sources[i]).contains(key),
    decreases sources.len(),
{
    assert(sources.len() > 0);
    let butlast = sources.drop_last();
    let lst = sources.last();
    if registered(butlast).contains_key(key) {
        lemma_registered_appears(butlast, key);
        let i = choose|i: int|
            0 <= i < butlast.len() && entry_ids(#[trigger] butlast[i]).contains(key);
        assert(sources[i] == butlast[i]);
        assert(entry_ids(sources[i]).contains(key));
    } else {
        lemma_register_entries_source(registered(butlast), resource_entry_list(lst), key);
        let j = choose|j: int|
            0 <= j < resource_entry_list(lst).len() && (#[trigger] resource_entry_list(
                lst,
            )[j]).1 == key;
        let ids = resource_entry_list(lst).map_values(|e: (bool, Seq<char>)| e.1);
        assert(ids[j] == key);
        assert(ids.contains(key));
        assert(entry_ids(sources[sources.len() - 1]).contains(key));
    }
}

proof fn lemma_first_source_push(sources: Seq<Seq<char>>, extra: Seq<char>, key: Seq<char>)
    requires
        exists|i: int| 0 <= i < sources.len() && entry_ids(#[trigger] sources[i]).contains(key),
    ensures
        first_source(sources.push(extra), key) == first_source(sources, key),
    decreases sources.len(),
{
    let i = choose|i: int| 0 <= i < sources.len() && entry_ids(#[trigger] sources[i]).contains(key);
    assert(sources.push(extra)[0] == sources[0]);
    if entry_ids(sources.first()).contains(key) {
        assert(first_source(sources.push(extra), key) == sources.first());
    } else {
        assert(i != 0);
        assert(sources.drop_first()[i - 1] == sources[i]);
        lemma_first_source_push(sources.drop_first(), extra, key);
        assert(sources.push(extra).drop_first() =~= sources.drop_first().push(extra));
    }
}

proof fn lemma_overridden_contains(
    taken: Set<Seq<char>>,
    entries: Seq<(bool, Seq<char>)>,
    key: Seq<char>,
)
    requires
        taken.contains(key),
        exists|j: int| 0 <= j < entries.len() && (#[trigger] entries[j]).1 == key,
    ensures
        overridden_ids(taken, entries).contains(key),
    decreases entries.len(),
{
    assert(entries.len() > 0);
    let e = entries.first();
    let j = choose|j: int| 0 <= j < entries.len() && (#[trigger] entries[j]).1 == key;
    if taken.contains(e.1) {
        let rest = overridden_ids(taken, entries.drop_first());
        if e.1 == key {
            assert((seq![e.1] + rest)[0] == key);
            assert(overridden_ids(taken, entries).contains(key));
        } else {
            assert(j != 0);
            assert(entries.drop_first()[j - 1].1 == key);
            lemma_overridden_contains(taken, entries.drop_first(), key);
            let idx = choose|idx: int| 0 <= idx < rest.len() && rest[idx] == key;
            assert((seq![e.1] + rest)[idx + 1] == key);
            assert(overridden_ids(taken, entries).contains(key));
        }
    } else {
        assert(e.1 != key);
        assert(j != 0);
        assert(entries.drop_first()[j - 1].1 == key);
        lemma_overridden_contains(taken.insert(e.1), entries.drop_first(), key);
    }
}

/// The merged view registers exactly the union of the incorporated
/// resources' identifiers: a key is registered if and only if some
/// incorporated resource text defines an entry under it.
pub proof fn lemma_registered_keys(sources: Seq<Seq<char>>, key: Seq<char>)
    ensures
        registered(sources).contains_key(key) <==> exists|i: int|
            0 <= i < sources.len() && entry_ids(#[trigger] sources[i]).contains(key),
{
    if registered(sources).contains_key(key) {
        lemma_registered_appears(sources, key);
    }
    if exists|i: int| 0 <= i < sources.len() && entry_ids(#[trigger] sources[i]).contains(key) {
        lemma_registered_covers(sources, key);
    }
}

/// A bundle that holds no resources resolves every key, under any
/// arguments and any locale, to the key itself.
pub proof fn lemma_empty_bundle_falls_back(
    key: Seq<char>,
    args: Map<Seq<char>, ArgData>,
    locale: Seq<char>,
)
    ensures
        format_text(Seq::<Seq<char>>::empty(), key, args, locale) == key,
{
    assert(!registered(Seq::<Seq<char>>::empty()).contains_key(key));
}

/// Construction without a readable resource file — the base directory was
/// unresolvable or the file unreadable — yields a handler with an empty
/// bundle, so every later query returns its key unchanged. The single
/// diagnostic such a construction reports is fixed by
/// `construction_diags_ok` in the contract of `LanguageHandler::new`.
pub proof fn lemma_unreadable_load_falls_back(
    load: LoadOutcome,
    key: Seq<char>,
    args: Map<Seq<char>, ArgData>,
    locale: Seq<char>,
)
    requires
        !(load is Loaded),
    ensures
        construction_sources(load) == Seq::<Seq<char>>::empty(),
        format_text(construction_sources(load), key, args, locale) == key,
{
    lemma_empty_bundle_falls_back(key, args, locale);
}

/// A malformed resource text is rejected whole: construction still yields
/// a usable handler, its bundle holds nothing, and every query falls back
/// to its key — exactly as if no resource had been loaded.
pub proof fn lemma_malformed_resource_ignored(
    load: LoadOutcome,
    key: Seq<char>,
    args: Map<Seq<char>, ArgData>,
    locale: Seq<char>,
)
    requires
        load matches LoadOutcome::Loaded { text, .. } && !parse_ok(text@),
    ensures
        construction_sources(load) == Seq::<Seq<char>>::empty(),
        format_text(construction_sources(load), key, args, locale) == key,
{
    lemma_empty_bundle_falls_back(key, args, locale);
}

/// A key that no incorporated resource defines comes back unchanged from
/// every query. The single `MessageNotFound` diagnostic such a query
/// reports is fixed by `format_diags_ok` in the contract of
/// `format_report`.
pub proof fn lemma_unknown_key_falls_back(
    sources: Seq<Seq<char>>,
    key: Seq<char>,
    args: Map<Seq<char>, ArgData>,
    locale: Seq<char>,
)
    requires
        !has_message(sources, key),
    ensures
        format_text(sources, key, args, locale) == key,
{
}

/// First wins: when a key is already registered and a further resource
/// defines it again, incorporating that resource keeps the key registered
/// with its original entry, drawn from the same first defining resource —
/// lookups and resolutions are unchanged in what they find stored — and
/// the incorporation reports the key among its duplicates, which
/// `MessageBundle::incorporate` returns as duplicate-key reports.
pub proof fn lemma_first_wins(sources: Seq<Seq<char>>, extra: Seq<char>, key: Seq<char>)
    requires
        has_message(sources, key),
        entry_ids(extra).contains(key),
    ensures
        has_message(sources.push(extra), key),
        first_source(sources.push(extra), key) == first_source(sources, key),
        overridden_ids(registered(sources).dom(), resource_entry_list(extra)).contains(key),
{
    let list = resource_entry_list(extra);
    assert(sources.push(extra).drop_last() =~= sources);
    lemma_register_entries_preserves(registered(sources), list, key);
    lemma_registered_appears(sources, key);
    lemma_first_source_push(sources, extra, key);
    let ids = list.map_values(|e: (bool, Seq<char>)| e.1);
    assert(ids.contains(key));
    let j = choose|j: int| 0 <= j < ids.len() && ids[j] == key;
    assert(list[j].1 == key);
    lemma_overridden_contains(registered(sources).dom(), list, key);
}

} // verus!
