use vstd::prelude::*;

use crate::args::{opt_args, seq_views, ArgData, ArgValue, FormatArgs};
use crate::locale::LocaleKey;
use crate::resource::{message_has_value, resource_entry_list, MessageSet};

verus! {

#[verifier::external_type_specification]
#[verifier::external_body]
#[verifier::reject_recursive_types(R)]
#[verifier::reject_recursive_types(M)]
pub struct ExFluentBundle<R, M>(fluent::bundle::FluentBundle<R, M>);

#[verifier::external_type_specification]
#[verifier::external_body]
pub struct ExIntlLangMemoizer(intl_memoizer::IntlLangMemoizer);

/// The texts of the resources a bundle has incorporated, in order.
/// Together with the locale tag they determine every lookup and every
/// resolution the bundle performs.
pub uninterp spec fn fluent_sources(b: fluent::FluentBundle<fluent::FluentResource>) -> Seq<
    Seq<char>,
>;

/// The locale tag a bundle was constructed for.
pub uninterp spec fn fluent_locale(b: fluent::FluentBundle<fluent::FluentResource>) -> Seq<char>;

/// The text that resolving the value pattern of `key`'s stored message
/// against the argument map yields, in a bundle holding `sources` under
/// `locale`. Placeables that cannot be resolved are substituted
/// best-effort, so a text comes back in every case.
pub uninterp spec fn formatted(
    sources: Seq<Seq<char>>,
    key: Seq<char>,
    args: Map<Seq<char>, ArgData>,
    locale: Seq<char>,
) -> Seq<char>;

/// The rendered reports of the non-fatal issues that the same resolution
/// meets, in order; empty exactly when every placeable resolved cleanly.
pub uninterp spec fn format_issues(
    sources: Seq<Seq<char>>,
    key: Seq<char>,
    args: Map<Seq<char>, ArgData>,
    locale: Seq<char>,
) -> Seq<Seq<char>>;

/// Registration of a resource's entries into a key table, first writer
/// wins: an identifier already present keeps its earlier entry.
pub open spec fn register_entries(
    table: Map<Seq<char>, bool>,
    entries: Seq<(bool, Seq<char>)>,
) -> Map<Seq<char>, bool>
    decreases entries.len(),
{
    if entries.len() == 0 {
        table
    } else {
        let e = entries.first();
        let table2 = if table.contains_key(e.1) {
            table
        } else {
            table.insert(e.1, e.0)
        };
        register_entries(table2, entries.drop_first())
    }
}

/// The key table of a bundle holding `sources`: each registered
/// identifier, mapped to whether its first registration was a message.
pub open spec fn registered(sources: Seq<Seq<char>>) -> Map<Seq<char>, bool>
    decreases sources.len(),
{
    if sources.len() == 0 {
        Map::empty()
    } else {
        register_entries(registered(sources.drop_last()), resource_entry_list(sources.last()))
    }
}

/// Whether a lookup of `key` finds a message: the identifier is registered
/// and its first registration was a message, not a term.
pub open spec fn has_message(sources: Seq<Seq<char>>, key: Seq<char>) -> bool {
    registered(sources).contains_key(key) && registered(sources)[key]
}

/// The identifiers of one resource text, as a set.
pub open spec fn entry_ids(text: Seq<char>) -> Set<Seq<char>> {
    resource_entry_list(text).map_values(|e: (bool, Seq<char>)| e.1).to_set()
}

/// The first incorporated resource text that defines `key`; the stored
/// entry for `key` comes from it.
pub open spec fn first_source(sources: Seq<Seq<char>>, key: Seq<char>) -> Seq<char>
    decreases sources.len(),
{
    if sources.len() == 0 {
        Seq::empty()
    } else if entry_ids(sources.first()).contains(key) {
        sources.first()
    } else {
        first_source(sources.drop_first(), key)
    }
}

/// The identifiers of `entries` that clash with `taken` or with an earlier
/// entry of the same sequence, in order: exactly the definitions that a
/// first-wins incorporation skips and reports.
pub open spec fn overridden_ids(
    taken: Set<Seq<char>>,
    entries: Seq<(bool, Seq<char>)>,
) -> Seq<Seq<char>>
    decreases entries.len(),
{
    if entries.len() == 0 {
        Seq::empty()
    } else {
        let e = entries.first();
        if taken.contains(e.1) {
            seq![e.1] + overridden_ids(taken, entries.drop_first())
        } else {
            overridden_ids(taken.insert(e.1), entries.drop_first())
        }
    }
}

/// Whether the merged view of `sources` holds, under `key`, a message
/// carrying a value pattern — the condition under which a resolution
/// yields rendered text.
pub open spec fn resolvable(sources: Seq<Seq<char>>, key: Seq<char>) -> bool {
    has_message(sources, key) && message_has_value(first_source(sources, key), key)
}

/// What a lookup reads of a stored message: whether it carries a value
/// pattern. Attributes are accepted by the grammar but unused here.
#[derive(Debug, Clone, Copy, PartialEq, Eq, Structural)]
pub struct Message {
    pub has_value: bool,
}

/// The message bundle for exactly one locale: zero or more incorporated
/// message sets behind a merged, first-wins lookup view.
pub struct MessageBundle {
    inner: fluent::FluentBundle<fluent::FluentResource>,
}

impl MessageBundle {
    /// The incorporated resource texts, in order.
    pub closed spec fn sources(self) -> Seq<Seq<char>> {
        fluent_sources(self.inner)
    }

    /// The locale tag this bundle serves.
    pub closed spec fn locale(self) -> Seq<char> {
        fluent_locale(self.inner)
    }

    /// Relies on `unic_langid::LanguageIdentifier`'s `FromStr` and on
    /// `fluent::FluentBundle::new` and `set_use_isolating`: the new bundle
    /// holds no resources; isolation marks around placeables are switched
    /// off, so resolved text carries argument values verbatim. An invalid
    /// tag falls back to the default (root) language identifier, which only
    /// the language-dependent parts of resolution can observe.
    #[verifier::external_body]
    fn raw_new(locale: &LocaleKey) -> (b: MessageBundle)
        ensures
            fluent_sources(b.inner) == Seq::<Seq<char>>::empty(),
            fluent_locale(b.inner) == locale@,
    {
        let id: unic_langid::LanguageIdentifier = locale.as_str().parse().unwrap_or_default();
        let mut inner = fluent::FluentBundle::new(vec![id]);
        inner.set_use_isolating(false);
        MessageBundle { inner }
    }

    /// Creates an empty bundle for `locale`.
    pub fn new(locale: &LocaleKey) -> (b: MessageBundle)
        ensures
            b.sources() == Seq::<Seq<char>>::empty(),
            b.locale() == locale@,
    {
        Self::raw_new(locale)
    }

    /// Relies on `fluent::FluentBundle::add_resource`: each entry of the
    /// resource is registered under its identifier unless the identifier is
    /// already taken — by an earlier resource or earlier in this one — in
    /// which case the existing entry stays and the identifier is reported;
    /// the resource joins the bundle either way.
    #[verifier::external_body]
    fn raw_add(&mut self, set: MessageSet) -> (dups: Vec<String>)
        ensures
            fluent_sources(final(self).inner) == fluent_sources(old(self).inner).push(set@),
            fluent_locale(final(self).inner) == fluent_locale(old(self).inner),
            seq_views(dups@) == overridden_ids(
                registered(fluent_sources(old(self).inner)).dom(),
                resource_entry_list(set@),
            ),
    {
        let mut dups: Vec<String> = Vec::new();
        if let Err(errors) = self.inner.add_resource(set.inner) {
            for error in errors {
                if let fluent::FluentError::Overriding { id, .. } = error {
                    dups.push(id);
                }
            }
        }
        dups
    }

    /// Incorporates a parsed message set. Every key not yet present joins
    /// the merged view; keys already present are skipped — first wins — and
    /// come back as duplicate reports. `Err` carries at least one key and
    /// still means the rest of the set was incorporated.
    pub fn incorporate(&mut self, set: MessageSet) -> (r: Result<(), Vec<String>>)
        ensures
            final(self).sources() == old(self).sources().push(set@),
            final(self).locale() == old(self).locale(),
            ({
                let dups = overridden_ids(
                    registered(old(self).sources()).dom(),
                    resource_entry_list(set@),
                );
                match r {
                    Result::Ok(()) => dups.len() == 0,
                    Result::Err(keys) => keys@.len() > 0 && seq_views(keys@) == dups,
                }
            }),
    {
        let dups = self.raw_add(set);
        if dups.len() == 0 {
            Result::Ok(())
        } else {
            Result::Err(dups)
        }
    }

    /// Relies on `fluent::FluentBundle::get_message` and
    /// `FluentMessage::value`: a message is found exactly when the key's
    /// first registration was a message; the flag says whether that message
    /// carries a value pattern.
    #[verifier::external_body]
    fn raw_lookup(&self, key: &str) -> (r: Option<bool>)
        ensures
            r is Some <==> has_message(fluent_sources(self.inner), key@),
            r matches Some(v) ==> v == message_has_value(first_source(fluent_sources(self.inner), key@), key@),
    {
        self.inner.get_message(key).map(|m| m.value().is_some())
    }

    /// Looks `key` up in the merged view. Absence yields `None`; a pure
    /// read either way.
    pub fn lookup(&self, key: &str) -> (r: Option<Message>)
        ensures
            r is Some <==> has_message(self.sources(), key@),
            r matches Some(m) ==> m.has_value == message_has_value(first_source(self.sources(), key@), key@),
    {
        match self.raw_lookup(key) {
            Option::Some(v) => Option::Some(Message { has_value: v }),
            Option::None => Option::None,
        }
    }

    /// Relies on `fluent::FluentBundle::format_pattern`, reached through
    /// `get_message` and `FluentMessage::value` because the pattern borrows
    /// from the stored message: when `key`'s stored message has a value
    /// pattern, it is resolved against the arguments and the text plus the
    /// rendered issue reports come back. Passing no arguments and passing
    /// an empty set are indistinguishable to the resolver, so the contract
    /// speaks of the argument map alone.
    #[verifier::external_body]
    fn raw_resolve(&self, key: &str, args: Option<&FormatArgs>) -> (r: Option<(String, Vec<String>)>)
        ensures
            r is Some <==> resolvable(fluent_sources(self.inner), key@),
            r matches Some(out) ==> out.0@ == formatted(fluent_sources(self.inner), key@, opt_args(args), fluent_locale(self.inner)),
            r matches Some(out) ==> seq_views(out.1@) == format_issues(fluent_sources(self.inner), key@, opt_args(args), fluent_locale(self.inner)),
    {
        let pattern = self.inner.get_message(key)?.value()?;
        let mut fargs = fluent::FluentArgs::new();
        for (name, value) in args.iter().flat_map(|a| a.entries.iter()) {
            match value {
                ArgValue::Text(s) => fargs.set(name.as_str(), s.as_str()),
                ArgValue::Number(n) => fargs.set(name.as_str(), *n),
            }
        }
        let mut errors = vec![];
        let text = self.inner.format_pattern(pattern, Some(&fargs), &mut errors);
        Some((text.into_owned(), errors.iter().map(|e| format!("{e}")).collect()))
    }

    /// Resolves the value pattern of `key`'s message against the
    /// arguments: the rendered text, plus one report per placeable that
    /// could not be resolved (a missing argument, an unknown reference).
    /// `None` exactly when the merged view holds no message with a value
    /// pattern under `key`. A pure read: resolution never changes the
    /// bundle.
    pub fn resolve(&self, key: &str, args: Option<&FormatArgs>) -> (r: Option<
        (String, Vec<String>),
    >)
        ensures
            r is Some <==> resolvable(self.sources(), key@),
            r matches Some(out) ==> out.0@ == formatted(self.sources(), key@, opt_args(args), self.locale()),
            r matches Some(out) ==> seq_views(out.1@) == format_issues(self.sources(), key@, opt_args(args), self.locale()),
    {
        self.raw_resolve(key, args)
    }
}

} // verus!
