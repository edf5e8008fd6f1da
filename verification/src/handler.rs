use vstd::prelude::*;

use crate::args::{opt_args, seq_views, ArgData, FormatArgs};
use crate::bundle::{
    first_source, format_issues, formatted, has_message, overridden_ids, registered, resolvable,
    MessageBundle,
};
use crate::diag::{are_dup_warnings, Diagnostic};
use crate::locale::LocaleKey;
use crate::resource::{message_has_value, parse, parse_ok, resource_entry_list};

verus! {

/// What the collaborator that locates and reads the resource file hands to
/// construction: the raw text, or which step failed.
#[derive(Debug, Clone, PartialEq)]
pub enum LoadOutcome {
    /// The resource file at `path` was read in full.
    Loaded { path: String, text: String },
    /// The resource file at `path` was missing or unreadable.
    Unreadable { path: String },
    /// The base directory of the resource path could not be resolved.
    NoBaseDir,
}

/// The resource texts a handler's bundle ends up with: the loaded text if
/// it parses, nothing otherwise.
pub open spec fn construction_sources(load: LoadOutcome) -> Seq<Seq<char>> {
    match load {
        LoadOutcome::Loaded { text, .. } => if parse_ok(text@) {
            seq![text@]
        } else {
            Seq::<Seq<char>>::empty()
        },
        _ => Seq::<Seq<char>>::empty(),
    }
}

/// Says that `diags` is exactly the diagnostic record of one construction
/// from `load`: one report when locating, reading or parsing failed; one
/// duplicate-key warning per redefinition that first-wins incorporation
/// skipped; nothing else.
pub open spec fn construction_diags_ok(load: LoadOutcome, diags: Seq<Diagnostic>) -> bool {
    match load {
        LoadOutcome::NoBaseDir => diags.len() == 1 && diags[0] is WorkingDirectoryUnavailable,
        LoadOutcome::Unreadable { path } => diags.len() == 1 && (diags[0]
            matches Diagnostic::FileUnreadable { path: p } && p@ == path@),
        LoadOutcome::Loaded { path, text } => {
            if parse_ok(text@) {
                are_dup_warnings(
                    diags,
                    overridden_ids(Set::<Seq<char>>::empty(), resource_entry_list(text@)),
                )
            } else {
                diags.len() == 1 && (diags[0] matches Diagnostic::SyntaxFailure {
                    path: p,
                    positions,
                } && p@ == path@ && positions@.len() >= 1)
            }
        },
    }
}

/// The text one formatting query returns: the resolved pattern where the
/// merged view holds a renderable message under `key`, the key itself
/// otherwise (fallback-to-key).
pub open spec fn format_text(
    sources: Seq<Seq<char>>,
    key: Seq<char>,
    args: Map<Seq<char>, ArgData>,
    locale: Seq<char>,
) -> Seq<char> {
    if resolvable(sources, key) {
        formatted(sources, key, args, locale)
    } else {
        key
    }
}

/// Says that `diags` is exactly the diagnostic record of one formatting
/// query: a missing message or missing value pattern is reported once and
/// falls back to the key, a resolution with issues carries them once, and
/// a clean resolution reports nothing.
pub open spec fn format_diags_ok(
    sources: Seq<Seq<char>>,
    key: Seq<char>,
    args: Map<Seq<char>, ArgData>,
    locale: Seq<char>,
    diags: Seq<Diagnostic>,
) -> bool {
    if !has_message(sources, key) {
        diags.len() == 1 && (diags[0] matches Diagnostic::MessageNotFound { key: k, locale: l }
            && k@ == key && l@ == locale)
    } else if !message_has_value(first_source(sources, key), key) {
        diags.len() == 1 && (diags[0] matches Diagnostic::PatternMissing { key: k, locale: l }
            && k@ == key && l@ == locale)
    } else if format_issues(sources, key, args, locale).len() == 0 {
        diags.len() == 0
    } else {
        diags.len() == 1 && (diags[0] matches Diagnostic::FormattingIssues {
            key: k,
            locale: l,
            issues,
        } && k@ == key && l@ == locale && seq_views(issues@) == format_issues(
            sources,
            key,
            args,
            locale,
        ))
    }
}

/// The facade the host application calls: one message bundle for one
/// locale, fixed at construction. Every query after construction is a pure
/// read, so a handler is safe to share.
pub struct LanguageHandler {
    bundle: MessageBundle,
    locale: LocaleKey,
}

impl LanguageHandler {
    /// The bundle's locale tag and the handler's recorded locale agree.
    #[verifier::type_invariant]
    spec fn consistent(self) -> bool {
        self.bundle.locale() == self.locale@
    }

    /// The resource texts the handler's bundle holds, in order.
    pub closed spec fn sources(self) -> Seq<Seq<char>> {
        self.bundle.sources()
    }

    /// The locale tag the handler serves.
    pub closed spec fn locale_tag(self) -> Seq<char> {
        self.locale@
    }

    /// Builds the handler for `locale` from whatever the resource loading
    /// step produced. Construction is total: every failure — no base
    /// directory, an unreadable file, malformed text, duplicate keys — is
    /// reported in the returned diagnostics and still leaves a usable
    /// handler, with an empty bundle in the worst case.
    pub fn new(locale: LocaleKey, load: LoadOutcome) -> (r: (LanguageHandler, Vec<Diagnostic>))
        ensures
            r.0.sources() == construction_sources(load),
            r.0.locale_tag() == locale@,
            construction_diags_ok(load, r.1@),
    {
        let mut bundle = MessageBundle::new(&locale);
        let mut diags: Vec<Diagnostic> = Vec::new();
        match load {
            LoadOutcome::NoBaseDir => {
                diags.push(Diagnostic::WorkingDirectoryUnavailable);
            },
            LoadOutcome::Unreadable { path } => {
                diags.push(Diagnostic::FileUnreadable { path });
            },
            LoadOutcome::Loaded { path, text } => {
                match parse(text) {
                    Result::Err(positions) => {
                        diags.push(Diagnostic::SyntaxFailure { path, positions });
                    },
                    Result::Ok(set) => {
                        proof {
                            assert(registered(bundle.sources()).dom() =~= Set::<Seq<char>>::empty());
                        }
                        let ghost src_text = set@;
                        match bundle.incorporate(set) {
                            Result::Ok(()) => {},
                            Result::Err(dup_keys) => {
                                let n = dup_keys.len();
                                let mut i: usize = 0;
                                while i < n
                                    invariant
                                        i <= n,
                                        n == dup_keys.len(),
                                        diags.len() == i,
                                        forall|j: int|
                                            0 <= j < i ==> ((#[trigger] diags@[j])
                                                matches Diagnostic::DuplicateKeyWarning { key }
                                                && key@ == dup_keys@[j]@),
                                    decreases n - i,
                                {
                                    let k = dup_keys[i].clone();
                                    diags.push(Diagnostic::DuplicateKeyWarning { key: k });
                                    i += 1;
                                }
                            },
                        }
                        proof {
                            assert(Seq::<Seq<char>>::empty().push(src_text) =~= seq![src_text]);
                        }
                    },
                }
            },
        }
        (LanguageHandler { bundle, locale }, diags)
    }

    /// Resolves `key` with the given arguments into display text, plus the
    /// diagnostic record of the query. A key without a renderable message
    /// comes back unchanged; resolution issues never suppress the text.
    pub fn format_report(&self, key: &str, args: Option<&FormatArgs>) -> (r: (
        String,
        Vec<Diagnostic>,
    ))
        ensures
            r.0@ == format_text(self.sources(), key@, opt_args(args), self.locale_tag()),
            format_diags_ok(self.sources(), key@, opt_args(args), self.locale_tag(), r.1@),
    {
        proof {
            use_type_invariant(self);
        }
        let mut diags: Vec<Diagnostic> = Vec::new();
        match self.bundle.resolve(key, args) {
            Option::Some((text, issues)) => {
                if issues.len() > 0 {
                    diags.push(
                        Diagnostic::FormattingIssues {
                            key: key.to_owned(),
                            locale: self.locale.as_str().to_owned(),
                            issues,
                        },
                    );
                }
                (text, diags)
            },
            Option::None => {
                match self.bundle.lookup(key) {
                    Option::Some(_) => {
                        diags.push(
                            Diagnostic::PatternMissing {
                                key: key.to_owned(),
                                locale: self.locale.as_str().to_owned(),
                            },
                        );
                    },
                    Option::None => {
                        diags.push(
                            Diagnostic::MessageNotFound {
                                key: key.to_owned(),
                                locale: self.locale.as_str().to_owned(),
                            },
                        );
                    },
                }
                (key.to_owned(), diags)
            },
        }
    }

    /// Resolves `key` into display text alone, dropping the query's
    /// diagnostic record; `format_report` returns it.
    pub fn format(&self, key: &str, args: Option<&FormatArgs>) -> (r: String)
        ensures
            r@ == format_text(self.sources(), key@, opt_args(args), self.locale_tag()),
    {
        let (text, _) = self.format_report(key, args);
        text
    }
}

} // verus!
