use vstd::prelude::*;

verus! {

/// A non-fatal condition met while building a handler or resolving a
/// message. Construction and formatting never fail: they report what
/// degraded instead, and the caller decides how to surface it.
#[derive(Debug, Clone, PartialEq)]
pub enum Diagnostic {
    /// The base directory for resource files could not be resolved.
    WorkingDirectoryUnavailable,
    /// The resource file at `path` was missing or unreadable.
    FileUnreadable { path: String },
    /// The resource text had syntax errors; `positions` holds the byte
    /// range of each. The whole resource was rejected.
    SyntaxFailure { path: String, positions: Vec<(usize, usize)> },
    /// A resource redefined an already registered key; the first definition
    /// stays in force.
    DuplicateKeyWarning { key: String },
    /// A formatting query named a key that no resource defines; the key
    /// itself was returned.
    MessageNotFound { key: String, locale: String },
    /// The message exists but has no value pattern to render; the key
    /// itself was returned.
    PatternMissing { key: String, locale: String },
    /// The pattern was rendered with best-effort substitutions; one entry
    /// per placeable that could not be resolved.
    FormattingIssues { key: String, locale: String, issues: Vec<String> },
}

/// Says that `diags` is exactly one duplicate-key warning per key of
/// `keys`, in order.
pub open spec fn are_dup_warnings(diags: Seq<Diagnostic>, keys: Seq<Seq<char>>) -> bool {
    &&& diags.len() == keys.len()
    &&& forall|i: int|
        0 <= i < keys.len() ==> ((#[trigger] diags[i]) matches Diagnostic::DuplicateKeyWarning { key }
            && key@ == keys[i])
}

} // verus!
