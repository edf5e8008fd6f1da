use vstd::prelude::*;

verus! {

/// A locale identifier tag, e.g. `"en-US"`, as the host configuration
/// supplies it after validation. Pure data: the tag names the resource file
/// to load and is recorded in diagnostics.
#[derive(Debug)]
pub struct LocaleKey {
    tag: String,
}

impl View for LocaleKey {
    type V = Seq<char>;

    closed spec fn view(&self) -> Seq<char> {
        self.tag@
    }
}

impl LocaleKey {
    /// Wraps an already validated language-tag string.
    pub fn new(tag: String) -> (r: LocaleKey)
        ensures
            r@ == tag@,
    {
        LocaleKey { tag }
    }

    /// The tag as a string slice.
    pub fn as_str(&self) -> (r: &str)
        ensures
            r@ == self@,
    {
        self.tag.as_str()
    }
}

} // verus!
