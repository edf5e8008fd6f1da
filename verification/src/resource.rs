use vstd::prelude::*;

verus! {

/// Whether `fluent`'s parser accepts the resource text without syntax
/// errors. The grammar is the parser's own; this crate only distinguishes
/// accepted from rejected texts.
pub uninterp spec fn parse_ok(text: Seq<char>) -> bool;

/// The identifiers that the resource text defines, in document order, each
/// paired with whether it names a message (`true`) or a term (`false`).
/// Identifiers repeat when the text redefines them.
pub uninterp spec fn resource_entry_list(text: Seq<char>) -> Seq<(bool, Seq<char>)>;

/// Whether the first entry named `key` in the resource text is a message
/// carrying a value pattern (rather than a term, or a message with
/// attributes only).
pub uninterp spec fn message_has_value(text: Seq<char>, key: Seq<char>) -> bool;

/// The source text that a parsed resource was built from.
pub uninterp spec fn resource_source(r: fluent::FluentResource) -> Seq<char>;

#[verifier::external_type_specification]
#[verifier::external_body]
pub struct ExFluentResource(fluent::FluentResource);

/// One parsed, immutable message set, produced from one resource text.
#[derive(Debug)]
pub struct MessageSet {
    pub(crate) inner: fluent::FluentResource,
}

impl View for MessageSet {
    type V = Seq<char>;

    closed spec fn view(&self) -> Seq<char> {
        resource_source(self.inner)
    }
}

/// Relies on `fluent::FluentResource::try_new`: it parses the whole text in
/// one pass and returns `Err` with at least one positioned diagnostic
/// exactly when the text violates the grammar. The partially parsed
/// structure that it also hands back on failure is dropped here, so a
/// malformed text contributes nothing.
#[verifier::external_body]
fn try_parse(text: String) -> (r: Result<fluent::FluentResource, Vec<(usize, usize)>>)
    ensures
        r is Ok <==> parse_ok(text@),
        r matches Ok(res) ==> resource_source(res) == text@,
        r matches Err(positions) ==> positions@.len() >= 1,
{
    match fluent::FluentResource::try_new(text) {
        Ok(res) => Ok(res),
        Err((_, errors)) => Err(errors.iter().map(|e| (e.pos.start, e.pos.end)).collect()),
    }
}

/// Parses a resource text into a message set, or reports the byte ranges of
/// its syntax errors. Any error anywhere rejects the entire text: no
/// partial message set is produced.
pub fn parse(text: String) -> (r: Result<MessageSet, Vec<(usize, usize)>>)
    ensures
        r is Ok <==> parse_ok(text@),
        r matches Ok(set) ==> set@ == text@,
        r matches Err(positions) ==> positions@.len() >= 1,
{
    match try_parse(text) {
        Result::Ok(res) => Result::Ok(MessageSet { inner: res }),
        Result::Err(positions) => Result::Err(positions),
    }
}

} // verus!
