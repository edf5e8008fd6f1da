use vstd::prelude::*;

verus! {

/// A scalar argument value for one formatting query: text or an integer.
#[derive(Debug, Clone, PartialEq)]
pub enum ArgValue {
    Text(String),
    Number(i64),
}

/// The mathematical value of an [`ArgValue`].
pub enum ArgData {
    Text(Seq<char>),
    Number(int),
}

impl View for ArgValue {
    type V = ArgData;

    closed spec fn view(&self) -> ArgData {
        match self {
            ArgValue::Text(s) => ArgData::Text(s@),
            ArgValue::Number(n) => ArgData::Number(*n as int),
        }
    }
}

/// The map described by a sequence of bindings where a later binding of a
/// name replaces an earlier one.
pub open spec fn bindings_map(entries: Seq<(String, ArgValue)>) -> Map<Seq<char>, ArgData>
    decreases entries.len(),
{
    if entries.len() == 0 {
        Map::empty()
    } else {
        bindings_map(entries.drop_last()).insert(entries.last().0@, entries.last().1@)
    }
}

/// The views of a sequence of strings.
pub open spec fn seq_views(strs: Seq<String>) -> Seq<Seq<char>> {
    strs.map_values(|s: String| s@)
}

/// Named arguments for one formatting query, supplied by the caller and
/// never stored. The mathematical content is a map from argument names to
/// scalar values; names bound twice keep the later value.
#[derive(Debug)]
pub struct FormatArgs {
    pub(crate) entries: Vec<(String, ArgValue)>,
}

impl View for FormatArgs {
    type V = Map<Seq<char>, ArgData>;

    closed spec fn view(&self) -> Map<Seq<char>, ArgData> {
        bindings_map(self.entries@)
    }
}

impl FormatArgs {
    /// An empty argument set.
    pub fn new() -> (r: FormatArgs)
        ensures
            r@ == Map::<Seq<char>, ArgData>::empty(),
    {
        FormatArgs { entries: Vec::new() }
    }

    /// Binds `name` to `value`, replacing any earlier binding of `name`.
    pub fn set(&mut self, name: String, value: ArgValue)
        ensures
            final(self)@ == old(self)@.insert(name@, value@),
    {
        let ghost before = self.entries@;
        self.entries.push((name, value));
        proof {
            assert(self.entries@.drop_last() =~= before);
        }
    }
}

/// The argument map of an optional argument set: absent arguments mean the
/// empty map, which the resolver cannot tell from an empty set.
pub open spec fn opt_args(args: Option<&FormatArgs>) -> Map<Seq<char>, ArgData> {
    match args {
        Option::Some(a) => a@,
        Option::None => Map::empty(),
    }
}

} // verus!
