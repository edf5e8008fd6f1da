use vstd::prelude::*;
use vstd::string::*;

use crate::locale::LocaleKey;

verus! {

/// The fixed subdirectory, relative to the process working directory, in
/// which resource files live.
pub fn resource_dir() -> (r: String)
    ensures
        r@ == "resources"@,
{
    String::from_str("resources")
}

/// The file name of the resource holding `bundle_id`'s messages for
/// `locale`: `<bundle_id>_<locale>.ftl`.
pub fn resource_file_name(bundle_id: &str, locale: &LocaleKey) -> (r: String)
    ensures
        r@ == bundle_id@ + "_"@ + locale@ + ".ftl"@,
{
    let mut name = bundle_id.to_owned();
    name.append("_");
    name.append(locale.as_str());
    name.append(".ftl");
    name
}

} // verus!
