//! Building the request URL for one compound name.

use vstd::prelude::*;

verus! {

/// The request URL: the base endpoint, the compound name, and the
/// response-format suffix, concatenated.
pub fn build_url(base: &str, name: &str, suffix: &str) -> (r: String)
    ensures
        r@ == base@ + name@ + suffix@,
{
    let mut s = base.to_owned();
    s.append(name);
    s.append(suffix);
    s
}

/// The default base endpoint of the compound-by-name lookup.
pub fn default_base_url() -> (r: String)
    ensures
        r@ == "https://pubchem.ncbi.nlm.nih.gov/rest/pug/compound/name/"@,
{
    "https://pubchem.ncbi.nlm.nih.gov/rest/pug/compound/name/".to_owned()
}

/// The default response-format suffix.
pub fn default_return_type() -> (r: String)
    ensures
        r@ == "/JSON"@,
{
    "/JSON".to_owned()
}

} // verus!
