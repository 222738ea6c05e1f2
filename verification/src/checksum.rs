//! Checksum annotation for registry-sourced dependencies.
//!
//! When checksum emission is enabled and the resolver knows a content
//! digest for a registry package, the rendered source URI carries the
//! digest twice: once under the archive-level key and once under the
//! per-artifact key. A missing digest yields an empty annotation, never
//! an error.

use vstd::prelude::*;
use vstd::string::*;

verus! {

/// The view of an optional owned string, as an optional character sequence.
pub open spec fn opt_view(o: Option<String>) -> Option<Seq<char>> {
    match o {
        Some(s) => Some(s@),
        None => None,
    }
}

/// The checksum suffix appended to a registry source URI: empty when no
/// digest is known, otherwise the two equivalent checksum keys.
pub open spec fn checksum_suffix(name: Seq<char>, version: Seq<char>, checksum: Option<Seq<char>>) -> Seq<char> {
    match checksum {
        Some(c) => ";sha256sum="@ + c + ";"@ + name + "-"@ + version + ".sha256sum="@ + c,
        None => Seq::empty(),
    }
}

/// Renders the checksum annotation for one registry dependency.
pub fn checksum_annotation(name: &str, version: &str, checksum: &Option<String>) -> (r: String)
    ensures
        r@ == checksum_suffix(name@, version@, opt_view(*checksum)),
{
    match checksum {
        Some(c) => {
            let mut r = String::from_str(";sha256sum=");
            r.append(c.as_str());
            r.append(";");
            r.append(name);
            r.append("-");
            r.append(version);
            r.append(".sha256sum=");
            r.append(c.as_str());
            r
        },
        None => String::new(),
    }
}

} // verus!
