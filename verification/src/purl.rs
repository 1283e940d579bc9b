//! The canonical form of a package URL as the target's database stores it:
//! the parts as plain values, qualifiers as ordered key-value pairs.
//! Rendering the canonical parts back into package-URL syntax needs the
//! package-URL builder and lives with the callers outside this crate.

use vstd::prelude::*;

verus! {

/// A package URL, broken into its canonical parts.
#[derive(Debug)]
pub struct CanonicalPurl {
    pub ty: String,
    pub namespace: Option<String>,
    pub name: String,
    pub version: Option<String>,
    pub qualifiers: Vec<(String, String)>,
}

} // verus!
