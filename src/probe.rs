//! Reading the host's facts once they are fetched: whether the kernel's
//! version text marks a WSL host.
use vstd::prelude::*;
use crate::text::{contains, text_contains};

verus! {

/// What `str::to_lowercase` returns for text `s`.
pub uninterp spec fn lower_of(s: Seq<char>) -> Seq<char>;

/// Relies on `str::to_lowercase`: the lowercase equivalent of `s`, a function
/// of its characters alone.
#[verifier::external_body]
fn lowercase(s: &str) -> (r: String)
    ensures
        r@ == lower_of(s@),
{
    s.to_lowercase()
}

/// The vendor name that a WSL kernel's version text carries.
pub open spec fn vendor() -> Seq<char> {
    "microsoft"@
}

/// Whether lowercased version text names the WSL kernel's vendor.
pub fn names_vendor(lowered: &str) -> (r: bool)
    ensures
        r == contains(lowered@, vendor()),
{
    text_contains(lowered, "microsoft")
}

/// Whether the kernel's version text `version` marks a WSL host: it names the
/// vendor in any mix of cases.
pub fn is_wsl_version(version: &str) -> (r: bool)
    ensures
        r == contains(lower_of(version@), vendor()),
{
    let lowered = lowercase(version);
    names_vendor(lowered.as_str())
}

} // verus!
