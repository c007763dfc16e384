//! Operating-system capability boundaries.

use vstd::prelude::*;
use crate::text::{push_str, string_from_chars};

verus! {

broadcast use vstd::string::group_string_axioms;

/// An operating-system capability that the host does not offer.
#[derive(Debug, Clone, Copy, PartialEq, Eq)]
pub struct UnsupportedPlatform {
    pub capability: &'static str,
    pub platform: &'static str,
}

impl UnsupportedPlatform {
    /// `<capability> is unsupported on <platform>`.
    pub fn message(&self) -> (r: String)
        ensures
            r@ == self.capability@ + " is unsupported on "@ + self.platform@,
    {
        let mut out: Vec<char> = Vec::new();
        push_str(&mut out, self.capability);
        push_str(&mut out, " is unsupported on ");
        push_str(&mut out, self.platform);
        string_from_chars(&out)
    }
}

} // verus!
