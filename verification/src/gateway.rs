//! System One gateway guardrails: the prompts the gateway accepts.

use vstd::prelude::*;
use crate::text::{is_blank, str_is_blank};

verus! {

broadcast use vstd::string::group_string_axioms;

#[derive(Debug, Clone, PartialEq, Eq, Structural)]
pub enum GatewayError {
    EmptyPrompt,
    EmptyPattern,
    InvalidLimit,
}

/// A prompt that is not blank.
#[derive(Debug, Clone, PartialEq, Eq)]
pub struct GatewayPrompt(String);

impl View for GatewayPrompt {
    type V = Seq<char>;

    closed spec fn view(&self) -> Seq<char> {
        self.0@
    }
}

/// `str::to_lowercase`: the full Unicode lower-case mapping of a text,
/// as std computes it.
pub uninterp spec fn unicode_lowercase(s: Seq<char>) -> Seq<char>;

/// `str::to_lowercase`; claims only that the result is the one
/// `unicode_lowercase` names for this text.
#[verifier::external_body]
fn lowercase(s: &str) -> (r: String)
    ensures
        r@ == unicode_lowercase(s@),
{
    s.to_lowercase()
}

impl GatewayPrompt {
    pub fn new(v: &str) -> (r: Result<Self, GatewayError>)
        ensures
            is_blank(v@) ==> r == Err::<Self, GatewayError>(GatewayError::EmptyPrompt),
            !is_blank(v@) ==> (r matches Ok(p) && p@ == v@),
    {
        if str_is_blank(v) {
            return Err(GatewayError::EmptyPrompt);
        }
        Ok(Self(v.to_owned()))
    }

    pub fn as_str(&self) -> (r: &str)
        ensures
            r@ == self@,
    {
        self.0.as_str()
    }

    /// The prompt in Unicode lower case.
    pub fn normalized(&self) -> (r: String)
        ensures
            r@ == unicode_lowercase(self@),
    {
        lowercase(self.0.as_str())
    }
}

pub struct GatewayMarker;

} // verus!
