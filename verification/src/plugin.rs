//! Domain-neutral external plugin contracts.

use vstd::prelude::*;
use vstd::string::StringExecFns;
use crate::text::{chars_of, has_whitespace, has_whitespace_chars, is_blank, str_is_blank};

verus! {

broadcast use vstd::string::group_string_axioms;

#[derive(Debug, Clone, PartialEq, Eq)]
pub enum PluginError {
    EmptyField { field: &'static str },
    InvalidEndpoint,
    DuplicateCapability(String),
    UnsupportedProtocol,
}

/// Identifier of a plugin: any text that is not blank.
#[derive(Debug, Clone, PartialEq, Eq, Hash)]
pub struct PluginId(String);

impl View for PluginId {
    type V = Seq<char>;

    closed spec fn view(&self) -> Seq<char> {
        self.0@
    }
}

impl PluginId {
    pub fn new(value: &str) -> (r: Result<Self, PluginError>)
        ensures
            is_blank(value@) ==> r == Err::<Self, PluginError>(
                PluginError::EmptyField { field: "plugin_id" },
            ),
            !is_blank(value@) ==> (r matches Ok(id) && id@ == value@),
    {
        if str_is_blank(value) {
            return Err(PluginError::EmptyField { field: "plugin_id" });
        }
        Ok(Self(value.to_owned()))
    }

    pub fn as_str(&self) -> (r: &str)
        ensures
            r@ == self@,
    {
        self.0.as_str()
    }
}

#[derive(Debug, Clone, Copy, PartialEq, Eq, Structural)]
pub enum PluginProtocol {
    Http,
    Grpc,
}

/// Where a plugin listens: a protocol and an authority without whitespace.
#[derive(Debug, Clone, PartialEq, Eq)]
pub struct PluginEndpoint {
    pub protocol: PluginProtocol,
    pub authority: String,
}

pub open spec fn scheme_of(protocol: PluginProtocol) -> Seq<char> {
    match protocol {
        PluginProtocol::Http => "http"@,
        PluginProtocol::Grpc => "grpc"@,
    }
}

impl PluginEndpoint {
    pub fn new(protocol: PluginProtocol, authority: &str) -> (r: Result<Self, PluginError>)
        ensures
            (is_blank(authority@) || has_whitespace(authority@)) ==> r == Err::<Self, PluginError>(
                PluginError::InvalidEndpoint,
            ),
            !(is_blank(authority@) || has_whitespace(authority@)) ==> (r matches Ok(e)
                && e.protocol == protocol && e.authority@ == authority@),
    {
        let chars = chars_of(authority);
        if str_is_blank(authority) || has_whitespace_chars(&chars) {
            return Err(PluginError::InvalidEndpoint);
        }
        Ok(Self { protocol, authority: authority.to_owned() })
    }

    /// `<scheme>://<authority>`.
    pub fn uri(&self) -> (r: String)
        ensures
            r@ == scheme_of(self.protocol) + "://"@ + self.authority@,
    {
        let scheme = match self.protocol {
            PluginProtocol::Http => "http",
            PluginProtocol::Grpc => "grpc",
        };
        let mut out = String::from_str(scheme);
        out.append("://");
        out.append(self.authority.as_str());
        out
    }
}

pub struct PluginMarker;

} // verus!
