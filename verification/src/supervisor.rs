//! Model-process supervision: the executables and models it launches.

use vstd::prelude::*;
use crate::migration::paths::is_absolute;
use crate::text::chars_of;

verus! {

broadcast use vstd::string::group_string_axioms;

#[derive(Debug, Clone, PartialEq, Eq)]
pub enum SupervisorError {
    RelativePath { field: &'static str, path: String },
}

fn absolute(path: &str) -> (r: bool)
    ensures
        r == is_absolute(path@),
{
    let chars = chars_of(path);
    chars.len() > 0 && chars[0] == '/'
}

/// An absolute path to a server executable.
#[derive(Debug, Clone, PartialEq, Eq)]
pub struct ExecutablePath(String);

impl View for ExecutablePath {
    type V = Seq<char>;

    closed spec fn view(&self) -> Seq<char> {
        self.0@
    }
}

impl ExecutablePath {
    pub fn new(path: &str) -> (r: Result<Self, SupervisorError>)
        ensures
            !is_absolute(path@) ==> (r matches Err(SupervisorError::RelativePath { field, path: p })
                && field == "executable" && p@ == path@),
            is_absolute(path@) ==> (r matches Ok(e) && e@ == path@),
    {
        if !absolute(path) {
            return Err(SupervisorError::RelativePath { field: "executable", path: path.to_owned() });
        }
        Ok(Self(path.to_owned()))
    }

    pub fn as_path(&self) -> (r: &str)
        ensures
            r@ == self@,
    {
        self.0.as_str()
    }
}

/// An absolute path to model weights.
#[derive(Debug, Clone, PartialEq, Eq)]
pub struct ModelPath(String);

impl View for ModelPath {
    type V = Seq<char>;

    closed spec fn view(&self) -> Seq<char> {
        self.0@
    }
}

impl ModelPath {
    pub fn new(path: &str) -> (r: Result<Self, SupervisorError>)
        ensures
            !is_absolute(path@) ==> (r matches Err(SupervisorError::RelativePath { field, path: p })
                && field == "model" && p@ == path@),
            is_absolute(path@) ==> (r matches Ok(m) && m@ == path@),
    {
        if !absolute(path) {
            return Err(SupervisorError::RelativePath { field: "model", path: path.to_owned() });
        }
        Ok(Self(path.to_owned()))
    }

    pub fn as_path(&self) -> (r: &str)
        ensures
            r@ == self@,
    {
        self.0.as_str()
    }
}

/// The inference servers that can be supervised.
#[derive(Debug, Clone, Copy, PartialEq, Eq, Structural)]
pub enum BackendKind {
    LlamaServer,
    MlxLm,
}

impl BackendKind {
    /// The name the backend is shown by.
    pub fn name(&self) -> (r: &'static str)
        ensures
            r@ == match *self {
                BackendKind::LlamaServer => "llama-server"@,
                BackendKind::MlxLm => "mlx-lm"@,
            },
    {
        match self {
            Self::LlamaServer => "llama-server",
            Self::MlxLm => "mlx-lm",
        }
    }
}

} // verus!
