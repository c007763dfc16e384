//! Multi-language structural context extraction: the languages it reads
//! and the documents and ranges it works on.

use vstd::prelude::*;
use crate::text::{chars_of, chars_equal, equals_str, slice_from};

verus! {

broadcast use vstd::string::group_string_axioms;

#[derive(Debug, Clone, PartialEq, Eq)]
pub enum ContextError {
    UnsupportedExtension(String),
    EmptyPath,
    EmptySource,
    ParserConfiguration,
    ParseFailed,
    InvalidRange,
    EmptyQuery,
    QueryCompilation,
}

#[derive(Debug, Clone, Copy, PartialEq, Eq, Hash, Structural)]
pub enum SourceLanguage {
    Python,
    Rust,
    Cpp,
    TypeScript,
}

/// A file extension without its leading dot, if it has one.
pub open spec fn bare_extension(ext: Seq<char>) -> Seq<char> {
    if ext.len() > 0 && ext[0] == '.' {
        ext.drop_first()
    } else {
        ext
    }
}

/// The language of a source file by its extension.
pub open spec fn language_of(ext: Seq<char>) -> Option<SourceLanguage> {
    let e = bare_extension(ext);
    if e == "py"@ || e == "pyi"@ {
        Some(SourceLanguage::Python)
    } else if e == "rs"@ {
        Some(SourceLanguage::Rust)
    } else if e == "c"@ || e == "cc"@ || e == "cpp"@ || e == "cxx"@ || e == "h"@ || e == "hh"@
        || e == "hpp"@ || e == "hxx"@ {
        Some(SourceLanguage::Cpp)
    } else if e == "ts"@ || e == "tsx"@ || e == "mts"@ || e == "cts"@ {
        Some(SourceLanguage::TypeScript)
    } else {
        None
    }
}

impl SourceLanguage {
    /// Resolves an extension such as `rs` or `.rs`.
    pub fn from_extension(ext: &str) -> (r: Result<Self, ContextError>)
        ensures
            language_of(ext@) matches Some(l) ==> r == Ok::<Self, ContextError>(l),
            language_of(ext@) is None ==> (r matches Err(ContextError::UnsupportedExtension(e))
                && e@ == ext@),
    {
        let chars = chars_of(ext);
        let e = if chars.len() > 0 && chars[0] == '.' { slice_from(&chars, 1) } else { chars };
        assert(e@ == bare_extension(ext@)) by {
            if ext@.len() > 0 && ext@[0] == '.' {
                assert(ext@.skip(1) =~= ext@.drop_first());
            }
        }
        if equals_str(&e, "py") || equals_str(&e, "pyi") {
            Ok(Self::Python)
        } else if equals_str(&e, "rs") {
            Ok(Self::Rust)
        } else if equals_str(&e, "c") || equals_str(&e, "cc") || equals_str(&e, "cpp")
            || equals_str(&e, "cxx") || equals_str(&e, "h") || equals_str(&e, "hh")
            || equals_str(&e, "hpp") || equals_str(&e, "hxx") {
            Ok(Self::Cpp)
        } else if equals_str(&e, "ts") || equals_str(&e, "tsx") || equals_str(&e, "mts")
            || equals_str(&e, "cts") {
            Ok(Self::TypeScript)
        } else {
            Err(ContextError::UnsupportedExtension(ext.to_owned()))
        }
    }
}

/// A source file to extract context from: a path and its non-empty bytes.
#[derive(Debug, Clone, PartialEq, Eq)]
pub struct SourceDocument {
    path: String,
    source: Vec<u8>,
}

impl SourceDocument {
    /// Refuses an empty path first, then empty contents.
    pub fn new(path: &str, source: Vec<u8>) -> (r: Result<Self, ContextError>)
        ensures
            path@.len() == 0 ==> r == Err::<Self, ContextError>(ContextError::EmptyPath),
            path@.len() > 0 && source@.len() == 0 ==> r == Err::<Self, ContextError>(
                ContextError::EmptySource,
            ),
            path@.len() > 0 && source@.len() > 0 ==> (r matches Ok(d) && d.path_view() == path@
                && d.source_view() == source@),
    {
        if path.is_empty() {
            return Err(ContextError::EmptyPath);
        }
        if source.len() == 0 {
            return Err(ContextError::EmptySource);
        }
        Ok(Self { path: path.to_owned(), source })
    }

    pub closed spec fn path_view(&self) -> Seq<char> {
        self.path@
    }

    pub closed spec fn source_view(&self) -> Seq<u8> {
        self.source@
    }

    pub fn path(&self) -> (r: &str)
        ensures
            r@ == self.path_view(),
    {
        self.path.as_str()
    }

    pub fn source(&self) -> (r: &[u8])
        ensures
            r@ == self.source_view(),
    {
        self.source.as_slice()
    }
}

/// A range of byte offsets whose start does not pass its end.
#[derive(Debug, Clone, Copy, PartialEq, Eq, Structural)]
pub struct SourceRange {
    pub start: usize,
    pub end: usize,
}

impl SourceRange {
    pub fn new(start: usize, end: usize) -> (r: Result<Self, ContextError>)
        ensures
            start > end ==> r == Err::<Self, ContextError>(ContextError::InvalidRange),
            start <= end ==> r == Ok::<Self, ContextError>(SourceRange { start, end }),
    {
        if start > end {
            return Err(ContextError::InvalidRange);
        }
        Ok(Self { start, end })
    }
}

pub struct ContextMarker;

} // verus!
