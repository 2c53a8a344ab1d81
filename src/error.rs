//! The kinds of failure a build can meet.
use vstd::prelude::*;

verus! {

/// A build failure, one variant per kind.
#[derive(Clone, Debug, PartialEq, Eq)]
pub enum BuildError {
    /// Inconsistent environment: variable `present` is set while its partner
    /// `missing` is not.
    Config { missing: String, present: String },
    /// Package discovery found nothing; the build falls back to the wrapper header.
    Discovery(String),
    /// The native compiler failed.
    Compilation(String),
    /// The header could not be translated into an interface.
    Generation(String),
    /// A file could not be read or written; the path is given.
    Io(String),
}

/// The message that reports error `e`.
pub open spec fn spec_error_message(e: BuildError) -> Seq<char> {
    match e {
        BuildError::Config { missing, present } => missing@ + " must be set if "@ + present@
            + " is set"@,
        BuildError::Discovery(s) => "package discovery found nothing: "@ + s@,
        BuildError::Compilation(s) => "native compilation failed: "@ + s@,
        BuildError::Generation(s) => "could not generate bindings from header "@ + s@,
        BuildError::Io(s) => "could not copy or write "@ + s@,
    }
}

impl BuildError {
    /// Whether the error stops the build; only a failed discovery does not.
    pub fn is_fatal(&self) -> (r: bool)
        ensures
            r == !(self is Discovery),
    {
        match self {
            BuildError::Discovery(_) => false,
            _ => true,
        }
    }

    /// A message that names the variable or path at fault.
    pub fn message(&self) -> (r: String)
        ensures
            r@ == spec_error_message(*self),
    {
        match self {
            BuildError::Config { missing, present } => missing.clone().concat(
                " must be set if ",
            ).concat(present.as_str()).concat(" is set"),
            BuildError::Discovery(s) => String::from_str("package discovery found nothing: ").concat(
                s.as_str(),
            ),
            BuildError::Compilation(s) => String::from_str("native compilation failed: ").concat(
                s.as_str(),
            ),
            BuildError::Generation(s) => String::from_str(
                "could not generate bindings from header ",
            ).concat(s.as_str()),
            BuildError::Io(s) => String::from_str("could not copy or write ").concat(s.as_str()),
        }
    }
}

} // verus!
