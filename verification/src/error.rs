//! Errors raised while locating a Java runtime and probing its version.

use vstd::prelude::*;
use vstd::string::StringExecFns;

verus! {

/// The kinds of failure the Java handling can report.
#[derive(Debug, Clone, Copy, PartialEq, Eq, Structural)]
pub enum JavaErrorKind {
    /// A runtime directory or executable is absent.
    NotFound,
    /// The version probe could not be spawned, produced no readable line,
    /// or contained no quoted version token.
    OutputReadError,
    /// A located executable does not sit in a `bin` directory.
    InvalidJavaFolderStructure,
    /// The runtime's main version is not the requested one.
    DifferentVersion,
}

/// A failure kind together with optional free-form details.
#[derive(Debug, Clone)]
pub struct JavaError(pub JavaErrorKind, pub Option<String>);

impl JavaError {
    /// An error of the given kind without details.
    pub fn new(kind: JavaErrorKind) -> (r: Self)
        ensures
            r.0 == kind,
            r.1 is None,
    {
        Self(kind, None)
    }

    /// An error of the given kind carrying details.
    pub fn new_with_details(kind: JavaErrorKind, details: String) -> (r: Self)
        ensures
            r.0 == kind,
            r.1 matches Some(d) && d@ == details@,
    {
        Self(kind, Some(details))
    }

    /// The kind of the error.
    pub fn kind(&self) -> (r: &JavaErrorKind)
        ensures
            r == self.0,
    {
        &self.0
    }

    /// The details, if any were attached.
    pub fn details(&self) -> (r: Option<&str>)
        ensures
            r matches Some(d) ==> self.1 matches Some(s) && d@ == s@,
            r is None ==> self.1 is None,
    {
        match &self.1 {
            Some(d) => Some(d.as_str()),
            None => None,
        }
    }

    /// The name of the error's kind.
    pub open spec fn spec_kind_name(kind: JavaErrorKind) -> Seq<char> {
        match kind {
            JavaErrorKind::NotFound => "NotFound"@,
            JavaErrorKind::OutputReadError => "OutputReadError"@,
            JavaErrorKind::InvalidJavaFolderStructure => "InvalidJavaFolderStructure"@,
            JavaErrorKind::DifferentVersion => "DifferentVersion"@,
        }
    }

    /// What [`JavaError::message`] returns: the kind's name, with the
    /// details appended after a separating colon when they are present.
    pub open spec fn spec_message(self) -> Seq<char> {
        match self.1 {
            Some(d) => Self::spec_kind_name(self.0) + ": "@ + d@,
            None => Self::spec_kind_name(self.0),
        }
    }

    /// Renders the error for display.
    pub fn message(&self) -> (r: String)
        ensures
            r@ == self.spec_message(),
    {
        let kind_name: &str = match self.0 {
            JavaErrorKind::NotFound => "NotFound",
            JavaErrorKind::OutputReadError => "OutputReadError",
            JavaErrorKind::InvalidJavaFolderStructure => "InvalidJavaFolderStructure",
            JavaErrorKind::DifferentVersion => "DifferentVersion",
        };
        match &self.1 {
            Some(d) => {
                let mut out = kind_name.to_owned();
                out.append(": ");
                out.append(d.as_str());
                out
            },
            None => kind_name.to_owned(),
        }
    }
}

} // verus!
