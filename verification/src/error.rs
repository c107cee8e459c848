//! Why a plugin request cannot be turned into a plan.

use vstd::prelude::*;

verus! {

/// The part of a remote plugin specification that is unusable.
#[derive(Clone, Copy, Debug, PartialEq, Eq, Structural)]
pub enum RemoteFault {
    /// The plugin name is empty or white space only.
    BlankName,
    /// The location is empty or white space only.
    BlankLocation,
}

/// A failed resolution. Every failure is final for the request it was
/// found in: the same request always fails the same way.
#[derive(Debug, PartialEq, Eq)]
pub enum ResolutionError {
    /// Nothing was requested.
    EmptyPluginSet,
    /// The named standard plugin is not in the catalog.
    UnknownStandardPlugin(String),
    /// A remote plugin specification is malformed: the offending text and
    /// what is wrong with it.
    InvalidRemoteReference(String, RemoteFault),
    /// The named plugin was requested more than once.
    DuplicatePlugin(String),
}

/// A `ResolutionError` with its texts as character sequences.
pub enum ErrorView {
    EmptyPluginSet,
    UnknownStandardPlugin(Seq<char>),
    InvalidRemoteReference(Seq<char>, RemoteFault),
    DuplicatePlugin(Seq<char>),
}

impl View for ResolutionError {
    type V = ErrorView;

    open spec fn view(&self) -> ErrorView {
        match *self {
            ResolutionError::EmptyPluginSet => ErrorView::EmptyPluginSet,
            ResolutionError::UnknownStandardPlugin(name) => ErrorView::UnknownStandardPlugin(
                name@,
            ),
            ResolutionError::InvalidRemoteReference(text, fault) => {
                ErrorView::InvalidRemoteReference(text@, fault)
            },
            ResolutionError::DuplicatePlugin(name) => ErrorView::DuplicatePlugin(name@),
        }
    }
}

impl Clone for ResolutionError {
    fn clone(&self) -> (copy: Self)
        ensures
            copy@ == self@,
    {
        match self {
            ResolutionError::EmptyPluginSet => ResolutionError::EmptyPluginSet,
            ResolutionError::UnknownStandardPlugin(name) => ResolutionError::UnknownStandardPlugin(
                name.clone(),
            ),
            ResolutionError::InvalidRemoteReference(text, fault) => {
                ResolutionError::InvalidRemoteReference(text.clone(), *fault)
            },
            ResolutionError::DuplicatePlugin(name) => ResolutionError::DuplicatePlugin(
                name.clone(),
            ),
        }
    }
}

} // verus!
