//! What the user asked for, as it came from the command line.

use crate::text::texts;
use vstd::prelude::*;

verus! {

/// A `PluginRequestSet` with its texts as character sequences.
pub struct RequestView {
    pub standard_names: Seq<Seq<char>>,
    pub remote_refs: Seq<Seq<char>>,
}

impl RequestView {
    /// The plugin names that the request stands for, in plan order: the
    /// standard names, then the remote ones. A remote plugin is named by its
    /// reference, taken whole and unchanged, whether that is a bare name, a
    /// path or a URL.
    pub open spec fn names(self) -> Seq<Seq<char>> {
        self.standard_names + self.remote_refs
    }
}

/// The names of the standard plugins and the references of the remote
/// plugins that were requested, each list in the order given. Nothing is
/// checked here: a request set only carries what was asked for.
#[derive(Debug)]
pub struct PluginRequestSet {
    standard_names: Vec<String>,
    remote_refs: Vec<String>,
}

impl View for PluginRequestSet {
    type V = RequestView;

    closed spec fn view(&self) -> RequestView {
        RequestView {
            standard_names: texts(self.standard_names@),
            remote_refs: texts(self.remote_refs@),
        }
    }
}

impl PluginRequestSet {
    /// Holds the two lists as they are.
    pub fn new(standard_names: Vec<String>, remote_refs: Vec<String>) -> (request: Self)
        ensures
            request@.standard_names == texts(standard_names@),
            request@.remote_refs == texts(remote_refs@),
    {
        PluginRequestSet { standard_names, remote_refs }
    }

    /// The requested standard plugin names, in the order given.
    pub fn standard_names(&self) -> (names: &[String])
        ensures
            texts(names@) == self@.standard_names,
    {
        self.standard_names.as_slice()
    }

    /// The requested remote plugin references, in the order given.
    pub fn remote_refs(&self) -> (refs: &[String])
        ensures
            texts(refs@) == self@.remote_refs,
    {
        self.remote_refs.as_slice()
    }
}

} // verus!
