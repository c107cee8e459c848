//! The resolved list of plugins that a builder assembles.

use crate::identity::{valid_identity, IdentityView, PluginIdentity};
use vstd::prelude::*;

verus! {

/// The views of a list of identities.
pub open spec fn identity_views(entries: Seq<PluginIdentity>) -> Seq<IdentityView> {
    entries.map_values(|entry: PluginIdentity| entry@)
}

/// The names of a list of identities.
pub open spec fn plan_names(plan: Seq<IdentityView>) -> Seq<Seq<char>> {
    plan.map_values(|entry: IdentityView| entry.name)
}

/// No two entries have the same name, whatever their sources.
pub open spec fn distinct_names(plan: Seq<IdentityView>) -> bool {
    forall|i: int, j: int|
        0 <= i < j < plan.len() ==> (#[trigger] plan[i]).name != (#[trigger] plan[j]).name
}

/// Every entry is a valid identity.
pub open spec fn all_valid(plan: Seq<IdentityView>) -> bool {
    forall|i: int| 0 <= i < plan.len() ==> valid_identity(#[trigger] plan[i])
}

/// An ordered list of plugins in which no name stands twice. Only a
/// resolution makes one, and it cannot be changed afterwards.
#[derive(Debug)]
pub struct BuildPlan {
    entries: Vec<PluginIdentity>,
}

impl View for BuildPlan {
    type V = Seq<IdentityView>;

    closed spec fn view(&self) -> Seq<IdentityView> {
        identity_views(self.entries@)
    }
}

impl BuildPlan {
    #[verifier::type_invariant]
    spec fn is_sound(self) -> bool {
        distinct_names(self@) && all_valid(self@)
    }

    /// Makes a plan of entries that are known to have distinct names.
    pub(crate) fn from_distinct(entries: Vec<PluginIdentity>) -> (plan: Self)
        requires
            distinct_names(identity_views(entries@)),
            all_valid(identity_views(entries@)),
        ensures
            plan@ == identity_views(entries@),
    {
        BuildPlan { entries }
    }

    /// The plugins of the plan, in order.
    pub fn entries(&self) -> (entries: &[PluginIdentity])
        ensures
            identity_views(entries@) == self@,
            distinct_names(self@),
            all_valid(self@),
    {
        proof {
            use_type_invariant(self);
        }
        self.entries.as_slice()
    }

    /// The number of plugins in the plan.
    pub fn length(&self) -> (n: usize)
        ensures
            n == self@.len(),
    {
        self.entries.len()
    }
}

} // verus!
