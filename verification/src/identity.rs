//! The identity of one plugin: its name and where it comes from.

use crate::catalog::{is_standard_name, PluginCatalog};
use crate::error::{ErrorView, RemoteFault, ResolutionError};
use crate::text::{
    is_blank, lemma_text_before_asymmetric, lemma_text_before_total,
    lemma_text_before_transitive, str_eq, str_is_blank, str_order, text_order, TextOrder,
};
use core::cmp::Ordering;
use vstd::prelude::*;
use vstd::std_specs::cmp::{PartialEqSpecImpl, PartialOrdSpecImpl};

verus! {

/// Where a plugin comes from.
#[derive(Clone, Copy, Debug, PartialEq, Eq, Structural)]
pub enum PluginSource {
    /// Shipped with the tool and listed in its catalog.
    Standard,
    /// Brought in from a location outside the catalog.
    Remote,
}

/// A `PluginIdentity` with its texts as character sequences.
pub struct IdentityView {
    pub name: Seq<char>,
    pub source: PluginSource,
    pub location: Option<Seq<char>>,
}

/// The identity of the standard plugin called `name`.
pub open spec fn standard_identity(name: Seq<char>) -> IdentityView {
    IdentityView { name, source: PluginSource::Standard, location: None }
}

/// The identity of the remote plugin called `name` that is found at
/// `location`.
pub open spec fn remote_identity(name: Seq<char>, location: Seq<char>) -> IdentityView {
    IdentityView { name, source: PluginSource::Remote, location: Some(location) }
}

/// What holds of every identity: a standard plugin is in the catalog and has
/// no location; a remote plugin has a name and a location, neither of them
/// blank.
pub open spec fn valid_identity(id: IdentityView) -> bool {
    match id.source {
        PluginSource::Standard => is_standard_name(id.name) && id.location is None,
        PluginSource::Remote => {
            &&& !is_blank(id.name)
            &&& id.location matches Some(location)
            &&& !is_blank(location)
        },
    }
}

/// Two identities are the same plugin when source and name agree.
pub open spec fn same_plugin(a: IdentityView, b: IdentityView) -> bool {
    a.source == b.source && a.name == b.name
}

/// The order of identities: standard plugins before remote ones, and within
/// a source by name, as texts are ordered.
pub open spec fn identity_order(a: IdentityView, b: IdentityView) -> Ordering {
    if a.source != b.source {
        if a.source == PluginSource::Standard {
            Ordering::Less
        } else {
            Ordering::Greater
        }
    } else {
        match text_order(a.name, b.name) {
            TextOrder::Before => Ordering::Less,
            TextOrder::Same => Ordering::Equal,
            TextOrder::After => Ordering::Greater,
        }
    }
}

/// Two identities are equal in the order exactly when they are the same
/// plugin.
pub proof fn lemma_identity_order_equal(a: IdentityView, b: IdentityView)
    ensures
        identity_order(a, b) == Ordering::Equal <==> same_plugin(a, b),
{
}

/// Turning two identities round turns their order round.
pub proof fn lemma_identity_order_reverse(a: IdentityView, b: IdentityView)
    ensures
        identity_order(a, b) == Ordering::Less <==> identity_order(b, a) == Ordering::Greater,
        identity_order(a, b) == Ordering::Equal <==> identity_order(b, a) == Ordering::Equal,
{
    if a.source == b.source && a.name != b.name {
        lemma_text_before_total(a.name, b.name);
        if text_order(a.name, b.name) == TextOrder::Before {
            lemma_text_before_asymmetric(a.name, b.name);
        }
        if text_order(b.name, a.name) == TextOrder::Before {
            lemma_text_before_asymmetric(b.name, a.name);
        }
    }
}

/// The order of identities is transitive.
pub proof fn lemma_identity_order_transitive(a: IdentityView, b: IdentityView, c: IdentityView)
    requires
        identity_order(a, b) == Ordering::Less,
        identity_order(b, c) == Ordering::Less,
    ensures
        identity_order(a, c) == Ordering::Less,
{
    if a.source == b.source && b.source == c.source {
        lemma_text_before_transitive(a.name, b.name, c.name);
        lemma_text_before_asymmetric(a.name, c.name);
    }
}

/// One plugin, standard or remote.
#[derive(Debug)]
pub struct PluginIdentity {
    name: String,
    source: PluginSource,
    location: Option<String>,
}

impl View for PluginIdentity {
    type V = IdentityView;

    closed spec fn view(&self) -> IdentityView {
        IdentityView {
            name: self.name@,
            source: self.source,
            location: match self.location {
                Some(location) => Some(location@),
                None => None,
            },
        }
    }
}

impl Clone for PluginIdentity {
    fn clone(&self) -> (copy: Self)
        ensures
            copy@ == self@,
    {
        proof {
            use_type_invariant(self);
        }
        let location = match &self.location {
            Some(text) => Some(text.clone()),
            None => None,
        };
        PluginIdentity { name: self.name.clone(), source: self.source, location }
    }
}

impl PartialEq for PluginIdentity {
    /// Two identities are equal when source and name agree.
    fn eq(&self, other: &Self) -> (same: bool) {
        self.source == other.source && str_eq(self.name.as_str(), other.name.as_str())
    }
}

impl PartialEqSpecImpl for PluginIdentity {
    open spec fn obeys_eq_spec() -> bool {
        true
    }

    open spec fn eq_spec(&self, other: &Self) -> bool {
        same_plugin(self@, other@)
    }
}

impl PartialOrd for PluginIdentity {
    /// Identities are ordered by source, then by name.
    fn partial_cmp(&self, other: &Self) -> (order: Option<Ordering>) {
        if self.source != other.source {
            match self.source {
                PluginSource::Standard => Some(Ordering::Less),
                PluginSource::Remote => Some(Ordering::Greater),
            }
        } else {
            match str_order(self.name.as_str(), other.name.as_str()) {
                TextOrder::Before => Some(Ordering::Less),
                TextOrder::Same => Some(Ordering::Equal),
                TextOrder::After => Some(Ordering::Greater),
            }
        }
    }
}

impl PartialOrdSpecImpl for PluginIdentity {
    open spec fn obeys_partial_cmp_spec() -> bool {
        true
    }

    open spec fn partial_cmp_spec(&self, other: &Self) -> Option<Ordering> {
        Some(identity_order(self@, other@))
    }
}

impl PluginIdentity {
    #[verifier::type_invariant]
    spec fn is_valid(self) -> bool {
        valid_identity(self@)
    }

    /// Names a standard plugin. The name must be in the catalog, letter for
    /// letter; any other name is refused as unknown.
    pub fn standard(name: String, catalog: &PluginCatalog) -> (made: Result<
        PluginIdentity,
        ResolutionError,
    >)
        ensures
            is_standard_name(name@) ==> (made matches Ok(id) && id@ == standard_identity(name@)),
            !is_standard_name(name@) ==> (made matches Err(e) && e@
                == ErrorView::UnknownStandardPlugin(name@)),
    {
        if catalog.contains(name.as_str()) {
            Ok(PluginIdentity { name, source: PluginSource::Standard, location: None })
        } else {
            Err(ResolutionError::UnknownStandardPlugin(name))
        }
    }

    /// Names a remote plugin found at `location`. Both texts are kept as
    /// given. A blank location is refused first, then a blank name; the
    /// error carries the blank text.
    pub fn remote(name: String, location: String) -> (made: Result<PluginIdentity, ResolutionError>)
        ensures
            !is_blank(location@) && !is_blank(name@) ==> (made matches Ok(id) && id@
                == remote_identity(name@, location@)),
            is_blank(location@) ==> (made matches Err(e) && e@
                == ErrorView::InvalidRemoteReference(location@, RemoteFault::BlankLocation)),
            !is_blank(location@) && is_blank(name@) ==> (made matches Err(e) && e@
                == ErrorView::InvalidRemoteReference(name@, RemoteFault::BlankName)),
    {
        if str_is_blank(location.as_str()) {
            Err(ResolutionError::InvalidRemoteReference(location, RemoteFault::BlankLocation))
        } else if str_is_blank(name.as_str()) {
            Err(ResolutionError::InvalidRemoteReference(name, RemoteFault::BlankName))
        } else {
            Ok(PluginIdentity { name, source: PluginSource::Remote, location: Some(location) })
        }
    }

    /// The plugin's name.
    pub fn name(&self) -> (name: &str)
        ensures
            name@ == self@.name,
            valid_identity(self@),
    {
        proof {
            use_type_invariant(self);
        }
        self.name.as_str()
    }

    /// Where the plugin comes from.
    pub fn source(&self) -> (source: PluginSource)
        ensures
            source == self@.source,
            valid_identity(self@),
    {
        proof {
            use_type_invariant(self);
        }
        self.source
    }

    /// Where a remote plugin is found; a standard plugin has no location.
    pub fn location(&self) -> (location: Option<&str>)
        ensures
            match location {
                Some(text) => self@.location == Some(text@),
                None => self@.location is None,
            },
            valid_identity(self@),
    {
        proof {
            use_type_invariant(self);
        }
        match &self.location {
            Some(text) => Some(text.as_str()),
            None => None,
        }
    }
}

} // verus!
