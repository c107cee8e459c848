//! Turns a request into a build plan, or says why it cannot.

use crate::catalog::{is_standard_name, PluginCatalog};
use crate::error::{ErrorView, RemoteFault, ResolutionError};
use crate::identity::{remote_identity, standard_identity, IdentityView, PluginIdentity};
use crate::plan::{all_valid, distinct_names, identity_views, plan_names, BuildPlan};
use crate::request::PluginRequestSet;
use crate::rules::{
    all_known, blank_at, first_blank, first_repeat, first_unknown, law_resolvable_request_yields_plan,
    lemma_planned_names, none_blank, planned, remote_identities, repeated_at, resolution,
    resolvable, standard_identities, unknown_at,
};
use crate::search::{is_least, lemma_least_unique};
use crate::text::{is_blank, str_eq, texts};
use vstd::prelude::*;

verus! {

/// A result of `resolve` with its texts as character sequences.
pub open spec fn outcome(resolved: Result<BuildPlan, ResolutionError>) -> Result<
    Seq<IdentityView>,
    ErrorView,
> {
    match resolved {
        Ok(plan) => Ok(plan@),
        Err(error) => Err(error@),
    }
}

/// Resolves plugin requests against a catalog of standard plugins. It only
/// computes: nothing is fetched, read or written.
pub struct PluginResolver<'a> {
    catalog: &'a PluginCatalog,
}

impl<'a> PluginResolver<'a> {
    /// A resolver that looks standard names up in `catalog`.
    pub fn new(catalog: &'a PluginCatalog) -> (resolver: Self)
        ensures
            resolver.catalog_view() == catalog@,
    {
        PluginResolver { catalog }
    }

    /// The names listed by the catalog that the resolver consults.
    pub closed spec fn catalog_view(&self) -> Seq<Seq<char>> {
        self.catalog@
    }

    /// The catalog that the resolver consults.
    pub fn catalog(&self) -> (catalog: &'a PluginCatalog)
        ensures
            catalog@ == self.catalog_view(),
    {
        self.catalog
    }

    /// Resolves `request` into a build plan: the standard plugins in the
    /// order requested, then the remote plugins in the order requested.
    ///
    /// The request is refused at the first fault found. An empty request
    /// comes first; then the standard names are looked up in order, then the
    /// remote references are checked in order, then the names are scanned in
    /// plan order for one that repeats an earlier name.
    pub fn resolve(&self, request: &PluginRequestSet) -> (resolved: Result<
        BuildPlan,
        ResolutionError,
    >)
        ensures
            outcome(resolved) == resolution(request@),
            resolvable(request@) ==> (resolved matches Ok(plan) && plan@ == planned(request@)
                && plan@.len() == request@.standard_names.len() + request@.remote_refs.len()),
            resolved matches Ok(plan) ==> resolvable(request@) && plan_names(plan@)
                == request@.names() && distinct_names(plan@) && all_valid(plan@),
            request@.names().len() == 0 ==> (resolved matches Err(e) && e@
                == ErrorView::EmptyPluginSet),
            !all_known(request@.standard_names) ==> (resolved matches Err(e) && e@
                == ErrorView::UnknownStandardPlugin(
                request@.standard_names[first_unknown(request@.standard_names)],
            )),
            request@.names().len() > 0 && all_known(request@.standard_names) && !none_blank(
                request@.remote_refs,
            ) ==> (resolved matches Err(e) && e@ == ErrorView::InvalidRemoteReference(
                request@.remote_refs[first_blank(request@.remote_refs)],
                RemoteFault::BlankLocation,
            )),
            request@.names().len() > 0 && all_known(request@.standard_names) && none_blank(
                request@.remote_refs,
            ) && !request@.names().no_duplicates() ==> (resolved matches Err(e) && e@
                == ErrorView::DuplicatePlugin(request@.names()[first_repeat(request@.names())])),
    {
        let standard = request.standard_names();
        let remote = request.remote_refs();
        if standard.len() == 0 && remote.len() == 0 {
            return Err(ResolutionError::EmptyPluginSet);
        }
        let mut entries = match self.standard_entries(standard) {
            Ok(entries) => entries,
            Err(error) => {
                return Err(error);
            },
        };
        let mut remote_entries = match Self::remote_entries(remote) {
            Ok(entries) => entries,
            Err(error) => {
                return Err(error);
            },
        };
        entries.append(&mut remote_entries);
        proof {
            assert(identity_views(entries@) =~= planned(request@));
            lemma_planned_names(request@);
        }
        match Self::first_repeated(&entries) {
            Some(j) => {
                let name = entries[j].name().to_owned();
                proof {
                    let names = request@.names();
                    lemma_least_unique(repeated_at(names), names.len() as int, j as int);
                    let i = choose|i: int| 0 <= i < j && names.take(j as int)[i] == names[j as int];
                    assert(names[i] == names[j as int]);
                }
                Err(ResolutionError::DuplicatePlugin(name))
            },
            None => {
                proof {
                    law_resolvable_request_yields_plan(request@);
                }
                Ok(BuildPlan::from_distinct(entries))
            },
        }
    }

    /// Makes the identities of the standard plugins called `names`, or
    /// refuses the first name that the catalog does not list.
    fn standard_entries(&self, names: &[String]) -> (made: Result<
        Vec<PluginIdentity>,
        ResolutionError,
    >)
        ensures
            match made {
                Ok(entries) => all_known(texts(names@)) && identity_views(entries@)
                    == standard_identities(texts(names@)),
                Err(error) => !all_known(texts(names@)) && error@
                    == ErrorView::UnknownStandardPlugin(
                    texts(names@)[first_unknown(texts(names@))],
                ),
            },
    {
        let ghost wanted = texts(names@);
        let mut entries: Vec<PluginIdentity> = Vec::new();
        let mut i: usize = 0;
        while i < names.len()
            invariant
                0 <= i <= names.len(),
                wanted == texts(names@),
                entries@.len() == i,
                forall|k: int| 0 <= k < i ==> is_standard_name(#[trigger] wanted[k]),
                forall|k: int|
                    0 <= k < i ==> (#[trigger] entries@[k])@ == standard_identity(wanted[k]),
            decreases names.len() - i,
        {
            match PluginIdentity::standard(names[i].clone(), self.catalog) {
                Ok(entry) => {
                    entries.push(entry);
                },
                Err(error) => {
                    proof {
                        assert(unknown_at(wanted)(i as int));
                        assert(is_least(unknown_at(wanted), wanted.len() as int, i as int));
                        lemma_least_unique(unknown_at(wanted), wanted.len() as int, i as int);
                        assert(!is_standard_name(wanted[i as int]));
                    }
                    return Err(error);
                },
            }
            i += 1;
        }
        proof {
            assert(identity_views(entries@) =~= standard_identities(wanted));
        }
        Ok(entries)
    }

    /// Makes the identities of the remote plugins referred to by `refs`, or
    /// refuses the first reference that is blank.
    fn remote_entries(refs: &[String]) -> (made: Result<Vec<PluginIdentity>, ResolutionError>)
        ensures
            match made {
                Ok(entries) => none_blank(texts(refs@)) && identity_views(entries@)
                    == remote_identities(texts(refs@)),
                Err(error) => !none_blank(texts(refs@)) && error@
                    == ErrorView::InvalidRemoteReference(
                    texts(refs@)[first_blank(texts(refs@))],
                    RemoteFault::BlankLocation,
                ),
            },
    {
        let ghost wanted = texts(refs@);
        let mut entries: Vec<PluginIdentity> = Vec::new();
        let mut i: usize = 0;
        while i < refs.len()
            invariant
                0 <= i <= refs.len(),
                wanted == texts(refs@),
                entries@.len() == i,
                forall|k: int| 0 <= k < i ==> !is_blank(#[trigger] wanted[k]),
                forall|k: int|
                    0 <= k < i ==> (#[trigger] entries@[k])@ == remote_identity(
                        wanted[k],
                        wanted[k],
                    ),
            decreases refs.len() - i,
        {
            match PluginIdentity::remote(refs[i].clone(), refs[i].clone()) {
                Ok(entry) => {
                    entries.push(entry);
                },
                Err(error) => {
                    proof {
                        assert(blank_at(wanted)(i as int));
                        assert(is_least(blank_at(wanted), wanted.len() as int, i as int));
                        lemma_least_unique(blank_at(wanted), wanted.len() as int, i as int);
                        assert(is_blank(wanted[i as int]));
                    }
                    return Err(error);
                },
            }
            i += 1;
        }
        proof {
            assert(identity_views(entries@) =~= remote_identities(wanted));
        }
        Ok(entries)
    }

    /// Finds the first entry whose name is that of an earlier entry.
    fn first_repeated(entries: &Vec<PluginIdentity>) -> (found: Option<usize>)
        ensures
            match found {
                Some(j) => is_least(
                    repeated_at(plan_names(identity_views(entries@))),
                    entries@.len() as int,
                    j as int,
                ),
                None => plan_names(identity_views(entries@)).no_duplicates(),
            },
    {
        let ghost names = plan_names(identity_views(entries@));
        let mut j: usize = 0;
        while j < entries.len()
            invariant
                0 <= j <= entries.len(),
                names == plan_names(identity_views(entries@)),
                forall|k: int| 0 <= k < j ==> !#[trigger] repeated_at(names)(k),
            decreases entries.len() - j,
        {
            let name = entries[j].name();
            let mut i: usize = 0;
            while i < j
                invariant
                    0 <= i <= j < entries.len(),
                    names == plan_names(identity_views(entries@)),
                    name@ == names[j as int],
                    forall|k: int| 0 <= k < j ==> !#[trigger] repeated_at(names)(k),
                    forall|k: int| 0 <= k < i ==> names[k] != names[j as int],
                decreases j - i,
            {
                if str_eq(entries[i].name(), name) {
                    proof {
                        assert(names.take(j as int)[i as int] == names[j as int]);
                        assert(repeated_at(names)(j as int));
                    }
                    return Some(j);
                }
                i += 1;
            }
            proof {
                assert forall|k: int| 0 <= k < j implies names.take(j as int)[k] != names[j as int] by {
                    assert(names.take(j as int)[k] == names[k]);
                }
            }
            j += 1;
        }
        proof {
            assert forall|a: int, b: int| 0 <= a < names.len() && 0 <= b < names.len() && a
                != b implies names[a] != names[b] by {
                if a < b {
                    assert(!repeated_at(names)(b));
                    assert(names.take(b)[a] == names[a]);
                } else {
                    assert(!repeated_at(names)(a));
                    assert(names.take(a)[b] == names[b]);
                }
            }
        }
        None
    }
}

} // verus!
