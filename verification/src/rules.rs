//! What a resolution yields, stated over the texts of a request.

use crate::catalog::is_standard_name;
use crate::error::{ErrorView, RemoteFault};
use crate::identity::{remote_identity, standard_identity, valid_identity, IdentityView};
use crate::plan::{all_valid, distinct_names, plan_names};
use crate::request::RequestView;
use crate::search::{is_least, least, lemma_least_exists, lemma_least_unique};
use crate::text::is_blank;
use vstd::prelude::*;

verus! {

/// Every name is in the catalog.
pub open spec fn all_known(names: Seq<Seq<char>>) -> bool {
    forall|i: int| 0 <= i < names.len() ==> is_standard_name(#[trigger] names[i])
}

/// No reference is blank.
pub open spec fn none_blank(refs: Seq<Seq<char>>) -> bool {
    forall|i: int| 0 <= i < refs.len() ==> !is_blank(#[trigger] refs[i])
}

/// The name at an index is not in the catalog.
pub open spec fn unknown_at(names: Seq<Seq<char>>) -> spec_fn(int) -> bool {
    |i: int| !is_standard_name(names[i])
}

/// The reference at an index is blank.
pub open spec fn blank_at(refs: Seq<Seq<char>>) -> spec_fn(int) -> bool {
    |i: int| is_blank(refs[i])
}

/// The name at an index stands at an earlier index too.
pub open spec fn repeated_at(names: Seq<Seq<char>>) -> spec_fn(int) -> bool {
    |j: int| names.take(j).contains(names[j])
}

/// The index of the first name that is not in the catalog.
pub open spec fn first_unknown(names: Seq<Seq<char>>) -> int {
    least(unknown_at(names), names.len() as int)
}

/// The index of the first blank reference.
pub open spec fn first_blank(refs: Seq<Seq<char>>) -> int {
    least(blank_at(refs), refs.len() as int)
}

/// The index of the first name that repeats an earlier one.
pub open spec fn first_repeat(names: Seq<Seq<char>>) -> int {
    least(repeated_at(names), names.len() as int)
}

/// The standard identities of a list of names.
pub open spec fn standard_identities(names: Seq<Seq<char>>) -> Seq<IdentityView> {
    names.map_values(|name: Seq<char>| standard_identity(name))
}

/// The remote identities of a list of references. A reference is the
/// location of its plugin and, taken whole, its name.
pub open spec fn remote_identities(refs: Seq<Seq<char>>) -> Seq<IdentityView> {
    refs.map_values(|reference: Seq<char>| remote_identity(reference, reference))
}

/// The plan of a request: its standard plugins, then its remote plugins,
/// each group in the order requested.
pub open spec fn planned(request: RequestView) -> Seq<IdentityView> {
    standard_identities(request.standard_names) + remote_identities(request.remote_refs)
}

/// A request can be resolved: it asks for something, every standard name is
/// in the catalog, no remote reference is blank and no name stands twice.
pub open spec fn resolvable(request: RequestView) -> bool {
    &&& request.names().len() > 0
    &&& all_known(request.standard_names)
    &&& none_blank(request.remote_refs)
    &&& request.names().no_duplicates()
}

/// What resolving a request yields. The first fault found decides, in this
/// order: an empty request; the first standard name that the catalog does
/// not list; the first blank remote reference; the first name that repeats
/// an earlier one. A request without fault yields its plan.
pub open spec fn resolution(request: RequestView) -> Result<Seq<IdentityView>, ErrorView> {
    let standard = request.standard_names;
    let remote = request.remote_refs;
    let names = request.names();
    if names.len() == 0 {
        Err(ErrorView::EmptyPluginSet)
    } else if !all_known(standard) {
        Err(ErrorView::UnknownStandardPlugin(standard[first_unknown(standard)]))
    } else if !none_blank(remote) {
        Err(
            ErrorView::InvalidRemoteReference(
                remote[first_blank(remote)],
                RemoteFault::BlankLocation,
            ),
        )
    } else if !names.no_duplicates() {
        Err(ErrorView::DuplicatePlugin(names[first_repeat(names)]))
    } else {
        Ok(planned(request))
    }
}

/// The names of a request's plan are the names it asks for.
pub proof fn lemma_planned_names(request: RequestView)
    ensures
        planned(request).len() == request.standard_names.len() + request.remote_refs.len(),
        plan_names(planned(request)) == request.names(),
{
    assert(plan_names(planned(request)) =~= request.names());
}

/// A request that can be resolved yields its plan: as many entries as names
/// were requested, all valid, no name twice.
pub proof fn law_resolvable_request_yields_plan(request: RequestView)
    requires
        resolvable(request),
    ensures
        resolution(request) == Ok::<Seq<IdentityView>, ErrorView>(planned(request)),
        planned(request).len() == request.standard_names.len() + request.remote_refs.len(),
        distinct_names(planned(request)),
        all_valid(planned(request)),
{
    let plan = planned(request);
    let names = request.names();
    lemma_planned_names(request);
    assert forall|i: int, j: int| 0 <= i < j < plan.len() implies (#[trigger] plan[i]).name != (
    #[trigger] plan[j]).name by {
        assert(plan[i].name == names[i]);
        assert(plan[j].name == names[j]);
    }
    assert forall|i: int| 0 <= i < plan.len() implies valid_identity(#[trigger] plan[i]) by {
        if i < request.standard_names.len() {
            assert(is_standard_name(request.standard_names[i]));
        } else {
            assert(!is_blank(request.remote_refs[i - request.standard_names.len()]));
        }
    }
}

/// A plan is made only for a request that can be resolved.
pub proof fn law_plan_only_if_resolvable(request: RequestView)
    ensures
        resolution(request) is Ok <==> resolvable(request),
{
}

/// A request that asks for nothing is refused as empty.
pub proof fn law_empty_request_refused(request: RequestView)
    requires
        request.standard_names.len() == 0,
        request.remote_refs.len() == 0,
    ensures
        resolution(request) == Err::<Seq<IdentityView>, ErrorView>(ErrorView::EmptyPluginSet),
{
}

/// A request with a standard name that the catalog does not list is refused
/// as naming an unknown plugin: the first such name of the request. Where
/// every standard name before index `i` is listed, that is the name at `i`.
pub proof fn law_unknown_standard_refused(request: RequestView, i: int)
    requires
        0 <= i < request.standard_names.len(),
        !is_standard_name(request.standard_names[i]),
    ensures
        resolution(request) == Err::<Seq<IdentityView>, ErrorView>(
            ErrorView::UnknownStandardPlugin(
                request.standard_names[first_unknown(request.standard_names)],
            ),
        ),
        is_least(
            unknown_at(request.standard_names),
            request.standard_names.len() as int,
            first_unknown(request.standard_names),
        ),
        first_unknown(request.standard_names) <= i,
        all_known(request.standard_names.take(i)) ==> first_unknown(request.standard_names) == i,
{
    let standard = request.standard_names;
    lemma_least_exists(unknown_at(standard), standard.len() as int, i);
    if all_known(standard.take(i)) {
        let first = first_unknown(standard);
        if first < i {
            assert(standard.take(i)[first] == standard[first]);
        }
    }
}

/// A request whose standard names are all listed and which has a blank
/// remote reference is refused as malformed: the error carries the first
/// blank reference of the request.
pub proof fn law_blank_remote_refused(request: RequestView, i: int)
    requires
        all_known(request.standard_names),
        0 <= i < request.remote_refs.len(),
        is_blank(request.remote_refs[i]),
    ensures
        resolution(request) == Err::<Seq<IdentityView>, ErrorView>(
            ErrorView::InvalidRemoteReference(
                request.remote_refs[first_blank(request.remote_refs)],
                RemoteFault::BlankLocation,
            ),
        ),
        is_least(
            blank_at(request.remote_refs),
            request.remote_refs.len() as int,
            first_blank(request.remote_refs),
        ),
        first_blank(request.remote_refs) <= i,
{
    lemma_least_exists(blank_at(request.remote_refs), request.remote_refs.len() as int, i);
}

/// A request that is otherwise without fault and in which the name at
/// index `j` stands at an earlier index `i` too, in either group, is refused
/// as a duplicate: the error carries the first name of the request that
/// repeats an earlier one. Where no name before `j` repeats an earlier one,
/// that is the name at `j`.
pub proof fn law_duplicate_refused(request: RequestView, i: int, j: int)
    requires
        all_known(request.standard_names),
        none_blank(request.remote_refs),
        0 <= i < j < request.names().len(),
        request.names()[i] == request.names()[j],
    ensures
        resolution(request) == Err::<Seq<IdentityView>, ErrorView>(
            ErrorView::DuplicatePlugin(request.names()[first_repeat(request.names())]),
        ),
        is_least(
            repeated_at(request.names()),
            request.names().len() as int,
            first_repeat(request.names()),
        ),
        first_repeat(request.names()) <= j,
        request.names().take(j).no_duplicates() ==> first_repeat(request.names()) == j,
{
    let names = request.names();
    assert(names.take(j)[i] == names[j]);
    assert(repeated_at(names)(j));
    lemma_least_exists(repeated_at(names), names.len() as int, j);
    let first = first_repeat(names);
    if names.take(j).no_duplicates() && first < j {
        let early = choose|k: int| 0 <= k < first && names.take(first)[k] == names[first];
        assert(names.take(j)[early] == names.take(j)[first]);
    }
}

/// Resolving one request again gives the same: two results that are each
/// the resolution of the same request are equal, plans entry for entry.
pub proof fn law_resolution_repeats(
    request: RequestView,
    first: Result<Seq<IdentityView>, ErrorView>,
    second: Result<Seq<IdentityView>, ErrorView>,
)
    requires
        first == resolution(request),
        second == resolution(request),
    ensures
        first == second,
        first matches Ok(plan) ==> (second matches Ok(again) && again.len() == plan.len()
            && forall|i: int| 0 <= i < plan.len() ==> plan[i] == again[i]),
{
}

} // verus!
