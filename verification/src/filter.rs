use vstd::prelude::*;

use crate::model::{DescriptorModel, RepositoryDescriptor, RunFilter};
use crate::visibility_is_private;

verus! {

/// The owner check: an any-owner run bypasses it, otherwise the repository
/// must belong to the authenticated source user.
pub open spec fn owner_matches(f: RunFilter, d: DescriptorModel, source_user: Seq<char>) -> bool {
    f.any_owner || d.owner == source_user
}

/// Forks pass only when the run asked for them.
pub open spec fn fork_allowed(f: RunFilter, d: DescriptorModel) -> bool {
    f.include_forks || !d.is_fork
}

/// The visibility check: with both visibilities enabled only the owner check
/// remains; otherwise the single enabled visibility must match as well.
pub open spec fn visibility_matches(
    f: RunFilter,
    d: DescriptorModel,
    source_user: Seq<char>,
) -> bool {
    if f.include_public && f.include_private {
        owner_matches(f, d, source_user)
    } else if f.include_private {
        owner_matches(f, d, source_user) && d.visibility is Private
    } else {
        owner_matches(f, d, source_user) && d.visibility is Public
    }
}

/// Whether a run with filter `f`, authenticated as `source_user`, migrates
/// the repository `d`.
pub open spec fn accepts(f: RunFilter, d: DescriptorModel, source_user: Seq<char>) -> bool {
    fork_allowed(f, d) && visibility_matches(f, d, source_user)
}

/// Decides `accepts` for one repository.
pub fn repo_accepted(f: &RunFilter, d: &RepositoryDescriptor, source_user: &String) -> (r: bool)
    ensures
        r == accepts(*f, d@, source_user@),
{
    let fork_ok = f.include_forks || !d.is_fork;
    let owner_ok = f.any_owner || d.owner == *source_user;
    let vis_ok = if f.include_public && f.include_private {
        owner_ok
    } else if f.include_private {
        owner_ok && visibility_is_private(d.visibility)
    } else {
        owner_ok && !visibility_is_private(d.visibility)
    };
    fork_ok && vis_ok
}

/// Filter correctness, mode by mode, for every filter and every descriptor:
/// an any-owner run (which a valid configuration enables only together with
/// both visibilities) accepts every owner and visibility, fork permitting;
/// both-visibilities mode accepts both visibilities but only the
/// authenticated owner's repositories; private-only mode further demands a
/// private repository; and the public-only default rejects private
/// repositories and other owners.
pub proof fn lemma_filter_correctness(f: RunFilter, d: DescriptorModel, source_user: Seq<char>)
    requires
        f.wf(),
    ensures
        f.any_owner && f.include_public && f.include_private ==> (accepts(f, d, source_user)
            <==> fork_allowed(f, d)),
        !f.any_owner && f.include_public && f.include_private ==> (accepts(f, d, source_user)
            <==> (d.owner == source_user && fork_allowed(f, d))),
        !f.any_owner && !f.include_public && f.include_private ==> (accepts(f, d, source_user)
            <==> (d.owner == source_user && d.visibility is Private && fork_allowed(f, d))),
        !f.any_owner && !f.include_private ==> (accepts(f, d, source_user) <==> (d.owner
            == source_user && d.visibility is Public && fork_allowed(f, d))),
{
}

} // verus!
