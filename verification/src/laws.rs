//! The library-wide laws, proved once and for all: generated ids never
//! collide, and the project listing is exact.

use vstd::prelude::*;

use crate::dto::ProjectV;
use crate::dto::PullRequestV;
use crate::fixtures::repo_bound_to_seeded;
use crate::generate::posted_ok;
use crate::state::TestDataV;
use crate::state::TfsStateV;
use crate::state::filter_by_project;
use crate::state::ids_strictly_increasing;
use crate::state::matches_project;

verus! {

/// Holds when the pull request's repository snapshot is bound to one of the
/// seeded projects.
pub open spec fn pr_from_seeded_project(pr: PullRequestV, projects: Seq<ProjectV>) -> bool {
    exists|j: int| 0 <= j < projects.len() && pr.repository.project == #[trigger] projects[j]
}

/// Law: as long as every repository of the generation pool is bound to a
/// seeded project — which the seed catalog guarantees and nothing ever
/// changes — every pull request a Post Pull Request operation publishes
/// belongs to a seeded project too.
pub proof fn lemma_published_belong_to_seeded_projects(
    td0: TestDataV,
    tfs0: TfsStateV,
    td1: TestDataV,
    tfs1: TfsStateV,
    projects: Seq<ProjectV>,
    project: Seq<char>,
    title: Seq<char>,
)
    requires
        posted_ok(td0, tfs0, td1, tfs1, project, title),
        forall|i: int|
            0 <= i < td0.repos.len() ==> repo_bound_to_seeded(#[trigger] td0.repos[i], projects),
        forall|i: int|
            0 <= i < tfs0.pullrequests.len() ==> pr_from_seeded_project(
                #[trigger] tfs0.pullrequests[i],
                projects,
            ),
    ensures
        forall|i: int|
            0 <= i < tfs1.pullrequests.len() ==> pr_from_seeded_project(
                #[trigger] tfs1.pullrequests[i],
                projects,
            ),
{
    assert forall|i: int| 0 <= i < tfs1.pullrequests.len() implies pr_from_seeded_project(
        #[trigger] tfs1.pullrequests[i],
        projects,
    ) by {
        if i < tfs1.pullrequests.len() - 1 {
            assert(tfs1.pullrequests[i] == tfs0.pullrequests[i]);
        } else {
            assert(tfs1.pullrequests[i] == tfs1.pullrequests.last());
            let k = choose|k: int|
                0 <= k < td0.repos.len() && tfs1.pullrequests.last().repository == (
                #[trigger] td0.repos[k]) && td0.repos[k].project.name == project;
            assert(repo_bound_to_seeded(td0.repos[k], projects));
            let j = choose|j: int|
                0 <= j < projects.len() && td0.repos[k].project == #[trigger] projects[j];
            assert(tfs1.pullrequests.last().repository.project == projects[j]);
        }
    }
}

/// Holds when `pr` is one of the pull requests of `prs`.
pub open spec fn appears_in(pr: PullRequestV, prs: Seq<PullRequestV>) -> bool {
    exists|i: int| 0 <= i < prs.len() && #[trigger] prs[i] == pr
}

/// Law: however many pull requests have been published, as long as their ids
/// grew strictly in append order — which every Post Pull Request operation
/// preserves — no two published pull requests share an id.
pub proof fn lemma_increasing_ids_have_no_duplicates(prs: Seq<PullRequestV>)
    requires
        ids_strictly_increasing(prs),
    ensures
        forall|i: int, j: int|
            0 <= i < prs.len() && 0 <= j < prs.len() && i != j ==> prs[i].pull_request_id
                != prs[j].pull_request_id,
{
    assert forall|i: int, j: int|
        0 <= i < prs.len() && 0 <= j < prs.len() && i != j implies prs[i].pull_request_id
        != prs[j].pull_request_id by {
        if i < j {
            assert(prs[i].pull_request_id < prs[j].pull_request_id);
        } else {
            assert(prs[j].pull_request_id < prs[i].pull_request_id);
        }
    }
}

/// Law: the listing for a project is exact. Everything it returns is a
/// published pull request of that project, and every published pull request
/// of that project is returned — however many pull requests other projects
/// have published.
pub proof fn lemma_listing_exact(prs: Seq<PullRequestV>, project: Seq<char>)
    ensures
        forall|k: int|
            0 <= k < filter_by_project(prs, project).len() ==> matches_project(
                #[trigger] filter_by_project(prs, project)[k],
                project,
            ) && appears_in(filter_by_project(prs, project)[k], prs),
        forall|i: int|
            0 <= i < prs.len() && matches_project(#[trigger] prs[i], project) ==> appears_in(
                prs[i],
                filter_by_project(prs, project),
            ),
    decreases prs.len(),
{
    let filtered = filter_by_project(prs, project);
    if prs.len() > 0 {
        let prefix = prs.drop_last();
        let fprefix = filter_by_project(prefix, project);
        lemma_listing_exact(prefix, project);
        assert forall|k: int| 0 <= k < filtered.len() implies matches_project(
            #[trigger] filtered[k],
            project,
        ) && appears_in(filtered[k], prs) by {
            if k < fprefix.len() {
                assert(filtered[k] == fprefix[k]);
                assert(appears_in(fprefix[k], prefix));
                let w = choose|w: int| 0 <= w < prefix.len() && #[trigger] prefix[w] == fprefix[k];
                assert(prs[w] == fprefix[k]);
            } else {
                assert(matches_project(prs.last(), project));
                assert(filtered[k] == prs.last());
                assert(prs[prs.len() - 1] == prs.last());
            }
        }
        assert forall|i: int|
            0 <= i < prs.len() && matches_project(#[trigger] prs[i], project) implies appears_in(
            prs[i],
            filtered,
        ) by {
            if i < prefix.len() {
                assert(prefix[i] == prs[i]);
                assert(appears_in(prs[i], fprefix));
                let w = choose|w: int| 0 <= w < fprefix.len() && #[trigger] fprefix[w] == prs[i];
                assert(filtered[w] == fprefix[w]);
            } else {
                assert(prs[i] == prs.last());
                assert(filtered[filtered.len() - 1] == prs.last());
            }
        }
    }
}

} // verus!
