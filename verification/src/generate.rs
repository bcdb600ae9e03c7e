//! Pull-request synthesis: drawing persons onto a pull request, the
//! generator itself, and the control operation that publishes a generated
//! pull request for a named project.
//!
//! The title of a generated pull request comes from an external text source
//! over the network. That fetch is blocking, fallible I/O and happens in the
//! surrounding server, before any lock is taken; these functions take its
//! outcome as an argument and state what happens for every value of it.

use vstd::prelude::*;

use crate::dto::Person;
use crate::dto::PersonV;
use crate::dto::PullRequest;
use crate::dto::PullRequestV;
use crate::dto::Repository;
use crate::dto::RepositoryV;
use crate::dto::Reviewer;
use crate::dto::ReviewerV;
use crate::dto::persons_view;
use crate::dto::repos_view;
use crate::dto::reviewers_view;
use crate::random::is_alnum_char;
use crate::random::sample_alphanumeric_string;
use crate::random::sample_distinct_indices;
use crate::random::sample_range;
use crate::state::TestData;
use crate::state::TestDataV;
use crate::state::TfsState;
use crate::state::TfsStateV;
use crate::state::consistent;
use crate::state::distinct_unique_names;

verus! {

/// Why a Post Pull Request operation failed.
#[derive(Clone, Copy, PartialEq, Eq, Structural, Debug)]
pub enum PostError {
    /// The external title source could not be reached or answered badly.
    TitleFetchFailed,
}

/// Holds when `r` is the snapshot taken of person `p` at creation time: same
/// names, and no vote cast yet.
pub open spec fn reviewer_snapshot_of(r: ReviewerV, p: PersonV) -> bool {
    r.vote == 0 && r.display_name == p.display_name && r.unique_name == p.unique_name
}

/// Holds when `r` is the snapshot of one of the seeded persons.
pub open spec fn snapshot_of_some(r: ReviewerV, persons: Seq<PersonV>) -> bool {
    exists|j: int| 0 <= j < persons.len() && reviewer_snapshot_of(r, #[trigger] persons[j])
}

/// What drawing persons onto a pull request guarantees: between one and
/// all-but-one of the seeded persons, each entry a snapshot of some seeded
/// person, and no person drawn twice.
pub open spec fn reviewers_ok(rs: Seq<ReviewerV>, persons: Seq<PersonV>) -> bool {
    &&& 1 <= rs.len() <= persons.len() - 1
    &&& forall|i: int| 0 <= i < rs.len() ==> snapshot_of_some(#[trigger] rs[i], persons)
    &&& forall|i: int, j: int|
        0 <= i < rs.len() && 0 <= j < rs.len() && i != j ==> rs[i].unique_name != rs[j].unique_name
}

/// What description synthesis guarantees: between 20 and 499 characters, all
/// alphanumeric.
pub open spec fn description_ok(d: Seq<char>) -> bool {
    20 <= d.len() < 500 && (forall|i: int| 0 <= i < d.len() ==> is_alnum_char(d[i]))
}

/// Everything a freshly generated pull request promises: the allocated id,
/// the repository snapshot, the fetched title, the fixed status, date and
/// url, a well-formed description and a well-formed set of drawn persons.
pub open spec fn generated_pr_ok(
    pr: PullRequestV,
    persons: Seq<PersonV>,
    repo: RepositoryV,
    id: int,
    title: Seq<char>,
) -> bool {
    &&& pr.pull_request_id == id
    &&& pr.repository == repo
    &&& pr.title == title
    &&& pr.status == "active"@
    &&& pr.creation_date == "8/3 1917"@
    &&& pr.url == "http://fake.fake"@
    &&& description_ok(pr.description)
    &&& reviewers_ok(pr.reviewers, persons)
}

/// Draws `n` distinct persons from the pool, with `n` itself drawn from
/// `[1, persons.len() - 1]`, and snapshots each with no vote cast.
pub fn pick_reviewers(persons: &Vec<Person>) -> (rs: Vec<Reviewer>)
    requires
        2 <= persons@.len(),
        distinct_unique_names(persons_view(persons@)),
    ensures
        reviewers_ok(reviewers_view(rs@), persons_view(persons@)),
{
    let n = sample_range(1, persons.len());
    let idxs = sample_distinct_indices(persons.len(), n);
    let mut rs: Vec<Reviewer> = Vec::new();
    let mut i: usize = 0;
    while i < idxs.len()
        invariant
            i <= idxs.len(),
            rs@.len() == i,
            idxs@.len() == n,
            1 <= n < persons@.len(),
            forall|k: int| 0 <= k < idxs@.len() ==> idxs@[k] < persons@.len(),
            forall|k: int, l: int|
                0 <= k < idxs@.len() && 0 <= l < idxs@.len() && k != l ==> idxs@[k] != idxs@[l],
            forall|k: int|
                0 <= k < i ==> #[trigger] rs@[k]@ == (ReviewerV {
                    vote: 0,
                    display_name: persons@[idxs@[k] as int]@.display_name,
                    unique_name: persons@[idxs@[k] as int]@.unique_name,
                }),
        decreases idxs.len() - i,
    {
        let p = &persons[idxs[i]];
        rs.push(
            Reviewer {
                vote: 0,
                display_name: p.display_name.clone(),
                unique_name: p.unique_name.clone(),
            },
        );
        i += 1;
    }
    proof {
        let rsv = reviewers_view(rs@);
        let psv = persons_view(persons@);
        assert(rsv.len() == rs@.len());
        assert(psv.len() == persons@.len());
        assert(1 <= rsv.len() <= psv.len() - 1);
        assert forall|k: int| 0 <= k < rsv.len() implies snapshot_of_some(
            #[trigger] rsv[k],
            psv,
        ) by {
            let j = idxs@[k] as int;
            assert(psv[j] == persons@[j]@);
            assert(rsv[k] == rs@[k]@);
            assert(0 <= j < psv.len());
            assert(reviewer_snapshot_of(rsv[k], psv[j]));
        }
        assert forall|k: int, l: int|
            0 <= k < rsv.len() && 0 <= l < rsv.len() && k != l implies rsv[k].unique_name
            != rsv[l].unique_name by {
            let jk = idxs@[k] as int;
            let jl = idxs@[l] as int;
            assert(psv[jk] == persons@[jk]@);
            assert(psv[jl] == persons@[jl]@);
            assert(jk != jl);
            assert(psv[jk].unique_name != psv[jl].unique_name);
            assert(rsv[k] == rs@[k]@);
            assert(rsv[l] == rs@[l]@);
        }
    }
    rs
}

/// Synthesizes one pull request for `repository` with the already-fetched
/// `title`: allocates the next id by incrementing the generation counter,
/// draws a description and a set of persons, and fills in the fixed
/// status, date and url. The person and repository pools are left
/// untouched.
pub fn make_random_pullrequest(
    test_data: &mut TestData,
    repository: &Repository,
    title: String,
) -> (pr: PullRequest)
    requires
        old(test_data)@.wf(),
        old(test_data)@.pullrequest_count < i32::MAX,
    ensures
        final(test_data)@.persons == old(test_data)@.persons,
        final(test_data)@.repos == old(test_data)@.repos,
        final(test_data)@.pullrequest_count == old(test_data)@.pullrequest_count + 1,
        generated_pr_ok(
            pr@,
            old(test_data)@.persons,
            repository@,
            old(test_data)@.pullrequest_count + 1,
            title@,
        ),
{
    test_data.pullrequest_count = test_data.pullrequest_count + 1;
    let pull_request_id = test_data.pullrequest_count;
    let status = "active".to_owned();
    let creation_date = "8/3 1917".to_owned();
    let description_length = sample_range(20, 500);
    let description = sample_alphanumeric_string(description_length);
    let reviewers = pick_reviewers(&test_data.persons);
    let url = "http://fake.fake".to_owned();
    let repository = repository.clone();
    PullRequest {
        pull_request_id,
        status,
        creation_date,
        title,
        description,
        reviewers,
        url,
        repository,
    }
}

/// Holds when some seeded repository belongs to the project named `project`.
pub open spec fn has_repo_for(repos: Seq<RepositoryV>, project: Seq<char>) -> bool {
    exists|i: int| 0 <= i < repos.len() && (#[trigger] repos[i]).project.name == project
}

/// The repositories that belong to the project named `project`, in seed
/// order.
pub open spec fn repos_of(repos: Seq<RepositoryV>, project: Seq<char>) -> Seq<RepositoryV>
    decreases repos.len(),
{
    if repos.len() == 0 {
        Seq::empty()
    } else {
        let rest = repos_of(repos.drop_last(), project);
        if repos.last().project.name == project {
            rest.push(repos.last())
        } else {
            rest
        }
    }
}

/// Every repository of the filtered pool is a matching member of the full
/// pool, and the filter is empty exactly when no repository matches.
pub proof fn lemma_repos_of_members(repos: Seq<RepositoryV>, project: Seq<char>)
    ensures
        forall|k: int|
            0 <= k < repos_of(repos, project).len() ==> exists|i: int|
                0 <= i < repos.len() && #[trigger] repos_of(repos, project)[k] == repos[i]
                    && repos[i].project.name == project,
        repos_of(repos, project).len() > 0 <==> has_repo_for(repos, project),
    decreases repos.len(),
{
    if repos.len() > 0 {
        let prefix = repos.drop_last();
        lemma_repos_of_members(prefix, project);
        assert forall|i: int|
            0 <= i < prefix.len() && (#[trigger] prefix[i]).project.name
                == project implies has_repo_for(repos, project) by {
            assert(repos[i] == prefix[i]);
        }
        if has_repo_for(repos, project) && !(repos.last().project.name == project) {
            let i = choose|i: int|
                0 <= i < repos.len() && (#[trigger] repos[i]).project.name == project;
            assert(i < prefix.len() && prefix[i] == repos[i]);
            assert(has_repo_for(prefix, project));
        }
        assert forall|k: int| 0 <= k < repos_of(repos, project).len() implies exists|i: int|
            0 <= i < repos.len() && #[trigger] repos_of(repos, project)[k] == repos[i]
                && repos[i].project.name == project by {
            let filtered = repos_of(repos, project);
            if k < repos_of(prefix, project).len() {
                let i = choose|i: int|
                    0 <= i < prefix.len() && #[trigger] repos_of(prefix, project)[k] == prefix[i]
                        && prefix[i].project.name == project;
                assert(filtered[k] == repos_of(prefix, project)[k]);
                assert(repos[i] == prefix[i]);
            } else {
                assert(filtered[k] == repos.last());
                assert(repos[repos.len() - 1] == repos.last());
            }
        }
    }
}

/// The repositories of the generation pool that belong to the named project.
pub fn repos_for_project(repos: &Vec<Repository>, project: &str) -> (r: Vec<Repository>)
    ensures
        repos_view(r@) == repos_of(repos_view(repos@), project@),
{
    let wanted: String = project.to_owned();
    let ghost all = repos_view(repos@);
    let mut r: Vec<Repository> = Vec::new();
    let mut i: usize = 0;
    while i < repos.len()
        invariant
            i <= repos.len(),
            all == repos_view(repos@),
            wanted@ == project@,
            repos_view(r@) == repos_of(all.take(i as int), project@),
        decreases repos.len() - i,
    {
        let ghost prefix = repos_view(r@);
        proof {
            assert(all.take(i + 1int).drop_last() =~= all.take(i as int));
            assert(all.take(i + 1int).last() == all[i as int]);
            assert(all[i as int] == repos@[i as int]@);
        }
        if repos[i].project.name == wanted {
            r.push(repos[i].clone());
            proof {
                assert(repos_view(r@) =~= prefix.push(all[i as int]));
            }
        }
        i += 1;
    }
    proof {
        assert(all.take(repos@.len() as int) =~= all);
    }
    r
}

/// What a successful Post Pull Request operation does to the two stores:
/// the generation counter advances by one, exactly one pull request is
/// appended, that pull request carries the freshly allocated id and the
/// fetched title, and its repository snapshot is one of the seeded
/// repositories of the named project.
pub open spec fn posted_ok(
    td0: TestDataV,
    tfs0: TfsStateV,
    td1: TestDataV,
    tfs1: TfsStateV,
    project: Seq<char>,
    title: Seq<char>,
) -> bool {
    &&& td1.pullrequest_count == td0.pullrequest_count + 1
    &&& tfs1.pullrequests == tfs0.pullrequests.push(tfs1.pullrequests.last())
    &&& generated_pr_ok(
        tfs1.pullrequests.last(),
        td0.persons,
        tfs1.pullrequests.last().repository,
        td0.pullrequest_count + 1,
        title,
    )
    &&& exists|k: int|
        0 <= k < td0.repos.len() && tfs1.pullrequests.last().repository == (#[trigger] td0.repos[k])
            && td0.repos[k].project.name == project
}

/// The whole Post Pull Request control operation, after the title fetch.
///
/// If the named project has no repository, nothing happens and no error
/// surfaces, whatever the fetch outcome was. Otherwise a failed fetch aborts
/// with an error and leaves both stores untouched, and a successful fetch
/// appends exactly one generated pull request, for a repository of that
/// project, carrying the next id. Id consistency of the two stores is
/// preserved in every case.
pub fn post_pullrequest(
    test_data: &mut TestData,
    tfs: &mut TfsState,
    project: &str,
    title: Result<String, String>,
) -> (r: Result<(), PostError>)
    requires
        old(test_data)@.wf(),
        old(test_data)@.pullrequest_count < i32::MAX,
    ensures
        final(test_data)@.persons == old(test_data)@.persons,
        final(test_data)@.repos == old(test_data)@.repos,
        final(tfs)@.projects == old(tfs)@.projects,
        !has_repo_for(old(test_data)@.repos, project@) ==> r is Ok && final(test_data)@ == old(
            test_data,
        )@ && final(tfs)@ == old(tfs)@,
        has_repo_for(old(test_data)@.repos, project@) && title is Err ==> r == Err::<
            (),
            PostError,
        >(PostError::TitleFetchFailed) && final(test_data)@ == old(test_data)@ && final(tfs)@
            == old(tfs)@,
        has_repo_for(old(test_data)@.repos, project@) && title is Ok ==> r is Ok && posted_ok(
            old(test_data)@,
            old(tfs)@,
            final(test_data)@,
            final(tfs)@,
            project@,
            title->Ok_0@,
        ),
        consistent(old(test_data)@, old(tfs)@) ==> consistent(final(test_data)@, final(tfs)@),
{
    let ghost td0 = test_data@;
    let ghost tfs0 = tfs@;
    let matching = repos_for_project(&test_data.repos, project);
    proof {
        lemma_repos_of_members(td0.repos, project@);
    }
    if matching.len() == 0 {
        return Ok(());
    }
    let idx = sample_range(0, matching.len());
    let repo = &matching[idx];
    proof {
        assert(repo@ == repos_view(matching@)[idx as int]);
    }
    match title {
        Err(_) => Err(PostError::TitleFetchFailed),
        Ok(t) => {
            let pr = make_random_pullrequest(test_data, repo, t);
            let ghost prv = pr@;
            tfs.publish(pr);
            proof {
                let published = tfs@.pullrequests;
                assert(published == tfs0.pullrequests.push(prv));
                assert(published.last() == prv);
                if consistent(td0, tfs0) {
                    assert forall|i: int, j: int|
                        0 <= i < j < published.len() implies published[i].pull_request_id
                        < published[j].pull_request_id by {
                        assert(published[i] == tfs0.pullrequests[i]);
                        if j < published.len() - 1 {
                            assert(published[j] == tfs0.pullrequests[j]);
                        } else {
                            assert(published[j] == prv);
                            assert(tfs0.pullrequests[i].pull_request_id <= td0.pullrequest_count);
                        }
                    }
                    assert(consistent(test_data@, tfs@));
                }
            }
            Ok(())
        },
    }
}

} // verus!
