//! The two mutable stores behind the mock service.
//!
//! `TestData` is the generation state: the pool of persons and repositories
//! that pull requests are synthesized from, plus the id counter. `TfsState`
//! is the published state: the seeded projects and the append-only list of
//! pull requests visible through the read endpoints.
//!
//! Both are plain values here; the surrounding server wraps each in its own
//! exclusive lock. Because a handler holds both locks across the whole
//! create-and-publish step (the blocking title fetch happens before either
//! lock is taken), creation is strictly serialized: append order equals id
//! order.

use vstd::prelude::*;

use crate::dto::CollectionResult;
use crate::dto::Person;
use crate::dto::PersonV;
use crate::dto::Project;
use crate::dto::ProjectV;
use crate::dto::PullRequest;
use crate::dto::PullRequestV;
use crate::dto::Repository;
use crate::dto::RepositoryV;
use crate::dto::persons_view;
use crate::dto::projects_view;
use crate::dto::pullrequests_view;
use crate::dto::repos_view;

verus! {

/// Holds when no two persons share a `unique_name`; the distinctness of the
/// persons drawn onto a pull request rests on it.
pub open spec fn distinct_unique_names(persons: Seq<PersonV>) -> bool {
    forall|i: int, j: int|
        0 <= i < persons.len() && 0 <= j < persons.len() && i != j ==> persons[i].unique_name
            != persons[j].unique_name
}

/// Mathematical model of [`TestData`].
pub ghost struct TestDataV {
    pub persons: Seq<PersonV>,
    pub repos: Seq<RepositoryV>,
    pub pullrequest_count: int,
}

impl TestDataV {
    /// Configuration precondition of the generation state: at least two
    /// seeded persons with pairwise-distinct identities, and a counter that
    /// never ran backwards.
    pub open spec fn wf(self) -> bool {
        2 <= self.persons.len() && distinct_unique_names(self.persons) && 0
            <= self.pullrequest_count
    }
}

/// The generation state: fixture pools and the pull-request id counter.
pub struct TestData {
    pub persons: Vec<Person>,
    pub repos: Vec<Repository>,
    pub pullrequest_count: i32,
}

impl View for TestData {
    type V = TestDataV;

    open spec fn view(&self) -> TestDataV {
        TestDataV {
            persons: persons_view(self.persons@),
            repos: repos_view(self.repos@),
            pullrequest_count: self.pullrequest_count as int,
        }
    }
}

impl TestData {
    pub fn new(persons: Vec<Person>, repos: Vec<Repository>) -> (r: Self)
        ensures
            r@ == (TestDataV {
                persons: persons_view(persons@),
                repos: repos_view(repos@),
                pullrequest_count: 0,
            }),
    {
        TestData { persons, repos, pullrequest_count: 0 }
    }

    /// The full seeded person list, as the read endpoint reports it.
    pub fn persons_list(&self) -> (r: Vec<Person>)
        ensures
            persons_view(r@) == self@.persons,
    {
        let mut r: Vec<Person> = Vec::new();
        let mut i: usize = 0;
        while i < self.persons.len()
            invariant
                i <= self.persons.len(),
                r@.len() == i,
                forall|k: int| 0 <= k < i ==> r@[k]@ == self.persons@[k]@,
            decreases self.persons.len() - i,
        {
            r.push(self.persons[i].clone());
            i += 1;
        }
        proof {
            assert forall|k: int| 0 <= k < r@.len() implies persons_view(r@)[k] == persons_view(
                self.persons@,
            )[k] by {
                assert(persons_view(r@)[k] == r@[k]@);
                assert(persons_view(self.persons@)[k] == self.persons@[k]@);
            }
            assert(persons_view(r@) =~= persons_view(self.persons@));
        }
        r
    }
}

/// Holds when `pr` belongs to the project named `project`.
pub open spec fn matches_project(pr: PullRequestV, project: Seq<char>) -> bool {
    pr.repository.project.name == project
}

/// The published pull requests that belong to the project named `project`,
/// in append order.
pub open spec fn filter_by_project(prs: Seq<PullRequestV>, project: Seq<char>) -> Seq<PullRequestV>
    decreases prs.len(),
{
    if prs.len() == 0 {
        Seq::empty()
    } else {
        let rest = filter_by_project(prs.drop_last(), project);
        if matches_project(prs.last(), project) {
            rest.push(prs.last())
        } else {
            rest
        }
    }
}

/// Published pull-request ids grow strictly in append order; no id is ever
/// reused.
pub open spec fn ids_strictly_increasing(prs: Seq<PullRequestV>) -> bool {
    forall|i: int, j: int|
        0 <= i < j < prs.len() ==> prs[i].pull_request_id < prs[j].pull_request_id
}

/// The invariant tying the two stores together: published ids grow strictly
/// in append order and never run ahead of the generation counter. It holds
/// of the freshly seeded stores and every Post Pull Request operation
/// preserves it.
pub open spec fn consistent(td: TestDataV, tfs: TfsStateV) -> bool {
    ids_strictly_increasing(tfs.pullrequests) && (forall|i: int|
        0 <= i < tfs.pullrequests.len() ==> (#[trigger] tfs.pullrequests[i]).pull_request_id
            <= td.pullrequest_count)
}

/// Mathematical model of [`TfsState`].
pub ghost struct TfsStateV {
    pub projects: Seq<ProjectV>,
    pub pullrequests: Seq<PullRequestV>,
}

/// The published state: seeded projects and the append-only pull-request
/// list served by the read endpoints.
pub struct TfsState {
    pub projects: Vec<Project>,
    pub pullrequests: Vec<PullRequest>,
}

impl View for TfsState {
    type V = TfsStateV;

    open spec fn view(&self) -> TfsStateV {
        TfsStateV {
            projects: projects_view(self.projects@),
            pullrequests: pullrequests_view(self.pullrequests@),
        }
    }
}

impl TfsState {
    pub fn new(projects: Vec<Project>) -> (r: Self)
        ensures
            r@ == (TfsStateV {
                projects: projects_view(projects@),
                pullrequests: Seq::empty(),
            }),
    {
        let r = TfsState { projects, pullrequests: Vec::new() };
        proof {
            assert(pullrequests_view(r.pullrequests@) =~= Seq::<PullRequestV>::empty());
        }
        r
    }

    /// Appends one published pull request; nothing already published moves
    /// or changes.
    pub fn publish(&mut self, pr: PullRequest)
        ensures
            final(self)@.projects == old(self)@.projects,
            final(self)@.pullrequests == old(self)@.pullrequests.push(pr@),
    {
        let ghost before = pullrequests_view(self.pullrequests@);
        let ghost prv = pr@;
        self.pullrequests.push(pr);
        proof {
            assert(pullrequests_view(self.pullrequests@) =~= before.push(prv));
        }
    }

    /// All seeded projects, wrapped in the `{count, value}` envelope.
    pub fn list_projects(&self) -> (r: CollectionResult<Project>)
        ensures
            projects_view(r.value@) == self@.projects,
            r.count == r.value@.len(),
    {
        let mut value: Vec<Project> = Vec::new();
        let mut i: usize = 0;
        while i < self.projects.len()
            invariant
                i <= self.projects.len(),
                value@.len() == i,
                forall|k: int| 0 <= k < i ==> value@[k]@ == self.projects@[k]@,
            decreases self.projects.len() - i,
        {
            value.push(self.projects[i].clone());
            i += 1;
        }
        proof {
            assert forall|k: int|
                0 <= k < value@.len() implies projects_view(value@)[k] == projects_view(
                self.projects@,
            )[k] by {
                assert(projects_view(value@)[k] == value@[k]@);
                assert(projects_view(self.projects@)[k] == self.projects@[k]@);
            }
            assert(projects_view(value@) =~= projects_view(self.projects@));
        }
        let count = value.len();
        CollectionResult { count, value }
    }

    /// Exactly the published pull requests whose repository belongs to the
    /// named project, in append order, wrapped in the envelope. An unknown
    /// project name yields an empty list, not an error.
    pub fn pullrequests_for_project(&self, project: &str) -> (r: CollectionResult<PullRequest>)
        ensures
            pullrequests_view(r.value@) == filter_by_project(self@.pullrequests, project@),
            r.count == r.value@.len(),
    {
        let wanted: String = project.to_owned();
        let ghost all = pullrequests_view(self.pullrequests@);
        let mut value: Vec<PullRequest> = Vec::new();
        let mut i: usize = 0;
        while i < self.pullrequests.len()
            invariant
                i <= self.pullrequests.len(),
                all == pullrequests_view(self.pullrequests@),
                wanted@ == project@,
                pullrequests_view(value@) == filter_by_project(all.take(i as int), project@),
            decreases self.pullrequests.len() - i,
        {
            let ghost prefix = pullrequests_view(value@);
            proof {
                assert(all.take(i + 1int).drop_last() =~= all.take(i as int));
                assert(all.take(i + 1int).last() == all[i as int]);
                assert(all[i as int] == self.pullrequests@[i as int]@);
            }
            if self.pullrequests[i].repository.project.name == wanted {
                let pr = self.pullrequests[i].clone();
                value.push(pr);
                proof {
                    assert(matches_project(all[i as int], project@));
                    assert(pullrequests_view(value@) =~= prefix.push(all[i as int]));
                }
            } else {
                proof {
                    assert(!matches_project(all[i as int], project@));
                }
            }
            i += 1;
        }
        proof {
            assert(all.take(self.pullrequests@.len() as int) =~= all);
        }
        let count = value.len();
        CollectionResult { count, value }
    }
}

} // verus!
