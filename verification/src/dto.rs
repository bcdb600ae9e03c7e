//! Data transfer types for the mock pull-request service: seeded fixture
//! records (persons, projects, repositories), published pull requests with
//! their per-person vote snapshots, and the `{count, value}` envelope that list
//! responses are wrapped in.
//!
//! Each executable type has a mathematical view (`PersonV`, `ProjectV`, ...)
//! over sequences of characters and unbounded integers; all contracts in this
//! crate are stated over those views.

use vstd::prelude::*;

verus! {

/// Mathematical model of a [`Person`].
pub ghost struct PersonV {
    pub display_name: Seq<char>,
    pub unique_name: Seq<char>,
}

/// A seeded person who can be drawn onto a pull request. Identity is
/// `unique_name`.
pub struct Person {
    pub display_name: String,
    pub unique_name: String,
}

impl View for Person {
    type V = PersonV;

    open spec fn view(&self) -> PersonV {
        PersonV { display_name: self.display_name@, unique_name: self.unique_name@ }
    }
}

impl Person {
    pub fn new(display_name: &str, unique_name: &str) -> (r: Person)
        ensures
            r@ == (PersonV { display_name: display_name@, unique_name: unique_name@ }),
    {
        Person { display_name: display_name.to_owned(), unique_name: unique_name.to_owned() }
    }
}

impl Clone for Person {
    fn clone(&self) -> (r: Self)
        ensures
            r@ == self@,
    {
        Person { display_name: self.display_name.clone(), unique_name: self.unique_name.clone() }
    }
}

/// Mathematical model of a [`Project`].
pub ghost struct ProjectV {
    pub name: Seq<char>,
}

/// A seeded project; `name` is the external identifier used for filtering.
pub struct Project {
    pub name: String,
}

impl View for Project {
    type V = ProjectV;

    open spec fn view(&self) -> ProjectV {
        ProjectV { name: self.name@ }
    }
}

impl Project {
    pub fn new(name: &str) -> (r: Project)
        ensures
            r@ == (ProjectV { name: name@ }),
    {
        Project { name: name.to_owned() }
    }
}

impl Clone for Project {
    fn clone(&self) -> (r: Self)
        ensures
            r@ == self@,
    {
        Project { name: self.name.clone() }
    }
}

/// Mathematical model of a [`Repository`].
pub ghost struct RepositoryV {
    pub name: Seq<char>,
    pub project: ProjectV,
}

/// A seeded repository, bound to exactly one project.
pub struct Repository {
    pub name: String,
    pub project: Project,
}

impl View for Repository {
    type V = RepositoryV;

    open spec fn view(&self) -> RepositoryV {
        RepositoryV { name: self.name@, project: self.project@ }
    }
}

impl Repository {
    pub fn new(name: &str, project: &Project) -> (r: Repository)
        ensures
            r@ == (RepositoryV { name: name@, project: project@ }),
    {
        Repository { name: name.to_owned(), project: project.clone() }
    }
}

impl Clone for Repository {
    fn clone(&self) -> (r: Self)
        ensures
            r@ == self@,
    {
        Repository { name: self.name.clone(), project: self.project.clone() }
    }
}

/// Mathematical model of one per-person vote snapshot on a pull request.
pub ghost struct ReviewerV {
    pub vote: int,
    pub display_name: Seq<char>,
    pub unique_name: Seq<char>,
}

/// A snapshot of a person taken when a pull request is created, together with
/// a vote value; `0` means no vote cast. Never changes after creation.
pub struct Reviewer {
    pub vote: i32,
    pub display_name: String,
    pub unique_name: String,
}

impl View for Reviewer {
    type V = ReviewerV;

    open spec fn view(&self) -> ReviewerV {
        ReviewerV {
            vote: self.vote as int,
            display_name: self.display_name@,
            unique_name: self.unique_name@,
        }
    }
}

impl Clone for Reviewer {
    fn clone(&self) -> (r: Self)
        ensures
            r@ == self@,
    {
        Reviewer {
            vote: self.vote,
            display_name: self.display_name.clone(),
            unique_name: self.unique_name.clone(),
        }
    }
}

/// Mathematical model of a [`PullRequest`].
pub ghost struct PullRequestV {
    pub repository: RepositoryV,
    pub pull_request_id: int,
    pub status: Seq<char>,
    pub creation_date: Seq<char>,
    pub title: Seq<char>,
    pub description: Seq<char>,
    pub reviewers: Seq<ReviewerV>,
    pub url: Seq<char>,
}

/// A published pull request. `repository` is an owned snapshot copy, not a
/// live reference; `pull_request_id` is unique over the service's lifetime.
pub struct PullRequest {
    pub repository: Repository,
    pub pull_request_id: i32,
    pub status: String,
    pub creation_date: String,
    pub title: String,
    pub description: String,
    pub reviewers: Vec<Reviewer>,
    pub url: String,
}

/// The views of a sequence of vote snapshots, in order.
pub open spec fn reviewers_view(s: Seq<Reviewer>) -> Seq<ReviewerV> {
    s.map_values(|r: Reviewer| r@)
}

impl View for PullRequest {
    type V = PullRequestV;

    open spec fn view(&self) -> PullRequestV {
        PullRequestV {
            repository: self.repository@,
            pull_request_id: self.pull_request_id as int,
            status: self.status@,
            creation_date: self.creation_date@,
            title: self.title@,
            description: self.description@,
            reviewers: reviewers_view(self.reviewers@),
            url: self.url@,
        }
    }
}

impl Clone for PullRequest {
    fn clone(&self) -> (r: Self)
        ensures
            r@ == self@,
    {
        let mut reviewers: Vec<Reviewer> = Vec::new();
        let mut i: usize = 0;
        while i < self.reviewers.len()
            invariant
                i <= self.reviewers.len(),
                reviewers@.len() == i,
                forall|k: int| 0 <= k < i ==> reviewers@[k]@ == self.reviewers@[k]@,
            decreases self.reviewers.len() - i,
        {
            reviewers.push(self.reviewers[i].clone());
            i += 1;
        }
        proof {
            assert forall|k: int|
                0 <= k < reviewers@.len() implies reviewers_view(reviewers@)[k] == reviewers_view(
                self.reviewers@,
            )[k] by {
                assert(reviewers_view(reviewers@)[k] == reviewers@[k]@);
                assert(reviewers_view(self.reviewers@)[k] == self.reviewers@[k]@);
            }
            assert(reviewers_view(reviewers@) =~= reviewers_view(self.reviewers@));
        }
        let r = PullRequest {
            repository: self.repository.clone(),
            pull_request_id: self.pull_request_id,
            status: self.status.clone(),
            creation_date: self.creation_date.clone(),
            title: self.title.clone(),
            description: self.description.clone(),
            reviewers,
            url: self.url.clone(),
        };
        r
    }
}

/// The `{count, value}` envelope that list responses use; `count` always
/// equals the number of items in `value`.
pub struct CollectionResult<T> {
    pub count: usize,
    pub value: Vec<T>,
}

/// The views of a sequence of persons, in order.
pub open spec fn persons_view(s: Seq<Person>) -> Seq<PersonV> {
    s.map_values(|p: Person| p@)
}

/// The views of a sequence of projects, in order.
pub open spec fn projects_view(s: Seq<Project>) -> Seq<ProjectV> {
    s.map_values(|p: Project| p@)
}

/// The views of a sequence of repositories, in order.
pub open spec fn repos_view(s: Seq<Repository>) -> Seq<RepositoryV> {
    s.map_values(|r: Repository| r@)
}

/// The views of a sequence of pull requests, in order.
pub open spec fn pullrequests_view(s: Seq<PullRequest>) -> Seq<PullRequestV> {
    s.map_values(|p: PullRequest| p@)
}

} // verus!
