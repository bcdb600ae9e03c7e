//! The fixture catalog: the static seed data the mock service starts with.
//! Built once at startup, immutable thereafter; construction is
//! deterministic and total.

use vstd::prelude::*;

use crate::dto::Person;
use crate::dto::Project;
use crate::dto::ProjectV;
use crate::dto::Repository;
use crate::dto::RepositoryV;
use crate::dto::persons_view;
use crate::dto::projects_view;
use crate::dto::repos_view;
use crate::state::distinct_unique_names;

verus! {

/// Holds when the repository is bound to one of the seeded projects.
pub open spec fn repo_bound_to_seeded(rp: RepositoryV, projects: Seq<ProjectV>) -> bool {
    exists|j: int| 0 <= j < projects.len() && rp.project == #[trigger] projects[j]
}

/// What the seed catalog guarantees: enough persons with pairwise-distinct
/// identities for pull-request synthesis, and every repository bound to a
/// seeded project.
pub open spec fn catalog_ok(
    persons: Seq<crate::dto::PersonV>,
    projects: Seq<ProjectV>,
    repos: Seq<RepositoryV>,
) -> bool {
    &&& 2 <= persons.len()
    &&& distinct_unique_names(persons)
    &&& forall|i: int| 0 <= i < repos.len() ==> repo_bound_to_seeded(#[trigger] repos[i], projects)
}

/// Builds the full seed catalog: four persons, four projects and six
/// repositories, each repository bound to exactly one of the projects.
pub fn seed_fixtures() -> (r: (Vec<Person>, Vec<Project>, Vec<Repository>))
    ensures
        persons_view(r.0@).len() == 4,
        projects_view(r.1@).len() == 4,
        repos_view(r.2@).len() == 6,
        catalog_ok(persons_view(r.0@), projects_view(r.1@), repos_view(r.2@)),
{
    let mut persons: Vec<Person> = Vec::new();
    persons.push(Person::new("Bob Bobson", "MEGACROPT\\bb"));
    persons.push(Person::new("Glod Glodson", "MEGACROPT\\glod"));
    persons.push(Person::new("Steinur Steinurson", "MEGACROPT\\ss"));
    persons.push(Person::new("Halgrim Helgrimson", "MEGACROPT\\hh"));

    let secret_project = Project::new("SecretProject");
    let top_secret_project = Project::new("TopSecretProject");
    let meget_hemmligt_project = Project::new("MegetHemmeligtProjekt");
    let yderst_hemmeligt_projekt = Project::new("YderstHemmeligtProjekt");

    let mut repos: Vec<Repository> = Vec::new();
    repos.push(Repository::new("secret-project", &secret_project));
    repos.push(Repository::new("secret-statemachine-compiler", &secret_project));
    repos.push(Repository::new("meget-hemmeligt-projekt", &meget_hemmligt_project));
    repos.push(Repository::new("top-secret-project", &top_secret_project));
    repos.push(Repository::new("top-secret-service-tool", &top_secret_project));
    repos.push(Repository::new("yderst-hemmeligt-projekt", &yderst_hemmeligt_projekt));

    let mut projects: Vec<Project> = Vec::new();
    projects.push(secret_project);
    projects.push(top_secret_project);
    projects.push(meget_hemmligt_project);
    projects.push(yderst_hemmeligt_projekt);

    proof {
        let psv = persons_view(persons@);
        reveal_strlit("MEGACROPT\\bb");
        reveal_strlit("MEGACROPT\\glod");
        reveal_strlit("MEGACROPT\\ss");
        reveal_strlit("MEGACROPT\\hh");
        assert(psv[0].unique_name.len() == 12);
        assert(psv[1].unique_name.len() == 14);
        assert(psv[2].unique_name.len() == 12);
        assert(psv[3].unique_name.len() == 12);
        assert(psv[0].unique_name[10] == 'b');
        assert(psv[2].unique_name[10] == 's');
        assert(psv[3].unique_name[10] == 'h');
        assert(distinct_unique_names(psv));

        let pjv = projects_view(projects@);
        let rpv = repos_view(repos@);
        assert forall|i: int| 0 <= i < rpv.len() implies repo_bound_to_seeded(
            #[trigger] rpv[i],
            pjv,
        ) by {
            assert(rpv[0].project == pjv[0]);
            assert(rpv[1].project == pjv[0]);
            assert(rpv[2].project == pjv[2]);
            assert(rpv[3].project == pjv[1]);
            assert(rpv[4].project == pjv[1]);
            assert(rpv[5].project == pjv[3]);
        }
    }
    (persons, projects, repos)
}

} // verus!
