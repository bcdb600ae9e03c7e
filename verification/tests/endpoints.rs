use fake_tfs::client::pick_post_target;
use fake_tfs::client::post_paths;
use fake_tfs::dto::Person;
use fake_tfs::dto::Project;
use fake_tfs::fixtures::seed_fixtures;
use fake_tfs::state::TestData;
use fake_tfs::state::TfsState;

#[test]
fn seeded_catalog_has_expected_shape() {
    let (persons, projects, repos) = seed_fixtures();
    assert_eq!(persons.len(), 4);
    assert_eq!(projects.len(), 4);
    assert_eq!(repos.len(), 6);
    for repo in &repos {
        assert!(
            projects.iter().any(|p| p.name == repo.project.name),
            "every repository is bound to a seeded project"
        );
    }
    for i in 0..persons.len() {
        for j in 0..persons.len() {
            if i != j {
                assert_ne!(persons[i].unique_name, persons[j].unique_name);
            }
        }
    }
}

#[test]
fn list_projects_wraps_all_projects_in_envelope() {
    let tfs = TfsState::new(vec![Project::new("A"), Project::new("B"), Project::new("C")]);
    let envelope = tfs.list_projects();
    assert_eq!(envelope.count, 3);
    assert_eq!(envelope.value.len(), 3);
    assert_eq!(envelope.value[0].name, "A");
    assert_eq!(envelope.value[1].name, "B");
    assert_eq!(envelope.value[2].name, "C");
}

#[test]
fn persons_list_returns_the_full_seeded_pool() {
    let persons = vec![Person::new("A A", "u\\a"), Person::new("B B", "u\\b")];
    let td = TestData::new(persons, Vec::new());
    let listed = td.persons_list();
    assert_eq!(listed.len(), 2);
    assert_eq!(listed[0].display_name, "A A");
    assert_eq!(listed[0].unique_name, "u\\a");
    assert_eq!(listed[1].display_name, "B B");
    assert_eq!(listed[1].unique_name, "u\\b");
}

#[test]
fn post_paths_follow_the_control_route() {
    let projects = vec![Project::new("SecretProject"), Project::new("TopSecretProject")];
    let paths = post_paths(&projects);
    assert_eq!(paths.len(), 2);
    assert_eq!(paths[0], "control/pullrequest/SecretProject");
    assert_eq!(paths[1], "control/pullrequest/TopSecretProject");
}

#[test]
fn pick_post_target_is_none_only_without_projects() {
    let none: Vec<String> = Vec::new();
    assert!(pick_post_target(&none).is_none());

    let targets = vec!["control/pullrequest/A".to_owned(), "control/pullrequest/B".to_owned()];
    for _ in 0..20 {
        let picked = pick_post_target(&targets).expect("non-empty target list");
        assert!(picked < targets.len());
    }
}
