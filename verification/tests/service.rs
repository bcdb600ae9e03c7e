use fake_tfs::dto::Person;
use fake_tfs::dto::Project;
use fake_tfs::dto::Repository;
use fake_tfs::generate::PostError;
use fake_tfs::generate::make_random_pullrequest;
use fake_tfs::generate::post_pullrequest;
use fake_tfs::state::TestData;
use fake_tfs::state::TfsState;

fn four_persons() -> Vec<Person> {
    vec![
        Person::new("Bob Bobson", "MEGACROPT\\bb"),
        Person::new("Glod Glodson", "MEGACROPT\\glod"),
        Person::new("Steinur Steinurson", "MEGACROPT\\ss"),
        Person::new("Halgrim Helgrimson", "MEGACROPT\\hh"),
    ]
}

#[test]
fn five_posts_yield_five_distinct_increasing_ids() {
    let project = Project::new("SecretProject");
    let repos = vec![
        Repository::new("secret-project", &project),
        Repository::new("secret-statemachine-compiler", &project),
    ];
    let mut td = TestData::new(four_persons(), repos);
    let mut tfs = TfsState::new(vec![project]);

    for _ in 0..5 {
        let r = post_pullrequest(&mut td, &mut tfs, "SecretProject", Ok("stub title".to_owned()));
        assert!(r.is_ok());
    }

    let listing = tfs.pullrequests_for_project("SecretProject");
    assert_eq!(listing.count, 5);
    assert_eq!(listing.value.len(), 5);
    let ids: Vec<i32> = listing.value.iter().map(|pr| pr.pull_request_id).collect();
    for w in ids.windows(2) {
        assert!(w[0] < w[1], "ids must be strictly increasing in append order");
    }
    let mut sorted = ids.clone();
    sorted.sort();
    sorted.dedup();
    assert_eq!(sorted.len(), 5, "ids must be distinct");
}

#[test]
fn listing_another_project_is_empty() {
    let pa = Project::new("A");
    let pb = Project::new("B");
    let repos = vec![Repository::new("ra", &pa), Repository::new("rb", &pb)];
    let mut td = TestData::new(four_persons(), repos);
    let mut tfs = TfsState::new(vec![pa, pb]);

    let r = post_pullrequest(&mut td, &mut tfs, "A", Ok("stub".to_owned()));
    assert!(r.is_ok());

    let listing = tfs.pullrequests_for_project("B");
    assert_eq!(listing.count, 0);
    assert!(listing.value.is_empty());

    let listing_a = tfs.pullrequests_for_project("A");
    assert_eq!(listing_a.count, 1);
}

#[test]
fn failed_title_fetch_returns_error_and_changes_nothing() {
    let project = Project::new("SecretProject");
    let repos = vec![Repository::new("secret-project", &project)];
    let mut td = TestData::new(four_persons(), repos);
    let mut tfs = TfsState::new(vec![project]);

    let r = post_pullrequest(&mut td, &mut tfs, "SecretProject", Err("connection refused".to_owned()));
    assert_eq!(r, Err(PostError::TitleFetchFailed));
    assert_eq!(td.pullrequest_count, 0);
    let listing = tfs.pullrequests_for_project("SecretProject");
    assert_eq!(listing.count, 0);
}

#[test]
fn post_to_project_without_repositories_is_a_silent_noop() {
    let empty_project = Project::new("EmptyProject");
    let other = Project::new("Other");
    let repos = vec![Repository::new("ro", &other)];
    let mut td = TestData::new(four_persons(), repos);
    let mut tfs = TfsState::new(vec![empty_project, other]);

    let r = post_pullrequest(&mut td, &mut tfs, "EmptyProject", Ok("stub".to_owned()));
    assert!(r.is_ok(), "no repositories is a no-op, never an error");
    assert_eq!(td.pullrequest_count, 0);
    assert_eq!(tfs.pullrequests_for_project("EmptyProject").count, 0);
    assert_eq!(tfs.pullrequests_for_project("Other").count, 0);
}

#[test]
fn unknown_project_listing_is_empty_not_an_error() {
    let tfs = TfsState::new(vec![Project::new("A")]);
    let listing = tfs.pullrequests_for_project("NoSuchProject");
    assert_eq!(listing.count, 0);
    assert!(listing.value.is_empty());
}

#[test]
fn generated_reviewers_are_distinct_seeded_persons() {
    let persons = four_persons();
    let project = Project::new("P");
    let repo = Repository::new("r", &project);
    let mut td = TestData::new(persons, vec![repo.clone()]);

    for _ in 0..50 {
        let pr = make_random_pullrequest(&mut td, &repo, "t".to_owned());
        let n = pr.reviewers.len();
        assert!(1 <= n && n <= 3, "drawn-person count must be in [1, personCount - 1]");
        for r in &pr.reviewers {
            assert_eq!(r.vote, 0);
            assert!(
                td.persons.iter().any(|p| p.unique_name == r.unique_name
                    && p.display_name == r.display_name),
                "every entry is a snapshot of a seeded person"
            );
        }
        for i in 0..n {
            for j in 0..n {
                if i != j {
                    assert_ne!(
                        pr.reviewers[i].unique_name, pr.reviewers[j].unique_name,
                        "no person is drawn twice"
                    );
                }
            }
        }
    }
}

#[test]
fn generated_description_is_alphanumeric_with_bounded_length() {
    let project = Project::new("P");
    let repo = Repository::new("r", &project);
    let mut td = TestData::new(four_persons(), vec![repo.clone()]);

    for _ in 0..50 {
        let pr = make_random_pullrequest(&mut td, &repo, "t".to_owned());
        let len = pr.description.chars().count();
        assert!((20..500).contains(&len), "description length must be in [20, 500)");
        assert!(pr.description.chars().all(|c| c.is_ascii_alphanumeric()));
    }
}

#[test]
fn generated_pullrequest_carries_fixed_fields_and_snapshot() {
    let project = Project::new("SecretProject");
    let repo = Repository::new("secret-project", &project);
    let mut td = TestData::new(four_persons(), vec![repo.clone()]);

    let pr = make_random_pullrequest(&mut td, &repo, "a fetched title".to_owned());
    assert_eq!(pr.pull_request_id, 1);
    assert_eq!(pr.status, "active");
    assert_eq!(pr.creation_date, "8/3 1917");
    assert_eq!(pr.url, "http://fake.fake");
    assert_eq!(pr.title, "a fetched title");
    assert_eq!(pr.repository.name, "secret-project");
    assert_eq!(pr.repository.project.name, "SecretProject");

    let pr2 = make_random_pullrequest(&mut td, &repo, "another".to_owned());
    assert_eq!(pr2.pull_request_id, 2);
    assert_eq!(td.pullrequest_count, 2);
}

#[test]
fn id_counter_never_reuses_after_a_failure_gap() {
    let project = Project::new("P");
    let repos = vec![Repository::new("r", &project)];
    let mut td = TestData::new(four_persons(), repos);
    let mut tfs = TfsState::new(vec![project]);

    assert!(post_pullrequest(&mut td, &mut tfs, "P", Ok("one".to_owned())).is_ok());
    assert!(post_pullrequest(&mut td, &mut tfs, "P", Err("down".to_owned())).is_err());
    assert!(post_pullrequest(&mut td, &mut tfs, "P", Ok("two".to_owned())).is_ok());

    let listing = tfs.pullrequests_for_project("P");
    assert_eq!(listing.count, 2);
    assert!(listing.value[0].pull_request_id < listing.value[1].pull_request_id);
}
