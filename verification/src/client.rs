//! Decisions of the load-generator client: building the control-endpoint
//! paths from the discovered project list and choosing the next target.
//! The HTTP calls themselves happen in the surrounding driver.

use vstd::prelude::*;
use vstd::string::StringExecFns;

use crate::dto::Project;
use crate::random::sample_range;

verus! {

/// The relative path of the control endpoint that posts one pull request
/// for `project`.
pub fn post_path(project: &Project) -> (r: String)
    ensures
        r@ == "control/pullrequest/"@ + project@.name,
{
    let mut s: String = "control/pullrequest/".to_owned();
    s.append(project.name.as_str());
    s
}

/// The control-endpoint paths for all discovered projects, in listing order.
pub fn post_paths(projects: &Vec<Project>) -> (r: Vec<String>)
    ensures
        r@.len() == projects@.len(),
        forall|i: int|
            0 <= i < r@.len() ==> #[trigger] r@[i]@ == "control/pullrequest/"@
                + projects@[i]@.name,
{
    let mut r: Vec<String> = Vec::new();
    let mut i: usize = 0;
    while i < projects.len()
        invariant
            i <= projects.len(),
            r@.len() == i,
            forall|k: int|
                0 <= k < i ==> #[trigger] r@[k]@ == "control/pullrequest/"@
                    + projects@[k]@.name,
        decreases projects.len() - i,
    {
        r.push(post_path(&projects[i]));
        i += 1;
    }
    r
}

/// Picks the next post target uniformly at random; `None` exactly when no
/// project was discovered.
pub fn pick_post_target(targets: &Vec<String>) -> (r: Option<usize>)
    ensures
        r is Some <==> targets@.len() > 0,
        r is Some ==> r->0 < targets@.len(),
{
    if targets.len() == 0 {
        None
    } else {
        Some(sample_range(0, targets.len()))
    }
}

} // verus!
