//! The repositories whose merge requests the bot handles.

use vstd::prelude::*;

verus! {

/// A GitLab project and the labels that select its merge requests.
#[derive(Debug, Clone)]
pub struct Repository {
    /// The project's path, such as `group/project`.
    pub name: String,
    /// Only merge requests with all of these labels are handled.
    pub labels: Vec<String>,
}

} // verus!
