//! The description that a project keeps in its own directory.

use vstd::prelude::*;

verus! {

/// A project's name, description and cloud identifier, as stored with it.
#[derive(Debug)]
pub struct Config {
    /// The name that identifies the project.
    pub name: String,
    /// What the user wrote about the project.
    pub description: String,
    /// The project's identifier in the cloud service.
    pub cloud_project_id: Option<String>,
}

} // verus!
