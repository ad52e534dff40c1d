//! The application's own configuration and state.

use vstd::prelude::*;
use crate::operations::{EnvironmentManager, LocalProjectManager, path_join};

verus! {

/// The configuration of the application.
#[derive(Debug)]
pub struct Config {
    /// The paths of the projects that the application knows of.
    pub tracked_project_paths: Vec<String>,
    /// The token for the cloud service.
    pub cloud_token: Option<String>,
}

impl Config {
    /// A configuration with no project and the given token.
    pub fn new(cloud_token: Option<&str>) -> (r: Config)
        ensures
            r.tracked_project_paths@.len() == 0,
            match (r.cloud_token, cloud_token) {
                (Some(x), Some(y)) => x@ == y@,
                (None, None) => true,
                _ => false,
            },
    {
        let cloud_token = match cloud_token {
            Some(t) => Some(String::from_str(t)),
            None => None,
        };
        Config { tracked_project_paths: Vec::new(), cloud_token }
    }
}

impl Default for Config {
    fn default() -> (r: Config)
        ensures
            r.tracked_project_paths@.len() == 0,
            r.cloud_token is None,
    {
        Config { tracked_project_paths: Vec::new(), cloud_token: None }
    }
}

/// The state that the application persists.
#[derive(Debug)]
pub struct NewState {
    pub config: Config,
}

impl Default for NewState {
    fn default() -> (r: NewState)
        ensures
            r.config.tracked_project_paths@.len() == 0,
            r.config.cloud_token is None,
    {
        NewState { config: Config::default() }
    }
}

impl NewState {
    /// Starts tracking the project at `project_path`.
    pub fn register_project(&mut self, project_path: String)
        ensures
            final(self).config.tracked_project_paths@ == old(
                self,
            ).config.tracked_project_paths@.push(project_path),
            final(self).config.cloud_token == old(self).config.cloud_token,
    {
        self.config.tracked_project_paths.push(project_path);
    }
}

/// The description of a project as stored in its directory.
#[derive(Debug)]
pub struct ProjectConfig {
    /// The name that identifies the project.
    pub name: String,
    /// What the user wrote about the project.
    pub description: String,
    /// The project's identifier in the cloud service.
    pub cloud_project_id: Option<String>,
}

/// The name of the application's directory in the system's configuration
/// directory.
pub open spec fn application_folder() -> Seq<char> {
    "kroco6"@
}

/// The application's directory inside the system's configuration directory.
pub fn application_directory_in(config_dir: &str) -> (r: String)
    ensures
        r@ == path_join(config_dir@, application_folder()),
{
    crate::operations::join_path(config_dir, "kroco6")
}

/// What the running application holds: its stores and the script to run.
#[derive(Debug)]
pub struct State {
    pub project_manager: LocalProjectManager,
    pub environment_manager: EnvironmentManager,
    /// The script that the next run uses.
    pub script: String,
}

impl State {
    /// The state over the storage directory `storage_path`, with no script.
    pub fn with_storage(storage_path: &str) -> (r: State)
        ensures
            r.project_manager.base_path@ == storage_path@,
            r.environment_manager.file_path@ == path_join(storage_path@, "environments.json"@),
            r.script@.len() == 0,
    {
        State {
            project_manager: LocalProjectManager::new(String::from_str(storage_path)),
            environment_manager: EnvironmentManager::new(String::from_str(storage_path)),
            script: String::new(),
        }
    }

    /// Replaces the script that the next run uses.
    pub fn set_script(&mut self, script: &str)
        ensures
            final(self).script@ == script@,
            final(self).project_manager == old(self).project_manager,
            final(self).environment_manager == old(self).environment_manager,
    {
        self.script = String::from_str(script);
    }
}

} // verus!
