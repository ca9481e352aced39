//! The project record and the two phases that resolve it: discovery, which
//! takes what the environment and a repository search give, and defaulting,
//! which fills the directories in from the root.
use vstd::prelude::*;
use vstd::string::*;

use crate::constants::{DEFAULT_CACHE_HOME, DEFAULT_CONFIG_HOME, DEFAULT_DATA_HOME, PROJECT_ID_FILE};
use crate::error::{Error, ErrorModel};
use crate::text::{is_valid_id, join, join_path, trim, trimmed, valid_id};

verus! {

/// The view of an optional string.
pub open spec fn opt_view(o: Option<String>) -> Option<Seq<char>> {
    match o {
        Some(s) => Some(s@),
        None => None,
    }
}

/// The project variables as the process environment holds them; `None` where a
/// variable is not set. A variable set to the empty string is `Some` of it.
#[derive(Debug, Clone, Default)]
pub struct Environment {
    /// `PRJ_ROOT`
    pub prj_root: Option<String>,
    /// `PRJ_CONFIG_HOME`
    pub prj_config_home: Option<String>,
    /// `PRJ_DATA_HOME`
    pub prj_data_home: Option<String>,
    /// `PRJ_CACHE`
    pub prj_cache: Option<String>,
    /// `PRJ_ID`
    pub prj_id: Option<String>,
}

/// What an `Environment` holds, as plain sequences.
pub struct EnvironmentModel {
    pub prj_root: Option<Seq<char>>,
    pub prj_config_home: Option<Seq<char>>,
    pub prj_data_home: Option<Seq<char>>,
    pub prj_cache: Option<Seq<char>>,
    pub prj_id: Option<Seq<char>>,
}

impl View for Environment {
    type V = EnvironmentModel;

    open spec fn view(&self) -> EnvironmentModel {
        EnvironmentModel {
            prj_root: opt_view(self.prj_root),
            prj_config_home: opt_view(self.prj_config_home),
            prj_data_home: opt_view(self.prj_data_home),
            prj_cache: opt_view(self.prj_cache),
            prj_id: opt_view(self.prj_id),
        }
    }
}

/// The outcome of searching upward from the working directory for a
/// version-control repository.
#[derive(Debug, Clone)]
pub enum Discovery {
    /// No search capability is available; it contributes nothing.
    Disabled,
    /// The search ran: the repository's working-tree top directory, or `None`
    /// where no repository was found or it has no working tree.
    Completed(Option<String>),
    /// The search itself failed; its message.
    Failed(String),
}

/// What a `Discovery` holds, as plain sequences.
pub enum DiscoveryModel {
    Disabled,
    Completed(Option<Seq<char>>),
    Failed(Seq<char>),
}

impl View for Discovery {
    type V = DiscoveryModel;

    open spec fn view(&self) -> DiscoveryModel {
        match self {
            Discovery::Disabled => DiscoveryModel::Disabled,
            Discovery::Completed(d) => DiscoveryModel::Completed(opt_view(*d)),
            Discovery::Failed(m) => DiscoveryModel::Failed(m@),
        }
    }
}

/// The outcome of reading an identifier file.
#[derive(Debug, Clone)]
pub enum IdFile {
    /// The file does not exist.
    Missing,
    /// The file's contents, untrimmed.
    Contents(String),
    /// Reading failed for another reason; its message.
    ReadFailed(String),
}

/// What an `IdFile` holds, as plain sequences.
pub enum IdFileModel {
    Missing,
    Contents(Seq<char>),
    ReadFailed(Seq<char>),
}

impl View for IdFile {
    type V = IdFileModel;

    open spec fn view(&self) -> IdFileModel {
        match self {
            IdFile::Missing => IdFileModel::Missing,
            IdFile::Contents(c) => IdFileModel::Contents(c@),
            IdFile::ReadFailed(m) => IdFileModel::ReadFailed(m@),
        }
    }
}

/// A project's resolved context. Paths are held as text.
#[derive(Debug, Clone, Default, PartialEq, Eq)]
pub struct Project {
    /// The absolute path of the project's top-level directory.
    pub root_directory: Option<String>,
    /// An identifier for the project.
    pub project_id: Option<String>,
    /// The directory for project specific configuration.
    pub config_home: Option<String>,
    /// The directory for project specific cache data.
    pub cache_home: Option<String>,
    /// The directory for project specific data files.
    pub data_home: Option<String>,
}

/// What a `Project` holds, as plain sequences.
pub struct ProjectModel {
    pub root_directory: Option<Seq<char>>,
    pub project_id: Option<Seq<char>>,
    pub config_home: Option<Seq<char>>,
    pub cache_home: Option<Seq<char>>,
    pub data_home: Option<Seq<char>>,
}

impl View for Project {
    type V = ProjectModel;

    open spec fn view(&self) -> ProjectModel {
        ProjectModel {
            root_directory: opt_view(self.root_directory),
            project_id: opt_view(self.project_id),
            config_home: opt_view(self.config_home),
            cache_home: opt_view(self.cache_home),
            data_home: opt_view(self.data_home),
        }
    }
}

/// The view of a resolution's result.
pub open spec fn result_view<T: View>(r: Result<T, Error>) -> Result<T::V, ErrorModel> {
    match r {
        Ok(v) => Ok(v@),
        Err(e) => Err(e@),
    }
}

/// The view of an optional string or an error.
pub open spec fn opt_result_view(r: Result<Option<String>, Error>) -> Result<
    Option<Seq<char>>,
    ErrorModel,
> {
    match r {
        Ok(v) => Ok(opt_view(v)),
        Err(e) => Err(e@),
    }
}

/// The root that discovery yields: `PRJ_ROOT` verbatim where it is set (the
/// search is then not consulted), else what the search found.
pub open spec fn root_of(env: EnvironmentModel, repo: DiscoveryModel) -> Result<
    Option<Seq<char>>,
    ErrorModel,
> {
    match env.prj_root {
        Some(p) => Ok(Some(p)),
        None => match repo {
            DiscoveryModel::Disabled => Ok(None),
            DiscoveryModel::Completed(d) => Ok(d),
            DiscoveryModel::Failed(m) => Err(ErrorModel::RepositoryDiscoveryFailed(m)),
        },
    }
}

/// The identifier that an identifier file gives: its trimmed contents where
/// they are well-formed; nothing where they are not or the file is missing.
/// Only a failed read is an error.
pub open spec fn id_of_file(f: IdFileModel) -> Result<Option<Seq<char>>, ErrorModel> {
    match f {
        IdFileModel::Missing => Ok(None),
        IdFileModel::Contents(c) => if is_valid_id(trimmed(c)) {
            Ok(Some(trimmed(c)))
        } else {
            Ok(None)
        },
        IdFileModel::ReadFailed(m) => Err(ErrorModel::IoFailure(m)),
    }
}

/// Where the identifier file of a configuration directory lies.
pub open spec fn id_file_in(config_home: Seq<char>) -> Seq<char> {
    join(config_home, PROJECT_ID_FILE@)
}

/// The file that discovery reads the identifier from: only where `PRJ_ID` is
/// unset and `PRJ_CONFIG_HOME` is set.
pub open spec fn env_id_file(env: EnvironmentModel) -> Option<Seq<char>> {
    match env.prj_id {
        Some(_) => None,
        None => match env.prj_config_home {
            Some(c) => Some(id_file_in(c)),
            None => None,
        },
    }
}

/// The identifier that discovery yields: `PRJ_ID` verbatim where it is set,
/// else what the file under `PRJ_CONFIG_HOME` gives, else nothing.
pub open spec fn id_of(env: EnvironmentModel, f: IdFileModel) -> Result<
    Option<Seq<char>>,
    ErrorModel,
> {
    match env.prj_id {
        Some(i) => Ok(Some(i)),
        None => match env.prj_config_home {
            Some(_) => id_of_file(f),
            None => Ok(None),
        },
    }
}

/// Discovery without defaults: each field as the environment, the repository
/// search and the identifier file give it.
pub open spec fn discovered(env: EnvironmentModel, repo: DiscoveryModel, f: IdFileModel) -> Result<
    ProjectModel,
    ErrorModel,
> {
    match root_of(env, repo) {
        Err(e) => Err(e),
        Ok(root) => match id_of(env, f) {
            Err(e) => Err(e),
            Ok(id) => Ok(
                ProjectModel {
                    root_directory: root,
                    project_id: id,
                    config_home: env.prj_config_home,
                    cache_home: env.prj_cache,
                    data_home: env.prj_data_home,
                },
            ),
        },
    }
}

/// `o` where it is set, else `d`.
pub open spec fn or_default(o: Option<Seq<char>>, d: Seq<char>) -> Option<Seq<char>> {
    match o {
        Some(v) => Some(v),
        None => Some(d),
    }
}

/// The directories filled in from the root; fails where there is no root.
pub open spec fn with_defaults(p: ProjectModel, cwd: Seq<char>) -> Result<ProjectModel, ErrorModel> {
    match p.root_directory {
        None => Err(ErrorModel::ProjectRootNotFound(cwd)),
        Some(root) => Ok(
            ProjectModel {
                config_home: or_default(p.config_home, join(root, DEFAULT_CONFIG_HOME@)),
                data_home: or_default(p.data_home, join(root, DEFAULT_DATA_HOME@)),
                cache_home: or_default(p.cache_home, join(root, DEFAULT_CACHE_HOME@)),
                ..p
            },
        ),
    }
}

/// The file that defaulting reads the identifier from: only where the
/// identifier is still unset, inside the configuration directory.
pub open spec fn project_id_file(p: ProjectModel) -> Option<Seq<char>> {
    match p.project_id {
        Some(_) => None,
        None => match p.config_home {
            Some(c) => Some(id_file_in(c)),
            None => None,
        },
    }
}

/// The identifier filled in from the identifier file, where it is unset.
pub open spec fn with_file_id(p: ProjectModel, f: IdFileModel) -> Result<ProjectModel, ErrorModel> {
    match p.project_id {
        Some(_) => Ok(p),
        None => match p.config_home {
            None => Ok(p),
            Some(_) => match id_of_file(f) {
                Err(e) => Err(e),
                Ok(id) => Ok(ProjectModel { project_id: id, ..p }),
            },
        },
    }
}

/// Discovery followed by defaulting. `first` is the outcome of reading
/// `env_id_file(env)`, `second` that of reading the identifier file of the
/// defaulted record.
pub open spec fn resolved(
    env: EnvironmentModel,
    repo: DiscoveryModel,
    cwd: Seq<char>,
    first: IdFileModel,
    second: IdFileModel,
) -> Result<ProjectModel, ErrorModel> {
    match discovered(env, repo, first) {
        Err(e) => Err(e),
        Ok(p) => match with_defaults(p, cwd) {
            Err(e) => Err(e),
            Ok(q) => with_file_id(q, second),
        },
    }
}

impl Environment {
    /// Whether resolving needs a repository search: only where `PRJ_ROOT` is unset.
    pub fn needs_discovery(&self) -> (r: bool)
        ensures
            r == (self.prj_root is None),
    {
        self.prj_root.is_none()
    }

    /// The identifier file that discovery reads, if any.
    pub fn id_file_path(&self) -> (r: Option<String>)
        ensures
            opt_view(r) == env_id_file(self@),
    {
        match (&self.prj_id, &self.prj_config_home) {
            (None, Some(c)) => Some(join_path(c.as_str(), PROJECT_ID_FILE)),
            _ => None,
        }
    }
}

/// Clones an optional string, keeping its view.
fn clone_opt(o: &Option<String>) -> (r: Option<String>)
    ensures
        opt_view(r) == opt_view(*o),
{
    match o {
        Some(s) => Some(s.clone()),
        None => None,
    }
}

/// The identifier that an identifier file gives.
pub fn read_project_id(f: IdFile) -> (r: Result<Option<String>, Error>)
    ensures
        opt_result_view(r) == id_of_file(f@),
{
    match f {
        IdFile::Missing => Ok(None),
        IdFile::Contents(c) => {
            let t = trim(c.as_str());
            if valid_id(t.as_str()) {
                Ok(Some(t))
            } else {
                Ok(None)
            }
        },
        IdFile::ReadFailed(m) => Err(Error::IoFailure(m)),
    }
}

/// The project root: `PRJ_ROOT` verbatim where it is set, else what the
/// repository search found.
pub fn get_project_root(env: &Environment, repo: Discovery) -> (r: Result<Option<String>, Error>)
    ensures
        opt_result_view(r) == root_of(env@, repo@),
{
    match &env.prj_root {
        Some(p) => Ok(Some(p.clone())),
        None => match repo {
            Discovery::Disabled => Ok(None),
            Discovery::Completed(d) => Ok(d),
            Discovery::Failed(m) => Err(Error::RepositoryDiscoveryFailed(m)),
        },
    }
}

/// The project identifier: `PRJ_ID` verbatim where it is set, else what the
/// file `prj_id` under `PRJ_CONFIG_HOME` gives (`f`, the outcome of reading
/// `env.id_file_path()`).
pub fn get_project_id(env: &Environment, f: IdFile) -> (r: Result<Option<String>, Error>)
    ensures
        opt_result_view(r) == id_of(env@, f@),
{
    match &env.prj_id {
        Some(i) => Ok(Some(i.clone())),
        None => match &env.prj_config_home {
            Some(_) => read_project_id(f),
            None => Ok(None),
        },
    }
}

impl Project {
    /// Discovery without defaults. `repo` is consulted only where `PRJ_ROOT`
    /// is unset, `f` only where `env.id_file_path()` names a file.
    pub fn discover(env: &Environment, repo: Discovery, f: IdFile) -> (r: Result<Project, Error>)
        ensures
            result_view(r) == discovered(env@, repo@, f@),
    {
        let root = get_project_root(env, repo)?;
        let id = get_project_id(env, f)?;
        Ok(
            Project {
                root_directory: root,
                project_id: id,
                config_home: clone_opt(&env.prj_config_home),
                cache_home: clone_opt(&env.prj_cache),
                data_home: clone_opt(&env.prj_data_home),
            },
        )
    }

    /// Fills in each unset directory as a leaf under the root; fails with
    /// `ProjectRootNotFound(cwd)` where there is no root.
    pub fn fill_defaults(self, cwd: String) -> (r: Result<Project, Error>)
        ensures
            result_view(r) == with_defaults(self@, cwd@),
    {
        let root = match &self.root_directory {
            Some(root) => root,
            None => return Err(Error::ProjectRootNotFound(cwd)),
        };
        let config_home = match &self.config_home {
            Some(c) => c.clone(),
            None => join_path(root.as_str(), DEFAULT_CONFIG_HOME),
        };
        let data_home = match &self.data_home {
            Some(d) => d.clone(),
            None => join_path(root.as_str(), DEFAULT_DATA_HOME),
        };
        let cache_home = match &self.cache_home {
            Some(c) => c.clone(),
            None => join_path(root.as_str(), DEFAULT_CACHE_HOME),
        };
        Ok(
            Project {
                root_directory: self.root_directory,
                project_id: self.project_id,
                config_home: Some(config_home),
                cache_home: Some(cache_home),
                data_home: Some(data_home),
            },
        )
    }

    /// The identifier file to read for a record whose identifier is unset.
    pub fn id_file_path(&self) -> (r: Option<String>)
        ensures
            opt_view(r) == project_id_file(self@),
    {
        match (&self.project_id, &self.config_home) {
            (None, Some(c)) => Some(join_path(c.as_str(), PROJECT_ID_FILE)),
            _ => None,
        }
    }

    /// Fills in the identifier from `f`, the outcome of reading
    /// `self.id_file_path()`, where it is unset.
    pub fn with_id_file(self, f: IdFile) -> (r: Result<Project, Error>)
        ensures
            result_view(r) == with_file_id(self@, f@),
    {
        if self.project_id.is_some() || self.config_home.is_none() {
            return Ok(self);
        }
        let id = read_project_id(f)?;
        Ok(Project { project_id: id, ..self })
    }

    /// Discovery followed by defaulting. `first` is the outcome of reading
    /// `env.id_file_path()`; `second` that of reading the identifier file of
    /// the defaulted record (see `id_file_path`).
    pub fn discover_and_assume(
        env: &Environment,
        repo: Discovery,
        cwd: String,
        first: IdFile,
        second: IdFile,
    ) -> (r: Result<Project, Error>)
        ensures
            result_view(r) == resolved(env@, repo@, cwd@, first@, second@),
            r is Ok ==> r->Ok_0.root_directory is Some,
    {
        let p = Project::discover(env, repo, first)?;
        let q = p.fill_defaults(cwd)?;
        q.with_id_file(second)
    }
}

} // verus!
