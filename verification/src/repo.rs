//! Finding the repository and reading, once, what the label is made from.

use crate::backend::{
    default_options, default_permissions, describe_head, discover_repository, git_dir,
    head_short_hash,
    head_state, operation_in_progress, to_thread_local, trust_of, with_config, with_permissions,
    work_dir,
};
use crate::label::{exact_tag, label_text, resolve_label, InProgress, LabelError};
use std::path::{Path, PathBuf};
use vstd::prelude::*;
use vstd::string::*;

verus! {

/// A repository and what was read from it when it was opened.
pub struct Repo {
    /// The repository itself.
    pub repo: gix::ThreadSafeRepository,
    /// The short name of the branch that is checked out; `None` when the
    /// head is detached or has no commit yet.
    pub branch: Option<String>,
    /// The root of the working tree; `None` for a bare repository.
    pub workdir: Option<PathBuf>,
    /// The directory that holds the repository's own data.
    pub path: PathBuf,
    /// The operation that is in progress, if any.
    pub state: Option<InProgress>,
}

/// Why no repository could be opened.
#[derive(Clone, Copy, Debug, PartialEq, Eq, Structural)]
pub enum RepoError {
    /// Neither the starting directory nor one above it holds a repository.
    NotFound,
}

impl RepoError {
    /// The text that describes the error.
    pub open spec fn message_text(self) -> Seq<char> {
        "Failed to find git repo"@
    }

    /// Returns the text that describes the error.
    pub fn message(&self) -> (text: String)
        ensures
            text@ == self.message_text(),
    {
        String::from_str("Failed to find git repo")
    }
}

/// How far a repository is trusted. A repository that belongs to the user
/// is trusted in full.
#[derive(Clone, Copy, Debug, PartialEq, Eq, Structural)]
pub enum TrustLevel {
    /// The repository belongs to somebody else.
    Reduced,
    /// The repository belongs to the user.
    Full,
}

/// The sources from which configuration may be loaded.
#[derive(Clone, Copy, Debug, PartialEq, Eq, Structural)]
pub struct ConfigPermissions {
    /// The configuration that the installed command-line tool comes with.
    pub git_binary: bool,
    /// The configuration of the system.
    pub system: bool,
    /// The configuration of the application, in the user's directory for
    /// such files.
    pub git: bool,
    /// The configuration of the user.
    pub user: bool,
    /// Configuration that environment variables supply.
    pub env: bool,
    /// Files that loaded configuration includes.
    pub includes: bool,
}

/// Which names a description of a commit may use.
#[derive(Clone, Copy, Debug, PartialEq, Eq, Structural)]
pub enum TagSelection {
    /// Annotated tags only.
    AnnotatedTags,
    /// All tags, annotated or not.
    AllTags,
    /// All references, branches included.
    AllRefs,
}

/// Where the head of a repository points.
#[derive(Debug)]
pub enum HeadState {
    /// At an existing branch, given by its short name.
    Branch(String),
    /// At a branch that has no commit yet, given by its short name.
    Unborn(String),
    /// At a commit, with no branch in between.
    Detached,
}

/// The branch that a head has checked out: the name of an existing branch,
/// and nothing for a head that is detached, unborn or could not be read.
pub open spec fn checked_out_branch_text(head: Option<HeadState>) -> Option<Seq<char>> {
    match head {
        Some(HeadState::Branch(name)) => Some(name@),
        Some(HeadState::Unborn(_)) => None,
        Some(HeadState::Detached) => None,
        None => None,
    }
}

/// The permissions on configuration sources that are granted at either
/// trust level: all six.
pub open spec fn granted_config() -> ConfigPermissions {
    ConfigPermissions {
        git_binary: true,
        system: true,
        git: true,
        user: true,
        env: true,
        includes: true,
    }
}

/// Returns the permissions on configuration sources with which a repository
/// is opened, whatever its trust level: every source is allowed, so that
/// overrides from the environment and included files always count.
pub fn config_permissions() -> (config: ConfigPermissions)
    ensures
        config == granted_config(),
{
    ConfigPermissions {
        git_binary: true,
        system: true,
        git: true,
        user: true,
        env: true,
        includes: true,
    }
}

/// Returns the branch that a head has checked out, from what was read of
/// the head (`None` when it could not be read): `Some` exactly for a head at
/// an existing branch, and then the name of that branch.
pub fn checked_out_branch(head: Option<HeadState>) -> (branch: Option<String>)
    ensures
        branch.deep_view() == checked_out_branch_text(head),
{
    match head {
        Some(HeadState::Branch(name)) => Some(name),
        Some(HeadState::Unborn(_)) => None,
        Some(HeadState::Detached) => None,
        None => None,
    }
}

/// Puts together a repository and what was read from it.
pub fn assemble_repo(
    shared: gix::ThreadSafeRepository,
    branch: Option<String>,
    workdir: Option<PathBuf>,
    path: PathBuf,
    state: Option<InProgress>,
) -> (repo: Repo)
    ensures
        repo.repo == shared,
        repo.branch == branch,
        repo.workdir == workdir,
        repo.path == path,
        repo.state == state,
{
    Repo { repo: shared, branch, workdir, path, state }
}

/// Reads the short name of the branch that is checked out. There is none
/// when the head is detached, has no commit yet, or cannot be read: what
/// the head is read as decides, by [`checked_out_branch`].
fn get_current_branch(repository: &gix::Repository) -> (branch: Option<String>) {
    checked_out_branch(head_state(repository))
}

/// Looks for a tag that sits exactly on the current commit, among all tags.
/// A tag further back in history does not count: what the description of
/// the commit holds decides, by [`exact_tag`].
fn get_tag(repository: &gix::Repository) -> (tag: Option<String>) {
    exact_tag(describe_head(repository, TagSelection::AllTags, false))
}

/// Borrows the text of an optional string.
fn text_of(value: &Option<String>) -> (text: Option<&str>)
    ensures
        text.deep_view() == value.deep_view(),
{
    match value {
        Some(s) => Some(s.as_str()),
        None => None,
    }
}

/// Resolves the label of a repository.
///
/// With a branch checked out the label is that of the branch, and the
/// repository is not consulted. Without one, the label is that of the exact
/// tag of the current commit, else that of its abbreviated id in detached
/// form; when the repository yields neither, resolution fails.
pub fn repo_progress(repo: &Repo) -> (label: Result<String, LabelError>)
    ensures
        repo.branch matches Some(branch) ==> label matches Ok(text) && text@ == label_text(
            repo.state,
            branch@,
        ),
        label matches Ok(text) ==> exists|name: Seq<char>| text@ == label_text(repo.state, name),
        label matches Err(error) ==> error == LabelError::Unresolved && repo.branch is None,
{
    match &repo.branch {
        Some(branch) => resolve_label(repo.state, Some(branch.as_str()), None, None),
        None => {
            let repository = to_thread_local(&repo.repo);
            let tag = get_tag(&repository);
            let hash = match tag {
                Some(_) => None,
                None => head_short_hash(&repository),
            };
            resolve_label(repo.state, None, text_of(&tag), text_of(&hash))
        },
    }
}

/// Opens the repository that holds `path`, searching upwards from it, and
/// reads what the label is made from.
///
/// Configuration from every source is honoured at both trust levels, as
/// [`config_permissions`] says. The only failure is that no repository is
/// found. Whether one is found, and what is read from it, is up to the file
/// system and the environment; [`assemble_repo`] says what is made of it.
pub fn get_repo(path: &Path) -> (found: Result<Repo, RepoError>)
    ensures
        found matches Err(error) ==> error == RepoError::NotFound,
{
    let config = config_permissions();
    let reduced = with_permissions(
        default_options(trust_of(TrustLevel::Reduced)),
        with_config(default_permissions(trust_of(TrustLevel::Reduced)), &config),
    );
    let full = with_permissions(
        default_options(trust_of(TrustLevel::Full)),
        with_config(default_permissions(trust_of(TrustLevel::Full)), &config),
    );
    let shared = match discover_repository(path, full, reduced) {
        Ok(shared) => shared,
        Err(_) => {
            return Err(RepoError::NotFound);
        },
    };
    let repository = to_thread_local(&shared);
    let branch = get_current_branch(&repository);
    let path = git_dir(&repository);
    let workdir = work_dir(&repository);
    let state = operation_in_progress(&repository);
    Ok(assemble_repo(shared, branch, workdir, path, state))
}

} // verus!
