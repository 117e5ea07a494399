//! The repository backend: every call into `gix`, and the types of `gix`
//! that pass through the library.
//!
//! Nothing in this file is proved. Each function makes one kind of call and
//! hands the answer on as a value that the rest of the library can read.
//! What a repository answers depends on what is on disk, so the contracts
//! here promise nothing about the answers.

use crate::label::{Description, InProgress};
use crate::repo::{ConfigPermissions, HeadState, TagSelection, TrustLevel};
use crate::status::{Emission, EntryState, WalkStatus, WorktreeChange};
use gix::commit::describe::SelectRef;
use gix::dir::walk::EmissionMode;
use gix::sec::trust::DefaultForLevel;
use gix::status::plumbing::index_as_worktree::{Change, EntryStatus};
use vstd::prelude::*;

verus! {

#[verifier::external_type_specification]
#[verifier::external_body]
pub struct ExRepository(gix::Repository);

#[verifier::external_type_specification]
#[verifier::external_body]
pub struct ExThreadSafeRepository(gix::ThreadSafeRepository);

#[verifier::external_type_specification]
#[verifier::external_body]
pub struct ExPath(std::path::Path);

#[verifier::external_type_specification]
#[verifier::external_body]
pub struct ExPathBuf(std::path::PathBuf);

#[verifier::external_type_specification]
#[verifier::external_body]
pub struct ExOpenOptions(gix::open::Options);

#[verifier::external_type_specification]
#[verifier::external_body]
pub struct ExOpenPermissions(gix::open::Permissions);

#[verifier::external_type_specification]
#[verifier::external_body]
pub struct ExTrust(gix::sec::Trust);

#[verifier::external_type_specification]
#[verifier::external_body]
pub struct ExDiscoverError(gix::discover::Error);

#[verifier::external_type_specification]
#[verifier::external_body]
pub struct ExStatusError(gix::status::Error);

#[verifier::external_type_specification]
#[verifier::external_body]
pub struct ExIntoIterError(gix::status::into_iter::Error);

#[verifier::external_type_specification]
#[verifier::external_body]
pub struct ExStatusIter(gix::status::Iter);

#[verifier::external_type_specification]
#[verifier::external_body]
pub struct ExStatusItem(gix::status::Item);

#[verifier::external_type_specification]
#[verifier::external_body]
pub struct ExStatusIterError(gix::status::iter::Error);

#[verifier::external_type_specification]
#[verifier::external_body]
pub struct ExWorktreeItem(gix::status::index_worktree::Item);

#[verifier::external_type_specification]
#[verifier::external_body]
#[verifier::reject_recursive_types(T)]
#[verifier::reject_recursive_types(U)]
pub struct ExEntryStatus<T, U>(gix::status::plumbing::index_as_worktree::EntryStatus<T, U>);

#[verifier::external_type_specification]
#[verifier::external_body]
pub struct ExSubmoduleStatus(gix::submodule::Status);

#[verifier::external_type_specification]
#[verifier::external_body]
pub struct ExDirStatus(gix::dir::entry::Status);

#[verifier::external_type_specification]
#[verifier::external_body]
pub struct ExEmissionMode(gix::dir::walk::EmissionMode);

#[verifier::external_type_specification]
#[verifier::external_body]
pub struct ExRewrites(gix::diff::Rewrites);

/// A status run that is still being set up. It holds the
/// `gix::status::Platform` of the run, which is bound by a trait of `gix` and
/// can therefore not be declared to the verifier as it is.
#[verifier::external_body]
pub(crate) struct StatusRequest<'repo> {
    platform: gix::status::Platform<'repo, gix::progress::Discard>,
}

/// A status item, taken apart one level: either a difference between the
/// tree of the current commit and the index, or an item of the comparison
/// between index and working tree.
pub(crate) enum StatusItem<'a> {
    TreeIndex,
    IndexWorktree(&'a gix::status::index_worktree::Item),
}

/// An item of the comparison between index and working tree, taken apart
/// one level.
pub(crate) enum WorktreeItem<'a> {
    Modification(
        &'a gix::status::plumbing::index_as_worktree::EntryStatus<(), gix::submodule::Status>,
    ),
    DirectoryContents(gix::dir::entry::Status),
    Rewrite,
}

/// Turns a trust level into the `gix::sec::Trust` of the same name.
#[verifier::external_body]
pub(crate) fn trust_of(level: TrustLevel) -> gix::sec::Trust {
    match level {
        TrustLevel::Reduced => gix::sec::Trust::Reduced,
        TrustLevel::Full => gix::sec::Trust::Full,
    }
}

/// `gix::open::Permissions::default_for_level`: the permissions that `gix`
/// grants by default at a trust level. Nothing is claimed of them.
#[verifier::external_body]
pub(crate) fn default_permissions(trust: gix::sec::Trust) -> gix::open::Permissions {
    gix::open::Permissions::default_for_level(trust)
}

/// Puts `config` into the field `config` of a `gix::open::Permissions`, as
/// a `gix::open::permissions::Config` with the same six flags.
#[verifier::external_body]
pub(crate) fn with_config(
    permissions: gix::open::Permissions,
    config: &ConfigPermissions,
) -> gix::open::Permissions {
    let config = gix::open::permissions::Config {
        git_binary: config.git_binary,
        system: config.system,
        git: config.git,
        user: config.user,
        env: config.env,
        includes: config.includes,
    };
    gix::open::Permissions { config, ..permissions }
}

/// `gix::open::Options::default_for_level`: the options with which `gix`
/// opens a repository by default at a trust level.
#[verifier::external_body]
pub(crate) fn default_options(trust: gix::sec::Trust) -> gix::open::Options {
    gix::open::Options::default_for_level(trust)
}

/// `gix::open::Options::permissions`: the same options with other
/// permissions.
#[verifier::external_body]
pub(crate) fn with_permissions(
    options: gix::open::Options,
    permissions: gix::open::Permissions,
) -> gix::open::Options {
    options.permissions(permissions)
}

/// `gix::ThreadSafeRepository::discover_with_environment_overrides_opts`,
/// with default discovery options and with `full` and `reduced` as the
/// options for the two trust levels. Whether a repository is found depends
/// on the file system and the environment.
#[verifier::external_body]
pub(crate) fn discover_repository(
    directory: &std::path::Path,
    full: gix::open::Options,
    reduced: gix::open::Options,
) -> Result<gix::ThreadSafeRepository, gix::discover::Error> {
    gix::ThreadSafeRepository::discover_with_environment_overrides_opts(
        directory,
        Default::default(),
        gix::sec::trust::Mapping { full, reduced },
    )
}

/// `gix::ThreadSafeRepository::to_thread_local`.
#[verifier::external_body]
pub(crate) fn to_thread_local(shared: &gix::ThreadSafeRepository) -> gix::Repository {
    shared.to_thread_local()
}

/// `gix::Repository::head`, with the name of a symbolic or unborn head
/// shortened by `gix::refs::FullName::shorten`. `None` when the head cannot
/// be read.
#[verifier::external_body]
pub(crate) fn head_state(repository: &gix::Repository) -> Option<HeadState> {
    match repository.head().ok()?.kind {
        gix::head::Kind::Symbolic(reference) => {
            Some(HeadState::Branch(reference.name.shorten().to_string()))
        },
        gix::head::Kind::Unborn(name) => Some(HeadState::Unborn(name.shorten().to_string())),
        gix::head::Kind::Detached { .. } => Some(HeadState::Detached),
    }
}

/// `gix::Repository::path`, as an owned path.
#[verifier::external_body]
pub(crate) fn git_dir(repository: &gix::Repository) -> std::path::PathBuf {
    repository.path().to_path_buf()
}

/// `gix::Repository::work_dir`, as an owned path.
#[verifier::external_body]
pub(crate) fn work_dir(repository: &gix::Repository) -> Option<std::path::PathBuf> {
    repository.work_dir().map(std::path::PathBuf::from)
}

/// `gix::Repository::state`, with each operation turned into the one of the
/// same name.
#[verifier::external_body]
pub(crate) fn operation_in_progress(repository: &gix::Repository) -> Option<InProgress> {
    Some(match repository.state()? {
        gix::state::InProgress::ApplyMailbox => InProgress::ApplyMailbox,
        gix::state::InProgress::ApplyMailboxRebase => InProgress::ApplyMailboxRebase,
        gix::state::InProgress::Bisect => InProgress::Bisect,
        gix::state::InProgress::CherryPick => InProgress::CherryPick,
        gix::state::InProgress::CherryPickSequence => InProgress::CherryPickSequence,
        gix::state::InProgress::Merge => InProgress::Merge,
        gix::state::InProgress::Rebase => InProgress::Rebase,
        gix::state::InProgress::RebaseInteractive => InProgress::RebaseInteractive,
        gix::state::InProgress::Revert => InProgress::Revert,
        gix::state::InProgress::RevertSequence => InProgress::RevertSequence,
    })
}

/// Describes the commit of the head: `gix::Repository::head_commit`, then
/// `gix::Commit::describe` with the given selection of names and fallback,
/// then `try_format`. Depth and name are those of the format that came out;
/// `None` when a step fails or no name is found.
#[verifier::external_body]
pub(crate) fn describe_head(
    repository: &gix::Repository,
    select: TagSelection,
    id_as_fallback: bool,
) -> Option<Description> {
    let select = match select {
        TagSelection::AnnotatedTags => SelectRef::AnnotatedTags,
        TagSelection::AllTags => SelectRef::AllTags,
        TagSelection::AllRefs => SelectRef::AllRefs,
    };
    let commit = repository.head_commit().ok()?;
    let platform = commit.describe().names(select).id_as_fallback(id_as_fallback);
    let format = platform.try_format().ok()??;
    Some(Description { depth: format.depth, name: format.name.map(|name| name.to_string()) })
}

/// `gix::Repository::head_id`, shortened by `gix::Id::shorten_or_id` and
/// written out. `None` when the head has no commit.
#[verifier::external_body]
pub(crate) fn head_short_hash(repository: &gix::Repository) -> Option<String> {
    let id = repository.head_id().ok()?;
    Some(id.shorten_or_id().to_string())
}

/// `gix::Repository::index_or_empty`, asked whether it `is_sparse`. An index
/// that cannot be read counts as not sparse.
#[verifier::external_body]
pub(crate) fn index_is_sparse(repository: &gix::Repository) -> bool {
    match repository.index_or_empty() {
        Ok(index) => index.is_sparse(),
        Err(_) => false,
    }
}

/// `gix::Repository::status`, without progress reporting.
#[verifier::external_body]
pub(crate) fn open_status<'a>(repository: &'a gix::Repository) -> Result<
    StatusRequest<'a>,
    gix::status::Error,
> {
    Ok(StatusRequest { platform: repository.status(gix::progress::Discard)? })
}

/// `gix::status::Platform::index_worktree_submodules`: submodules are
/// looked at as they are configured, with `check_dirty` as given.
#[verifier::external_body]
pub(crate) fn with_submodules<'a>(request: StatusRequest<'a>, check_dirty: bool) -> StatusRequest<
    'a,
> {
    let submodules = gix::status::Submodule::AsConfigured { check_dirty };
    StatusRequest { platform: request.platform.index_worktree_submodules(submodules) }
}

/// `gix::status::Platform::index_worktree_options_mut`, used to set the
/// field `thread_limit`.
#[verifier::external_body]
pub(crate) fn with_thread_limit<'a>(
    request: StatusRequest<'a>,
    limit: Option<usize>,
) -> StatusRequest<'a> {
    let platform = request.platform.index_worktree_options_mut(|options| {
        options.thread_limit = limit;
    });
    StatusRequest { platform }
}

/// Turns an emission mode into the `gix::dir::walk::EmissionMode` of the
/// same name.
#[verifier::external_body]
pub(crate) fn emission_mode(emission: Emission) -> EmissionMode {
    match emission {
        Emission::Matching => EmissionMode::Matching,
        Emission::CollapseDirectory => EmissionMode::CollapseDirectory,
    }
}

/// `gix::status::Platform::dirwalk_options`: where the run has a directory
/// walk, its four emission settings are replaced by the given ones.
#[verifier::external_body]
pub(crate) fn with_walk<'a>(
    request: StatusRequest<'a>,
    untracked: EmissionMode,
    ignored: Option<EmissionMode>,
    pruned: bool,
    empty_directories: bool,
) -> StatusRequest<'a> {
    let platform = request.platform.dirwalk_options(|walk| {
        walk.emit_untracked(untracked).emit_ignored(ignored).emit_pruned(
            pruned,
        ).emit_empty_directories(empty_directories)
    });
    StatusRequest { platform }
}

/// `gix::diff::new_rewrites` on the configuration of the repository: the
/// rename tracking that is configured, `None` when none is or when the
/// configuration cannot be read.
#[verifier::external_body]
pub(crate) fn configured_rewrites(repository: &gix::Repository, lenient: bool) -> Option<
    gix::diff::Rewrites,
> {
    match gix::diff::new_rewrites(&repository.config_snapshot(), lenient) {
        Ok((rewrites, _)) => rewrites,
        Err(_) => None,
    }
}

/// `gix::diff::Rewrites::default`.
#[verifier::external_body]
pub(crate) fn default_rewrites() -> gix::diff::Rewrites {
    gix::diff::Rewrites::default()
}

/// Sets the field `limit` of a `gix::diff::Rewrites`.
#[verifier::external_body]
pub(crate) fn with_limit(rewrites: gix::diff::Rewrites, limit: usize) -> gix::diff::Rewrites {
    gix::diff::Rewrites { limit, ..rewrites }
}

/// `gix::status::Platform::tree_index_track_renames`: renames between the
/// tree of the current commit and the index are tracked as `rewrites` says.
#[verifier::external_body]
pub(crate) fn with_rename_tracking<'a>(
    request: StatusRequest<'a>,
    rewrites: gix::diff::Rewrites,
) -> StatusRequest<'a> {
    let renames = gix::status::tree_index::TrackRenames::Given(rewrites);
    StatusRequest { platform: request.platform.tree_index_track_renames(renames) }
}

/// `gix::status::Platform::into_iter`, without path patterns: starts the
/// status run.
#[verifier::external_body]
pub(crate) fn start_status<'a>(request: StatusRequest<'a>) -> Result<
    gix::status::Iter,
    gix::status::into_iter::Error,
> {
    request.platform.into_iter(None)
}

/// `Iterator::next` of `gix::status::Iter`: the next item of the status
/// run, an error of the run, or `None` at its end.
#[verifier::external_body]
pub(crate) fn next_item(iter: &mut gix::status::Iter) -> Option<
    Result<gix::status::Item, gix::status::iter::Error>,
> {
    iter.next()
}

/// Tells the two variants of `gix::status::Item` apart.
#[verifier::external_body]
pub(crate) fn peel_item<'a>(item: &'a gix::status::Item) -> StatusItem<'a> {
    match item {
        gix::status::Item::TreeIndex(_) => StatusItem::TreeIndex,
        gix::status::Item::IndexWorktree(inner) => StatusItem::IndexWorktree(inner),
    }
}

/// Tells the three variants of `gix::status::index_worktree::Item` apart,
/// and hands out the status of a modification and of a directory entry.
#[verifier::external_body]
pub(crate) fn peel_worktree_item<'a>(item: &'a gix::status::index_worktree::Item) -> WorktreeItem<
    'a,
> {
    match item {
        gix::status::index_worktree::Item::Modification { status, .. } => {
            WorktreeItem::Modification(status)
        },
        gix::status::index_worktree::Item::DirectoryContents { entry, .. } => {
            WorktreeItem::DirectoryContents(entry.status)
        },
        gix::status::index_worktree::Item::Rewrite { .. } => WorktreeItem::Rewrite,
    }
}

/// Turns the status of a tracked entry into the entry state of the same
/// name, and the change in it into the change of the same name.
#[verifier::external_body]
pub(crate) fn entry_state(status: &EntryStatus<(), gix::submodule::Status>) -> EntryState {
    match status {
        EntryStatus::Conflict(_) => EntryState::Conflict,
        EntryStatus::Change(Change::Removed) => EntryState::Change(WorktreeChange::Removed),
        EntryStatus::Change(Change::Type { .. }) => EntryState::Change(WorktreeChange::Type),
        EntryStatus::Change(Change::Modification { .. }) => {
            EntryState::Change(WorktreeChange::Modification)
        },
        EntryStatus::Change(Change::SubmoduleModification(_)) => {
            EntryState::Change(WorktreeChange::SubmoduleModification)
        },
        EntryStatus::NeedsUpdate(_) => EntryState::NeedsUpdate,
        EntryStatus::IntentToAdd => EntryState::IntentToAdd,
    }
}

/// Turns the status of a directory entry into the walk status of the same
/// meaning. The last arm stands for the one status that is left, that of an
/// entry under version control.
#[verifier::external_body]
pub(crate) fn walk_status(status: gix::dir::entry::Status) -> WalkStatus {
    match status {
        gix::dir::entry::Status::Pruned => WalkStatus::Pruned,
        gix::dir::entry::Status::Ignored(_) => WalkStatus::Ignored,
        gix::dir::entry::Status::Untracked => WalkStatus::Untracked,
        _ => WalkStatus::Versioned,
    }
}

} // verus!
