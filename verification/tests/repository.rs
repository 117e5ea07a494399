use git_prompt::label::{InProgress, LabelError};
use git_prompt::repo::{
    assemble_repo, checked_out_branch, config_permissions, get_repo, repo_progress, HeadState,
    Repo, RepoError,
};
use git_prompt::status::{get_status, Classification, Environment};
use std::io::Write;
use std::path::Path;

fn environment(value: Option<&str>) -> Environment {
    Environment { disable_file_tracking: value.map(|v| v.to_string()) }
}

fn signature() -> gix::actor::SignatureRef<'static> {
    gix::actor::SignatureRef {
        name: "Tester".into(),
        email: "tester@example.com".into(),
        time: gix::date::Time::new(0, 0),
    }
}

/// Opens the repository at `directory` for writing, with a committer set.
fn writable(directory: &Path) -> gix::Repository {
    let options = gix::open::Options::default()
        .config_overrides(["user.name=Tester", "user.email=tester@example.com"]);
    gix::open_opts(directory, options).unwrap()
}

/// Creates a repository at `directory` with one commit of the empty tree on
/// its branch, and returns the id of the commit in full.
fn repository_with_commit(directory: &Path) -> String {
    gix::init(directory).unwrap();
    let repository = writable(directory);
    let tree = repository.write_object(gix::objs::Tree::empty()).unwrap().detach();
    let commit = repository
        .commit_as(signature(), signature(), "HEAD", "first", tree, gix::commit::NO_PARENT_IDS)
        .unwrap();
    commit.detach().to_string()
}

/// Writes `content` to the file `name` below `directory`, in place of what
/// may be there.
fn write_file(directory: &Path, name: &str, content: &str) {
    let target = directory.join(name);
    let mut file = tempfile::NamedTempFile::new_in(target.parent().unwrap()).unwrap();
    file.write_all(content.as_bytes()).unwrap();
    file.persist(target).unwrap();
}

fn branch_name(directory: &Path) -> String {
    let repository = gix::open(directory).unwrap();
    repository.head_name().unwrap().unwrap().shorten().to_string()
}

fn detach_head(directory: &Path, commit: &str) {
    write_file(directory, ".git/HEAD", &format!("{commit}\n"));
}

fn tag(directory: &Path, name: &str, commit: &str) {
    let repository = writable(directory);
    let target = gix::ObjectId::from_hex(commit.as_bytes()).unwrap();
    repository
        .tag_reference(name, target, gix::refs::transaction::PreviousValue::MustNotExist)
        .unwrap();
}

fn open(directory: &Path) -> Repo {
    match get_repo(directory) {
        Ok(repo) => repo,
        Err(error) => panic!("no repository: {}", error.message()),
    }
}

#[test]
fn fresh_repository_has_no_label() {
    let directory = tempfile::tempdir().unwrap();
    gix::init(directory.path()).unwrap();
    let repo = open(directory.path());
    assert_eq!(repo.branch, None);
    assert_eq!(repo.state, None);
    assert_eq!(repo_progress(&repo), Err(LabelError::Unresolved));
}

#[test]
fn detached_head_with_untracked_file() {
    let directory = tempfile::tempdir().unwrap();
    let commit = repository_with_commit(directory.path());
    detach_head(directory.path(), &commit);
    write_file(directory.path(), "a.txt", "a\n");
    let repo = open(directory.path());
    assert_eq!(repo.branch, None);
    let label = repo_progress(&repo).unwrap();
    assert_eq!(label, format!("(detached {})", &commit[..7]));
    let hash = label.strip_prefix("(detached ").unwrap().strip_suffix(")").unwrap();
    assert_eq!(hash.len(), 7);
    assert!(hash.chars().all(|c| c.is_ascii_hexdigit() && !c.is_ascii_uppercase()));
    assert_eq!(get_status(&repo, &environment(None)), Classification::Code(7));
}

#[test]
fn checked_out_branch_is_the_label() {
    let directory = tempfile::tempdir().unwrap();
    repository_with_commit(directory.path());
    let branch = branch_name(directory.path());
    let repo = open(directory.path());
    assert_eq!(repo.branch, Some(branch.clone()));
    assert_eq!(repo_progress(&repo), Ok(branch));
    assert!(repo.workdir.is_some());
    assert!(repo.path.ends_with(".git"));
}

#[test]
fn clean_repository_is_five() {
    let directory = tempfile::tempdir().unwrap();
    repository_with_commit(directory.path());
    let repo = open(directory.path());
    assert_eq!(get_status(&repo, &environment(None)), Classification::Code(5));
}

#[test]
fn difference_between_commit_and_index_is_six() {
    let directory = tempfile::tempdir().unwrap();
    gix::init(directory.path()).unwrap();
    let repository = writable(directory.path());
    let blob = repository.write_blob("content\n").unwrap().detach();
    let tree = gix::objs::Tree {
        entries: vec![gix::objs::tree::Entry {
            mode: gix::objs::tree::EntryKind::Blob.into(),
            filename: "f".into(),
            oid: blob,
        }],
    };
    let tree = repository.write_object(&tree).unwrap().detach();
    repository
        .commit_as(signature(), signature(), "HEAD", "first", tree, gix::commit::NO_PARENT_IDS)
        .unwrap();
    let repo = open(directory.path());
    assert_eq!(get_status(&repo, &environment(None)), Classification::Code(6));
}

#[test]
fn classification_of_an_unchanged_repository_is_repeatable() {
    let directory = tempfile::tempdir().unwrap();
    repository_with_commit(directory.path());
    write_file(directory.path(), "a.txt", "a\n");
    let repo = open(directory.path());
    let first = get_status(&repo, &environment(None));
    let second = get_status(&repo, &environment(None));
    assert_eq!(first, second);
    assert_eq!(first, Classification::Code(7));
}

#[test]
fn disabled_tracking_is_nine() {
    let directory = tempfile::tempdir().unwrap();
    repository_with_commit(directory.path());
    write_file(directory.path(), "a.txt", "a\n");
    let repo = open(directory.path());
    assert_eq!(get_status(&repo, &environment(Some("1"))), Classification::Code(9));
    assert_eq!(get_status(&repo, &environment(Some("no"))), Classification::Code(9));
    assert_eq!(get_status(&repo, &environment(Some(""))), Classification::Code(9));
}

#[test]
fn exact_tag_is_the_label() {
    let directory = tempfile::tempdir().unwrap();
    let commit = repository_with_commit(directory.path());
    tag(directory.path(), "v1.0", &commit);
    detach_head(directory.path(), &commit);
    let repo = open(directory.path());
    assert_eq!(repo.branch, None);
    assert_eq!(repo_progress(&repo), Ok("v1.0".to_string()));
}

#[test]
fn tag_on_an_ancestor_is_passed_over() {
    let directory = tempfile::tempdir().unwrap();
    let first = repository_with_commit(directory.path());
    tag(directory.path(), "v1.0", &first);
    let repository = writable(directory.path());
    let tree = repository.write_object(gix::objs::Tree::empty()).unwrap().detach();
    let parent = gix::ObjectId::from_hex(first.as_bytes()).unwrap();
    let second = repository
        .commit_as(signature(), signature(), "HEAD", "second", tree, [parent])
        .unwrap()
        .detach()
        .to_string();
    detach_head(directory.path(), &second);
    let repo = open(directory.path());
    assert_eq!(repo_progress(&repo), Ok(format!("(detached {})", &second[..7])));
}

#[test]
fn merge_in_progress_wraps_the_branch() {
    let directory = tempfile::tempdir().unwrap();
    let commit = repository_with_commit(directory.path());
    let branch = branch_name(directory.path());
    write_file(directory.path(), ".git/MERGE_HEAD", &format!("{commit}\n"));
    let repo = open(directory.path());
    assert_eq!(repo.state, Some(InProgress::Merge));
    assert_eq!(repo_progress(&repo), Ok(format!("Merge progress {branch}")));
}

#[test]
fn cherry_pick_in_progress_wraps_the_detached_name() {
    let directory = tempfile::tempdir().unwrap();
    let commit = repository_with_commit(directory.path());
    detach_head(directory.path(), &commit);
    write_file(directory.path(), ".git/CHERRY_PICK_HEAD", &format!("{commit}\n"));
    let repo = open(directory.path());
    assert_eq!(repo.state, Some(InProgress::CherryPick));
    assert_eq!(
        repo_progress(&repo),
        Ok(format!("Cherry pick progress (detached {})", &commit[..7]))
    );
}

#[test]
fn bisect_in_progress_wraps_the_tag() {
    let directory = tempfile::tempdir().unwrap();
    let commit = repository_with_commit(directory.path());
    tag(directory.path(), "v2", &commit);
    detach_head(directory.path(), &commit);
    write_file(directory.path(), ".git/BISECT_LOG", "");
    let repo = open(directory.path());
    assert_eq!(repo.state, Some(InProgress::Bisect));
    assert_eq!(repo_progress(&repo), Ok("Bisect progress v2".to_string()));
}

#[test]
fn directory_without_repository_is_not_found() {
    let directory = tempfile::tempdir().unwrap();
    match get_repo(directory.path()) {
        Ok(_) => panic!("found a repository above a fresh directory"),
        Err(error) => {
            assert_eq!(error, RepoError::NotFound);
            assert_eq!(error.message(), "Failed to find git repo");
        }
    }
}

#[test]
fn repository_is_found_from_a_subdirectory() {
    let directory = tempfile::tempdir().unwrap();
    repository_with_commit(directory.path());
    let branch = branch_name(directory.path());
    let inner = tempfile::Builder::new().prefix("sub").tempdir_in(directory.path()).unwrap();
    let repo = open(inner.path());
    assert_eq!(repo.branch, Some(branch));
}

#[test]
fn head_decides_the_branch() {
    assert_eq!(
        checked_out_branch(Some(HeadState::Branch("main".to_string()))),
        Some("main".to_string())
    );
    assert_eq!(checked_out_branch(Some(HeadState::Unborn("main".to_string()))), None);
    assert_eq!(checked_out_branch(Some(HeadState::Detached)), None);
    assert_eq!(checked_out_branch(None), None);
}

#[test]
fn assembled_repository_holds_what_it_was_given() {
    let directory = tempfile::tempdir().unwrap();
    repository_with_commit(directory.path());
    let shared = gix::open(directory.path()).unwrap().into_sync();
    let repo = assemble_repo(
        shared,
        Some("topic".to_string()),
        Some(directory.path().to_path_buf()),
        directory.path().join(".git"),
        Some(InProgress::Revert),
    );
    assert_eq!(repo.branch, Some("topic".to_string()));
    assert_eq!(repo.workdir, Some(directory.path().to_path_buf()));
    assert_eq!(repo.path, directory.path().join(".git"));
    assert_eq!(repo.state, Some(InProgress::Revert));
    assert_eq!(repo_progress(&repo), Ok("Revert progress topic".to_string()));
    assert_eq!(get_status(&repo, &environment(None)), Classification::Code(5));
}

#[test]
fn every_configuration_source_is_allowed() {
    let config = config_permissions();
    assert!(config.git_binary);
    assert!(config.system);
    assert!(config.git);
    assert!(config.user);
    assert!(config.env);
    assert!(config.includes);
}
