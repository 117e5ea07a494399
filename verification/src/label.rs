//! The display label: where the checkout is, and which multi-step operation
//! is under way.
//!
//! The label is a name (the branch, else a tag that sits exactly on the
//! current commit, else the abbreviated commit id in its detached form),
//! wrapped by the template of the operation in progress, if there is one.

use vstd::prelude::*;
use vstd::string::*;

verus! {

/// A multi-step operation that has been started and not yet concluded.
#[derive(Clone, Copy, Debug, PartialEq, Eq, Structural)]
pub enum InProgress {
    /// A mailbox is being applied.
    ApplyMailbox,
    /// A rebase is happening while a mailbox is being applied.
    ApplyMailboxRebase,
    /// A bisection has not been concluded.
    Bisect,
    /// A single commit is being cherry-picked.
    CherryPick,
    /// A cherry-pick with several commits pending.
    CherryPickSequence,
    /// A merge.
    Merge,
    /// A rebase.
    Rebase,
    /// An interactive rebase.
    RebaseInteractive,
    /// A single commit is being reverted.
    Revert,
    /// A revert with several commits pending.
    RevertSequence,
}

/// What a describe run found for the current commit: the nearest name and
/// the number of commits between that name and the commit.
#[derive(Debug)]
pub struct Description {
    /// Commits between the name and the described commit; 0 when the name
    /// sits on the commit itself.
    pub depth: u32,
    /// The name that was found, if any.
    pub name: Option<String>,
}

/// Why no label could be produced.
#[derive(Clone, Copy, Debug, PartialEq, Eq, Structural)]
pub enum LabelError {
    /// Neither a branch, nor an exact tag, nor the current commit's id was
    /// available.
    Unresolved,
}

impl LabelError {
    /// The text that describes the error.
    pub open spec fn message_text(self) -> Seq<char> {
        "Failed to get branch/hash"@
    }

    /// Returns the text that describes the error.
    pub fn message(&self) -> (text: String)
        ensures
            text@ == self.message_text(),
    {
        String::from_str("Failed to get branch/hash")
    }
}

/// The text that an operation's template puts in front of the name.
pub open spec fn progress_prefix_text(operation: InProgress) -> Seq<char> {
    match operation {
        InProgress::ApplyMailbox => "Mailbox progress "@,
        InProgress::ApplyMailboxRebase => "Mailbox rebase progress "@,
        InProgress::Bisect => "Bisect progress "@,
        InProgress::CherryPick => "Cherry pick progress "@,
        InProgress::CherryPickSequence => "Cherry pick sequence progress "@,
        InProgress::Merge => "Merge progress "@,
        InProgress::Rebase => "Rebase progress "@,
        InProgress::RebaseInteractive => "Rebasing "@,
        InProgress::Revert => "Revert progress "@,
        InProgress::RevertSequence => "Revert Sequence progress "@,
    }
}

/// The label for `name` under `state`: the name itself when nothing is in
/// progress, else the operation's template applied to it.
pub open spec fn label_text(state: Option<InProgress>, name: Seq<char>) -> Seq<char> {
    match state {
        None => name,
        Some(operation) => progress_prefix_text(operation) + name,
    }
}

/// The name shown for a detached head with abbreviated commit id `hash`.
pub open spec fn detached_text(hash: Seq<char>) -> Seq<char> {
    "(detached "@ + hash + ")"@
}

/// The tag that a description yields: its name, provided that the name sits
/// exactly on the described commit.
pub open spec fn exact_tag_text(description: Option<Description>) -> Option<Seq<char>> {
    match description {
        Some(found) => if found.depth > 0 {
            None
        } else {
            found.name.deep_view()
        },
        None => None,
    }
}

/// The name to display: the branch, else the exact tag, else the detached
/// form of the commit id; `None` when all three are missing.
pub open spec fn display_name_text(
    branch: Option<Seq<char>>,
    tag: Option<Seq<char>>,
    hash: Option<Seq<char>>,
) -> Option<Seq<char>> {
    match branch {
        Some(name) => Some(name),
        None => match tag {
            Some(name) => Some(name),
            None => match hash {
                Some(id) => Some(detached_text(id)),
                None => None,
            },
        },
    }
}

/// The outcome of label resolution from the facts about the checkout.
pub open spec fn resolved_label(
    state: Option<InProgress>,
    branch: Option<Seq<char>>,
    tag: Option<Seq<char>>,
    hash: Option<Seq<char>>,
) -> Result<Seq<char>, LabelError> {
    match display_name_text(branch, tag, hash) {
        Some(name) => Ok(label_text(state, name)),
        None => Err(LabelError::Unresolved),
    }
}

/// With a branch checked out and no operation in progress, the label is
/// the name of the branch, whatever tag or commit id there may be.
pub proof fn lemma_branch_is_label(
    branch: Seq<char>,
    tag: Option<Seq<char>>,
    hash: Option<Seq<char>>,
)
    ensures
        resolved_label(None, Some(branch), tag, hash) == Ok::<Seq<char>, LabelError>(branch),
{
}

/// Without a branch, a name that the description found exactly on the
/// current commit is the name of the label, and a name that it found
/// further back is passed over for the commit id in its detached form.
pub proof fn lemma_tag_counts_only_when_exact(
    state: Option<InProgress>,
    description: Description,
    hash: Seq<char>,
)
    requires
        description.name is Some,
    ensures
        description.depth == 0 ==> resolved_label(
            state,
            None,
            exact_tag_text(Some(description)),
            Some(hash),
        ) == Ok::<Seq<char>, LabelError>(label_text(state, description.name->0@)),
        description.depth > 0 ==> resolved_label(
            state,
            None,
            exact_tag_text(Some(description)),
            Some(hash),
        ) == Ok::<Seq<char>, LabelError>(label_text(state, detached_text(hash))),
{
}

/// Without a branch and without an exact tag, the label names the commit:
/// its abbreviated id stands between `(detached ` and `)`.
pub proof fn lemma_detached_without_tag(
    state: Option<InProgress>,
    description: Option<Description>,
    hash: Seq<char>,
)
    requires
        exact_tag_text(description) is None,
    ensures
        resolved_label(state, None, exact_tag_text(description), Some(hash)) == Ok::<
            Seq<char>,
            LabelError,
        >(label_text(state, "(detached "@ + hash + ")"@)),
{
}

/// Resolution fails exactly when there is neither a branch, nor an exact
/// tag, nor a commit id.
pub proof fn lemma_unresolved_iff_nothing_known(
    state: Option<InProgress>,
    branch: Option<Seq<char>>,
    tag: Option<Seq<char>>,
    hash: Option<Seq<char>>,
)
    ensures
        resolved_label(state, branch, tag, hash) is Err <==> branch is None && tag is None
            && hash is None,
{
}

/// Returns the text that the template of `operation` puts in front of the
/// name.
pub fn progress_prefix(operation: InProgress) -> (prefix: &'static str)
    ensures
        prefix@ == progress_prefix_text(operation),
{
    match operation {
        InProgress::ApplyMailbox => "Mailbox progress ",
        InProgress::ApplyMailboxRebase => "Mailbox rebase progress ",
        InProgress::Bisect => "Bisect progress ",
        InProgress::CherryPick => "Cherry pick progress ",
        InProgress::CherryPickSequence => "Cherry pick sequence progress ",
        InProgress::Merge => "Merge progress ",
        InProgress::Rebase => "Rebase progress ",
        InProgress::RebaseInteractive => "Rebasing ",
        InProgress::Revert => "Revert progress ",
        InProgress::RevertSequence => "Revert Sequence progress ",
    }
}

/// Builds the label for `name`: the name unchanged when no operation is in
/// progress, else the operation's template with the name filled in.
pub fn format_label(state: Option<InProgress>, name: &str) -> (label: String)
    ensures
        label@ == label_text(state, name@),
{
    match state {
        None => String::from_str(name),
        Some(operation) => String::from_str(progress_prefix(operation)).concat(name),
    }
}

/// Builds the name shown for a detached head from the abbreviated id of the
/// current commit.
pub fn detached_name(hash: &str) -> (name: String)
    ensures
        name@ == detached_text(hash@),
{
    String::from_str("(detached ").concat(hash).concat(")")
}

/// Picks the tag out of a description: `Some` exactly when a name was found
/// at depth 0, and then that name. A name further back in history does not
/// count.
pub fn exact_tag(description: Option<Description>) -> (tag: Option<String>)
    ensures
        tag.deep_view() == exact_tag_text(description),
{
    match description {
        Some(found) => if found.depth > 0 {
            None
        } else {
            found.name
        },
        None => None,
    }
}

/// Chooses the name to display. The branch wins over the tag, the tag over
/// the commit id; with none of them there is no name.
pub fn display_name(branch: Option<&str>, tag: Option<&str>, hash: Option<&str>) -> (name: Option<
    String,
>)
    ensures
        name.deep_view() == display_name_text(
            branch.deep_view(),
            tag.deep_view(),
            hash.deep_view(),
        ),
{
    match branch {
        Some(name) => Some(String::from_str(name)),
        None => match tag {
            Some(name) => Some(String::from_str(name)),
            None => match hash {
                Some(id) => Some(detached_name(id)),
                None => None,
            },
        },
    }
}

/// Resolves the label from the facts about the checkout: the operation in
/// progress, the checked-out branch, the tag that sits exactly on the
/// current commit, and the abbreviated id of that commit.
///
/// Succeeds exactly when a branch, a tag or a commit id is there, and fails
/// with [`LabelError::Unresolved`] otherwise.
pub fn resolve_label(
    state: Option<InProgress>,
    branch: Option<&str>,
    tag: Option<&str>,
    hash: Option<&str>,
) -> (label: Result<String, LabelError>)
    ensures
        match resolved_label(state, branch.deep_view(), tag.deep_view(), hash.deep_view()) {
            Ok(text) => label matches Ok(s) && s@ == text,
            Err(error) => label == Err::<String, LabelError>(error),
        },
{
    match display_name(branch, tag, hash) {
        Some(name) => Ok(format_label(state, name.as_str())),
        None => Err(LabelError::Unresolved),
    }
}

} // verus!
