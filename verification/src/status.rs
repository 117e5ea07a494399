//! Classifying the working tree from the change records of a status run.
//!
//! The records are looked at in the order in which they arrive, and the
//! first one that belongs to a category of interest decides.

use crate::backend::{
    configured_rewrites, default_rewrites, emission_mode, entry_state, index_is_sparse,
    next_item, open_status, peel_item, peel_worktree_item, start_status, to_thread_local,
    walk_status,
    with_limit, with_rename_tracking, with_submodules, with_thread_limit, with_walk, StatusItem,
    WorktreeItem,
};
use crate::codes::{CLEAN, DISABLED, FAILED, MODIFIED, UNTRACKED};
use crate::repo::Repo;
use vstd::prelude::*;

verus! {

/// How a tracked entry differs from the working tree.
#[derive(Clone, Copy, Debug, PartialEq, Eq, Structural)]
pub enum WorktreeChange {
    /// The file is gone from the working tree.
    Removed,
    /// The file is of another type now, such as a symbolic link in place of
    /// a regular file.
    Type,
    /// Content or permissions of the file have changed.
    Modification,
    /// A checked-out submodule has changes of its own.
    SubmoduleModification,
}

/// The state of a tracked entry in comparison with the working tree.
#[derive(Clone, Copy, Debug, PartialEq, Eq, Structural)]
pub enum EntryState {
    /// The entry is in an unresolved merge conflict.
    Conflict,
    /// The entry has changed.
    Change(WorktreeChange),
    /// The entry is unchanged, only its cached file information is stale.
    NeedsUpdate,
    /// The entry was added with the promise of content to come.
    IntentToAdd,
}

/// What the directory walk found out about an entry on disk.
#[derive(Clone, Copy, Debug, PartialEq, Eq, Structural)]
pub enum WalkStatus {
    /// The entry was left out of the walk.
    Pruned,
    /// The entry is under version control.
    Versioned,
    /// The entry is ignored.
    Ignored,
    /// The entry is not tracked.
    Untracked,
}

/// One change record of a status run.
#[derive(Clone, Copy, Debug, PartialEq, Eq, Structural)]
pub enum Record {
    /// A difference between the tree of the current commit and the index.
    TreeIndex,
    /// A tracked entry, compared with the working tree.
    Modification(EntryState),
    /// An entry that the directory walk came across.
    DirectoryContents(WalkStatus),
    /// A rename or copy between the index and the working tree. The status
    /// run is set up so that none is produced.
    Rewrite,
}

/// What one record means for the scan.
#[derive(Clone, Copy, Debug, PartialEq, Eq, Structural)]
pub enum Decision {
    /// The record is of no interest; the scan goes on.
    Continue,
    /// The record decides: the scan ends with this code.
    Return(i32),
    /// The record must not occur.
    Violation,
}

/// What a status run hands out when it is asked for its next item.
#[derive(Clone, Copy, Debug, PartialEq, Eq, Structural)]
pub enum Event {
    /// The run is over.
    End,
    /// The run broke off with an error.
    Failure,
    /// The next change record.
    Item(Record),
}

/// The outcome of classifying the working tree.
#[derive(Clone, Copy, Debug, PartialEq, Eq, Structural)]
pub enum Classification {
    /// The classification, as a code.
    Code(i32),
    /// The index is sparse: the code has to come from the status listing of
    /// the command-line tool.
    SparseFallback,
    /// A rename between index and working tree was reported although the
    /// status run does not track them.
    RewriteSeen,
}

/// How entries of one kind are emitted by the directory walk.
#[derive(Clone, Copy, Debug, PartialEq, Eq, Structural)]
pub enum Emission {
    /// Each entry by itself, as soon as it is found.
    Matching,
    /// A directory in place of its entries where all of them are alike.
    CollapseDirectory,
}

/// How a status run is set up.
#[derive(Clone, Copy, Debug, PartialEq, Eq, Structural)]
pub struct StatusOptions {
    /// Whether a submodule counts as changed as soon as the cheapest check
    /// finds it dirty. Which submodules take part is left to their
    /// configuration.
    pub submodule_check_dirty: bool,
    /// The number of files up to which renames between the current commit
    /// and the index are searched for by similarity.
    pub rename_limit: usize,
    /// The number of threads that check tracked entries; `None` for as many
    /// as there are cores.
    pub thread_limit: Option<usize>,
    /// How untracked entries are emitted.
    pub emit_untracked: Emission,
    /// How ignored entries are emitted; `None` to leave them out.
    pub emit_ignored: Option<Emission>,
    /// Whether entries that the walk left out are emitted.
    pub emit_pruned: bool,
    /// Whether empty directories are emitted.
    pub emit_empty_directories: bool,
    /// Whether a value in the configuration of rename tracking that cannot
    /// be read is passed over.
    pub lenient_config: bool,
}

/// What the classification reads from the environment of the process.
#[derive(Debug)]
pub struct Environment {
    /// The value of the variable that switches file tracking off, if the
    /// variable is set.
    pub disable_file_tracking: Option<String>,
}

impl Environment {
    /// Whether file tracking is switched off. The variable only has to be
    /// set; its value does not matter.
    pub open spec fn tracking_disabled(&self) -> bool {
        self.disable_file_tracking is Some
    }

    /// Tells whether file tracking is switched off.
    pub fn is_tracking_disabled(&self) -> (disabled: bool)
        ensures
            disabled == self.tracking_disabled(),
    {
        self.disable_file_tracking.is_some()
    }
}

/// The name of the environment variable that switches file tracking off.
pub fn disable_tracking_variable() -> (name: &'static str)
    ensures
        name@ == "BASH_DISABLE_GIT_FILE_TRACKING"@,
{
    "BASH_DISABLE_GIT_FILE_TRACKING"
}

/// The set-up of the status run: submodules by their configuration with
/// the dirty check; renames searched among up to 100 files; untracked
/// entries one by one; no ignored entries, no pruned entries, no empty
/// directories; no limit on threads.
pub open spec fn chosen_options() -> StatusOptions {
    StatusOptions {
        submodule_check_dirty: true,
        rename_limit: 100,
        thread_limit: None,
        emit_untracked: Emission::Matching,
        emit_ignored: None,
        emit_pruned: false,
        emit_empty_directories: false,
        lenient_config: true,
    }
}

/// The decision table: what each kind of record means for the scan.
pub open spec fn decision(record: Record) -> Decision {
    match record {
        Record::TreeIndex => Decision::Return(MODIFIED),
        Record::Modification(EntryState::Conflict) => Decision::Return(MODIFIED),
        Record::Modification(EntryState::Change(_)) => Decision::Return(MODIFIED),
        Record::Modification(EntryState::IntentToAdd) => Decision::Return(MODIFIED),
        Record::Modification(EntryState::NeedsUpdate) => Decision::Continue,
        Record::DirectoryContents(WalkStatus::Untracked) => Decision::Return(UNTRACKED),
        Record::DirectoryContents(_) => Decision::Continue,
        Record::Rewrite => Decision::Violation,
    }
}

/// The classification of a sequence of records: the decision of the first
/// record that does not let the scan go on, and clean when there is none.
pub open spec fn scan(records: Seq<Record>) -> Classification
    decreases records.len(),
{
    if records.len() == 0 {
        Classification::Code(CLEAN)
    } else {
        match decision(records[0]) {
            Decision::Return(code) => Classification::Code(code),
            Decision::Violation => Classification::RewriteSeen,
            Decision::Continue => scan(records.drop_first()),
        }
    }
}

/// What an event of the status run means for the scan: the end of the run
/// means clean, an error means failure, a record decides by the decision
/// table, and `None` stands for a scan that goes on.
pub open spec fn event_outcome(event: Event) -> Option<Classification> {
    match event {
        Event::End => Some(Classification::Code(CLEAN)),
        Event::Failure => Some(Classification::Code(FAILED)),
        Event::Item(record) => match decision(record) {
            Decision::Return(code) => Some(Classification::Code(code)),
            Decision::Violation => Some(Classification::RewriteSeen),
            Decision::Continue => None,
        },
    }
}

/// Records that let the scan go on can be dropped from the front.
pub proof fn lemma_scan_skips_uninteresting(records: Seq<Record>, n: int)
    requires
        0 <= n <= records.len(),
        forall|i: int| 0 <= i < n ==> decision(#[trigger] records[i]) == Decision::Continue,
    ensures
        scan(records) == scan(records.skip(n)),
    decreases n,
{
    if n == 0 {
        assert(records.skip(0) =~= records);
    } else {
        lemma_scan_skips_uninteresting(records, n - 1);
        let rest = records.skip(n - 1);
        assert(rest[0] == records[n - 1]);
        assert(rest.drop_first() =~= records.skip(n));
    }
}

/// The first record that does not let the scan go on decides, whatever
/// comes after it.
pub proof fn lemma_first_match_wins(records: Seq<Record>, n: int)
    requires
        0 <= n < records.len(),
        forall|i: int| 0 <= i < n ==> decision(#[trigger] records[i]) == Decision::Continue,
        decision(records[n]) != Decision::Continue,
    ensures
        scan(records) == match decision(records[n]) {
            Decision::Return(code) => Classification::Code(code),
            _ => Classification::RewriteSeen,
        },
{
    lemma_scan_skips_uninteresting(records, n);
    assert(records.skip(n)[0] == records[n]);
}

/// A staged change outranks untracked entries that come after it: when a
/// difference between the current commit and the index is among the
/// records, and neither an untracked entry nor a rename comes before it,
/// the working tree counts as modified.
pub proof fn lemma_staged_change_dominates(records: Seq<Record>, n: int)
    requires
        0 <= n < records.len(),
        records[n] == Record::TreeIndex,
        forall|i: int|
            0 <= i < n ==> #[trigger] records[i] != Record::DirectoryContents(
                WalkStatus::Untracked,
            ) && records[i] != Record::Rewrite,
    ensures
        scan(records) == Classification::Code(MODIFIED),
    decreases n,
{
    if n == 0 {
    } else if decision(records[0]) == Decision::Continue {
        let rest = records.drop_first();
        assert forall|i: int| 0 <= i < n - 1 implies #[trigger] rest[i]
            != Record::DirectoryContents(WalkStatus::Untracked) && rest[i] != Record::Rewrite by {
            assert(rest[i] == records[i + 1]);
        }
        assert(rest[n - 1] == records[n]);
        lemma_staged_change_dominates(rest, n - 1);
    } else {
        assert(records[0] != Record::DirectoryContents(WalkStatus::Untracked));
        assert(records[0] != Record::Rewrite);
    }
}

/// The outcome of the scan is a function of the records: the same records
/// classify alike every time.
pub proof fn lemma_scan_is_repeatable(first: Seq<Record>, second: Seq<Record>)
    requires
        first =~= second,
    ensures
        scan(first) == scan(second),
{
}

/// The scan ends in one of three codes or in the report of a rename; it
/// never asks for the fallback.
pub proof fn lemma_scan_outcomes(records: Seq<Record>)
    ensures
        scan(records) == Classification::Code(CLEAN) || scan(records) == Classification::Code(
            MODIFIED,
        ) || scan(records) == Classification::Code(UNTRACKED) || scan(records)
            == Classification::RewriteSeen,
    decreases records.len(),
{
    if records.len() > 0 {
        lemma_scan_outcomes(records.drop_first());
    }
}

/// Decides what a record means for the scan, by the decision table.
pub fn decide(record: Record) -> (verdict: Decision)
    ensures
        verdict == decision(record),
{
    match record {
        Record::TreeIndex => Decision::Return(MODIFIED),
        Record::Modification(state) => match state {
            EntryState::Conflict => Decision::Return(MODIFIED),
            EntryState::Change(_) => Decision::Return(MODIFIED),
            EntryState::IntentToAdd => Decision::Return(MODIFIED),
            EntryState::NeedsUpdate => Decision::Continue,
        },
        Record::DirectoryContents(status) => match status {
            WalkStatus::Untracked => Decision::Return(UNTRACKED),
            _ => Decision::Continue,
        },
        Record::Rewrite => Decision::Violation,
    }
}

/// Classifies the working tree from its change records, in their order:
/// the first record of interest decides, and without one the tree is clean.
pub fn classify_records(records: &[Record]) -> (outcome: Classification)
    ensures
        outcome == scan(records@),
{
    let len = records.len();
    let mut i: usize = 0;
    while i < len
        invariant
            i <= len,
            len == records@.len(),
            forall|k: int| 0 <= k < i ==> decision(#[trigger] records@[k]) == Decision::Continue,
        decreases len - i,
    {
        proof {
            lemma_scan_skips_uninteresting(records@, i as int);
            assert(records@.skip(i as int)[0] == records@[i as int]);
        }
        match decide(records[i]) {
            Decision::Return(code) => {
                return Classification::Code(code);
            },
            Decision::Violation => {
                return Classification::RewriteSeen;
            },
            Decision::Continue => {},
        }
        i = i + 1;
    }
    proof {
        lemma_scan_skips_uninteresting(records@, len as int);
        assert(records@.skip(len as int) =~= Seq::<Record>::empty());
    }
    Classification::Code(CLEAN)
}

/// Tells what an event of the status run means for the scan: `Some` with
/// the outcome when the event ends the scan, `None` when the scan goes on.
pub fn on_event(event: Event) -> (outcome: Option<Classification>)
    ensures
        outcome == event_outcome(event),
{
    match event {
        Event::End => Some(Classification::Code(CLEAN)),
        Event::Failure => Some(Classification::Code(FAILED)),
        Event::Item(record) => match decide(record) {
            Decision::Return(code) => Some(Classification::Code(code)),
            Decision::Violation => Some(Classification::RewriteSeen),
            Decision::Continue => None,
        },
    }
}

/// Returns the set-up of the status run.
pub fn status_options() -> (options: StatusOptions)
    ensures
        options == chosen_options(),
{
    StatusOptions {
        submodule_check_dirty: true,
        rename_limit: 100,
        thread_limit: None,
        emit_untracked: Emission::Matching,
        emit_ignored: None,
        emit_pruned: false,
        emit_empty_directories: false,
        lenient_config: true,
    }
}

/// Reads a status item as a change record.
fn record_of(item: &gix::status::Item) -> (record: Record) {
    match peel_item(item) {
        StatusItem::TreeIndex => Record::TreeIndex,
        StatusItem::IndexWorktree(inner) => match peel_worktree_item(inner) {
            WorktreeItem::Modification(status) => Record::Modification(entry_state(status)),
            WorktreeItem::DirectoryContents(status) => Record::DirectoryContents(
                walk_status(status),
            ),
            WorktreeItem::Rewrite => Record::Rewrite,
        },
    }
}

/// Classifies the working tree from a status run, event by event as they
/// arrive: the first event that ends the scan decides, by [`on_event`]. A
/// run of more than `u64::MAX` records counts as failed.
fn classify_stream(iter: gix::status::Iter) -> (outcome: Classification)
    ensures
        outcome matches Classification::Code(code) ==> code == CLEAN || code == MODIFIED || code
            == UNTRACKED || code == FAILED,
        outcome != Classification::SparseFallback,
{
    let mut iter = iter;
    let mut budget: u64 = u64::MAX;
    while budget > 0
        decreases budget,
    {
        budget = budget - 1;
        let event = match next_item(&mut iter) {
            None => Event::End,
            Some(Err(_)) => Event::Failure,
            Some(Ok(item)) => Event::Item(record_of(&item)),
        };
        match on_event(event) {
            Some(outcome) => {
                return outcome;
            },
            None => {},
        }
    }
    Classification::Code(FAILED)
}

/// Classifies the working tree of a repository.
///
/// With file tracking switched off the code is 9 and the repository is not
/// touched. With a sparse index the answer is left to the fallback. Else a
/// status run is started, set up by [`status_options`], and its records are
/// scanned in the order of their arrival: the first record of interest
/// decides, a run without one means clean, and a run that cannot be started
/// or breaks off means failure.
pub fn get_status(repo: &Repo, environment: &Environment) -> (outcome: Classification)
    ensures
        environment.tracking_disabled() ==> outcome == Classification::Code(DISABLED),
        !environment.tracking_disabled() ==> (outcome matches Classification::Code(code) ==> code
            == CLEAN || code == MODIFIED || code == UNTRACKED || code == FAILED),
{
    if environment.is_tracking_disabled() {
        return Classification::Code(DISABLED);
    }
    let repository = to_thread_local(&repo.repo);
    if index_is_sparse(&repository) {
        return Classification::SparseFallback;
    }
    let options = status_options();
    let request = match open_status(&repository) {
        Ok(request) => request,
        Err(_) => {
            return Classification::Code(FAILED);
        },
    };
    let request = with_submodules(request, options.submodule_check_dirty);
    let request = with_thread_limit(request, options.thread_limit);
    let ignored = match options.emit_ignored {
        Some(emission) => Some(emission_mode(emission)),
        None => None,
    };
    let request = with_walk(
        request,
        emission_mode(options.emit_untracked),
        ignored,
        options.emit_pruned,
        options.emit_empty_directories,
    );
    let rewrites = match configured_rewrites(&repository, options.lenient_config) {
        Some(rewrites) => rewrites,
        None => default_rewrites(),
    };
    let request = with_rename_tracking(request, with_limit(rewrites, options.rename_limit));
    match start_status(request) {
        Ok(iter) => classify_stream(iter),
        Err(_) => Classification::Code(FAILED),
    }
}

} // verus!
