//! The two comparisons that produce change records, and how records become entries.

use crate::status::normalized_entry;
use crate::status::status_of_delta;
use crate::status::Status;
use crate::status::StatusEntry;
use crate::status::StatusEntryView;
use vstd::prelude::*;
use vstd::std_specs::convert::FromSpecImpl;

verus! {

/// Which comparison a change comes from: working tree against index
/// (unstaged changes) or index against HEAD (staged changes).
#[derive(Copy, Clone, Debug, PartialEq, Eq, Structural)]
pub enum FileStatusKind {
    Unstaged,
    Staged,
}

/// The settings of a status query.
#[derive(Copy, Clone, Debug, PartialEq, Eq, Structural)]
pub struct QueryOptions {
    pub renames_index_to_workdir: bool,
    pub include_untracked: bool,
    pub recurse_untracked_dirs: bool,
    pub renames_head_to_index: bool,
}

/// The query settings of each comparison.
pub open spec fn options_of(kind: FileStatusKind) -> QueryOptions {
    match kind {
        FileStatusKind::Unstaged => QueryOptions {
            renames_index_to_workdir: true,
            include_untracked: true,
            recurse_untracked_dirs: true,
            renames_head_to_index: false,
        },
        FileStatusKind::Staged => QueryOptions {
            renames_index_to_workdir: false,
            include_untracked: false,
            recurse_untracked_dirs: false,
            renames_head_to_index: true,
        },
    }
}

impl From<FileStatusKind> for QueryOptions {
    fn from(value: FileStatusKind) -> (options: QueryOptions)
        ensures
            options == options_of(value),
    {
        match value {
            FileStatusKind::Unstaged => QueryOptions {
                renames_index_to_workdir: true,
                include_untracked: true,
                recurse_untracked_dirs: true,
                renames_head_to_index: false,
            },
            FileStatusKind::Staged => QueryOptions {
                renames_index_to_workdir: false,
                include_untracked: false,
                recurse_untracked_dirs: false,
                renames_head_to_index: true,
            },
        }
    }
}

impl FromSpecImpl<FileStatusKind> for QueryOptions {
    open spec fn obeys_from_spec() -> bool {
        true
    }

    open spec fn from_spec(value: FileStatusKind) -> QueryOptions {
        options_of(value)
    }
}

/// One raw change as a comparison reports it.
#[derive(Debug, PartialEq, Eq)]
pub struct ChangeRecord {
    pub old_path: String,
    pub new_path: String,
    pub delta: git2::Delta,
}

/// The entry that a record of the comparison `kind` stands for.
pub open spec fn entry_of(record: ChangeRecord, kind: FileStatusKind) -> StatusEntryView {
    normalized_entry(record.old_path@, record.new_path@, status_of_delta(record.delta), kind)
}

/// Whether `entries` holds, in order, the entry of each of `records`.
pub open spec fn entries_match(
    entries: Seq<StatusEntry>,
    records: Seq<ChangeRecord>,
    kind: FileStatusKind,
) -> bool {
    &&& entries.len() == records.len()
    &&& forall|i: int|
        0 <= i < records.len() ==> (#[trigger] entries[i])@ == entry_of(records[i], kind)
            && entries[i].wf()
}

/// Turns the records that the comparison `kind` reported into entries, in
/// the reported order.
pub fn get_file_statuses(kind: FileStatusKind, records: Vec<ChangeRecord>) -> (entries: Vec<
    StatusEntry,
>)
    ensures
        entries_match(entries@, records@, kind),
{
    let mut entries: Vec<StatusEntry> = Vec::new();
    let mut i: usize = 0;
    while i < records.len()
        invariant
            i <= records.len(),
            entries.len() == i,
            forall|j: int|
                0 <= j < i ==> (#[trigger] entries[j])@ == entry_of(records[j], kind)
                    && entries[j].wf(),
        decreases records.len() - i,
    {
        let record = &records[i];
        let entry = StatusEntry::new(
            record.old_path.clone(),
            record.new_path.clone(),
            Status::from(record.delta),
            kind,
        );
        entries.push(entry);
        i += 1;
    }
    entries
}

} // verus!
