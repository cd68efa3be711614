use git2::Delta;
use gitstage::git::get_file_statuses;
use gitstage::git::ChangeRecord;
use gitstage::git::FileStatusKind;
use gitstage::git::QueryOptions;
use gitstage::status::Status;
use gitstage::status::StatusEntry;

fn record(old: &str, new: &str, delta: Delta) -> ChangeRecord {
    ChangeRecord {
        old_path: old.to_string(),
        new_path: new.to_string(),
        delta,
    }
}

#[test]
fn unstaged_query_follows_renames_and_untracked_files() {
    assert_eq!(
        QueryOptions::from(FileStatusKind::Unstaged),
        QueryOptions {
            renames_index_to_workdir: true,
            include_untracked: true,
            recurse_untracked_dirs: true,
            renames_head_to_index: false,
        }
    );
}

#[test]
fn staged_query_follows_renames_only() {
    assert_eq!(
        QueryOptions::from(FileStatusKind::Staged),
        QueryOptions {
            renames_index_to_workdir: false,
            include_untracked: false,
            recurse_untracked_dirs: false,
            renames_head_to_index: true,
        }
    );
}

#[test]
fn records_become_entries_in_order() {
    let records = vec![
        record("a.txt", "a.txt", Delta::Modified),
        record("b.txt", "c.txt", Delta::Renamed),
        record("", "d.txt", Delta::Untracked),
        record("e.txt", "e.txt", Delta::Deleted),
    ];
    let entries = get_file_statuses(FileStatusKind::Unstaged, records);
    let expected = vec![
        StatusEntry {
            old_file: String::new(),
            new_file: "a.txt".to_string(),
            status: Status::Modified,
            origin: FileStatusKind::Unstaged,
        },
        StatusEntry {
            old_file: "b.txt".to_string(),
            new_file: "c.txt".to_string(),
            status: Status::Renamed,
            origin: FileStatusKind::Unstaged,
        },
        StatusEntry {
            old_file: String::new(),
            new_file: "d.txt".to_string(),
            status: Status::Untracked,
            origin: FileStatusKind::Unstaged,
        },
        StatusEntry {
            old_file: String::new(),
            new_file: "e.txt".to_string(),
            status: Status::Deleted,
            origin: FileStatusKind::Unstaged,
        },
    ];
    assert_eq!(entries, expected);
}

#[test]
fn records_of_the_staged_comparison_are_tagged_staged() {
    let entries = get_file_statuses(
        FileStatusKind::Staged,
        vec![record("x", "y", Delta::Copied)],
    );
    assert_eq!(entries.len(), 1);
    assert_eq!(entries[0].origin, FileStatusKind::Staged);
    assert_eq!(entries[0].old_file, "x");
    assert_eq!(entries[0].new_file, "y");
    assert_eq!(entries[0].status, Status::Copied);
}

#[test]
fn no_records_give_no_entries() {
    assert!(get_file_statuses(FileStatusKind::Unstaged, Vec::new()).is_empty());
}
