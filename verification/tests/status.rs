use git2::Delta;
use gitstage::git::FileStatusKind;
use gitstage::status::Operation;
use gitstage::status::Status;
use gitstage::status::StatusEntry;
use tui::style::Color;

fn entry(old: &str, new: &str, status: Status, origin: FileStatusKind) -> StatusEntry {
    StatusEntry::new(old.to_string(), new.to_string(), status, origin)
}

fn all_kinds() -> Vec<Status> {
    vec![
        Status::Unmodified,
        Status::Added,
        Status::Deleted,
        Status::Modified,
        Status::Renamed,
        Status::Copied,
        Status::Ignored,
        Status::Untracked,
        Status::Conflicted,
        Status::Typechange,
        Status::Unreadable,
    ]
}

#[test]
fn every_delta_has_its_kind() {
    assert_eq!(Status::from(Delta::Unmodified), Status::Unmodified);
    assert_eq!(Status::from(Delta::Added), Status::Added);
    assert_eq!(Status::from(Delta::Deleted), Status::Deleted);
    assert_eq!(Status::from(Delta::Modified), Status::Modified);
    assert_eq!(Status::from(Delta::Renamed), Status::Renamed);
    assert_eq!(Status::from(Delta::Copied), Status::Copied);
    assert_eq!(Status::from(Delta::Ignored), Status::Ignored);
    assert_eq!(Status::from(Delta::Untracked), Status::Untracked);
    assert_eq!(Status::from(Delta::Typechange), Status::Typechange);
    assert_eq!(Status::from(Delta::Unreadable), Status::Unreadable);
    assert_eq!(Status::from(Delta::Conflicted), Status::Conflicted);
}

#[test]
fn every_kind_has_its_glyph() {
    let glyphs: Vec<char> = all_kinds().into_iter().map(char::from).collect();
    assert_eq!(
        glyphs,
        vec![' ', 'A', 'D', 'M', 'R', 'C', '!', 'U', 'X', '?', '?']
    );
}

#[test]
fn every_kind_has_its_color() {
    let colors: Vec<Color> = all_kinds().into_iter().map(Color::from).collect();
    assert_eq!(
        colors,
        vec![
            Color::White,
            Color::LightGreen,
            Color::Red,
            Color::Yellow,
            Color::Cyan,
            Color::LightBlue,
            Color::Gray,
            Color::Green,
            Color::LightRed,
            Color::Reset,
            Color::Reset,
        ]
    );
}

#[test]
fn new_keeps_old_path_of_rename_and_copy_only() {
    let renamed = entry("b.txt", "c.txt", Status::Renamed, FileStatusKind::Unstaged);
    assert_eq!(renamed.old_file, "b.txt");
    assert_eq!(renamed.new_file, "c.txt");
    assert_eq!(renamed.status, Status::Renamed);
    assert_eq!(renamed.origin, FileStatusKind::Unstaged);
    let copied = entry("b.txt", "c.txt", Status::Copied, FileStatusKind::Staged);
    assert_eq!(copied.old_file, "b.txt");
    assert_eq!(copied.origin, FileStatusKind::Staged);
    for status in all_kinds() {
        if status != Status::Renamed && status != Status::Copied {
            let e = entry("a.txt", "a.txt", status, FileStatusKind::Unstaged);
            assert_eq!(e.old_file, "");
            assert_eq!(e.new_file, "a.txt");
            assert_eq!(e.status, status);
        }
    }
}

#[test]
fn pretty_string_of_plain_kinds_is_glyph_space_path() {
    let expected = vec![
        "  a.txt", "A a.txt", "D a.txt", "M a.txt", "C a.txt", "! a.txt", "U a.txt", "X a.txt",
        "? a.txt", "? a.txt",
    ];
    let kinds: Vec<Status> = all_kinds()
        .into_iter()
        .filter(|s| *s != Status::Renamed)
        .collect();
    assert_eq!(kinds.len(), expected.len());
    for (status, text) in kinds.into_iter().zip(expected) {
        let e = entry("old.txt", "a.txt", status, FileStatusKind::Unstaged);
        assert_eq!(e.pretty_string(), text);
    }
}

#[test]
fn pretty_string_of_rename_shows_both_paths() {
    let e = entry("b.txt", "c.txt", Status::Renamed, FileStatusKind::Unstaged);
    assert_eq!(e.pretty_string(), "R b.txt -> c.txt");
}

#[test]
fn pretty_string_of_empty_and_non_ascii_paths() {
    let e = entry("", "", Status::Modified, FileStatusKind::Staged);
    assert_eq!(e.pretty_string(), "M ");
    let e = entry("", "", Status::Renamed, FileStatusKind::Staged);
    assert_eq!(e.pretty_string(), "R  -> ");
    let e = entry("", "dir/\u{e9}t\u{e9} 1.txt", Status::Added, FileStatusKind::Staged);
    assert_eq!(e.pretty_string(), "A dir/\u{e9}t\u{e9} 1.txt");
}

#[test]
fn staging_a_rename_adds_old_and_new_path() {
    let e = entry("b.txt", "c.txt", Status::Renamed, FileStatusKind::Unstaged);
    assert_eq!(
        e.stage_to_index(),
        vec![Operation::Add(vec!["b.txt".to_string(), "c.txt".to_string()])]
    );
}

#[test]
fn staging_any_other_kind_adds_the_new_path_alone() {
    for status in all_kinds() {
        if status != Status::Renamed {
            let e = entry("b.txt", "c.txt", status, FileStatusKind::Unstaged);
            assert_eq!(
                e.stage_to_index(),
                vec![Operation::Add(vec!["c.txt".to_string()])]
            );
        }
    }
}

#[test]
fn discarding_an_untracked_file_only_deletes_it() {
    let e = entry("", "new.txt", Status::Untracked, FileStatusKind::Unstaged);
    assert_eq!(
        e.reset_from_workdir(),
        vec![Operation::RemoveFile("new.txt".to_string())]
    );
}

#[test]
fn discarding_a_rename_deletes_new_then_restores_old() {
    let e = entry("b.txt", "c.txt", Status::Renamed, FileStatusKind::Unstaged);
    assert_eq!(
        e.reset_from_workdir(),
        vec![
            Operation::RemoveFile("c.txt".to_string()),
            Operation::Checkout("b.txt".to_string()),
        ]
    );
}

#[test]
fn discarding_any_other_kind_restores_the_new_path() {
    for status in all_kinds() {
        if status != Status::Renamed && status != Status::Untracked {
            let e = entry("b.txt", "c.txt", status, FileStatusKind::Unstaged);
            assert_eq!(
                e.reset_from_workdir(),
                vec![Operation::Checkout("c.txt".to_string())]
            );
        }
    }
}

#[test]
fn unstaging_a_deletion_restores_it_from_head() {
    let e = entry("", "gone.txt", Status::Deleted, FileStatusKind::Staged);
    assert_eq!(
        e.unstage_to_workdir(),
        vec![Operation::RestoreStaged("gone.txt".to_string())]
    );
}

#[test]
fn unstaging_any_other_kind_resets_the_new_path() {
    for status in all_kinds() {
        if status != Status::Deleted {
            let e = entry("b.txt", "c.txt", status, FileStatusKind::Staged);
            assert_eq!(
                e.unstage_to_workdir(),
                vec![Operation::ResetPath("c.txt".to_string())]
            );
        }
    }
}
