//! Change kinds, actionable entries, and the mutation each entry calls for.

use crate::git::FileStatusKind;
use vstd::prelude::*;
use vstd::std_specs::convert::FromSpecImpl;

verus! {

/// `git2::Delta`, with its variants visible to proofs.
#[verifier::external_type_specification]
pub struct ExDelta(git2::Delta);

/// `tui::style::Color`, with its variants visible to proofs.
#[verifier::external_type_specification]
pub struct ExColor(tui::style::Color);

/// Classification of one file change.
#[derive(Clone, Copy, Debug, PartialEq, Eq, Structural)]
pub enum Status {
    Unmodified,
    Added,
    Deleted,
    Modified,
    Renamed,
    Copied,
    Ignored,
    Untracked,
    Conflicted,
    Typechange,
    Unreadable,
}

/// The change kind that stands for each native delta.
pub open spec fn status_of_delta(value: git2::Delta) -> Status {
    match value {
        git2::Delta::Unmodified => Status::Unmodified,
        git2::Delta::Added => Status::Added,
        git2::Delta::Deleted => Status::Deleted,
        git2::Delta::Modified => Status::Modified,
        git2::Delta::Renamed => Status::Renamed,
        git2::Delta::Copied => Status::Copied,
        git2::Delta::Ignored => Status::Ignored,
        git2::Delta::Untracked => Status::Untracked,
        git2::Delta::Typechange => Status::Typechange,
        git2::Delta::Unreadable => Status::Unreadable,
        git2::Delta::Conflicted => Status::Conflicted,
    }
}

impl From<git2::Delta> for Status {
    fn from(value: git2::Delta) -> (status: Status)
        ensures
            status == status_of_delta(value),
    {
        match value {
            git2::Delta::Unmodified => Status::Unmodified,
            git2::Delta::Added => Status::Added,
            git2::Delta::Deleted => Status::Deleted,
            git2::Delta::Modified => Status::Modified,
            git2::Delta::Renamed => Status::Renamed,
            git2::Delta::Copied => Status::Copied,
            git2::Delta::Ignored => Status::Ignored,
            git2::Delta::Untracked => Status::Untracked,
            git2::Delta::Typechange => Status::Typechange,
            git2::Delta::Unreadable => Status::Unreadable,
            git2::Delta::Conflicted => Status::Conflicted,
        }
    }
}

impl FromSpecImpl<git2::Delta> for Status {
    open spec fn obeys_from_spec() -> bool {
        true
    }

    open spec fn from_spec(value: git2::Delta) -> Status {
        status_of_delta(value)
    }
}

/// The one-character glyph of each change kind.
pub open spec fn glyph_of(status: Status) -> char {
    match status {
        Status::Unmodified => ' ',
        Status::Added => 'A',
        Status::Deleted => 'D',
        Status::Modified => 'M',
        Status::Renamed => 'R',
        Status::Copied => 'C',
        Status::Ignored => '!',
        Status::Untracked => 'U',
        Status::Conflicted => 'X',
        Status::Typechange => '?',
        Status::Unreadable => '?',
    }
}

impl From<Status> for char {
    fn from(value: Status) -> (glyph: char)
        ensures
            glyph == glyph_of(value),
    {
        match value {
            Status::Unmodified => ' ',
            Status::Added => 'A',
            Status::Deleted => 'D',
            Status::Modified => 'M',
            Status::Renamed => 'R',
            Status::Copied => 'C',
            Status::Ignored => '!',
            Status::Untracked => 'U',
            Status::Conflicted => 'X',
            Status::Typechange => '?',
            Status::Unreadable => '?',
        }
    }
}

impl FromSpecImpl<Status> for char {
    open spec fn obeys_from_spec() -> bool {
        true
    }

    open spec fn from_spec(value: Status) -> char {
        glyph_of(value)
    }
}

/// The display colour of each change kind.
pub open spec fn color_of(status: Status) -> tui::style::Color {
    match status {
        Status::Unmodified => tui::style::Color::White,
        Status::Added => tui::style::Color::LightGreen,
        Status::Deleted => tui::style::Color::Red,
        Status::Modified => tui::style::Color::Yellow,
        Status::Renamed => tui::style::Color::Cyan,
        Status::Copied => tui::style::Color::LightBlue,
        Status::Ignored => tui::style::Color::Gray,
        Status::Untracked => tui::style::Color::Green,
        Status::Conflicted => tui::style::Color::LightRed,
        Status::Typechange => tui::style::Color::Reset,
        Status::Unreadable => tui::style::Color::Reset,
    }
}

impl From<Status> for tui::style::Color {
    fn from(value: Status) -> (color: tui::style::Color)
        ensures
            color == color_of(value),
    {
        match value {
            Status::Unmodified => tui::style::Color::White,
            Status::Added => tui::style::Color::LightGreen,
            Status::Deleted => tui::style::Color::Red,
            Status::Modified => tui::style::Color::Yellow,
            Status::Renamed => tui::style::Color::Cyan,
            Status::Copied => tui::style::Color::LightBlue,
            Status::Ignored => tui::style::Color::Gray,
            Status::Untracked => tui::style::Color::Green,
            Status::Conflicted => tui::style::Color::LightRed,
            Status::Typechange => tui::style::Color::Reset,
            Status::Unreadable => tui::style::Color::Reset,
        }
    }
}

impl FromSpecImpl<Status> for tui::style::Color {
    open spec fn obeys_from_spec() -> bool {
        true
    }

    open spec fn from_spec(value: Status) -> tui::style::Color {
        color_of(value)
    }
}

/// One request to the command executor or to the filesystem.
#[derive(Debug, PartialEq, Eq)]
pub enum Operation {
    /// Stage the given paths.
    Add(Vec<String>),
    /// Restore the working-tree content of a path from the index.
    Checkout(String),
    /// Undo a staged deletion of a path by restoring its index entry from HEAD.
    RestoreStaged(String),
    /// Move the index entry of a path back to what HEAD holds.
    ResetPath(String),
    /// Delete a file from disk.
    RemoveFile(String),
}

/// An [`Operation`] as a mathematical value.
pub ghost enum OperationView {
    Add(Seq<Seq<char>>),
    Checkout(Seq<char>),
    RestoreStaged(Seq<char>),
    ResetPath(Seq<char>),
    RemoveFile(Seq<char>),
}

impl View for Operation {
    type V = OperationView;

    open spec fn view(&self) -> OperationView {
        match self {
            Operation::Add(paths) => OperationView::Add(paths.deep_view()),
            Operation::Checkout(path) => OperationView::Checkout(path@),
            Operation::RestoreStaged(path) => OperationView::RestoreStaged(path@),
            Operation::ResetPath(path) => OperationView::ResetPath(path@),
            Operation::RemoveFile(path) => OperationView::RemoveFile(path@),
        }
    }
}

impl DeepView for Operation {
    type V = OperationView;

    open spec fn deep_view(&self) -> OperationView {
        self@
    }
}

/// One actionable file change.
#[derive(Debug, PartialEq, Eq)]
pub struct StatusEntry {
    pub old_file: String,
    pub new_file: String,
    pub status: Status,
    pub origin: FileStatusKind,
}

/// A [`StatusEntry`] as a mathematical value.
pub ghost struct StatusEntryView {
    pub old_file: Seq<char>,
    pub new_file: Seq<char>,
    pub status: Status,
    pub origin: FileStatusKind,
}

impl View for StatusEntry {
    type V = StatusEntryView;

    open spec fn view(&self) -> StatusEntryView {
        StatusEntryView {
            old_file: self.old_file@,
            new_file: self.new_file@,
            status: self.status,
            origin: self.origin,
        }
    }
}

impl DeepView for StatusEntry {
    type V = StatusEntryView;

    open spec fn deep_view(&self) -> StatusEntryView {
        self@
    }
}

/// Whether a change kind carries a source path besides its current path.
pub open spec fn has_old_path(status: Status) -> bool {
    status is Renamed || status is Copied
}

/// The entry that a raw change record stands for: the old path is kept only
/// for a rename or a copy.
pub open spec fn normalized_entry(
    old_file: Seq<char>,
    new_file: Seq<char>,
    status: Status,
    origin: FileStatusKind,
) -> StatusEntryView {
    StatusEntryView {
        old_file: if has_old_path(status) {
            old_file
        } else {
            Seq::empty()
        },
        new_file,
        status,
        origin,
    }
}

/// The line shown for an entry.
pub open spec fn display_text(entry: StatusEntryView) -> Seq<char> {
    if entry.status is Renamed {
        seq![glyph_of(entry.status), ' '] + entry.old_file + seq![' ', '-', '>', ' ']
            + entry.new_file
    } else {
        seq![glyph_of(entry.status), ' '] + entry.new_file
    }
}

/// What staging an unstaged entry asks of the executor.
pub open spec fn stage_plan(entry: StatusEntryView) -> Seq<OperationView> {
    if entry.status is Renamed {
        seq![OperationView::Add(seq![entry.old_file, entry.new_file])]
    } else {
        seq![OperationView::Add(seq![entry.new_file])]
    }
}

/// What discarding an unstaged entry asks of the filesystem and the executor, in order.
pub open spec fn discard_plan(entry: StatusEntryView) -> Seq<OperationView> {
    match entry.status {
        Status::Untracked => seq![OperationView::RemoveFile(entry.new_file)],
        Status::Renamed => seq![
            OperationView::RemoveFile(entry.new_file),
            OperationView::Checkout(entry.old_file),
        ],
        _ => seq![OperationView::Checkout(entry.new_file)],
    }
}

/// What unstaging a staged entry asks of the executor.
pub open spec fn unstage_plan(entry: StatusEntryView) -> Seq<OperationView> {
    if entry.status is Deleted {
        seq![OperationView::RestoreStaged(entry.new_file)]
    } else {
        seq![OperationView::ResetPath(entry.new_file)]
    }
}

/// Staging asks for one `Add` alone: of two paths, old then new, for a
/// rename, and of the new path alone for any other kind.
pub proof fn lemma_stage_plan_paths(entry: StatusEntryView)
    ensures
        stage_plan(entry).len() == 1,
        stage_plan(entry)[0] is Add,
        entry.status is Renamed ==> stage_plan(entry)[0]->Add_0 == seq![
            entry.old_file,
            entry.new_file,
        ],
        !(entry.status is Renamed) ==> stage_plan(entry)[0]->Add_0 == seq![entry.new_file],
{
}

/// Discarding an untracked entry only deletes its file; discarding a rename
/// deletes the new file before it restores the old path; discarding any
/// other kind restores the new path and deletes nothing.
pub proof fn lemma_discard_plan_steps(entry: StatusEntryView)
    ensures
        entry.status is Untracked ==> discard_plan(entry) == seq![
            OperationView::RemoveFile(entry.new_file),
        ],
        entry.status is Renamed ==> discard_plan(entry).len() == 2 && discard_plan(entry)[0]
            == OperationView::RemoveFile(entry.new_file) && discard_plan(entry)[1]
            == OperationView::Checkout(entry.old_file),
        !(entry.status is Untracked) && !(entry.status is Renamed) ==> discard_plan(entry).len()
            == 1 && discard_plan(entry)[0] == OperationView::Checkout(entry.new_file),
        forall|i: int|
            0 <= i < discard_plan(entry).len() && #[trigger] discard_plan(entry)[i] is RemoveFile
                ==> entry.status is Untracked || entry.status is Renamed,
{
}

/// Unstaging asks for one operation on the new path: a restore from HEAD
/// for a staged deletion, a reset for any other kind.
pub proof fn lemma_unstage_plan_step(entry: StatusEntryView)
    ensures
        unstage_plan(entry).len() == 1,
        entry.status is Deleted ==> unstage_plan(entry)[0] == OperationView::RestoreStaged(
            entry.new_file,
        ),
        !(entry.status is Deleted) ==> unstage_plan(entry)[0] == OperationView::ResetPath(
            entry.new_file,
        ),
{
}

/// The glyph of a change kind as a one-character string.
fn glyph_text(status: Status) -> (text: &'static str)
    ensures
        text@ == seq![glyph_of(status)],
{
    proof {
        reveal_strlit(" ");
        reveal_strlit("A");
        reveal_strlit("D");
        reveal_strlit("M");
        reveal_strlit("R");
        reveal_strlit("C");
        reveal_strlit("!");
        reveal_strlit("U");
        reveal_strlit("X");
        reveal_strlit("?");
    }
    let text = match status {
        Status::Unmodified => " ",
        Status::Added => "A",
        Status::Deleted => "D",
        Status::Modified => "M",
        Status::Renamed => "R",
        Status::Copied => "C",
        Status::Ignored => "!",
        Status::Untracked => "U",
        Status::Conflicted => "X",
        Status::Typechange => "?",
        Status::Unreadable => "?",
    };
    assert(text@ =~= seq![glyph_of(status)]);
    text
}

impl StatusEntry {
    /// Whether the old path is empty unless the entry is a rename or a copy.
    pub open spec fn wf(&self) -> bool {
        !has_old_path(self.status) ==> self.old_file@.len() == 0
    }

    /// Builds the entry for a raw change record found by the comparison `origin`.
    pub fn new(old_file: String, new_file: String, status: Status, origin: FileStatusKind) -> (entry:
        StatusEntry)
        ensures
            entry@ == normalized_entry(old_file@, new_file@, status, origin),
            entry.wf(),
    {
        let old_file = match status {
            Status::Renamed | Status::Copied => old_file,
            _ => String::new(),
        };
        StatusEntry { old_file, new_file, status, origin }
    }

    /// The line shown for this entry: glyph, space, path; a rename shows both paths.
    pub fn pretty_string(&self) -> (text: String)
        ensures
            text@ == display_text(self@),
    {
        let mut text = String::from_str(glyph_text(self.status));
        proof {
            reveal_strlit(" ");
            reveal_strlit(" -> ");
        }
        text.append(" ");
        match self.status {
            Status::Renamed => {
                text.append(self.old_file.as_str());
                text.append(" -> ");
                text.append(self.new_file.as_str());
            },
            _ => {
                text.append(self.new_file.as_str());
            },
        }
        assert(text@ =~= display_text(self@));
        text
    }

    /// Plans the staging of this entry: a rename stages the old and the new
    /// path, any other kind the new path alone.
    pub fn stage_to_index(&self) -> (plan: Vec<Operation>)
        requires
            self.origin is Unstaged,
        ensures
            plan.deep_view() == stage_plan(self@),
    {
        let mut paths: Vec<String> = Vec::new();
        match self.status {
            Status::Renamed => {
                paths.push(self.old_file.clone());
                paths.push(self.new_file.clone());
            },
            _ => {
                paths.push(self.new_file.clone());
            },
        }
        assert(paths.deep_view() =~= if self.status is Renamed {
            seq![self.old_file@, self.new_file@]
        } else {
            seq![self.new_file@]
        });
        let mut plan: Vec<Operation> = Vec::new();
        plan.push(Operation::Add(paths));
        assert(plan.deep_view() =~= stage_plan(self@));
        plan
    }

    /// Plans the discarding of this entry's working-tree change: an untracked
    /// file is deleted; a rename has its new file deleted and then its old
    /// path restored; any other kind is restored from the index.
    pub fn reset_from_workdir(&self) -> (plan: Vec<Operation>)
        requires
            self.origin is Unstaged,
        ensures
            plan.deep_view() == discard_plan(self@),
    {
        let mut plan: Vec<Operation> = Vec::new();
        match self.status {
            Status::Untracked => {
                plan.push(Operation::RemoveFile(self.new_file.clone()));
            },
            Status::Renamed => {
                plan.push(Operation::RemoveFile(self.new_file.clone()));
                plan.push(Operation::Checkout(self.old_file.clone()));
            },
            _ => {
                plan.push(Operation::Checkout(self.new_file.clone()));
            },
        }
        assert(plan.deep_view() =~= discard_plan(self@));
        plan
    }

    /// Plans the unstaging of this entry: a staged deletion is restored from
    /// HEAD, any other kind is reset.
    pub fn unstage_to_workdir(&self) -> (plan: Vec<Operation>)
        requires
            self.origin is Staged,
        ensures
            plan.deep_view() == unstage_plan(self@),
    {
        let mut plan: Vec<Operation> = Vec::new();
        match self.status {
            Status::Deleted => {
                plan.push(Operation::RestoreStaged(self.new_file.clone()));
            },
            _ => {
                plan.push(Operation::ResetPath(self.new_file.clone()));
            },
        }
        assert(plan.deep_view() =~= unstage_plan(self@));
        plan
    }
}

} // verus!
