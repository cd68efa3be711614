//! The controller of the two views: which list is active, what each user
//! action does to the lists, and what it asks of the outside.

use crate::git::entries_match;
use crate::git::get_file_statuses;
use crate::git::ChangeRecord;
use crate::git::FileStatusKind;
use crate::list::initial_cursor;
use crate::list::next_cursor;
use crate::list::previous_cursor;
use crate::list::refreshed_cursor;
use crate::list::valid_cursor;
use crate::list::ListView;
use crate::list::StatefulList;
use crate::status::discard_plan;
use crate::status::stage_plan;
use crate::status::unstage_plan;
use crate::status::Operation;
use crate::status::OperationView;
use crate::status::StatusEntry;
use crate::status::StatusEntryView;
use vstd::prelude::*;

verus! {

/// What the user can ask for.
#[derive(Copy, Clone, Debug, PartialEq, Eq, Structural)]
pub enum Action {
    Quit,
    MoveNext,
    MovePrevious,
    ClearSelection,
    SwitchView,
    Stage,
    Discard,
    Unstage,
}

/// What the surrounding loop has to do after an action was handled: run the
/// operations in order, stopping at the first that fails; then, whether or
/// not they succeeded, query the named comparison and hand its records to
/// [`App::refresh`]; or leave the loop.
#[derive(Debug, PartialEq, Eq)]
pub struct Effect {
    pub operations: Vec<Operation>,
    pub refresh: Option<FileStatusKind>,
    pub quit: bool,
}

/// An [`Effect`] as a mathematical value.
pub ghost struct EffectView {
    pub operations: Seq<OperationView>,
    pub refresh: Option<FileStatusKind>,
    pub quit: bool,
}

impl View for Effect {
    type V = EffectView;

    open spec fn view(&self) -> EffectView {
        EffectView {
            operations: self.operations.deep_view(),
            refresh: self.refresh,
            quit: self.quit,
        }
    }
}

/// An [`App`] as a mathematical value.
pub ghost struct AppView {
    pub active: FileStatusKind,
    pub unstaged: ListView<StatusEntry>,
    pub staged: ListView<StatusEntry>,
}

/// The view that is not `kind`.
pub open spec fn other_view(kind: FileStatusKind) -> FileStatusKind {
    match kind {
        FileStatusKind::Unstaged => FileStatusKind::Staged,
        FileStatusKind::Staged => FileStatusKind::Unstaged,
    }
}

/// Whether every entry of `items` comes from the comparison `kind`.
pub open spec fn all_from(items: Seq<StatusEntry>, kind: FileStatusKind) -> bool {
    forall|i: int| 0 <= i < items.len() ==> (#[trigger] items[i]).origin == kind
}

/// Whether each list holds only entries of its own comparison, and each
/// cursor is absent or points into its list.
pub open spec fn consistent(state: AppView) -> bool {
    &&& all_from(state.unstaged.items, FileStatusKind::Unstaged)
    &&& all_from(state.staged.items, FileStatusKind::Staged)
    &&& valid_cursor(state.unstaged.cursor, state.unstaged.items.len())
    &&& valid_cursor(state.staged.cursor, state.staged.items.len())
}

/// The list of the active view.
pub open spec fn active_list(state: AppView) -> ListView<StatusEntry> {
    match state.active {
        FileStatusKind::Unstaged => state.unstaged,
        FileStatusKind::Staged => state.staged,
    }
}

/// The state with the cursor of the active list set to `cursor`.
pub open spec fn with_active_cursor(state: AppView, cursor: Option<nat>) -> AppView {
    match state.active {
        FileStatusKind::Unstaged => AppView {
            unstaged: ListView { cursor, ..state.unstaged },
            ..state
        },
        FileStatusKind::Staged => AppView { staged: ListView { cursor, ..state.staged }, ..state },
    }
}

/// The entry under the cursor of a list, if there is one.
pub open spec fn current_entry(list: ListView<StatusEntry>) -> Option<StatusEntryView> {
    match list.cursor {
        Some(i) => if i < list.items.len() {
            Some(list.items[i as int]@)
        } else {
            None
        },
        None => None,
    }
}

/// The state after an action: only the moves and the clearing of the
/// selection change it, and only in the cursor of the active list.
pub open spec fn state_after(state: AppView, action: Action) -> AppView {
    let list = active_list(state);
    match action {
        Action::MoveNext => with_active_cursor(state, next_cursor(list.cursor, list.items.len())),
        Action::MovePrevious => with_active_cursor(
            state,
            previous_cursor(list.cursor, list.items.len()),
        ),
        Action::ClearSelection => with_active_cursor(state, None),
        _ => state,
    }
}

/// The effect that asks nothing of the outside.
pub open spec fn no_effect() -> EffectView {
    EffectView { operations: Seq::empty(), refresh: None, quit: false }
}

/// The effect of a mutation of the entry under the cursor of the list of
/// `kind`: its plan and a refresh of that list; nothing where no entry is
/// under the cursor.
pub open spec fn mutation_effect(
    entry: Option<StatusEntryView>,
    plan: spec_fn(StatusEntryView) -> Seq<OperationView>,
    kind: FileStatusKind,
) -> EffectView {
    match entry {
        Some(e) => EffectView { operations: plan(e), refresh: Some(kind), quit: false },
        None => no_effect(),
    }
}

/// What an action asks of the outside. Staging and discarding count only in
/// the unstaged view, unstaging only in the staged view.
pub open spec fn effect_of(state: AppView, action: Action) -> EffectView {
    match (action, state.active) {
        (Action::Quit, _) => EffectView { operations: Seq::empty(), refresh: None, quit: true },
        (Action::SwitchView, active) => EffectView {
            operations: Seq::empty(),
            refresh: Some(other_view(active)),
            quit: false,
        },
        (Action::Stage, FileStatusKind::Unstaged) => mutation_effect(
            current_entry(state.unstaged),
            |e: StatusEntryView| stage_plan(e),
            FileStatusKind::Unstaged,
        ),
        (Action::Discard, FileStatusKind::Unstaged) => mutation_effect(
            current_entry(state.unstaged),
            |e: StatusEntryView| discard_plan(e),
            FileStatusKind::Unstaged,
        ),
        (Action::Unstage, FileStatusKind::Staged) => mutation_effect(
            current_entry(state.staged),
            |e: StatusEntryView| unstage_plan(e),
            FileStatusKind::Staged,
        ),
        _ => no_effect(),
    }
}

/// The state after the records of the comparison `kind` arrived: that list
/// holds their entries, with its cursor clamped, and its view is active;
/// the other list is as it was.
pub open spec fn refreshed(
    before: AppView,
    after: AppView,
    kind: FileStatusKind,
    records: Seq<ChangeRecord>,
) -> bool {
    &&& after.active == kind
    &&& match kind {
        FileStatusKind::Unstaged => {
            &&& after.staged == before.staged
            &&& entries_match(after.unstaged.items, records, kind)
            &&& after.unstaged.cursor == refreshed_cursor(before.unstaged.cursor, records.len())
        },
        FileStatusKind::Staged => {
            &&& after.unstaged == before.unstaged
            &&& entries_match(after.staged.items, records, kind)
            &&& after.staged.cursor == refreshed_cursor(before.staged.cursor, records.len())
        },
    }
}

/// No action changes which view is active or what either list holds, and
/// none touches the cursor of the inactive list.
pub proof fn lemma_action_keeps_lists(state: AppView, action: Action)
    ensures
        state_after(state, action).active == state.active,
        state_after(state, action).unstaged.items == state.unstaged.items,
        state_after(state, action).staged.items == state.staged.items,
        state.active is Unstaged ==> state_after(state, action).staged == state.staged,
        state.active is Staged ==> state_after(state, action).unstaged == state.unstaged,
{
}

/// Every action keeps a consistent state consistent.
pub proof fn lemma_action_keeps_consistency(state: AppView, action: Action)
    requires
        consistent(state),
    ensures
        consistent(state_after(state, action)),
{
}

/// Operations are planned only for an entry under the cursor of the active
/// list, and always together with a refresh of that list. A mutation asked
/// for in the view it does not belong to asks nothing of the outside.
pub proof fn lemma_operations_need_selection(state: AppView, action: Action)
    ensures
        current_entry(active_list(state)) is None ==> effect_of(state, action).operations.len()
            == 0,
        effect_of(state, action).operations.len() > 0 ==> effect_of(state, action).refresh == Some(
            state.active,
        ),
        active_list(state).items.len() == 0 ==> effect_of(state, action).operations.len() == 0,
        state.active is Staged && (action is Stage || action is Discard) ==> effect_of(
            state,
            action,
        ) == no_effect(),
        state.active is Unstaged && action is Unstage ==> effect_of(state, action) == no_effect(),
{
}

/// The two lists of changes and the view that is active.
pub struct App {
    active: FileStatusKind,
    unstaged: StatefulList<StatusEntry>,
    staged: StatefulList<StatusEntry>,
}

impl View for App {
    type V = AppView;

    closed spec fn view(&self) -> AppView {
        AppView { active: self.active, unstaged: self.unstaged@, staged: self.staged@ }
    }
}

impl Effect {
    /// The effect that asks nothing of the outside.
    fn nothing() -> (effect: Effect)
        ensures
            effect@ == no_effect(),
    {
        let effect = Effect { operations: Vec::new(), refresh: None, quit: false };
        assert(effect.operations.deep_view() =~= Seq::empty());
        effect
    }
}

impl App {
    /// Whether each list holds only entries of its own comparison. Every
    /// controller is so.
    #[verifier::type_invariant]
    spec fn origins_match(&self) -> bool {
        &&& all_from(self.unstaged@.items, FileStatusKind::Unstaged)
        &&& all_from(self.staged@.items, FileStatusKind::Staged)
    }

    /// What the invariants of a controller and of its lists say of its view.
    proof fn lemma_consistent(&self)
        requires
            self.origins_match(),
            self.unstaged.cursor_in_range(),
            self.staged.cursor_in_range(),
        ensures
            consistent(self@),
    {
        self.unstaged.lemma_cursor_in_range();
        self.staged.lemma_cursor_in_range();
    }

    /// Starts in the unstaged view, with both lists filled from the records
    /// of their comparisons and each cursor on the first entry, if any.
    pub fn new(unstaged: Vec<ChangeRecord>, staged: Vec<ChangeRecord>) -> (app: App)
        ensures
            app@.active is Unstaged,
            entries_match(app@.unstaged.items, unstaged@, FileStatusKind::Unstaged),
            entries_match(app@.staged.items, staged@, FileStatusKind::Staged),
            app@.unstaged.cursor == initial_cursor(unstaged@.len()),
            app@.staged.cursor == initial_cursor(staged@.len()),
            consistent(app@),
    {
        let unstaged_entries = get_file_statuses(FileStatusKind::Unstaged, unstaged);
        let staged_entries = get_file_statuses(FileStatusKind::Staged, staged);
        App {
            active: FileStatusKind::Unstaged,
            unstaged: StatefulList::with_items(unstaged_entries),
            staged: StatefulList::with_items(staged_entries),
        }
    }

    /// Takes in the records that the comparison `kind` reported: replaces
    /// that list, clamps its cursor and makes its view the active one.
    pub fn refresh(&mut self, kind: FileStatusKind, records: Vec<ChangeRecord>)
        ensures
            refreshed(old(self)@, final(self)@, kind, records@),
            consistent(final(self)@),
    {
        proof {
            use_type_invariant(&*self);
        }
        let entries = get_file_statuses(kind, records);
        match kind {
            FileStatusKind::Unstaged => {
                self.unstaged.set_items(entries);
            },
            FileStatusKind::Staged => {
                self.staged.set_items(entries);
            },
        }
        self.active = kind;
        proof {
            use_type_invariant(&self.unstaged);
            use_type_invariant(&self.staged);
            self.lemma_consistent();
        }
    }

    /// Handles one user action: moves or clears the cursor of the active
    /// list, and says what the outside has to do. A mutation of the entry
    /// under the cursor is planned only in the view it belongs to, and only
    /// if an entry is under the cursor; switching the view asks for the
    /// records of the other view, which becomes active when they arrive.
    pub fn handle(&mut self, action: Action) -> (effect: Effect)
        ensures
            final(self)@ == state_after(old(self)@, action),
            effect@ == effect_of(old(self)@, action),
            consistent(final(self)@),
    {
        proof {
            use_type_invariant(&*self);
            use_type_invariant(&self.unstaged);
            use_type_invariant(&self.staged);
            self.lemma_consistent();
        }
        let effect = match action {
            Action::Quit => {
                let effect = Effect { operations: Vec::new(), refresh: None, quit: true };
                assert(effect.operations.deep_view() =~= Seq::empty());
                effect
            },
            Action::MoveNext => {
                match self.active {
                    FileStatusKind::Unstaged => self.unstaged.next(),
                    FileStatusKind::Staged => self.staged.next(),
                }
                Effect::nothing()
            },
            Action::MovePrevious => {
                match self.active {
                    FileStatusKind::Unstaged => self.unstaged.previous(),
                    FileStatusKind::Staged => self.staged.previous(),
                }
                Effect::nothing()
            },
            Action::ClearSelection => {
                match self.active {
                    FileStatusKind::Unstaged => self.unstaged.unselect(),
                    FileStatusKind::Staged => self.staged.unselect(),
                }
                Effect::nothing()
            },
            Action::SwitchView => {
                let target = match self.active {
                    FileStatusKind::Unstaged => FileStatusKind::Staged,
                    FileStatusKind::Staged => FileStatusKind::Unstaged,
                };
                let effect = Effect { operations: Vec::new(), refresh: Some(target), quit: false };
                assert(effect.operations.deep_view() =~= Seq::empty());
                effect
            },
            Action::Stage => match (self.active, self.unstaged.current()) {
                (FileStatusKind::Unstaged, Some(entry)) => Effect {
                    operations: entry.stage_to_index(),
                    refresh: Some(FileStatusKind::Unstaged),
                    quit: false,
                },
                _ => Effect::nothing(),
            },
            Action::Discard => match (self.active, self.unstaged.current()) {
                (FileStatusKind::Unstaged, Some(entry)) => Effect {
                    operations: entry.reset_from_workdir(),
                    refresh: Some(FileStatusKind::Unstaged),
                    quit: false,
                },
                _ => Effect::nothing(),
            },
            Action::Unstage => match (self.active, self.staged.current()) {
                (FileStatusKind::Staged, Some(entry)) => Effect {
                    operations: entry.unstage_to_workdir(),
                    refresh: Some(FileStatusKind::Staged),
                    quit: false,
                },
                _ => Effect::nothing(),
            },
        };
        proof {
            lemma_action_keeps_consistency(old(self)@, action);
        }
        effect
    }

    /// The view that is active.
    pub fn active(&self) -> (kind: FileStatusKind)
        ensures
            kind == self@.active,
            consistent(self@),
    {
        proof {
            use_type_invariant(self);
            use_type_invariant(&self.unstaged);
            use_type_invariant(&self.staged);
            self.lemma_consistent();
        }
        self.active
    }

    /// The list of the given view.
    pub fn list(&self, kind: FileStatusKind) -> (list: &StatefulList<StatusEntry>)
        ensures
            list@ == match kind {
                FileStatusKind::Unstaged => self@.unstaged,
                FileStatusKind::Staged => self@.staged,
            },
            consistent(self@),
    {
        proof {
            use_type_invariant(self);
            use_type_invariant(&self.unstaged);
            use_type_invariant(&self.staged);
            self.lemma_consistent();
        }
        match kind {
            FileStatusKind::Unstaged => &self.unstaged,
            FileStatusKind::Staged => &self.staged,
        }
    }
}

} // verus!
