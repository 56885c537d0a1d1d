use vstd::prelude::*;
use crate::app::{keeps_modes, AppState, PendingOperation, Target};
use crate::fs_ops::{is_copy, is_delete, FsAction, FsError, Transfer};
use crate::listing::Item;
use crate::names::{join_path, join_path_exec};
use crate::panel::{is_parent_entry, Panel};

verus! {

/// The entries among the first `n` that are selected, leaving out the parent
/// entry, as (name, is directory), in order.
pub open spec fn picked(entries: Seq<Item>, flags: Seq<bool>, n: int) -> Seq<(Seq<char>, bool)>
    decreases n,
{
    if n <= 0 {
        Seq::empty()
    } else if flags[n - 1] && !is_parent_entry(entries[n - 1]) {
        picked(entries, flags, n - 1).push((entries[n - 1].name_full@, entries[n - 1].is_dir))
    } else {
        picked(entries, flags, n - 1)
    }
}

/// What an operation applies to: the selected entries, or else the entry
/// under the cursor; never the parent entry.
pub open spec fn operation_targets(p: Panel) -> Seq<(Seq<char>, bool)> {
    let sel = picked(p.entries@, p.selected@, p.entries@.len() as int);
    if sel.len() > 0 {
        sel
    } else if p.entries@.len() > 0 && !is_parent_entry(p.entries@[p.cursor as int]) {
        seq![(p.entries@[p.cursor as int].name_full@, p.entries@[p.cursor as int].is_dir)]
    } else {
        Seq::empty()
    }
}

/// Whether `items` copy or move each target from `from_dir` to `to_dir`.
pub open spec fn transfers_for(
    items: Seq<Transfer>,
    targets: Seq<(Seq<char>, bool)>,
    from_dir: Seq<char>,
    to_dir: Seq<char>,
) -> bool {
    &&& items.len() == targets.len()
    &&& forall|i: int|
        0 <= i < items.len() ==> {
            &&& (#[trigger] items[i]).src@ == join_path(from_dir, targets[i].0)
            &&& items[i].dest@ == join_path(to_dir, targets[i].0)
            &&& items[i].is_dir == targets[i].1
        }
}

fn targets_of(p: &Panel) -> (r: Vec<Target>)
    requires
        p.wf(),
    ensures
        r@.len() == operation_targets(*p).len(),
        forall|i: int|
            0 <= i < r@.len() ==> ((#[trigger] r@[i]).name@, r@[i].is_dir) == operation_targets(
                *p,
            )[i],
{
    let mut v: Vec<Target> = Vec::new();
    let mut i: usize = 0;
    while i < p.entries.len()
        invariant
            p.wf(),
            i <= p.entries@.len(),
            v@.len() == picked(p.entries@, p.selected@, i as int).len(),
            forall|k: int|
                0 <= k < v@.len() ==> ((#[trigger] v@[k]).name@, v@[k].is_dir) == picked(
                    p.entries@,
                    p.selected@,
                    i as int,
                )[k],
        decreases p.entries.len() - i,
    {
        let it = &p.entries[i];
        if p.selected[i] && it.name_full != String::from_str("..") {
            v.push(Target { name: it.name_full.clone(), is_dir: it.is_dir });
        }
        i += 1;
    }
    if v.len() == 0 && p.entries.len() > 0 {
        let it = &p.entries[p.cursor];
        if it.name_full != String::from_str("..") {
            v.push(Target { name: it.name_full.clone(), is_dir: it.is_dir });
        }
    }
    v
}

/// The text put before the path of a destination that already exists.
pub open spec fn exists_prefix() -> Seq<char> {
    "destination already exists: "@
}

/// Whether the first destination reported to exist is number `i`.
pub open spec fn first_existing(exists: Seq<bool>, i: int) -> bool {
    0 <= i < exists.len() && exists[i] && forall|j: int| 0 <= j < i ==> !exists[j]
}

fn first_true(v: &Vec<bool>) -> (r: Option<usize>)
    ensures
        match r {
            Some(i) => first_existing(v@, i as int),
            None => forall|j: int| 0 <= j < v@.len() ==> !v@[j],
        },
{
    let mut i: usize = 0;
    while i < v.len()
        invariant
            i <= v@.len(),
            forall|j: int| 0 <= j < i ==> !v@[j],
        decreases v.len() - i,
    {
        if v[i] {
            return Some(i);
        }
        i += 1;
    }
    None
}

/// What the host is to do on disk once an operation is confirmed.
pub enum Plan {
    /// Nothing: the operation was cancelled or refused.
    Nothing,
    Rename { from: String, to: String },
    /// Create the directory `path`, then put the cursor on `name`.
    Create { path: String, name: String },
    /// Perform these removals in order, stopping at the first failure.
    Delete { removals: Vec<FsAction> },
    /// Perform these copies in order, stopping at the first failure.
    Copy { copies: Vec<FsAction> },
    /// Move each of these in order, stopping at the first failure.
    Move { moves: Vec<Transfer> },
}

impl AppState {
    /// Starts a rename of the entry under the cursor of the active panel
    /// (not the parent entry), with its name as the text to edit.
    pub fn begin_rename(&mut self)
        requires
            old(self).wf(),
        ensures
            final(self).wf(),
            final(self).left == old(self).left,
            final(self).right == old(self).right,
            final(self).is_left_active == old(self).is_left_active,
            ({
                let p = old(self).active();
                if p.entries@.len() > 0 && !is_parent_entry(p.entries@[p.cursor as int]) {
                    &&& final(self).pending == (PendingOperation::Rename { target: p.cursor })
                    &&& final(self).rename_input@ == p.entries@[p.cursor as int].name_full@
                    &&& final(self).rename_character_index == final(self).rename_input@.len()
                } else {
                    &&& final(self).pending == old(self).pending
                    &&& final(self).rename_input == old(self).rename_input
                    &&& final(self).rename_character_index == old(self).rename_character_index
                }
            }),
    {
        let (n, c) = if self.is_left_active {
            (self.left.entries.len(), self.left.cursor)
        } else {
            (self.right.entries.len(), self.right.cursor)
        };
        if n == 0 {
            return;
        }
        let name = if self.is_left_active {
            self.left.entries[c].name_full.clone()
        } else {
            self.right.entries[c].name_full.clone()
        };
        if name == String::from_str("..") {
            return;
        }
        self.pending = PendingOperation::Rename { target: c };
        self.rename_input = name;
        self.rename_character_index = self.rename_input.as_str().unicode_len();
    }

    /// Starts creating a directory, with an empty name to type.
    pub fn begin_create(&mut self)
        requires
            old(self).wf(),
        ensures
            final(self).wf(),
            final(self).left == old(self).left,
            final(self).right == old(self).right,
            final(self).is_left_active == old(self).is_left_active,
            final(self).pending is Create,
            final(self).rename_input@.len() == 0,
            final(self).rename_character_index == 0,
    {
        self.pending = PendingOperation::Create;
        self.rename_input = String::new();
        self.rename_character_index = 0;
    }

    /// Asks to delete the operation's targets in the active panel, if any.
    pub fn begin_delete(&mut self)
        requires
            old(self).wf(),
        ensures
            final(self).wf(),
            final(self).left == old(self).left,
            final(self).right == old(self).right,
            final(self).is_left_active == old(self).is_left_active,
            operation_targets(old(self).active()).len() == 0 ==> final(self).pending
                == old(self).pending,
            operation_targets(old(self).active()).len() > 0 ==> {
                &&& final(self).pending is Delete
                &&& final(self).pending->targets@.len() == operation_targets(old(self).active()).len()
                &&& forall|i: int|
                    0 <= i < final(self).pending->targets@.len() ==> {
                        let t = #[trigger] final(self).pending->targets@[i];
                        (t.name@, t.is_dir) == operation_targets(old(self).active())[i]
                    }
            },
    {
        let targets = if self.is_left_active {
            targets_of(&self.left)
        } else {
            targets_of(&self.right)
        };
        if targets.len() > 0 {
            self.pending = PendingOperation::Delete { targets };
        }
    }

    fn transfers(&self) -> (r: Vec<Transfer>)
        requires
            self.wf(),
        ensures
            transfers_for(
                r@,
                operation_targets(self.active()),
                self.active().directory@,
                self.inactive().directory@,
            ),
    {
        let (targets, from_dir, to_dir) = if self.is_left_active {
            (targets_of(&self.left), &self.left.directory, &self.right.directory)
        } else {
            (targets_of(&self.right), &self.right.directory, &self.left.directory)
        };
        let mut v: Vec<Transfer> = Vec::new();
        let mut i: usize = 0;
        while i < targets.len()
            invariant
                i <= targets@.len(),
                v@.len() == i,
                forall|k: int|
                    0 <= k < i ==> {
                        &&& (#[trigger] v@[k]).src@ == join_path(from_dir@, targets@[k].name@)
                        &&& v@[k].dest@ == join_path(to_dir@, targets@[k].name@)
                        &&& v@[k].is_dir == targets@[k].is_dir
                    },
            decreases targets.len() - i,
        {
            let t = &targets[i];
            v.push(
                Transfer {
                    src: join_path_exec(from_dir, &t.name),
                    dest: join_path_exec(to_dir, &t.name),
                    is_dir: t.is_dir,
                },
            );
            i += 1;
        }
        proof {
            assert forall|k: int| 0 <= k < v@.len() implies {
                &&& (#[trigger] v@[k]).src@ == join_path(
                    self.active().directory@,
                    operation_targets(self.active())[k].0,
                )
                &&& v@[k].dest@ == join_path(
                    self.inactive().directory@,
                    operation_targets(self.active())[k].0,
                )
                &&& v@[k].is_dir == operation_targets(self.active())[k].1
            } by {
                assert((targets@[k].name@, targets@[k].is_dir) == operation_targets(self.active())[k]);
            }
        }
        v
    }

    /// Asks to copy the operation's targets into the other panel's directory.
    pub fn begin_copy(&mut self)
        requires
            old(self).wf(),
        ensures
            final(self).wf(),
            final(self).left == old(self).left,
            final(self).right == old(self).right,
            final(self).is_left_active == old(self).is_left_active,
            operation_targets(old(self).active()).len() == 0 ==> final(self).pending
                == old(self).pending,
            operation_targets(old(self).active()).len() > 0 ==> final(self).pending is Copy
                && transfers_for(
                final(self).pending->Copy_items@,
                operation_targets(old(self).active()),
                old(self).active().directory@,
                old(self).inactive().directory@,
            ),
    {
        let items = self.transfers();
        if items.len() > 0 {
            self.pending = PendingOperation::Copy { items };
        }
    }

    /// Asks to move the operation's targets into the other panel's directory.
    pub fn begin_move(&mut self)
        requires
            old(self).wf(),
        ensures
            final(self).wf(),
            final(self).left == old(self).left,
            final(self).right == old(self).right,
            final(self).is_left_active == old(self).is_left_active,
            operation_targets(old(self).active()).len() == 0 ==> final(self).pending
                == old(self).pending,
            operation_targets(old(self).active()).len() > 0 ==> final(self).pending is Move
                && transfers_for(
                final(self).pending->Move_items@,
                operation_targets(old(self).active()),
                old(self).active().directory@,
                old(self).inactive().directory@,
            ),
    {
        let items = self.transfers();
        if items.len() > 0 {
            self.pending = PendingOperation::Move { items };
        }
    }

    /// The destinations of a pending copy or move, whose existence the host
    /// reports back to `confirm`; empty for other operations.
    pub fn pending_destinations(&self) -> (r: Vec<String>)
        ensures
            match self.pending {
                PendingOperation::Copy { items } => r@.len() == items@.len() && forall|i: int|
                    0 <= i < r@.len() ==> (#[trigger] r@[i])@ == items@[i].dest@,
                PendingOperation::Move { items } => r@.len() == items@.len() && forall|i: int|
                    0 <= i < r@.len() ==> (#[trigger] r@[i])@ == items@[i].dest@,
                _ => r@.len() == 0,
            },
    {
        let mut v: Vec<String> = Vec::new();
        match &self.pending {
            PendingOperation::Copy { items } | PendingOperation::Move { items } => {
                let mut i: usize = 0;
                while i < items.len()
                    invariant
                        i <= items@.len(),
                        v@.len() == i,
                        forall|k: int| 0 <= k < i ==> (#[trigger] v@[k])@ == items@[k].dest@,
                    decreases items.len() - i,
                {
                    v.push(items[i].dest.clone());
                    i += 1;
                }
            },
            _ => {},
        }
        v
    }

    /// Leaves the pending operation without touching the disk, discarding
    /// the typed text.
    pub fn cancel(&mut self)
        requires
            old(self).wf(),
        ensures
            final(self).wf(),
            final(self).left == old(self).left,
            final(self).right == old(self).right,
            final(self).is_left_active == old(self).is_left_active,
            final(self).error == old(self).error,
            final(self).pending is Idle,
            final(self).rename_input@.len() == 0,
            final(self).rename_character_index == 0,
    {
        self.pending = PendingOperation::Idle;
        self.rename_input = String::new();
        self.rename_character_index = 0;
    }

    /// Confirms the pending operation and says what is to be done on disk.
    /// The operation is over afterwards. A copy or a move whose destination
    /// already exists (`dest_exists`, one flag per destination, from
    /// `pending_destinations`) is refused with an error and nothing to do.
    pub fn confirm(&mut self, dest_exists: &Vec<bool>) -> (r: Plan)
        requires
            old(self).wf(),
            old(self).pending is Copy ==> dest_exists@.len() == old(self).pending->Copy_items@.len(),
            old(self).pending is Move ==> dest_exists@.len() == old(self).pending->Move_items@.len(),
        ensures
            final(self).wf(),
            final(self).left == old(self).left,
            final(self).right == old(self).right,
            final(self).is_left_active == old(self).is_left_active,
            final(self).pending is Idle,
            final(self).rename_input@.len() == 0,
            final(self).rename_character_index == 0,
            final(self).search == old(self).search,
            final(self).is_help_displayed == old(self).is_help_displayed,
            final(self).page_size == old(self).page_size,
            final(self).size_cache == old(self).size_cache,
            !(old(self).pending is Copy || old(self).pending is Move) ==> final(self).error
                == old(self).error,
            match old(self).pending {
                PendingOperation::Idle => r is Nothing,
                PendingOperation::Rename { target } => {
                    let p = old(self).active();
                    if target < p.entries@.len() && old(self).rename_input@.len() > 0 {
                        &&& r is Rename
                        &&& r->Rename_from@ == join_path(
                            p.directory@,
                            p.entries@[target as int].name_full@,
                        )
                        &&& r->Rename_to@ == join_path(p.directory@, old(self).rename_input@)
                    } else {
                        r is Nothing
                    }
                },
                PendingOperation::Create => if old(self).rename_input@.len() == 0 {
                    r is Nothing
                } else {
                    &&& r is Create
                    &&& r->Create_path@ == join_path(
                        old(self).active().directory@,
                        old(self).rename_input@,
                    )
                    &&& r->Create_name@ == old(self).rename_input@
                },
                PendingOperation::Delete { targets } => {
                    &&& r is Delete
                    &&& r->removals@.len() == targets@.len()
                    &&& forall|i: int|
                        0 <= i < targets@.len() ==> is_delete(
                            #[trigger] r->removals@[i],
                            join_path(old(self).active().directory@, targets@[i].name@),
                            targets@[i].is_dir,
                        )
                },
                PendingOperation::Copy { items } => if exists|i: int|
                    0 <= i < dest_exists@.len() && #[trigger] dest_exists@[i] {
                    &&& r is Nothing
                    &&& final(self).error is Some
                    &&& exists|i: int|
                        first_existing(dest_exists@, i) && final(self).error->Some_0@ == exists_prefix()
                            + items@[i].dest@
                } else {
                    &&& r is Copy
                    &&& final(self).error == old(self).error
                    &&& r->copies@.len() == items@.len()
                    &&& forall|i: int|
                        0 <= i < items@.len() ==> is_copy(
                            #[trigger] r->copies@[i],
                            items@[i].src@,
                            items@[i].dest@,
                            items@[i].is_dir,
                        )
                },
                PendingOperation::Move { items } => if exists|i: int|
                    0 <= i < dest_exists@.len() && #[trigger] dest_exists@[i] {
                    &&& r is Nothing
                    &&& final(self).error is Some
                    &&& exists|i: int|
                        first_existing(dest_exists@, i) && final(self).error->Some_0@ == exists_prefix()
                            + items@[i].dest@
                } else {
                    &&& r is Move
                    &&& final(self).error == old(self).error
                    &&& r->moves@ == items@
                },
            },
    {
        let mut pending = PendingOperation::Idle;
        std::mem::swap(&mut self.pending, &mut pending);
        let dir = if self.is_left_active {
            self.left.directory.clone()
        } else {
            self.right.directory.clone()
        };
        let plan = match pending {
            PendingOperation::Idle => Plan::Nothing,
            PendingOperation::Rename { target } => {
                let n = if self.is_left_active {
                    self.left.entries.len()
                } else {
                    self.right.entries.len()
                };
                if target < n && self.rename_input.as_str().unicode_len() > 0 {
                    let name = if self.is_left_active {
                        &self.left.entries[target].name_full
                    } else {
                        &self.right.entries[target].name_full
                    };
                    Plan::Rename {
                        from: join_path_exec(&dir, name),
                        to: join_path_exec(&dir, &self.rename_input),
                    }
                } else {
                    Plan::Nothing
                }
            },
            PendingOperation::Create => {
                if self.rename_input.as_str().unicode_len() == 0 {
                    Plan::Nothing
                } else {
                    Plan::Create {
                        path: join_path_exec(&dir, &self.rename_input),
                        name: self.rename_input.clone(),
                    }
                }
            },
            PendingOperation::Delete { targets } => {
                let mut removals: Vec<FsAction> = Vec::new();
                let mut i: usize = 0;
                while i < targets.len()
                    invariant
                        i <= targets@.len(),
                        removals@.len() == i,
                        forall|k: int|
                            0 <= k < i ==> is_delete(
                                #[trigger] removals@[k],
                                join_path(dir@, targets@[k].name@),
                                targets@[k].is_dir,
                            ),
                    decreases targets.len() - i,
                {
                    removals.push(
                        FsAction::Delete {
                            path: join_path_exec(&dir, &targets[i].name),
                            is_dir: targets[i].is_dir,
                        },
                    );
                    i += 1;
                }
                Plan::Delete { removals }
            },
            PendingOperation::Copy { items } => {
                match first_true(dest_exists) {
                    Some(i) => {
                        self.error = Some(self.exists_message(&items[i].dest));
                        Plan::Nothing
                    },
                    None => {
                        let mut copies: Vec<FsAction> = Vec::new();
                        let mut i: usize = 0;
                        while i < items.len()
                            invariant
                                i <= items@.len(),
                                copies@.len() == i,
                                forall|k: int|
                                    0 <= k < i ==> is_copy(
                                        #[trigger] copies@[k],
                                        items@[k].src@,
                                        items@[k].dest@,
                                        items@[k].is_dir,
                                    ),
                            decreases items.len() - i,
                        {
                            copies.push(
                                FsAction::Copy {
                                    from: items[i].src.clone(),
                                    to: items[i].dest.clone(),
                                    is_dir: items[i].is_dir,
                                },
                            );
                            i += 1;
                        }
                        Plan::Copy { copies }
                    },
                }
            },
            PendingOperation::Move { items } => {
                match first_true(dest_exists) {
                    Some(i) => {
                        self.error = Some(self.exists_message(&items[i].dest));
                        Plan::Nothing
                    },
                    None => Plan::Move { moves: items },
                }
            },
        };
        self.rename_input = String::new();
        self.rename_character_index = 0;
        plan
    }

    fn exists_message(&self, dest: &String) -> (r: String)
        ensures
            r@ == exists_prefix() + dest@,
    {
        let mut m = String::from_str("destination already exists: ");
        m.append(dest.as_str());
        m
    }

    /// Takes the outcome of the disk work of a confirmed operation: a
    /// failure becomes the error shown.
    pub fn finish_operation(&mut self, outcome: Result<(), FsError>)
        ensures
            final(self).left == old(self).left,
            final(self).right == old(self).right,
            final(self).is_left_active == old(self).is_left_active,
            final(self).pending == old(self).pending,
            final(self).rename_input == old(self).rename_input,
            final(self).rename_character_index == old(self).rename_character_index,
            match outcome {
                Ok(_) => final(self).error == old(self).error,
                Err(e) => final(self).error is Some && final(self).error->Some_0@ == e.message@,
            },
    {
        if let Err(e) = outcome {
            self.error = Some(e.message);
        }
    }

    /// Shows a fresh listing of the active panel's directory: its selection
    /// and the quick-search text are cleared.
    pub fn reload_active(&mut self, entries: Vec<Item>)
        requires
            old(self).wf(),
        ensures
            keeps_modes(*old(self), *final(self)),
            final(self).wf(),
            final(self).is_left_active == old(self).is_left_active,
            final(self).inactive() == old(self).inactive(),
            final(self).active().directory == old(self).active().directory,
            final(self).active().entries@ == entries@,
            final(self).active().selection() == Set::<int>::empty(),
            final(self).search@.len() == 0,
            final(self).pending == old(self).pending,
            final(self).error == old(self).error,
    {
        if self.is_left_active {
            self.left.reload(entries);
        } else {
            self.right.reload(entries);
        }
        self.search = String::new();
    }

    /// Shows a fresh listing of the other panel's directory, clearing its
    /// selection.
    pub fn reload_inactive(&mut self, entries: Vec<Item>)
        requires
            old(self).wf(),
        ensures
            final(self).search == old(self).search,
            keeps_modes(*old(self), *final(self)),
            final(self).wf(),
            final(self).is_left_active == old(self).is_left_active,
            final(self).active() == old(self).active(),
            final(self).inactive().directory == old(self).inactive().directory,
            final(self).inactive().entries@ == entries@,
            final(self).inactive().selection() == Set::<int>::empty(),
            final(self).pending == old(self).pending,
            final(self).error == old(self).error,
    {
        if self.is_left_active {
            self.right.reload(entries);
        } else {
            self.left.reload(entries);
        }
    }

    /// Puts the active panel's cursor on the entry named `name`, if listed.
    pub fn select_entry(&mut self, name: &String)
        requires
            old(self).wf(),
        ensures
            final(self).search == old(self).search,
            keeps_modes(*old(self), *final(self)),
            final(self).wf(),
            final(self).is_left_active == old(self).is_left_active,
            final(self).inactive() == old(self).inactive(),
            final(self).active().entries == old(self).active().entries,
            final(self).active().selected == old(self).active().selected,
            final(self).active().directory == old(self).active().directory,
            crate::panel::has_entry(old(self).active().entries@, name@) ==> {
                let p = final(self).active();
                p.entries@[p.cursor as int].name_full@ == name@
            },
            !crate::panel::has_entry(old(self).active().entries@, name@) ==> {
                let p = final(self).active();
                p.cursor == old(self).active().cursor
            },
    {
        let found = if self.is_left_active {
            crate::panel::find_entry(&self.left.entries, name)
        } else {
            crate::panel::find_entry(&self.right.entries, name)
        };
        if let Some(i) = found {
            if self.is_left_active {
                self.left.set_cursor(i);
            } else {
                self.right.set_cursor(i);
            }
        }
    }

}

} // verus!
