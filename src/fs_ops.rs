use vstd::prelude::*;
use crate::listing::DirChild;
use crate::names::{join_path, join_path_exec};

verus! {

/// The kinds of filesystem failure that the engine tells apart.
#[derive(PartialEq, Eq, Structural, Clone, Copy, Debug)]
pub enum IoKind {
    NotFound,
    PermissionDenied,
    AlreadyExists,
    /// Source and destination lie on different filesystems.
    CrossDevice,
    Other,
}

/// A failed filesystem call: its kind and the message to show.
#[derive(Debug)]
pub struct FsError {
    pub kind: IoKind,
    pub message: String,
}

/// One filesystem call for the host to perform.
#[derive(Debug)]
pub enum FsAction {
    Rename { from: String, to: String },
    /// Copies a file by content, or a directory tree by recreating it.
    Copy { from: String, to: String, is_dir: bool },
    /// Removes a file, or a directory tree recursively.
    Delete { path: String, is_dir: bool },
    CreateDir { path: String },
}

/// Whether `a` renames `from` to `to`.
pub open spec fn is_rename(a: FsAction, from: Seq<char>, to: Seq<char>) -> bool {
    match a {
        FsAction::Rename { from: f, to: t } => f@ == from && t@ == to,
        _ => false,
    }
}

/// Whether `a` copies `from` to `to`.
pub open spec fn is_copy(a: FsAction, from: Seq<char>, to: Seq<char>, is_dir: bool) -> bool {
    match a {
        FsAction::Copy { from: f, to: t, is_dir: d } => f@ == from && t@ == to && d == is_dir,
        _ => false,
    }
}

/// Whether `a` deletes `path`.
pub open spec fn is_delete(a: FsAction, path: Seq<char>, is_dir: bool) -> bool {
    match a {
        FsAction::Delete { path: p, is_dir: d } => p@ == path && d == is_dir,
        _ => false,
    }
}

/// Where a move stands.
#[derive(PartialEq, Eq, Structural, Clone, Copy, Debug)]
pub enum MoveStage {
    /// The atomic rename has been asked for.
    Renaming,
    /// The rename crossed devices; the copy has been asked for.
    Copying,
    /// The copy succeeded; removal of the source has been asked for.
    Deleting,
    Finished,
}

/// What a move asks of the host next.
#[derive(Debug)]
pub enum MoveStep {
    /// Perform this call and report its outcome.
    Run(FsAction),
    /// The move is over, with this result.
    Done(Result<(), FsError>),
}

/// A move of `src` to `dest`: an atomic rename, or, across devices, a copy
/// followed by removal of the source.
pub struct MoveJob {
    pub src: String,
    pub dest: String,
    pub is_dir: bool,
    pub stage: MoveStage,
}

/// The text put before the removal error when a moved source could not be
/// removed after its copy.
pub open spec fn partial_move_prefix() -> Seq<char> {
    "copy succeeded, but the source could not be removed and still exists: "@
}

/// One entry to copy or move: where from, where to, and whether it is a
/// directory.
pub struct Transfer {
    pub src: String,
    pub dest: String,
    pub is_dir: bool,
}

/// A filesystem call, by its paths.
pub enum ActionView {
    Rename(Seq<char>, Seq<char>),
    Copy(Seq<char>, Seq<char>, bool),
    Delete(Seq<char>, bool),
    CreateDir(Seq<char>),
}

/// A step of a move: a call to perform, or the end with no failure
/// (`None`) or with a failure's kind and message.
pub enum StepView {
    Run(ActionView),
    Done(Option<(IoKind, Seq<char>)>),
}

pub open spec fn action_view(a: FsAction) -> ActionView {
    match a {
        FsAction::Rename { from, to } => ActionView::Rename(from@, to@),
        FsAction::Copy { from, to, is_dir } => ActionView::Copy(from@, to@, is_dir),
        FsAction::Delete { path, is_dir } => ActionView::Delete(path@, is_dir),
        FsAction::CreateDir { path } => ActionView::CreateDir(path@),
    }
}

/// The failure an outcome reports, if any.
pub open spec fn outcome_view(o: Result<(), FsError>) -> Option<(IoKind, Seq<char>)> {
    match o {
        Ok(_) => None,
        Err(e) => Some((e.kind, e.message@)),
    }
}

pub open spec fn step_view(s: MoveStep) -> StepView {
    match s {
        MoveStep::Run(a) => StepView::Run(action_view(a)),
        MoveStep::Done(r) => StepView::Done(outcome_view(r)),
    }
}

/// How a move of `src` to `dest` goes on from `stage` once the call last
/// asked for has failed with `failure`, or succeeded (`None`): the next
/// stage and what is asked next.
pub open spec fn move_next(
    stage: MoveStage,
    src: Seq<char>,
    dest: Seq<char>,
    is_dir: bool,
    failure: Option<(IoKind, Seq<char>)>,
) -> (MoveStage, StepView) {
    match (stage, failure) {
        (MoveStage::Renaming, None) => (MoveStage::Finished, StepView::Done(None)),
        (MoveStage::Renaming, Some((k, m))) => if k == IoKind::CrossDevice {
            (MoveStage::Copying, StepView::Run(ActionView::Copy(src, dest, is_dir)))
        } else {
            (MoveStage::Finished, StepView::Done(Some((k, m))))
        },
        (MoveStage::Copying, None) => (MoveStage::Deleting, StepView::Run(ActionView::Delete(src, is_dir))),
        (MoveStage::Copying, Some((k, m))) => (MoveStage::Finished, StepView::Done(Some((k, m)))),
        (_, None) => (MoveStage::Finished, StepView::Done(None)),
        (_, Some((k, m))) => (MoveStage::Finished, StepView::Done(Some((k, partial_move_prefix() + m)))),
    }
}

/// Whether `part` occurs in `s`.
pub open spec fn mentions(s: Seq<char>, part: Seq<char>) -> bool {
    exists|i: int| 0 <= i && i + part.len() <= s.len() && #[trigger] s.subrange(i, i + part.len()) == part
}

/// A rename that fails across devices turns into a copy, a successful copy
/// into removal of the source, and a failed removal into an error whose
/// message says that the copy succeeded and that the source still exists.
pub proof fn move_across_devices(
    src: Seq<char>,
    dest: Seq<char>,
    is_dir: bool,
    rename_message: Seq<char>,
    kind: IoKind,
    delete_message: Seq<char>,
)
    ensures
        move_next(MoveStage::Renaming, src, dest, is_dir, Some((IoKind::CrossDevice, rename_message)))
            == (MoveStage::Copying, StepView::Run(ActionView::Copy(src, dest, is_dir))),
        move_next(MoveStage::Copying, src, dest, is_dir, None) == (
            MoveStage::Deleting,
            StepView::Run(ActionView::Delete(src, is_dir)),
        ),
        move_next(MoveStage::Deleting, src, dest, is_dir, Some((kind, delete_message))) == (
            MoveStage::Finished,
            StepView::Done(Some((kind, partial_move_prefix() + delete_message))),
        ),
        mentions(partial_move_prefix() + delete_message, "copy succeeded"@),
        mentions(partial_move_prefix() + delete_message, "still exists"@),
{
    let m = partial_move_prefix() + delete_message;
    reveal_strlit("copy succeeded, but the source could not be removed and still exists: ");
    reveal_strlit("copy succeeded");
    reveal_strlit("still exists");
    let a = "copy succeeded"@;
    let b = "still exists"@;
    assert(m.subrange(0int, 0int + a.len()) =~= a);
    assert(m.subrange(56int, 56int + b.len()) =~= b);
    assert(mentions(m, a));
    assert(mentions(m, b));
}

impl MoveJob {
    /// Starts a move; the first call asked for is the rename.
    pub fn new(src: String, dest: String, is_dir: bool) -> (r: (MoveJob, FsAction))
        ensures
            r.0.src@ == src@,
            r.0.dest@ == dest@,
            r.0.is_dir == is_dir,
            r.0.stage == MoveStage::Renaming,
            is_rename(r.1, src@, dest@),
    {
        let action = FsAction::Rename { from: src.clone(), to: dest.clone() };
        (MoveJob { src, dest, is_dir, stage: MoveStage::Renaming }, action)
    }

    /// Takes the outcome of the call last asked for and decides what comes next.
    pub fn advance(&mut self, outcome: Result<(), FsError>) -> (r: MoveStep)
        requires
            old(self).stage != MoveStage::Finished,
        ensures
            final(self).src == old(self).src,
            final(self).dest == old(self).dest,
            final(self).is_dir == old(self).is_dir,
            (final(self).stage, step_view(r)) == move_next(
                old(self).stage,
                old(self).src@,
                old(self).dest@,
                old(self).is_dir,
                outcome_view(outcome),
            ),
    {
        match self.stage {
            MoveStage::Renaming => match outcome {
                Ok(()) => {
                    self.stage = MoveStage::Finished;
                    MoveStep::Done(Ok(()))
                },
                Err(e) => {
                    if e.kind == IoKind::CrossDevice {
                        self.stage = MoveStage::Copying;
                        MoveStep::Run(
                            FsAction::Copy {
                                from: self.src.clone(),
                                to: self.dest.clone(),
                                is_dir: self.is_dir,
                            },
                        )
                    } else {
                        self.stage = MoveStage::Finished;
                        MoveStep::Done(Err(e))
                    }
                },
            },
            MoveStage::Copying => match outcome {
                Ok(()) => {
                    self.stage = MoveStage::Deleting;
                    MoveStep::Run(FsAction::Delete { path: self.src.clone(), is_dir: self.is_dir })
                },
                Err(e) => {
                    self.stage = MoveStage::Finished;
                    MoveStep::Done(Err(e))
                },
            },
            _ => match outcome {
                Ok(()) => {
                    self.stage = MoveStage::Finished;
                    MoveStep::Done(Ok(()))
                },
                Err(e) => {
                    self.stage = MoveStage::Finished;
                    let mut message = String::from_str(
                        "copy succeeded, but the source could not be removed and still exists: ",
                    );
                    message.append(e.message.as_str());
                    MoveStep::Done(Err(FsError { kind: e.kind, message }))
                },
            },
        }
    }
}

/// A transfer as its source, destination and directory flag.
pub open spec fn transfer_view(t: Transfer) -> (Seq<char>, Seq<char>, bool) {
    (t.src@, t.dest@, t.is_dir)
}

/// A copy of a file or of a directory tree, as a worklist: each step copies
/// one file, or creates one directory whose children the host then lists
/// and hands back with `expand`. Entries come out depth first, in the order
/// in which they were listed. The host stops at the first failure; what was
/// copied stays.
pub struct CopyJob {
    /// What is still to be copied; the last element comes next.
    pub pending: Vec<Transfer>,
}

impl CopyJob {
    /// A copy of `src` to `dest`.
    pub fn new(src: String, dest: String, is_dir: bool) -> (r: CopyJob)
        ensures
            r.pending@.len() == 1,
            transfer_view(r.pending@[0]) == (src@, dest@, is_dir),
    {
        let mut pending: Vec<Transfer> = Vec::new();
        pending.push(Transfer { src, dest, is_dir });
        CopyJob { pending }
    }

    /// The next entry to copy: a file to stream, or a directory to create and
    /// list; `None` once the copy is complete.
    pub fn next(&mut self) -> (r: Option<Transfer>)
        ensures
            old(self).pending@.len() == 0 ==> r is None && final(self).pending@.len() == 0,
            old(self).pending@.len() > 0 ==> r == Some(old(self).pending@.last())
                && final(self).pending@ == old(self).pending@.drop_last(),
    {
        self.pending.pop()
    }

    /// Adds the children of the directory just created at `to` (a copy of
    /// `from`), to come next in the order given.
    pub fn expand(&mut self, from: &String, to: &String, children: Vec<DirChild>)
        ensures
            final(self).pending@.len() == old(self).pending@.len() + children@.len(),
            forall|i: int|
                0 <= i < old(self).pending@.len() ==> #[trigger] final(self).pending@[i] == old(
                    self,
                ).pending@[i],
            forall|k: int|
                0 <= k < children@.len() ==> transfer_view(
                    #[trigger] final(self).pending@[final(self).pending@.len() - 1 - k],
                ) == (
                    join_path(from@, children@[k].name@),
                    join_path(to@, children@[k].name@),
                    children@[k].is_dir,
                ),
    {
        let ghost base = self.pending@.len();
        let n = children.len();
        let mut i: usize = n;
        while i > 0
            invariant
                i <= n == children@.len(),
                self.pending@.len() == base + (n - i),
                forall|j: int| 0 <= j < base ==> #[trigger] self.pending@[j] == old(self).pending@[j],
                forall|k: int|
                    i <= k < n ==> transfer_view(#[trigger] self.pending@[base + (n - 1 - k)]) == (
                        join_path(from@, children@[k].name@),
                        join_path(to@, children@[k].name@),
                        children@[k].is_dir,
                    ),
            decreases i,
        {
            i -= 1;
            let c = &children[i];
            self.pending.push(
                Transfer {
                    src: join_path_exec(from, &c.name),
                    dest: join_path_exec(to, &c.name),
                    is_dir: c.is_dir,
                },
            );
        }
        proof {
            assert forall|k: int| 0 <= k < children@.len() implies transfer_view(
                #[trigger] self.pending@[self.pending@.len() - 1 - k],
            ) == (
                join_path(from@, children@[k].name@),
                join_path(to@, children@[k].name@),
                children@[k].is_dir,
            ) by {
                assert(self.pending@.len() - 1 - k == base + (n - 1 - k));
            }
        }
    }
}

/// A directory tree as far as it could be read: files with their sizes,
/// directories with their children, and subtrees whose reading failed.
pub enum SizeTree {
    File(u64),
    Dir(Vec<SizeTree>),
    Unreadable(IoKind),
}

/// The sum of the sizes of all readable files in a tree; an unreadable
/// subtree counts for nothing.
pub open spec fn tree_total(t: SizeTree) -> nat
    decreases t,
{
    match t {
        SizeTree::File(n) => n as nat,
        SizeTree::Dir(children) => forest_total(children@),
        SizeTree::Unreadable(_) => 0,
    }
}

/// The readable size of a sequence of trees.
pub open spec fn forest_total(s: Seq<SizeTree>) -> nat
    decreases s,
{
    if s.len() == 0 {
        0
    } else {
        forest_total(s.drop_last()) + tree_total(s.last())
    }
}

/// A subtree that could not be read adds nothing to the size of the
/// directory holding it.
pub proof fn unreadable_subtree_adds_nothing(children: Seq<SizeTree>, k: IoKind)
    ensures
        forest_total(children.push(SizeTree::Unreadable(k))) == forest_total(children),
{
    let s = children.push(SizeTree::Unreadable(k));
    assert(s.drop_last() =~= children);
    assert(s.last() == SizeTree::Unreadable(k));
    assert(tree_total(SizeTree::Unreadable(k)) == 0);
    assert(forest_total(s) == forest_total(s.drop_last()) + tree_total(s.last()));
}

/// `n`, or the largest `u64` where `n` exceeds it.
pub open spec fn saturate(n: nat) -> u64 {
    if n <= u64::MAX {
        n as u64
    } else {
        u64::MAX
    }
}

fn tree_size(t: &SizeTree) -> (r: u64)
    ensures
        r == saturate(tree_total(*t)),
    decreases t,
{
    match t {
        SizeTree::File(n) => *n,
        SizeTree::Unreadable(_) => 0,
        SizeTree::Dir(children) => {
            let mut sum: u64 = 0;
            let mut i: usize = 0;
            while i < children.len()
                invariant
                    *t is Dir,
                    (*t)->Dir_0 == *children,
                    i <= children@.len(),
                    sum == saturate(forest_total(children@.take(i as int))),
                decreases children.len() - i,
            {
                proof {
                    assert(children@.take(i + 1).drop_last() =~= children@.take(i as int));
                    assert(decreases_to!(*t => (*t)->Dir_0));
                    assert(decreases_to!(children@ => children@[i as int]));
                }
                let c = tree_size(&children[i]);
                sum = sum.saturating_add(c);
                i += 1;
            }
            proof {
                assert(children@.take(i as int) =~= children@);
            }
            sum
        },
    }
}

/// The total size of the files under a directory. A subdirectory that could
/// not be read is skipped; only a root that could not be read is an error.
pub fn directory_size(t: &SizeTree) -> (r: Result<u64, IoKind>)
    ensures
        match *t {
            SizeTree::Unreadable(k) => r == Err::<u64, IoKind>(k),
            _ => r == Ok::<u64, IoKind>(saturate(tree_total(*t))),
        },
{
    match t {
        SizeTree::Unreadable(k) => Err(*k),
        _ => Ok(tree_size(t)),
    }
}

} // verus!
