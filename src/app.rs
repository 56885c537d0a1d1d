use vstd::prelude::*;
use crate::fs_ops::Transfer;
use crate::listing::Item;
use crate::panel::Panel;
use crate::text::{chars_of, string_from_chars, utf8_size, utf8_width};

verus! {

/// An entry picked for an operation: its name in the active directory.
pub struct Target {
    pub name: String,
    pub is_dir: bool,
}

/// The one modal workflow in progress, if any. The text typed for a rename
/// or a create is kept in the state's input field.
pub enum PendingOperation {
    /// Nothing is pending.
    Idle,
    /// Renaming the entry at this index of the active panel.
    Rename { target: usize },
    Create,
    Delete { targets: Vec<Target> },
    Copy { items: Vec<Transfer> },
    Move { items: Vec<Transfer> },
}

/// The whole state of the file manager.
pub struct AppState {
    pub left: Panel,
    pub right: Panel,
    pub is_left_active: bool,
    pub pending: PendingOperation,
    pub is_help_displayed: bool,
    /// The error being shown, if any.
    pub error: Option<String>,
    /// The quick-search text of the active panel.
    pub search: String,
    /// The text being typed for a rename or a create.
    pub rename_input: String,
    /// The edit position in `rename_input`, in characters.
    pub rename_character_index: usize,
    /// Rows per page, for paging through a panel.
    pub page_size: usize,
    /// Directory sizes computed so far, by path; never invalidated.
    pub size_cache: Vec<(String, u64)>,
}

/// `n`, or the largest `usize` where `n` exceeds it.
pub open spec fn saturate_usize(n: int) -> int {
    if n <= usize::MAX {
        n
    } else {
        usize::MAX as int
    }
}

/// `s` with `c` put in at position `i`.
pub open spec fn insert_char(s: Seq<char>, i: int, c: char) -> Seq<char> {
    s.subrange(0, i) + seq![c] + s.subrange(i, s.len() as int)
}

/// `s` without the character before position `i` (unchanged at position 0).
pub open spec fn remove_before(s: Seq<char>, i: int) -> Seq<char> {
    if i == 0 {
        s
    } else {
        s.subrange(0, i - 1) + s.subrange(i, s.len() as int)
    }
}

/// Whether `b` keeps what `a` holds besides the panels and the quick
/// search: the pending operation, the error, the help flag, the typed text
/// and its edit position, the page size and the size cache.
pub open spec fn keeps_modes(a: AppState, b: AppState) -> bool {
    &&& b.pending == a.pending
    &&& b.error == a.error
    &&& b.is_help_displayed == a.is_help_displayed
    &&& b.rename_input == a.rename_input
    &&& b.rename_character_index == a.rename_character_index
    &&& b.page_size == a.page_size
    &&& b.size_cache == a.size_cache
}

impl AppState {
    /// The state's invariant: both panels well formed and the edit position
    /// inside the input.
    pub open spec fn wf(&self) -> bool {
        &&& self.left.wf()
        &&& self.right.wf()
        &&& self.rename_character_index <= self.rename_input@.len()
    }

    /// The panel that receives navigation and selection.
    pub open spec fn active(&self) -> Panel {
        if self.is_left_active {
            self.left
        } else {
            self.right
        }
    }

    /// The other panel: the destination of copies and moves.
    pub open spec fn inactive(&self) -> Panel {
        if self.is_left_active {
            self.right
        } else {
            self.left
        }
    }

    /// Both panels on `directory`, showing the listings `left` and `right`
    /// of it, each with the cursor on its second entry (the first below the
    /// parent entry) where there is one; the left panel active, nothing
    /// pending, no error.
    pub fn new(directory: String, left: Vec<Item>, right: Vec<Item>) -> (r: AppState)
        ensures
            r.wf(),
            r.left.directory@ == directory@,
            r.right.directory@ == directory@,
            r.left.entries@ == left@,
            r.right.entries@ == right@,
            r.left.cursor == if left@.len() > 1 { 1int } else { 0int },
            r.right.cursor == if right@.len() > 1 { 1int } else { 0int },
            r.left.selection() == Set::<int>::empty(),
            r.right.selection() == Set::<int>::empty(),
            r.is_left_active,
            r.pending is Idle,
            r.error is None,
            !r.is_help_displayed,
            r.search@.len() == 0,
            r.rename_input@.len() == 0,
            r.rename_character_index == 0,
            r.page_size == 0,
            r.size_cache@.len() == 0,
    {
        let other = directory.clone();
        let mut left_panel = Panel::new(directory);
        left_panel.reload(left);
        if left_panel.entries.len() > 1 {
            left_panel.set_cursor(1);
        }
        let mut right_panel = Panel::new(other);
        right_panel.reload(right);
        if right_panel.entries.len() > 1 {
            right_panel.set_cursor(1);
        }
        AppState {
            left: left_panel,
            right: right_panel,
            is_left_active: true,
            pending: PendingOperation::Idle,
            is_help_displayed: false,
            error: None,
            search: String::new(),
            rename_input: String::new(),
            rename_character_index: 0,
            page_size: 0,
            size_cache: Vec::new(),
        }
    }

    /// `pos`, kept inside the input.
    pub fn clamp_cursor(&self, new_cursor_pos: usize) -> (r: usize)
        ensures
            r == if new_cursor_pos <= self.rename_input@.len() {
                new_cursor_pos as int
            } else {
                self.rename_input@.len() as int
            },
    {
        let n = self.rename_input.as_str().unicode_len();
        if new_cursor_pos <= n {
            new_cursor_pos
        } else {
            n
        }
    }

    /// Moves the edit position one character left.
    pub fn move_cursor_left(&mut self)
        requires
            old(self).wf(),
        ensures
            final(self).page_size == old(self).page_size,
            final(self).size_cache == old(self).size_cache,
            final(self).is_help_displayed == old(self).is_help_displayed,
            final(self).left == old(self).left,
            final(self).right == old(self).right,
            final(self).is_left_active == old(self).is_left_active,
            final(self).pending == old(self).pending,
            final(self).error == old(self).error,
            final(self).search == old(self).search,
            final(self).wf(),
            final(self).rename_input == old(self).rename_input,
            final(self).rename_character_index == if old(self).rename_character_index > 0 {
                old(self).rename_character_index - 1
            } else {
                0
            },
    {
        let moved = self.rename_character_index.saturating_sub(1);
        self.rename_character_index = self.clamp_cursor(moved);
    }

    /// Moves the edit position one character right, stopping at the end.
    pub fn move_cursor_right(&mut self)
        requires
            old(self).wf(),
        ensures
            final(self).page_size == old(self).page_size,
            final(self).size_cache == old(self).size_cache,
            final(self).is_help_displayed == old(self).is_help_displayed,
            final(self).left == old(self).left,
            final(self).right == old(self).right,
            final(self).is_left_active == old(self).is_left_active,
            final(self).pending == old(self).pending,
            final(self).error == old(self).error,
            final(self).search == old(self).search,
            final(self).wf(),
            final(self).rename_input == old(self).rename_input,
            final(self).rename_character_index == if old(self).rename_character_index
                < old(self).rename_input@.len() {
                old(self).rename_character_index + 1
            } else {
                old(self).rename_character_index as int
            },
    {
        let n = self.rename_input.as_str().unicode_len();
        if self.rename_character_index < n {
            self.rename_character_index = self.rename_character_index + 1;
        }
    }

    /// Moves the edit position to the end of the input.
    pub fn move_cursor_end(&mut self)
        ensures
            final(self).rename_input == old(self).rename_input,
            final(self).rename_character_index == old(self).rename_input@.len(),
    {
        self.rename_character_index = self.rename_input.as_str().unicode_len();
    }

    /// The byte offset in the input of the edit position (the end of the
    /// input where the position lies past it).
    pub fn byte_index(&self) -> (r: usize)
        ensures
            r as int == saturate_usize(
                utf8_size(
                    self.rename_input@.subrange(
                        0,
                        if self.rename_character_index <= self.rename_input@.len() {
                            self.rename_character_index as int
                        } else {
                            self.rename_input@.len() as int
                        },
                    ),
                ) as int,
            ),
    {
        let chars = chars_of(self.rename_input.as_str());
        let end = if self.rename_character_index <= chars.len() {
            self.rename_character_index
        } else {
            chars.len()
        };
        let mut total: usize = 0;
        let mut i: usize = 0;
        while i < end
            invariant
                chars@ == self.rename_input@,
                i <= end <= chars@.len(),
                total as int == saturate_usize(utf8_size(chars@.subrange(0, i as int)) as int),
            decreases end - i,
        {
            assert(chars@.subrange(0, i + 1).drop_last() =~= chars@.subrange(0, i as int));
            total = total.saturating_add(utf8_width(chars[i]));
            i += 1;
        }
        total
    }

    /// Puts `new_char` in at the edit position and moves past it.
    pub fn enter_char(&mut self, new_char: char)
        requires
            old(self).wf(),
        ensures
            final(self).page_size == old(self).page_size,
            final(self).size_cache == old(self).size_cache,
            final(self).is_help_displayed == old(self).is_help_displayed,
            final(self).left == old(self).left,
            final(self).right == old(self).right,
            final(self).is_left_active == old(self).is_left_active,
            final(self).pending == old(self).pending,
            final(self).error == old(self).error,
            final(self).search == old(self).search,
            final(self).wf(),
            final(self).rename_input@ == insert_char(
                old(self).rename_input@,
                old(self).rename_character_index as int,
                new_char,
            ),
            final(self).rename_character_index == old(self).rename_character_index + 1,
    {
        let chars = chars_of(self.rename_input.as_str());
        let i = self.rename_character_index;
        let mut v: Vec<char> = Vec::new();
        let mut k: usize = 0;
        while k < chars.len()
            invariant
                i <= chars@.len(),
                k <= chars@.len(),
                v@ == if k <= i {
                    chars@.subrange(0, k as int)
                } else {
                    chars@.subrange(0, i as int) + seq![new_char] + chars@.subrange(i as int, k as int)
                },
            decreases chars.len() - k,
        {
            if k == i {
                v.push(new_char);
            }
            v.push(chars[k]);
            k += 1;
            assert(v@ =~= if k <= i {
                chars@.subrange(0, k as int)
            } else {
                chars@.subrange(0, i as int) + seq![new_char] + chars@.subrange(i as int, k as int)
            });
        }
        if i == chars.len() {
            v.push(new_char);
        }
        assert(v@ =~= insert_char(chars@, i as int, new_char));
        self.rename_input = string_from_chars(&v);
        self.move_cursor_right();
    }

    /// Removes the character before the edit position and moves left.
    pub fn delete_char(&mut self)
        requires
            old(self).wf(),
        ensures
            final(self).page_size == old(self).page_size,
            final(self).size_cache == old(self).size_cache,
            final(self).is_help_displayed == old(self).is_help_displayed,
            final(self).left == old(self).left,
            final(self).right == old(self).right,
            final(self).is_left_active == old(self).is_left_active,
            final(self).pending == old(self).pending,
            final(self).error == old(self).error,
            final(self).search == old(self).search,
            final(self).wf(),
            final(self).rename_input@ == remove_before(
                old(self).rename_input@,
                old(self).rename_character_index as int,
            ),
            final(self).rename_character_index == if old(self).rename_character_index > 0 {
                old(self).rename_character_index - 1
            } else {
                0
            },
    {
        let i = self.rename_character_index;
        if i == 0 {
            return;
        }
        let chars = chars_of(self.rename_input.as_str());
        let mut v: Vec<char> = Vec::new();
        let mut k: usize = 0;
        while k < chars.len()
            invariant
                0 < i <= chars@.len(),
                k <= chars@.len(),
                v@ == if k < i {
                    chars@.subrange(0, k as int)
                } else {
                    chars@.subrange(0, i - 1) + chars@.subrange(i as int, k as int)
                },
            decreases chars.len() - k,
        {
            if k != i - 1 {
                v.push(chars[k]);
            }
            k += 1;
            assert(v@ =~= if k < i {
                chars@.subrange(0, k as int)
            } else {
                chars@.subrange(0, i - 1) + chars@.subrange(i as int, k as int)
            });
        }
        self.rename_input = string_from_chars(&v);
        self.rename_character_index = i - 1;
    }

    /// Puts the edit position at the start of the input.
    pub fn reset_cursor(&mut self)
        ensures
            final(self).rename_input == old(self).rename_input,
            final(self).rename_character_index == 0,
    {
        self.rename_character_index = 0;
    }

    /// The input as shown while typing: an underscore marks the edit position.
    pub fn get_rename_input(&self) -> (r: String)
        requires
            self.wf(),
        ensures
            r@ == insert_char(self.rename_input@, self.rename_character_index as int, '_'),
    {
        let chars = chars_of(self.rename_input.as_str());
        let i = self.rename_character_index;
        let mut v: Vec<char> = Vec::new();
        let mut k: usize = 0;
        while k < chars.len()
            invariant
                i <= chars@.len(),
                k <= chars@.len(),
                v@ == if k <= i {
                    chars@.subrange(0, k as int)
                } else {
                    chars@.subrange(0, i as int) + seq!['_'] + chars@.subrange(i as int, k as int)
                },
            decreases chars.len() - k,
        {
            if k == i {
                v.push('_');
            }
            v.push(chars[k]);
            k += 1;
            assert(v@ =~= if k <= i {
                chars@.subrange(0, k as int)
            } else {
                chars@.subrange(0, i as int) + seq!['_'] + chars@.subrange(i as int, k as int)
            });
        }
        if i == chars.len() {
            v.push('_');
        }
        assert(v@ =~= insert_char(chars@, i as int, '_'));
        string_from_chars(&v)
    }

    /// Shows `message` as the current error.
    pub fn display_error(&mut self, message: String)
        ensures
            final(self).error is Some,
            final(self).error->Some_0@ == message@,
            final(self).left == old(self).left,
            final(self).right == old(self).right,
            final(self).is_left_active == old(self).is_left_active,
            final(self).rename_input == old(self).rename_input,
            final(self).rename_character_index == old(self).rename_character_index,
    {
        self.error = Some(message);
    }

    /// Dismisses the current error.
    pub fn reset_error(&mut self)
        ensures
            final(self).error is None,
            final(self).left == old(self).left,
            final(self).right == old(self).right,
            final(self).is_left_active == old(self).is_left_active,
            final(self).rename_input == old(self).rename_input,
            final(self).rename_character_index == old(self).rename_character_index,
    {
        self.error = None;
    }

    /// Clears the typed text and closes a rename or create.
    pub fn reset_rename(&mut self)
        requires
            old(self).wf(),
        ensures
            final(self).wf(),
            final(self).left == old(self).left,
            final(self).right == old(self).right,
            final(self).rename_input@.len() == 0,
            final(self).rename_character_index == 0,
            (old(self).pending is Rename || old(self).pending is Create) ==> final(self).pending is Idle,
            !(old(self).pending is Rename || old(self).pending is Create) ==> final(self).pending
                == old(self).pending,
    {
        self.rename_character_index = 0;
        self.rename_input = String::new();
        match self.pending {
            PendingOperation::Rename { .. } | PendingOperation::Create => {
                self.pending = PendingOperation::Idle;
            },
            _ => {},
        }
    }
}

} // verus!
