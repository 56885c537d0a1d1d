use vstd::prelude::*;
use crate::app::{keeps_modes, AppState, PendingOperation};
use crate::listing::Item;
use crate::names::{join_path, join_path_exec};
use crate::panel::{is_parent_entry, EnterTarget, Panel};
use crate::search::{jump_to_first_match, jump_to_next_match, jump_to_prev_match, matches_query};
use crate::text::{chars_of, string_from_chars};

verus! {

/// A cursor movement in the active panel.
#[derive(PartialEq, Eq, Structural, Clone, Copy, Debug)]
pub enum Motion {
    /// One down, from the last entry to the first.
    Down,
    /// One up, from the first entry to the last.
    Up,
    /// A page down, stopping at the last entry.
    PageDown,
    /// A page up, stopping at the first entry.
    PageUp,
    Home,
    End,
}

/// Where `m` takes the cursor of `p`, with pages of `page` rows.
pub open spec fn moved_cursor(p: Panel, m: Motion, page: int) -> int {
    let n = p.entries@.len() as int;
    let c = p.cursor as int;
    match m {
        Motion::Down => if c + 1 < n {
            c + 1
        } else {
            0
        },
        Motion::Up => if c > 0 {
            c - 1
        } else if n > 0 {
            n - 1
        } else {
            0
        },
        Motion::PageDown => if n == 0 {
            0
        } else if c + page < n {
            c + page
        } else {
            n - 1
        },
        Motion::PageUp => if c >= page {
            c - page
        } else {
            0
        },
        Motion::Home => 0,
        Motion::End => if n > 0 {
            n - 1
        } else {
            0
        },
    }
}

/// Whether `c` is where a quick search for `query` leaves the cursor of
/// `p`: on the first matching entry, or where it was when none matches.
pub open spec fn first_match_cursor(p: Panel, c: int, query: Seq<char>) -> bool {
    if exists|t: int| 0 <= t < p.entries@.len() && matches_query(#[trigger] p.entries@[t], query) {
        &&& 0 <= c < p.entries@.len()
        &&& matches_query(p.entries@[c], query)
        &&& forall|j: int| 0 <= j < c ==> !matches_query(#[trigger] p.entries@[j], query)
    } else {
        c == p.cursor
    }
}

/// Whether `c` is where a search for `query` going round the list from
/// the cursor of `p` (entries after it first, the cursor itself last) leaves
/// the cursor: on the first match met, or where it was when none matches.
pub open spec fn next_match_cursor(p: Panel, c: int, query: Seq<char>) -> bool {
    let n = p.entries@.len() as int;
    if n > 0 && exists|t: int| 0 <= t < n && matches_query(#[trigger] p.entries@[t], query) {
        exists|k: int|
            1 <= k <= n && c == crate::search::step_forward(p.cursor as int, k, n) && matches_query(
                p.entries@[c],
                query,
            ) && forall|j: int|
                1 <= j < k ==> !matches_query(
                    #[trigger] p.entries@[crate::search::step_forward(p.cursor as int, j, n)],
                    query,
                )
    } else {
        c == p.cursor
    }
}

/// Whether `c` is where a search for `query` going round the list from
/// the cursor of `p` (entries before it first, the cursor itself last) leaves
/// the cursor: on the first match met, or where it was when none matches.
pub open spec fn prev_match_cursor(p: Panel, c: int, query: Seq<char>) -> bool {
    let n = p.entries@.len() as int;
    if n > 0 && exists|t: int| 0 <= t < n && matches_query(#[trigger] p.entries@[t], query) {
        exists|k: int|
            1 <= k <= n && c == crate::search::step_backward(p.cursor as int, k, n) && matches_query(
                p.entries@[c],
                query,
            ) && forall|j: int|
                1 <= j < k ==> !matches_query(
                    #[trigger] p.entries@[crate::search::step_backward(p.cursor as int, j, n)],
                    query,
                )
    } else {
        c == p.cursor
    }
}

impl AppState {
    /// Whether the panels take navigation: no operation pending, no error
    /// and no help shown.
    pub open spec fn navigable(&self) -> bool {
        self.pending is Idle && self.error is None && !self.is_help_displayed
    }

    pub(crate) fn can_navigate(&self) -> (r: bool)
        ensures
            r == self.navigable(),
    {
        let idle = match self.pending {
            PendingOperation::Idle => true,
            _ => false,
        };
        idle && self.error.is_none() && !self.is_help_displayed
    }

    /// Moves the active panel's cursor, where the panels take navigation.
    pub fn move_selection(&mut self, m: Motion)
        requires
            old(self).wf(),
        ensures
            keeps_modes(*old(self), *final(self)),
            final(self).search == old(self).search,
            final(self).wf(),
            final(self).is_left_active == old(self).is_left_active,
            final(self).inactive() == old(self).inactive(),
            final(self).active().entries == old(self).active().entries,
            final(self).active().selected == old(self).active().selected,
            final(self).active().directory == old(self).active().directory,
            final(self).pending == old(self).pending,
            final(self).active().cursor == if old(self).navigable() {
                moved_cursor(old(self).active(), m, old(self).page_size as int)
            } else {
                old(self).active().cursor as int
            },
    {
        if !self.can_navigate() {
            return;
        }
        let page = self.page_size;
        let p = if self.is_left_active {
            &mut self.left
        } else {
            &mut self.right
        };
        match m {
            Motion::Down => p.move_down(),
            Motion::Up => p.move_up(),
            Motion::PageDown => p.page_down(page),
            Motion::PageUp => p.page_up(page),
            Motion::Home => p.move_home(),
            Motion::End => p.move_end(),
        }
    }

    /// Makes the other panel the active one, where the panels take
    /// navigation; the quick-search text is cleared.
    pub fn switch_panel(&mut self)
        requires
            old(self).wf(),
        ensures
            keeps_modes(*old(self), *final(self)),
            final(self).wf(),
            final(self).left == old(self).left,
            final(self).right == old(self).right,
            final(self).pending == old(self).pending,
            old(self).navigable() ==> final(self).is_left_active == !old(self).is_left_active
                && final(self).search@.len() == 0,
            !old(self).navigable() ==> final(self).is_left_active == old(self).is_left_active,
    {
        if self.can_navigate() {
            self.is_left_active = !self.is_left_active;
            self.search = String::new();
        }
    }

    /// Shows or hides the help.
    pub fn toggle_help(&mut self)
        ensures
            final(self).is_help_displayed == !old(self).is_help_displayed,
            final(self).left == old(self).left,
            final(self).right == old(self).right,
            final(self).pending == old(self).pending,
            final(self).rename_input == old(self).rename_input,
            final(self).rename_character_index == old(self).rename_character_index,
    {
        self.is_help_displayed = !self.is_help_displayed;
    }

    /// Closes whatever is open: the error, the help and the pending
    /// operation, discarding typed text.
    pub fn escape(&mut self)
        requires
            old(self).wf(),
        ensures
            final(self).page_size == old(self).page_size,
            final(self).size_cache == old(self).size_cache,
            final(self).wf(),
            final(self).left == old(self).left,
            final(self).right == old(self).right,
            final(self).is_left_active == old(self).is_left_active,
            final(self).error is None,
            !final(self).is_help_displayed,
            final(self).pending is Idle,
            final(self).rename_input@.len() == 0,
            final(self).search == old(self).search,
    {
        self.error = None;
        self.is_help_displayed = false;
        self.pending = PendingOperation::Idle;
        self.rename_input = String::new();
        self.rename_character_index = 0;
    }

    /// Where entering the active panel's entry under the cursor leads, where
    /// the panels take navigation.
    pub fn enter_target(&self) -> (r: EnterTarget)
        requires
            self.wf(),
        ensures
            !self.navigable() || self.active().entries@.len() == 0 ==> r is Stay,
            self.navigable() && self.active().entries@.len() > 0 ==> {
                let p = self.active();
                let it = p.entries@[p.cursor as int];
                if is_parent_entry(it) {
                    r is Parent
                } else if it.is_dir {
                    r is Child && r->Child_0@ == it.name_full@
                } else {
                    r is Stay
                }
            },
    {
        if !self.can_navigate() {
            return EnterTarget::Stay;
        }
        if self.is_left_active {
            self.left.enter_target()
        } else {
            self.right.enter_target()
        }
    }

    /// Shows in the active panel the directory just moved to, with the cursor
    /// on the entry named `anchor` if given and listed; the selection and the
    /// quick-search text are cleared.
    pub fn arrive(&mut self, directory: String, entries: Vec<Item>, anchor: Option<String>)
        requires
            old(self).wf(),
        ensures
            keeps_modes(*old(self), *final(self)),
            final(self).wf(),
            final(self).is_left_active == old(self).is_left_active,
            final(self).inactive() == old(self).inactive(),
            final(self).active().directory@ == directory@,
            final(self).active().entries@ == entries@,
            final(self).active().selection() == Set::<int>::empty(),
            final(self).active().cursor == match anchor {
                Some(a) => crate::panel::anchor_index(entries@, a@),
                None => 0,
            },
            final(self).search@.len() == 0,
            final(self).pending == old(self).pending,
    {
        if self.is_left_active {
            self.left.arrive(directory, entries, anchor);
        } else {
            self.right.arrive(directory, entries, anchor);
        }
        self.search = String::new();
    }

    /// Flips the selection of the active panel's entry under the cursor and
    /// moves the cursor down. Where a directory has just been selected, gives
    /// its index and path, so that its size can be computed.
    pub fn toggle_selection(&mut self) -> (r: Option<(usize, String)>)
        requires
            old(self).wf(),
        ensures
            keeps_modes(*old(self), *final(self)),
            final(self).search == old(self).search,
            final(self).wf(),
            final(self).is_left_active == old(self).is_left_active,
            final(self).inactive() == old(self).inactive(),
            final(self).active().entries == old(self).active().entries,
            final(self).pending == old(self).pending,
            !old(self).navigable() ==> final(self).active() == old(self).active() && r is None,
            old(self).navigable() ==> {
                let p = old(self).active();
                let q = final(self).active();
                &&& q.cursor == if p.entries@.len() > 0 && p.cursor + 1 < p.entries@.len() {
                    p.cursor + 1
                } else {
                    p.cursor as int
                }
                &&& if p.entries@.len() > 0 && !is_parent_entry(p.entries@[p.cursor as int]) {
                    q.selected@ == p.selected@.update(p.cursor as int, !p.selected@[p.cursor as int])
                } else {
                    q.selected == p.selected
                }
                &&& match r {
                    Some(found) => {
                        &&& p.entries@.len() > 0
                        &&& found.0 == p.cursor
                        &&& p.entries@[p.cursor as int].is_dir
                        &&& !is_parent_entry(p.entries@[p.cursor as int])
                        &&& !p.selected@[p.cursor as int]
                        &&& found.1@ == join_path(
                            p.directory@,
                            p.entries@[p.cursor as int].name_full@,
                        )
                    },
                    None => !(p.entries@.len() > 0 && p.entries@[p.cursor as int].is_dir
                        && !is_parent_entry(p.entries@[p.cursor as int])
                        && !p.selected@[p.cursor as int]),
                }
            },
    {
        if !self.can_navigate() {
            return None;
        }
        let (c, name) = if self.is_left_active {
            (self.left.cursor, self.left.toggle_selection())
        } else {
            (self.right.cursor, self.right.toggle_selection())
        };
        match name {
            Some(n) => {
                let dir = if self.is_left_active {
                    &self.left.directory
                } else {
                    &self.right.directory
                };
                Some((c, join_path_exec(dir, &n)))
            },
            None => None,
        }
    }

    /// The size computed earlier for the directory at `path`, if any.
    pub fn cached_size(&self, path: &String) -> (r: Option<u64>)
        ensures
            match r {
                Some(n) => exists|i: int|
                    0 <= i < self.size_cache@.len() && (#[trigger] self.size_cache@[i]).0@ == path@
                        && self.size_cache@[i].1 == n,
                None => forall|i: int|
                    0 <= i < self.size_cache@.len() ==> (#[trigger] self.size_cache@[i]).0@ != path@,
            },
    {
        let mut i: usize = 0;
        while i < self.size_cache.len()
            invariant
                i <= self.size_cache@.len(),
                forall|k: int| 0 <= k < i ==> (#[trigger] self.size_cache@[k]).0@ != path@,
            decreases self.size_cache.len() - i,
        {
            if self.size_cache[i].0 == *path {
                return Some(self.size_cache[i].1);
            }
            i += 1;
        }
        None
    }

    /// Records the size computed for the directory at `path`, and shows it on
    /// the active panel's entry at `index`.
    pub fn record_size(&mut self, index: usize, path: String, bytes: u64)
        requires
            old(self).wf(),
        ensures
            final(self).wf(),
            final(self).is_left_active == old(self).is_left_active,
            final(self).inactive() == old(self).inactive(),
            final(self).active().cursor == old(self).active().cursor,
            final(self).active().selected == old(self).active().selected,
            final(self).size_cache@ == old(self).size_cache@.push((path, bytes)),
            final(self).active().entries@.len() == old(self).active().entries@.len(),
            index < old(self).active().entries@.len() ==> {
                let e = final(self).active().entries@[index as int];
                &&& e.size_bytes == bytes
                &&& e.size@ == crate::utils::size_text(bytes as nat)
                &&& e.name_full == old(self).active().entries@[index as int].name_full
            },
    {
        if self.is_left_active {
            self.left.set_size(index, bytes);
        } else {
            self.right.set_size(index, bytes);
        }
        self.size_cache.push((path, bytes));
    }

    fn jump_active(&mut self, to: Option<usize>)
        requires
            old(self).wf(),
            to is Some ==> to->Some_0 < old(self).active().entries@.len(),
        ensures
            keeps_modes(*old(self), *final(self)),
            final(self).active().directory == old(self).active().directory,
            final(self).wf(),
            final(self).is_left_active == old(self).is_left_active,
            final(self).inactive() == old(self).inactive(),
            final(self).active().entries == old(self).active().entries,
            final(self).active().selected == old(self).active().selected,
            final(self).active().directory == old(self).active().directory,
            final(self).pending == old(self).pending,
            final(self).search == old(self).search,
            final(self).active().cursor == match to {
                Some(i) => i,
                None => old(self).active().cursor,
            },
    {
        if let Some(i) = to {
            if self.is_left_active {
                self.left.set_cursor(i);
            } else {
                self.right.set_cursor(i);
            }
        }
    }

    /// Puts the active panel's cursor on the first entry that matches the
    /// quick-search text; leaves it where none does.
    fn jump_to_first(&mut self)
        requires
            old(self).wf(),
        ensures
            keeps_modes(*old(self), *final(self)),
            final(self).active().directory == old(self).active().directory,
            final(self).wf(),
            final(self).is_left_active == old(self).is_left_active,
            final(self).inactive() == old(self).inactive(),
            final(self).active().entries == old(self).active().entries,
            final(self).active().selected == old(self).active().selected,
            final(self).active().directory == old(self).active().directory,
            final(self).pending == old(self).pending,
            final(self).search == old(self).search,
            first_match_cursor(old(self).active(), final(self).active().cursor as int, old(self).search@),
    {
        let found = if self.is_left_active {
            jump_to_first_match(&self.left.entries, self.search.as_str())
        } else {
            jump_to_first_match(&self.right.entries, self.search.as_str())
        };
        self.jump_active(found);
    }

    /// Adds a character to the quick-search text and jumps to the first match.
    pub fn add_search_char(&mut self, c: char)
        requires
            old(self).wf(),
        ensures
            keeps_modes(*old(self), *final(self)),
            final(self).active().directory == old(self).active().directory,
            final(self).wf(),
            final(self).search@ == old(self).search@.push(c),
            final(self).is_left_active == old(self).is_left_active,
            final(self).inactive() == old(self).inactive(),
            final(self).active().entries == old(self).active().entries,
            final(self).active().selected == old(self).active().selected,
            first_match_cursor(old(self).active(), final(self).active().cursor as int, final(self).search@),
    {
        let mut v = chars_of(self.search.as_str());
        v.push(c);
        self.search = string_from_chars(&v);
        self.jump_to_first();
    }

    /// Removes the last character of the quick-search text and jumps to the
    /// first match.
    pub fn search_backspace(&mut self)
        requires
            old(self).wf(),
        ensures
            keeps_modes(*old(self), *final(self)),
            final(self).active().directory == old(self).active().directory,
            final(self).wf(),
            final(self).search@ == if old(self).search@.len() > 0 {
                old(self).search@.drop_last()
            } else {
                old(self).search@
            },
            final(self).is_left_active == old(self).is_left_active,
            final(self).inactive() == old(self).inactive(),
            final(self).active().entries == old(self).active().entries,
            final(self).active().selected == old(self).active().selected,
            first_match_cursor(old(self).active(), final(self).active().cursor as int, final(self).search@),
    {
        let mut v = chars_of(self.search.as_str());
        if v.len() > 0 {
            v.pop();
        }
        self.search = string_from_chars(&v);
        self.jump_to_first();
    }

    /// Clears the quick-search text; the cursor stays.
    pub fn clear_search(&mut self)
        ensures
            final(self).search@.len() == 0,
            final(self).left == old(self).left,
            final(self).right == old(self).right,
            final(self).is_left_active == old(self).is_left_active,
            final(self).pending == old(self).pending,
    {
        self.search = String::new();
    }

    /// Jumps to the next entry after the cursor that matches the
    /// quick-search text, going round once; the cursor stays where none does.
    pub fn search_next(&mut self)
        requires
            old(self).wf(),
        ensures
            keeps_modes(*old(self), *final(self)),
            final(self).active().directory == old(self).active().directory,
            final(self).wf(),
            final(self).search == old(self).search,
            final(self).is_left_active == old(self).is_left_active,
            final(self).inactive() == old(self).inactive(),
            final(self).active().entries == old(self).active().entries,
            final(self).active().selected == old(self).active().selected,
            next_match_cursor(old(self).active(), final(self).active().cursor as int, old(self).search@),
    {
        let n = if self.is_left_active {
            self.left.entries.len()
        } else {
            self.right.entries.len()
        };
        if n == 0 {
            return;
        }
        let found = if self.is_left_active {
            jump_to_next_match(&self.left.entries, self.search.as_str(), self.left.cursor)
        } else {
            jump_to_next_match(&self.right.entries, self.search.as_str(), self.right.cursor)
        };
        proof {
            if let Some(i) = found {
                let k = choose|k: int|
                    1 <= k <= n && i == crate::search::step_forward(self.active().cursor as int, k, n as int)
                        && matches_query(self.active().entries@[i as int], self.search@) && forall|j: int|
                        1 <= j < k ==> !matches_query(
                            #[trigger] self.active().entries@[crate::search::step_forward(self.active().cursor as int, j, n as int)],
                            self.search@,
                        );
                assert(matches_query(self.active().entries@[i as int], self.search@));
            }
        }
        self.jump_active(found);
    }

    /// Jumps to the previous entry before the cursor that matches the
    /// quick-search text, going round once; the cursor stays where none does.
    pub fn search_prev(&mut self)
        requires
            old(self).wf(),
        ensures
            keeps_modes(*old(self), *final(self)),
            final(self).active().directory == old(self).active().directory,
            final(self).wf(),
            final(self).search == old(self).search,
            final(self).is_left_active == old(self).is_left_active,
            final(self).inactive() == old(self).inactive(),
            final(self).active().entries == old(self).active().entries,
            final(self).active().selected == old(self).active().selected,
            prev_match_cursor(old(self).active(), final(self).active().cursor as int, old(self).search@),
    {
        let n = if self.is_left_active {
            self.left.entries.len()
        } else {
            self.right.entries.len()
        };
        if n == 0 {
            return;
        }
        let found = if self.is_left_active {
            jump_to_prev_match(&self.left.entries, self.search.as_str(), self.left.cursor)
        } else {
            jump_to_prev_match(&self.right.entries, self.search.as_str(), self.right.cursor)
        };
        proof {
            if let Some(i) = found {
                let k = choose|k: int|
                    1 <= k <= n && i == crate::search::step_backward(self.active().cursor as int, k, n as int)
                        && matches_query(self.active().entries@[i as int], self.search@) && forall|j: int|
                        1 <= j < k ==> !matches_query(
                            #[trigger] self.active().entries@[crate::search::step_backward(self.active().cursor as int, j, n as int)],
                            self.search@,
                        );
                assert(matches_query(self.active().entries@[i as int], self.search@));
            }
        }
        self.jump_active(found);
    }

}

} // verus!
