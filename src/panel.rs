use vstd::prelude::*;
use crate::listing::Item;
use crate::utils::{format_size, size_text};

verus! {

/// Whether an entry is the synthetic parent entry `..`.
pub open spec fn is_parent_entry(it: Item) -> bool {
    it.name_full@ == ".."@
}

fn parent_entry(it: &Item) -> (r: bool)
    ensures
        r == is_parent_entry(*it),
{
    it.name_full == String::from_str("..")
}

/// Where entering the entry under the cursor leads.
pub enum EnterTarget {
    /// Up to the parent directory.
    Parent,
    /// Down into the named child directory.
    Child(String),
    /// Nowhere: the entry is a file, or the panel is empty.
    Stay,
}

/// One directory browser: the directory shown, its entries, the cursor and
/// the selected entries.
pub struct Panel {
    pub directory: String,
    pub entries: Vec<Item>,
    pub cursor: usize,
    /// One flag per entry: whether it is selected.
    pub selected: Vec<bool>,
}

/// Whether some entry is named `name`.
pub open spec fn has_entry(entries: Seq<Item>, name: Seq<char>) -> bool {
    exists|i: int| 0 <= i < entries.len() && (#[trigger] entries[i]).name_full@ == name
}

/// The index of the first entry named `name`, or 0.
pub open spec fn anchor_index(entries: Seq<Item>, name: Seq<char>) -> int {
    if exists|i: int| 0 <= i < entries.len() && (#[trigger] entries[i]).name_full@ == name {
        choose|i: int|
            0 <= i < entries.len() && (#[trigger] entries[i]).name_full@ == name && forall|j: int|
                0 <= j < i ==> (#[trigger] entries[j]).name_full@ != name
    } else {
        0
    }
}

fn no_selection(n: usize) -> (r: Vec<bool>)
    ensures
        r@.len() == n,
        forall|i: int| 0 <= i < n ==> !(#[trigger] r@[i]),
{
    let mut v: Vec<bool> = Vec::new();
    let mut i: usize = 0;
    while i < n
        invariant
            i <= n,
            v@.len() == i,
            forall|k: int| 0 <= k < i ==> !(#[trigger] v@[k]),
        decreases n - i,
    {
        v.push(false);
        i += 1;
    }
    v
}

/// Finds the first entry named `name`.
pub fn find_entry(entries: &Vec<Item>, name: &String) -> (r: Option<usize>)
    ensures
        match r {
            Some(i) => i < entries@.len() && entries@[i as int].name_full@ == name@ && forall|j: int|
                0 <= j < i ==> (#[trigger] entries@[j]).name_full@ != name@,
            None => forall|j: int| 0 <= j < entries@.len() ==> (#[trigger] entries@[j]).name_full@ != name@,
        },
{
    let mut i: usize = 0;
    while i < entries.len()
        invariant
            i <= entries@.len(),
            forall|j: int| 0 <= j < i ==> (#[trigger] entries@[j]).name_full@ != name@,
        decreases entries.len() - i,
    {
        if entries[i].name_full == *name {
            return Some(i);
        }
        i += 1;
    }
    None
}

impl Panel {
    /// The panel's invariant: one selection flag per entry, and the cursor on
    /// an entry whenever there is one.
    pub open spec fn wf(&self) -> bool {
        &&& self.selected@.len() == self.entries@.len()
        &&& if self.entries@.len() > 0 {
            self.cursor < self.entries@.len()
        } else {
            self.cursor == 0
        }
    }

    /// The indices of the selected entries.
    pub open spec fn selection(&self) -> Set<int> {
        Set::new(|i: int| 0 <= i < self.selected@.len() && self.selected@[i])
    }

    /// A panel on `directory` that lists nothing yet.
    pub fn new(directory: String) -> (r: Panel)
        ensures
            r.wf(),
            r.directory@ == directory@,
            r.entries@.len() == 0,
            r.selection() == Set::<int>::empty(),
    {
        let r = Panel { directory, entries: Vec::new(), cursor: 0, selected: Vec::new() };
        assert(r.selection() =~= Set::<int>::empty());
        r
    }

    /// Shows a fresh listing of the same directory: the selection is
    /// cleared and the cursor kept where it still falls on an entry, else
    /// put on the last one.
    pub fn reload(&mut self, entries: Vec<Item>)
        ensures
            final(self).wf(),
            final(self).directory == old(self).directory,
            final(self).entries@ == entries@,
            final(self).selection() == Set::<int>::empty(),
            final(self).cursor == if old(self).cursor < entries@.len() {
                old(self).cursor as int
            } else if entries@.len() > 0 {
                entries@.len() - 1
            } else {
                0
            },
    {
        let n = entries.len();
        self.selected = no_selection(n);
        self.entries = entries;
        if self.cursor >= n {
            self.cursor = if n > 0 { n - 1 } else { 0 };
        }
        assert(self.selection() =~= Set::<int>::empty());
    }

    /// Shows the listing of a directory just moved to, with the cursor on the
    /// entry named `anchor` (the directory just left, when going up), else on
    /// the first entry. The selection is cleared.
    pub fn arrive(&mut self, directory: String, entries: Vec<Item>, anchor: Option<String>)
        ensures
            final(self).wf(),
            final(self).directory@ == directory@,
            final(self).entries@ == entries@,
            final(self).selection() == Set::<int>::empty(),
            final(self).cursor == match anchor {
                Some(a) => anchor_index(entries@, a@),
                None => 0,
            },
    {
        let n = entries.len();
        let cursor = match &anchor {
            Some(a) => match find_entry(&entries, a) {
                Some(i) => i,
                None => 0,
            },
            None => 0,
        };
        proof {
            if let Some(a) = anchor {
                if exists|i: int| 0 <= i < entries@.len() && (#[trigger] entries@[i]).name_full@ == a@ {
                    let c = anchor_index(entries@, a@);
                    if c != cursor as int {
                        if c < cursor {
                            assert(entries@[c].name_full@ != a@);
                        } else {
                            assert(entries@[cursor as int].name_full@ != a@);
                        }
                    }
                }
            }
        }
        self.directory = directory;
        self.selected = no_selection(n);
        self.entries = entries;
        self.cursor = cursor;
        assert(self.selection() =~= Set::<int>::empty());
    }

    /// Where entering the entry under the cursor leads.
    pub fn enter_target(&self) -> (r: EnterTarget)
        requires
            self.wf(),
        ensures
            self.entries@.len() == 0 ==> r is Stay,
            self.entries@.len() > 0 ==> {
                let it = self.entries@[self.cursor as int];
                if is_parent_entry(it) {
                    r is Parent
                } else if it.is_dir {
                    r is Child && r->Child_0@ == it.name_full@
                } else {
                    r is Stay
                }
            },
    {
        if self.entries.len() == 0 {
            return EnterTarget::Stay;
        }
        let it = &self.entries[self.cursor];
        if parent_entry(it) {
            EnterTarget::Parent
        } else if it.is_dir {
            EnterTarget::Child(it.name_full.clone())
        } else {
            EnterTarget::Stay
        }
    }

    /// Moves the cursor one entry down, from the last entry to the first.
    pub fn move_down(&mut self)
        requires
            old(self).wf(),
        ensures
            final(self).wf(),
            final(self).entries == old(self).entries,
            final(self).selected == old(self).selected,
            final(self).directory == old(self).directory,
            final(self).cursor == if old(self).cursor + 1 < old(self).entries@.len() {
                old(self).cursor + 1
            } else {
                0
            },
    {
        let n = self.entries.len();
        if n > 0 && self.cursor < n - 1 {
            self.cursor = self.cursor + 1;
        } else {
            self.cursor = 0;
        }
    }

    /// Moves the cursor one entry up, from the first entry to the last.
    pub fn move_up(&mut self)
        requires
            old(self).wf(),
        ensures
            final(self).wf(),
            final(self).entries == old(self).entries,
            final(self).selected == old(self).selected,
            final(self).directory == old(self).directory,
            final(self).cursor == if old(self).cursor > 0 {
                old(self).cursor - 1
            } else if old(self).entries@.len() > 0 {
                old(self).entries@.len() - 1
            } else {
                0
            },
    {
        if self.cursor > 0 {
            self.cursor = self.cursor - 1;
        } else if self.entries.len() > 0 {
            self.cursor = self.entries.len() - 1;
        }
    }

    /// Moves the cursor `page` entries down, stopping at the last entry.
    pub fn page_down(&mut self, page: usize)
        requires
            old(self).wf(),
        ensures
            final(self).wf(),
            final(self).entries == old(self).entries,
            final(self).selected == old(self).selected,
            final(self).directory == old(self).directory,
            final(self).cursor == if old(self).entries@.len() == 0 {
                0
            } else if old(self).cursor + page < old(self).entries@.len() {
                old(self).cursor + page
            } else {
                old(self).entries@.len() - 1
            },
    {
        let n = self.entries.len();
        if n > 0 {
            if page < n - self.cursor {
                self.cursor = self.cursor + page;
            } else {
                self.cursor = n - 1;
            }
        }
    }

    /// Moves the cursor `page` entries up, stopping at the first entry.
    pub fn page_up(&mut self, page: usize)
        requires
            old(self).wf(),
        ensures
            final(self).wf(),
            final(self).entries == old(self).entries,
            final(self).selected == old(self).selected,
            final(self).directory == old(self).directory,
            final(self).cursor == if old(self).cursor >= page {
                old(self).cursor - page
            } else {
                0
            },
    {
        if self.cursor >= page {
            self.cursor = self.cursor - page;
        } else {
            self.cursor = 0;
        }
    }

    /// Puts the cursor on the first entry.
    pub fn move_home(&mut self)
        requires
            old(self).wf(),
        ensures
            final(self).wf(),
            final(self).entries == old(self).entries,
            final(self).selected == old(self).selected,
            final(self).directory == old(self).directory,
            final(self).cursor == 0,
    {
        self.cursor = 0;
    }

    /// Puts the cursor on the last entry.
    pub fn move_end(&mut self)
        requires
            old(self).wf(),
        ensures
            final(self).wf(),
            final(self).entries == old(self).entries,
            final(self).selected == old(self).selected,
            final(self).directory == old(self).directory,
            final(self).cursor == if old(self).entries@.len() > 0 {
                old(self).entries@.len() - 1
            } else {
                0
            },
    {
        if self.entries.len() > 0 {
            self.cursor = self.entries.len() - 1;
        }
    }

    /// Puts the cursor on `index` where that is an entry.
    pub fn set_cursor(&mut self, index: usize)
        requires
            old(self).wf(),
        ensures
            final(self).wf(),
            final(self).entries == old(self).entries,
            final(self).selected == old(self).selected,
            final(self).directory == old(self).directory,
            final(self).cursor == if index < old(self).entries@.len() {
                index
            } else {
                old(self).cursor
            },
    {
        if index < self.entries.len() {
            self.cursor = index;
        }
    }

    /// Flips the selection of the entry under the cursor (never the parent
    /// entry) and moves the cursor one down, stopping at the last entry.
    /// Returns the name of a directory that has just been selected, whose
    /// size may then be computed.
    pub fn toggle_selection(&mut self) -> (r: Option<String>)
        requires
            old(self).wf(),
        ensures
            final(self).wf(),
            final(self).entries == old(self).entries,
            final(self).directory == old(self).directory,
            old(self).entries@.len() == 0 ==> final(self).selected == old(self).selected && r is None
                && final(self).cursor == old(self).cursor,
            old(self).entries@.len() > 0 ==> {
                let c = old(self).cursor as int;
                let it = old(self).entries@[c];
                &&& final(self).cursor == if c + 1 < old(self).entries@.len() {
                    c + 1
                } else {
                    c
                }
                &&& if is_parent_entry(it) {
                    final(self).selected == old(self).selected && r is None
                } else {
                    &&& final(self).selected@ == old(self).selected@.update(c, !old(self).selected@[c])
                    &&& if it.is_dir && !old(self).selected@[c] {
                        r is Some && r->Some_0@ == it.name_full@
                    } else {
                        r is None
                    }
                }
            },
    {
        let n = self.entries.len();
        if n == 0 {
            return None;
        }
        let c = self.cursor;
        let mut r: Option<String> = None;
        if !parent_entry(&self.entries[c]) {
            let now = !self.selected[c];
            self.selected.set(c, now);
            if now && self.entries[c].is_dir {
                r = Some(self.entries[c].name_full.clone());
            }
        }
        if c + 1 < n {
            self.cursor = c + 1;
        }
        r
    }

    /// Shows a computed size on the entry at `index`.
    pub fn set_size(&mut self, index: usize, bytes: u64)
        requires
            old(self).wf(),
        ensures
            final(self).wf(),
            final(self).directory == old(self).directory,
            final(self).cursor == old(self).cursor,
            final(self).selected == old(self).selected,
            final(self).entries@.len() == old(self).entries@.len(),
            forall|i: int|
                0 <= i < old(self).entries@.len() && i != index ==> #[trigger] final(self).entries@[i]
                    == old(self).entries@[i],
            index < old(self).entries@.len() ==> {
                let o = old(self).entries@[index as int];
                let e = final(self).entries@[index as int];
                &&& e.size_bytes == bytes
                &&& e.size@ == size_text(bytes as nat)
                &&& e.name_full == o.name_full
                &&& e.name == o.name
                &&& e.extension == o.extension
                &&& e.is_dir == o.is_dir
                &&& e.modified == o.modified
            },
    {
        if index < self.entries.len() {
            let old_item = &self.entries[index];
            let it = Item {
                name_full: old_item.name_full.clone(),
                name: old_item.name.clone(),
                extension: old_item.extension.clone(),
                is_dir: old_item.is_dir,
                size_bytes: bytes,
                size: format_size(bytes),
                modified: old_item.modified.clone(),
            };
            self.entries.set(index, it);
        }
    }
}

} // verus!
