use vstd::prelude::*;
use crate::app::{insert_char, keeps_modes, remove_before, AppState, PendingOperation};
use crate::navigation::{moved_cursor, next_match_cursor, prev_match_cursor, Motion};
use crate::panel::is_parent_entry;
use crate::operations::operation_targets;

verus! {

/// An input command, already decoded from keys or clicks.
#[derive(PartialEq, Eq, Structural, Clone, Copy, Debug)]
pub enum Command {
    Char(char),
    Backspace,
    Left,
    Right,
    Up,
    Down,
    PageUp,
    PageDown,
    Home,
    End,
    Enter,
    Esc,
    Tab,
    Help,
    Rename,
    View,
    Copy,
    Move,
    Create,
    Delete,
    /// Toggle the selection of the entry under the cursor.
    Select,
    NextMatch,
    PrevMatch,
    Quit,
}

/// What the host is to do after a command: the work that needs the disk
/// or the terminal.
#[derive(PartialEq, Eq, Structural, Clone, Copy, Debug)]
pub enum Request {
    Nothing,
    Quit,
    /// Confirm the pending operation (see `pending_destinations` and `confirm`).
    Confirm,
    /// Enter the entry under the cursor (see `enter_target`).
    Enter,
    /// Go up to the parent directory.
    GoUp,
    /// Open the entry under the cursor in the viewer.
    View,
    /// Toggle the selection (see `toggle_selection`).
    Select,
}

/// The request that `cmd` gives rise to in state `s`.
pub open spec fn request_for(s: AppState, cmd: Command) -> Request {
    if cmd == Command::Quit {
        Request::Quit
    } else if s.pending is Rename || s.pending is Create {
        if cmd == Command::Enter {
            Request::Confirm
        } else {
            Request::Nothing
        }
    } else if !(s.pending is Idle) {
        if cmd == Command::Enter || cmd == Command::Char('y') {
            Request::Confirm
        } else {
            Request::Nothing
        }
    } else if cmd == Command::Esc || cmd == Command::Help || s.error is Some || s.is_help_displayed {
        Request::Nothing
    } else if cmd == Command::Enter {
        Request::Enter
    } else if cmd == Command::View {
        Request::View
    } else if cmd == Command::Select {
        Request::Select
    } else if cmd == Command::Backspace && s.search@.len() == 0 {
        Request::GoUp
    } else {
        Request::Nothing
    }
}

/// The cursor movement that a command stands for, if any.
pub open spec fn motion_of(cmd: Command) -> Option<Motion> {
    match cmd {
        Command::Up => Some(Motion::Up),
        Command::Down => Some(Motion::Down),
        Command::PageUp => Some(Motion::PageUp),
        Command::PageDown => Some(Motion::PageDown),
        Command::Home => Some(Motion::Home),
        Command::End => Some(Motion::End),
        _ => None,
    }
}

impl AppState {
    /// Applies a command: edits the typed text while a rename or create is
    /// pending, confirms or cancels a pending removal, copy or move, and
    /// otherwise navigates, searches or starts an operation. What needs the
    /// disk or the terminal is returned as a request.
    pub fn handle_command(&mut self, cmd: Command) -> (r: Request)
        requires
            old(self).wf(),
        ensures
            final(self).wf(),
            r == request_for(*old(self), cmd),
            r != Request::Nothing ==> *final(self) == *old(self),
            (old(self).pending is Rename || old(self).pending is Create) && cmd != Command::Quit ==> {
                &&& final(self).left == old(self).left
                &&& final(self).right == old(self).right
                &&& final(self).is_left_active == old(self).is_left_active
                &&& (cmd != Command::Esc ==> final(self).is_help_displayed == old(self).is_help_displayed)
                &&& final(self).search == old(self).search
                &&& final(self).page_size == old(self).page_size
                &&& final(self).size_cache == old(self).size_cache
                &&& match cmd {
                    Command::Char(c) => final(self).rename_input@ == insert_char(
                        old(self).rename_input@,
                        old(self).rename_character_index as int,
                        c,
                    ) && final(self).pending == old(self).pending,
                    Command::Backspace => final(self).rename_input@ == remove_before(
                        old(self).rename_input@,
                        old(self).rename_character_index as int,
                    ) && final(self).pending == old(self).pending,
                    Command::Esc => final(self).pending is Idle && final(self).error is None,
                    _ => final(self).pending == old(self).pending,
                }
            },
            !(old(self).pending is Idle || old(self).pending is Rename || old(self).pending is Create)
                && cmd != Command::Quit ==> {
                &&& final(self).left == old(self).left
                &&& final(self).right == old(self).right
                &&& if cmd == Command::Esc || cmd == Command::Char('n') {
                    final(self).pending is Idle
                } else {
                    final(self).pending == old(self).pending
                }
            },
            old(self).pending is Idle && cmd != Command::Quit ==> {
                &&& (cmd == Command::Esc ==> final(self).pending is Idle && final(self).error is None
                    && !final(self).is_help_displayed && final(self).search@.len() == 0)
                &&& (cmd == Command::Help ==> final(self).is_help_displayed
                    == !old(self).is_help_displayed)
                &&& (motion_of(cmd) is Some ==> final(self).active().cursor == if old(
                    self,
                ).navigable() {
                    moved_cursor(old(self).active(), motion_of(cmd)->Some_0, old(self).page_size as int)
                } else {
                    old(self).active().cursor as int
                })
                &&& (cmd == Command::Tab && old(self).navigable() ==> final(self).is_left_active
                    == !old(self).is_left_active)
                &&& (old(self).navigable() && cmd is Char ==> final(self).search@ == old(
                    self,
                ).search@.push(cmd->Char_0))
                &&& (old(self).navigable() && cmd == Command::Copy ==> (operation_targets(
                    old(self).active(),
                ).len() > 0 <==> final(self).pending is Copy))
                &&& (old(self).navigable() && cmd == Command::Move ==> (operation_targets(
                    old(self).active(),
                ).len() > 0 <==> final(self).pending is Move))
                &&& (old(self).navigable() && cmd == Command::Delete ==> (operation_targets(
                    old(self).active(),
                ).len() > 0 <==> final(self).pending is Delete))
                &&& (old(self).navigable() && cmd == Command::Create ==> final(self).pending is Create)
                &&& (old(self).navigable() && cmd == Command::Rename ==> {
                    let p = old(self).active();
                    if p.entries@.len() > 0 && !is_parent_entry(p.entries@[p.cursor as int]) {
                        &&& final(self).pending == (PendingOperation::Rename { target: p.cursor })
                        &&& final(self).rename_input@ == p.entries@[p.cursor as int].name_full@
                        &&& final(self).rename_character_index == final(self).rename_input@.len()
                    } else {
                        final(self).pending is Idle
                    }
                })
                &&& (old(self).navigable() && cmd == Command::NextMatch ==> {
                    &&& keeps_modes(*old(self), *final(self))
                    &&& final(self).is_left_active == old(self).is_left_active
                    &&& final(self).inactive() == old(self).inactive()
                    &&& final(self).active().entries == old(self).active().entries
                    &&& final(self).active().directory == old(self).active().directory
                    &&& next_match_cursor(
                        old(self).active(),
                        final(self).active().cursor as int,
                        old(self).search@,
                    )
                })
                &&& (old(self).navigable() && cmd == Command::PrevMatch ==> {
                    &&& keeps_modes(*old(self), *final(self))
                    &&& final(self).is_left_active == old(self).is_left_active
                    &&& final(self).inactive() == old(self).inactive()
                    &&& final(self).active().entries == old(self).active().entries
                    &&& final(self).active().directory == old(self).active().directory
                    &&& prev_match_cursor(
                        old(self).active(),
                        final(self).active().cursor as int,
                        old(self).search@,
                    )
                })
                &&& (motion_of(cmd) is Some ==> {
                    &&& keeps_modes(*old(self), *final(self))
                    &&& final(self).search == old(self).search
                })
            },
    {
        if cmd == Command::Quit {
            return Request::Quit;
        }
        match self.pending {
            PendingOperation::Rename { .. } | PendingOperation::Create => {
                match cmd {
                    Command::Enter => {
                        return Request::Confirm;
                    },
                    Command::Esc => self.escape(),
                    Command::Char(c) => self.enter_char(c),
                    Command::Backspace => self.delete_char(),
                    Command::Left => self.move_cursor_left(),
                    Command::Right => self.move_cursor_right(),
                    Command::Home => self.rename_character_index = 0,
                    Command::End => {
                        self.rename_character_index = self.rename_input.as_str().unicode_len();
                    },
                    _ => {},
                }
                return Request::Nothing;
            },
            PendingOperation::Idle => {},
            _ => {
                if cmd == Command::Enter || cmd == Command::Char('y') {
                    return Request::Confirm;
                }
                if cmd == Command::Esc || cmd == Command::Char('n') {
                    self.escape();
                }
                return Request::Nothing;
            },
        }
        if cmd == Command::Esc {
            self.escape();
            self.search = String::new();
            return Request::Nothing;
        }
        if cmd == Command::Help {
            self.toggle_help();
            return Request::Nothing;
        }
        if !self.can_navigate() {
            return Request::Nothing;
        }
        match cmd {
            Command::Enter => Request::Enter,
            Command::View => Request::View,
            Command::Select => Request::Select,
            Command::Backspace => {
                if self.search.as_str().unicode_len() == 0 {
                    Request::GoUp
                } else {
                    self.search_backspace();
                    Request::Nothing
                }
            },
            Command::Up => {
                self.move_selection(Motion::Up);
                Request::Nothing
            },
            Command::Down => {
                self.move_selection(Motion::Down);
                Request::Nothing
            },
            Command::PageUp => {
                self.move_selection(Motion::PageUp);
                Request::Nothing
            },
            Command::PageDown => {
                self.move_selection(Motion::PageDown);
                Request::Nothing
            },
            Command::Home => {
                self.move_selection(Motion::Home);
                Request::Nothing
            },
            Command::End => {
                self.move_selection(Motion::End);
                Request::Nothing
            },
            Command::Tab => {
                self.switch_panel();
                Request::Nothing
            },
            Command::Rename => {
                self.begin_rename();
                Request::Nothing
            },
            Command::Copy => {
                self.begin_copy();
                Request::Nothing
            },
            Command::Move => {
                self.begin_move();
                Request::Nothing
            },
            Command::Create => {
                self.begin_create();
                Request::Nothing
            },
            Command::Delete => {
                self.begin_delete();
                Request::Nothing
            },
            Command::NextMatch => {
                self.search_next();
                Request::Nothing
            },
            Command::PrevMatch => {
                self.search_prev();
                Request::Nothing
            },
            Command::Char(c) => {
                self.add_search_char(c);
                Request::Nothing
            },
            _ => Request::Nothing,
        }
    }

}

} // verus!
