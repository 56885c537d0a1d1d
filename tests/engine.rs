use dinstachu::app::{AppState, PendingOperation};
use dinstachu::commands::{Command, Request};
use dinstachu::navigation::Motion;
use dinstachu::operations::Plan;
use dinstachu::fs_ops::{directory_size, CopyJob, FsAction, FsError, IoKind, MoveJob, MoveStage, MoveStep, SizeTree};
use dinstachu::listing::{item_from, lex_le_exec, load_directory_rows, DirChild, Item};
use dinstachu::panel::{EnterTarget, Panel};
use dinstachu::search::{jump_to_first_match, jump_to_next_match, jump_to_prev_match};
use dinstachu::utils::{format_size, limit_path_string};
use dinstachu::viewer::{detect_syntax, is_binary_content};
use dinstachu::viewport::{row_to_index, window};

fn child(name: &str, is_dir: bool, size: u64) -> DirChild {
    DirChild { name: name.to_string(), is_dir, size, modified: String::new() }
}

fn rows(names: &[(&str, bool)], has_parent: bool) -> Vec<Item> {
    load_directory_rows(names.iter().map(|(n, d)| child(n, *d, 10)).collect(), has_parent)
}

fn names(items: &[Item]) -> Vec<String> {
    items.iter().map(|i| i.name_full.clone()).collect()
}

fn state_with(left: &[(&str, bool)], right: &[(&str, bool)]) -> AppState {
    let mut s = AppState::new("/work/left".to_string(), Vec::new(), Vec::new());
    s.reload_active(rows(left, true));
    s.right.directory = "/work/right".to_string();
    s.reload_inactive(rows(right, true));
    s
}

fn err(kind: IoKind, message: &str) -> FsError {
    FsError { kind, message: message.to_string() }
}

#[test]
fn format_size_small_values() {
    assert_eq!(format_size(0), "0 B");
    assert_eq!(format_size(1), "1 B");
    assert_eq!(format_size(1023), "1023 B");
}

#[test]
fn format_size_scales_and_rounds() {
    assert_eq!(format_size(1024), "1 KiB");
    assert_eq!(format_size(1536), "2 KiB");
    assert_eq!(format_size(2560), "2 KiB");
    assert_eq!(format_size(3584), "4 KiB");
    assert_eq!(format_size(1048576), "1 MiB");
    assert_eq!(format_size(5 * 1073741824), "5 GiB");
    assert_eq!(format_size(1099511627776), "1 TiB");
    assert_eq!(format_size(u64::MAX), "16777216 TiB");
}

#[test]
fn limit_path_keeps_short_paths() {
    assert_eq!(limit_path_string("/home/user", 20), "/home/user");
    assert_eq!(limit_path_string("/home/user", 10), "/home/user");
    assert_eq!(limit_path_string("", 0), "");
}

#[test]
fn limit_path_never_splits_a_character() {
    assert_eq!(limit_path_string("aé", 1), "...");
    assert_eq!(limit_path_string("/x/€uro", 5), "...uro");
    assert_eq!(limit_path_string("/x/€uro", 6), "...€uro");
}

#[test]
fn limit_path_cuts_long_paths() {
    assert_eq!(limit_path_string("/home/user/projects", 8), "...projects");
    assert_eq!(limit_path_string("/home/user", 0), "...");
    assert_eq!(limit_path_string("/tmp/ñandú", 5), "...andú");
    assert_eq!(limit_path_string("/tmp/ñandú", 7), "...ñandú");
    assert_eq!(limit_path_string("aé", 2), "...é");
    assert_eq!(limit_path_string("aé", 3), "aé");
}

#[test]
fn detect_syntax_by_extension() {
    assert_eq!(detect_syntax("src/main.rs"), "Rust");
    assert_eq!(detect_syntax("/a/b/c.py"), "Python");
    assert_eq!(detect_syntax("app.jsx"), "JavaScript");
    assert_eq!(detect_syntax("x/y.tsx"), "TypeScript");
    assert_eq!(detect_syntax("Cargo.toml"), "TOML");
    assert_eq!(detect_syntax("conf.yml"), "YAML");
    assert_eq!(detect_syntax("lib.hpp"), "C++");
    assert_eq!(detect_syntax("main.c"), "C");
    assert_eq!(detect_syntax("index.html"), "HTML");
}

#[test]
fn detect_syntax_falls_back_to_plain_text() {
    assert_eq!(detect_syntax("README"), "Plain Text");
    assert_eq!(detect_syntax(".bashrc"), "Plain Text");
    assert_eq!(detect_syntax("archive.tar.gz"), "Plain Text");
    assert_eq!(detect_syntax("dir.rs/file"), "Plain Text");
    assert_eq!(detect_syntax("MAIN.RS"), "Plain Text");
}

#[test]
fn window_examples() {
    assert_eq!(window(0, 0, 5), (0, 0));
    assert_eq!(window(10, 0, 4), (0, 4));
    assert_eq!(window(10, 2, 4), (0, 4));
    assert_eq!(window(10, 5, 4), (3, 7));
    assert_eq!(window(10, 9, 4), (6, 10));
    assert_eq!(window(3, 1, 10), (0, 3));
    assert_eq!(window(100, 50, 21), (40, 61));
}

#[test]
fn window_holds_cursor_for_all_small_inputs() {
    for total in 0..30usize {
        for height in 1..35usize {
            let mut last_start = 0;
            for cursor in 0..total {
                let (start, end) = window(total, cursor, height);
                assert!(start <= cursor && cursor < end);
                assert_eq!(end - start, height.min(total));
                assert!(start >= last_start);
                last_start = start;
            }
        }
    }
}

#[test]
fn row_to_index_maps_screen_rows() {
    assert_eq!(row_to_index(10, 9, 4, 0), Some(6));
    assert_eq!(row_to_index(10, 9, 4, 3), Some(9));
    assert_eq!(row_to_index(10, 9, 4, 4), None);
    assert_eq!(row_to_index(3, 0, 10, 2), Some(2));
    assert_eq!(row_to_index(3, 0, 10, 3), None);
}

#[test]
fn listing_sorts_directories_first_then_files_by_extension() {
    let r = rows(
        &[("b.txt", false), ("Zeta", true), ("alpha", true), ("A.rs", false), ("c.TXT", false), ("readme", false)],
        true,
    );
    assert_eq!(names(&r), vec!["..", "alpha", "Zeta", "readme", "A.rs", "b.txt", "c.TXT"]);
}

#[test]
fn listing_without_parent_has_no_parent_entry() {
    let r = rows(&[("b", true), ("a", false)], false);
    assert_eq!(names(&r), vec!["b", "a"]);
    let empty = rows(&[], false);
    assert!(empty.is_empty());
    let only_parent = rows(&[], true);
    assert_eq!(names(&only_parent), vec![".."]);
}

#[test]
fn listing_builds_rows() {
    let r = load_directory_rows(vec![child("notes.md", false, 2048), child("src", true, 4096)], true);
    assert!(r[0].is_dir);
    assert_eq!(r[1].name, "src");
    assert_eq!(r[1].extension, "");
    assert_eq!(r[1].size, "<DIR>");
    assert_eq!(r[2].name_full, "notes.md");
    assert_eq!(r[2].name, "notes");
    assert_eq!(r[2].extension, "md");
    assert_eq!(r[2].size, "2 KiB");
    assert_eq!(r[2].size_bytes, 2048);
}

#[test]
fn listing_dotfiles_have_no_extension() {
    let r = rows(&[(".bashrc", false), ("a.b.c", false)], false);
    assert_eq!(names(&r), vec![".bashrc", "a.b.c"]);
    assert_eq!(r[0].name, ".bashrc");
    assert_eq!(r[0].extension, "");
    assert_eq!(r[1].name, "a.b");
    assert_eq!(r[1].extension, "c");
}

fn fruit() -> Vec<Item> {
    ["apple", "banana", "cherry", "avocado"].iter().map(|n| item_from(&child(n, false, 1))).collect()
}

#[test]
fn search_wraps_around() {
    let items = fruit();
    assert_eq!(names(&items), vec!["apple", "banana", "cherry", "avocado"]);
    assert_eq!(jump_to_next_match(&items, "a", 3), Some(0));
    assert_eq!(jump_to_prev_match(&items, "a", 0), Some(3));
    assert_eq!(jump_to_next_match(&items, "a", 0), Some(3));
}

#[test]
fn search_first_match_ignores_case() {
    let items = fruit();
    assert_eq!(jump_to_first_match(&items, "B"), Some(1));
    assert_eq!(jump_to_first_match(&items, "AV"), Some(3));
    assert_eq!(jump_to_first_match(&items, "z"), None);
    assert_eq!(jump_to_first_match(&items, ""), Some(0));
}

#[test]
fn search_without_match_keeps_cursor() {
    let items = fruit();
    assert_eq!(jump_to_next_match(&items, "x", 2), None);
    assert_eq!(jump_to_prev_match(&items, "x", 2), None);
    assert_eq!(jump_to_next_match(&items, "cherry", 2), Some(2));
}

#[test]
fn app_search_moves_cursor() {
    let mut s = AppState::new("/".to_string(), Vec::new(), Vec::new());
    s.reload_active(fruit());
    s.add_search_char('a');
    assert_eq!(s.left.cursor, 0);
    s.left.cursor = 3;
    s.search_next();
    assert_eq!(s.left.cursor, 0);
    s.search_prev();
    assert_eq!(s.left.cursor, 3);
    s.add_search_char('v');
    assert_eq!(s.search, "av");
    assert_eq!(s.left.cursor, 3);
    s.search_backspace();
    assert_eq!(s.search, "a");
    s.clear_search();
    assert_eq!(s.search, "");
    assert_eq!(s.left.cursor, 0);
}

#[test]
fn reload_clears_selection() {
    let mut s = state_with(&[("a", false), ("b", true)], &[]);
    s.move_selection(Motion::Down);
    assert!(s.toggle_selection().is_some());
    assert!(s.toggle_selection().is_none());
    assert_eq!(s.left.selected, vec![false, true, true]);
    s.add_search_char('b');
    s.reload_active(rows(&[("a", false), ("b", true), ("c", false)], true));
    assert!(s.left.selected.iter().all(|x| !*x));
    assert_eq!(s.left.selected.len(), 4);
    assert_eq!(s.search, "");
}

#[test]
fn panel_reload_clamps_cursor() {
    let mut p = Panel::new("/x".to_string());
    p.reload(rows(&[("a", false), ("b", false), ("c", false)], false));
    p.move_end();
    assert_eq!(p.cursor, 2);
    p.reload(rows(&[("a", false)], false));
    assert_eq!(p.cursor, 0);
    p.reload(Vec::new());
    assert_eq!(p.cursor, 0);
}

#[test]
fn toggle_selection_skips_parent_and_reports_directories() {
    let mut s = state_with(&[("docs", true), ("a.txt", false)], &[]);
    assert!(s.toggle_selection().is_none());
    assert!(!s.left.selected[0]);
    assert_eq!(s.left.cursor, 1);
    assert_eq!(s.toggle_selection(), Some((1, "/work/left/docs".to_string())));
    assert!(s.left.selected[1]);
    assert!(s.toggle_selection().is_none());
    assert!(s.left.selected[2]);
    assert_eq!(s.left.cursor, 2);
    assert!(s.toggle_selection().is_none());
    assert!(!s.left.selected[2]);
    assert_eq!(s.left.cursor, 2);
}

#[test]
fn size_cache_and_display() {
    let mut s = state_with(&[("docs", true)], &[]);
    assert_eq!(s.cached_size(&"/work/left/docs".to_string()), None);
    s.record_size(1, "/work/left/docs".to_string(), 3 * 1048576);
    assert_eq!(s.cached_size(&"/work/left/docs".to_string()), Some(3 * 1048576));
    assert_eq!(s.left.entries[1].size, "3 MiB");
}

#[test]
fn cursor_motions() {
    let mut s = state_with(&[("a", false), ("b", false), ("c", false)], &[]);
    s.move_selection(Motion::Up);
    assert_eq!(s.left.cursor, 3);
    s.move_selection(Motion::Down);
    assert_eq!(s.left.cursor, 0);
    s.page_size = 2;
    s.move_selection(Motion::PageDown);
    assert_eq!(s.left.cursor, 2);
    s.move_selection(Motion::PageDown);
    assert_eq!(s.left.cursor, 3);
    s.move_selection(Motion::PageUp);
    assert_eq!(s.left.cursor, 1);
    s.move_selection(Motion::Home);
    assert_eq!(s.left.cursor, 0);
    s.move_selection(Motion::End);
    assert_eq!(s.left.cursor, 3);
    s.display_error("boom".to_string());
    s.move_selection(Motion::Home);
    assert_eq!(s.left.cursor, 3);
    s.reset_error();
    s.switch_panel();
    assert!(!s.is_left_active);
}

#[test]
fn entering_and_leaving_directories() {
    let mut s = state_with(&[("inner", true), ("file.txt", false)], &[]);
    assert!(matches!(s.enter_target(), EnterTarget::Parent));
    s.move_selection(Motion::Down);
    match s.enter_target() {
        EnterTarget::Child(name) => assert_eq!(name, "inner"),
        _ => panic!("expected a child directory"),
    }
    s.move_selection(Motion::Down);
    assert!(matches!(s.enter_target(), EnterTarget::Stay));
    s.arrive("/work".to_string(), rows(&[("left", true), ("other", true)], true), Some("other".to_string()));
    assert_eq!(s.left.cursor, 2);
    assert_eq!(s.left.directory, "/work");
    s.arrive("/work/x".to_string(), rows(&[("q", true)], true), Some("missing".to_string()));
    assert_eq!(s.left.cursor, 0);
}

#[test]
fn rename_text_editing() {
    let mut s = state_with(&[("note.txt", false)], &[]);
    s.move_selection(Motion::Down);
    s.begin_rename();
    assert!(matches!(s.pending, PendingOperation::Rename { target: 1 }));
    assert_eq!(s.rename_input, "note.txt");
    assert_eq!(s.rename_character_index, 8);
    s.delete_char();
    s.delete_char();
    s.delete_char();
    s.enter_char('m');
    s.enter_char('d');
    assert_eq!(s.rename_input, "note.md");
    s.move_cursor_left();
    s.move_cursor_left();
    s.move_cursor_left();
    assert_eq!(s.get_rename_input(), "note_.md");
    s.reset_cursor();
    s.move_cursor_left();
    assert_eq!(s.rename_character_index, 0);
    s.delete_char();
    assert_eq!(s.rename_input, "note.md");
    s.move_cursor_end();
    s.move_cursor_right();
    assert_eq!(s.rename_character_index, 7);
    assert_eq!(s.clamp_cursor(99), 7);
    match s.confirm(&Vec::new()) {
        Plan::Rename { from, to } => {
            assert_eq!(from, "/work/left/note.txt");
            assert_eq!(to, "/work/left/note.md");
        }
        _ => panic!("expected a rename"),
    }
    assert!(matches!(s.pending, PendingOperation::Idle));
    assert_eq!(s.rename_input, "");
}

#[test]
fn byte_index_counts_utf8_bytes() {
    let mut s = AppState::new("/".to_string(), Vec::new(), Vec::new());
    s.begin_create();
    s.enter_char('é');
    s.enter_char('a');
    s.enter_char('€');
    assert_eq!(s.byte_index(), 6);
    s.move_cursor_left();
    assert_eq!(s.byte_index(), 3);
    s.reset_rename();
    assert!(matches!(s.pending, PendingOperation::Idle));
}

#[test]
fn rename_is_not_offered_on_parent_entry() {
    let mut s = state_with(&[("a", false)], &[]);
    s.begin_rename();
    assert!(matches!(s.pending, PendingOperation::Idle));
}

#[test]
fn create_with_empty_name_is_cancelled() {
    let mut s = state_with(&[], &[]);
    s.begin_create();
    assert!(matches!(s.confirm(&Vec::new()), Plan::Nothing));
    assert!(matches!(s.pending, PendingOperation::Idle));
    s.begin_create();
    s.enter_char('n');
    match s.confirm(&Vec::new()) {
        Plan::Create { path, name } => {
            assert_eq!(path, "/work/left/n");
            assert_eq!(name, "n");
        }
        _ => panic!("expected a create"),
    }
    s.reload_active(rows(&[("m", true), ("n", true)], true));
    s.select_entry(&"n".to_string());
    assert_eq!(s.left.cursor, 2);
}

#[test]
fn delete_plans_selected_items() {
    let mut s = state_with(&[("a", false), ("b", true), ("c", false)], &[]);
    s.move_selection(Motion::Down);
    s.toggle_selection();
    s.toggle_selection();
    s.begin_delete();
    match s.confirm(&Vec::new()) {
        Plan::Delete { removals } => {
            assert_eq!(removals.len(), 2);
            match &removals[0] {
                FsAction::Delete { path, is_dir } => {
                    assert_eq!(path, "/work/left/b");
                    assert!(*is_dir);
                }
                _ => panic!("expected a removal"),
            }
            match &removals[1] {
                FsAction::Delete { path, is_dir } => {
                    assert_eq!(path, "/work/left/a");
                    assert!(!*is_dir);
                }
                _ => panic!("expected a removal"),
            }
        }
        _ => panic!("expected deletes"),
    }
}

#[test]
fn delete_of_parent_entry_is_not_offered() {
    let mut s = state_with(&[("a", false)], &[]);
    s.begin_delete();
    assert!(matches!(s.pending, PendingOperation::Idle));
}

#[test]
fn copy_to_existing_destination_is_refused() {
    let mut s = state_with(&[("a.txt", false), ("b.txt", false)], &[("b.txt", false)]);
    s.move_selection(Motion::Down);
    s.toggle_selection();
    s.toggle_selection();
    s.begin_copy();
    let dests = s.pending_destinations();
    assert_eq!(dests, vec!["/work/right/a.txt", "/work/right/b.txt"]);
    let plan = s.confirm(&vec![false, true]);
    assert!(matches!(plan, Plan::Nothing));
    assert!(matches!(s.pending, PendingOperation::Idle));
    assert_eq!(s.error.as_deref(), Some("destination already exists: /work/right/b.txt"));
}

#[test]
fn move_to_existing_destination_is_refused() {
    let mut s = state_with(&[("a", true)], &[("a", true)]);
    s.move_selection(Motion::Down);
    s.begin_move();
    assert!(matches!(s.confirm(&vec![true]), Plan::Nothing));
    assert_eq!(s.error.as_deref(), Some("destination already exists: /work/right/a"));
}

#[test]
fn copy_and_move_plans() {
    let mut s = state_with(&[("a", true)], &[]);
    s.move_selection(Motion::Down);
    s.begin_copy();
    match s.confirm(&vec![false]) {
        Plan::Copy { copies } => match &copies[0] {
            FsAction::Copy { from, to, is_dir } => {
                assert_eq!(from, "/work/left/a");
                assert_eq!(to, "/work/right/a");
                assert!(*is_dir);
            }
            _ => panic!("expected a copy"),
        },
        _ => panic!("expected copies"),
    }
    s.begin_move();
    match s.confirm(&vec![false]) {
        Plan::Move { moves } => {
            assert_eq!(moves[0].src, "/work/left/a");
            assert_eq!(moves[0].dest, "/work/right/a");
        }
        _ => panic!("expected moves"),
    }
    assert!(s.error.is_none());
}

#[test]
fn escape_discards_pending_operation() {
    let mut s = state_with(&[("a", true)], &[]);
    s.move_selection(Motion::Down);
    s.begin_copy();
    s.display_error("x".to_string());
    s.toggle_help();
    s.escape();
    assert!(matches!(s.pending, PendingOperation::Idle));
    assert!(s.error.is_none());
    assert!(!s.is_help_displayed);
}

#[test]
fn failed_operation_becomes_error() {
    let mut s = AppState::new("/".to_string(), Vec::new(), Vec::new());
    s.finish_operation(Ok(()));
    assert!(s.error.is_none());
    s.finish_operation(Err(err(IoKind::PermissionDenied, "denied")));
    assert_eq!(s.error.as_deref(), Some("denied"));
}

#[test]
fn move_renames_when_possible() {
    let (mut job, first) = MoveJob::new("/a/x".to_string(), "/b/x".to_string(), false);
    match first {
        FsAction::Rename { from, to } => {
            assert_eq!(from, "/a/x");
            assert_eq!(to, "/b/x");
        }
        _ => panic!("expected a rename"),
    }
    assert!(matches!(job.advance(Ok(())), MoveStep::Done(Ok(()))));
    assert_eq!(job.stage, MoveStage::Finished);
}

#[test]
fn move_falls_back_to_copy_then_delete() {
    let (mut job, _) = MoveJob::new("/a/x".to_string(), "/mnt/x".to_string(), true);
    match job.advance(Err(err(IoKind::CrossDevice, "cross-device link"))) {
        MoveStep::Run(FsAction::Copy { from, to, is_dir }) => {
            assert_eq!(from, "/a/x");
            assert_eq!(to, "/mnt/x");
            assert!(is_dir);
        }
        _ => panic!("expected a copy"),
    }
    match job.advance(Ok(())) {
        MoveStep::Run(FsAction::Delete { path, is_dir }) => {
            assert_eq!(path, "/a/x");
            assert!(is_dir);
        }
        _ => panic!("expected a removal"),
    }
    match job.advance(Err(err(IoKind::PermissionDenied, "permission denied"))) {
        MoveStep::Done(Err(e)) => {
            assert_eq!(e.kind, IoKind::PermissionDenied);
            assert!(e.message.contains("copy succeeded"));
            assert!(e.message.contains("still exists"));
            assert!(e.message.ends_with("permission denied"));
        }
        _ => panic!("expected a failure"),
    }
}

#[test]
fn move_stops_on_other_errors() {
    let (mut job, _) = MoveJob::new("/a".to_string(), "/b".to_string(), false);
    match job.advance(Err(err(IoKind::NotFound, "gone"))) {
        MoveStep::Done(Err(e)) => assert_eq!(e.message, "gone"),
        _ => panic!("expected a failure"),
    }
    let (mut job, _) = MoveJob::new("/a".to_string(), "/b".to_string(), false);
    job.advance(Err(err(IoKind::CrossDevice, "xdev")));
    match job.advance(Err(err(IoKind::Other, "disk full"))) {
        MoveStep::Done(Err(e)) => assert_eq!(e.message, "disk full"),
        _ => panic!("expected a failure"),
    }
    let (mut job, _) = MoveJob::new("/a".to_string(), "/b".to_string(), false);
    job.advance(Err(err(IoKind::CrossDevice, "xdev")));
    job.advance(Ok(()));
    assert!(matches!(job.advance(Ok(())), MoveStep::Done(Ok(()))));
}

#[test]
fn directory_size_skips_unreadable_subdirectory() {
    let tree = SizeTree::Dir(vec![
        SizeTree::File(100),
        SizeTree::Dir(vec![SizeTree::File(20), SizeTree::File(3)]),
        SizeTree::Unreadable(IoKind::PermissionDenied),
        SizeTree::Dir(vec![SizeTree::Unreadable(IoKind::PermissionDenied), SizeTree::File(7)]),
    ]);
    assert_eq!(directory_size(&tree), Ok(130));
}

#[test]
fn directory_size_of_unreadable_root_is_an_error() {
    let tree = SizeTree::Unreadable(IoKind::PermissionDenied);
    assert_eq!(directory_size(&tree), Err(IoKind::PermissionDenied));
    assert_eq!(directory_size(&SizeTree::Dir(Vec::new())), Ok(0));
}

#[test]
fn directory_size_saturates() {
    let tree = SizeTree::Dir(vec![SizeTree::File(u64::MAX), SizeTree::File(5)]);
    assert_eq!(directory_size(&tree), Ok(u64::MAX));
}

#[test]
fn binary_content_detection() {
    assert!(!is_binary_content(b"fn main() {}\n"));
    assert!(!is_binary_content(b""));
    assert!(!is_binary_content("ñandú".as_bytes()));
    assert!(is_binary_content(&[b'a', 0, b'b']));
    assert!(is_binary_content(&[0xff, 0xfe, 0x41]));
}

#[test]
fn commands_route_by_pending_operation() {
    let mut s = state_with(&[("a.txt", false), ("b", true)], &[]);
    assert_eq!(s.handle_command(Command::Down), Request::Nothing);
    assert_eq!(s.left.cursor, 1);
    assert_eq!(s.handle_command(Command::Enter), Request::Enter);
    assert_eq!(s.handle_command(Command::Backspace), Request::GoUp);
    assert_eq!(s.handle_command(Command::Select), Request::Select);
    assert_eq!(s.handle_command(Command::View), Request::View);
    s.handle_command(Command::Rename);
    assert!(matches!(s.pending, PendingOperation::Rename { .. }));
    assert_eq!(s.handle_command(Command::Char('x')), Request::Nothing);
    assert_eq!(s.rename_input, "bx");
    assert_eq!(s.handle_command(Command::Down), Request::Nothing);
    assert_eq!(s.left.cursor, 1);
    assert_eq!(s.handle_command(Command::Enter), Request::Confirm);
    s.handle_command(Command::Esc);
    assert!(matches!(s.pending, PendingOperation::Idle));
    s.handle_command(Command::Delete);
    assert!(matches!(s.pending, PendingOperation::Delete { .. }));
    assert_eq!(s.handle_command(Command::Char('y')), Request::Confirm);
    assert_eq!(s.handle_command(Command::Char('n')), Request::Nothing);
    assert!(matches!(s.pending, PendingOperation::Idle));
    assert_eq!(s.handle_command(Command::Char('a')), Request::Nothing);
    assert_eq!(s.search, "a");
    assert_eq!(s.left.cursor, 2);
    assert_eq!(s.handle_command(Command::Backspace), Request::Nothing);
    assert_eq!(s.search, "");
    s.handle_command(Command::Help);
    assert_eq!(s.handle_command(Command::Enter), Request::Nothing);
    s.handle_command(Command::Esc);
    assert!(!s.is_help_displayed);
    assert_eq!(s.handle_command(Command::Tab), Request::Nothing);
    assert!(!s.is_left_active);
    assert_eq!(s.handle_command(Command::Quit), Request::Quit);
}

#[test]
fn copy_job_walks_depth_first_in_listing_order() {
    let mut job = CopyJob::new("/a/src".to_string(), "/b/src".to_string(), true);
    let first = job.next().unwrap();
    assert_eq!((first.src.as_str(), first.dest.as_str(), first.is_dir), ("/a/src", "/b/src", true));
    job.expand(&first.src, &first.dest, vec![child("sub", true, 0), child("f.txt", false, 0)]);
    let t = job.next().unwrap();
    assert_eq!((t.src.as_str(), t.dest.as_str(), t.is_dir), ("/a/src/sub", "/b/src/sub", true));
    job.expand(&t.src, &t.dest, vec![child("deep", false, 0)]);
    let t = job.next().unwrap();
    assert_eq!((t.src.as_str(), t.dest.as_str()), ("/a/src/sub/deep", "/b/src/sub/deep"));
    let t = job.next().unwrap();
    assert_eq!((t.src.as_str(), t.dest.as_str(), t.is_dir), ("/a/src/f.txt", "/b/src/f.txt", false));
    assert!(job.next().is_none());
}

#[test]
fn copy_job_of_a_file_is_one_step() {
    let mut job = CopyJob::new("x".to_string(), "/y/".to_string(), false);
    let t = job.next().unwrap();
    assert_eq!((t.src.as_str(), t.dest.as_str(), t.is_dir), ("x", "/y/", false));
    assert!(job.next().is_none());
}

#[test]
fn name_order_is_by_code_point() {
    let c = |s: &str| s.chars().collect::<Vec<char>>();
    assert!(lex_le_exec(&c("abc"), &c("abd")));
    assert!(!lex_le_exec(&c("abd"), &c("abc")));
    assert!(lex_le_exec(&c("ab"), &c("abc")));
    assert!(!lex_le_exec(&c("abc"), &c("ab")));
    assert!(lex_le_exec(&c(""), &c("")));
    assert!(lex_le_exec(&c("Z"), &c("a")));
}

#[test]
fn paths_join_at_the_root() {
    let mut s = AppState::new("/".to_string(), Vec::new(), Vec::new());
    s.reload_active(rows(&[("etc", true)], false));
    s.right.directory = "/mnt/".to_string();
    s.begin_copy();
    assert_eq!(s.pending_destinations(), vec!["/mnt/etc"]);
    match s.confirm(&vec![false]) {
        Plan::Copy { copies } => match &copies[0] {
            FsAction::Copy { from, .. } => assert_eq!(from, "/etc"),
            _ => panic!("expected a copy"),
        },
        _ => panic!("expected copies"),
    }
}

#[test]
fn new_state_starts_below_parent_entry() {
    let s = AppState::new("/work".to_string(), rows(&[("a", true), ("b", false)], true), rows(&[], true));
    assert_eq!(s.left.cursor, 1);
    assert_eq!(s.right.cursor, 0);
    assert_eq!(s.left.entries.len(), 3);
    assert!(s.is_left_active);
    assert!(!s.is_help_displayed);
    assert_eq!(s.page_size, 0);
    assert!(s.size_cache.is_empty());
    assert!(s.error.is_none());
}

#[test]
fn rename_with_empty_text_is_cancelled() {
    let mut s = state_with(&[("note.txt", false)], &[]);
    s.move_selection(Motion::Down);
    s.begin_rename();
    for _ in 0..8 {
        s.delete_char();
    }
    assert_eq!(s.rename_input, "");
    assert!(matches!(s.confirm(&Vec::new()), Plan::Nothing));
    assert!(matches!(s.pending, PendingOperation::Idle));
    assert_eq!(s.rename_character_index, 0);
}

#[test]
fn navigation_blocked_by_error_keeps_error() {
    let mut s = state_with(&[("a", false)], &[]);
    s.display_error("boom".to_string());
    s.move_selection(Motion::Down);
    s.switch_panel();
    assert_eq!(s.left.cursor, 0);
    assert!(s.is_left_active);
    assert_eq!(s.error.as_deref(), Some("boom"));
}
