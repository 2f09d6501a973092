use onyx::filesystem::modify::Mutation;
use onyx::filesystem::read::{
    finish_fallback, read_with_fallback, BrowseError, File, FileKind, Listing, ReadRes, ReadStep,
};
use onyx::input::{InputResult, ModeKind, ModifyMode};
use onyx::navigation::{Action, ReadPlan};
use onyx::state::{InfoKind, Mode, SortMode, State};

fn entry(dir: &str, name: &str, kind: FileKind) -> File {
    File::new(format!("{}/{}", dir, name), kind, name.to_string())
}

fn listing(path: &str, names: &[(&str, FileKind)]) -> Listing {
    Listing {
        path: path.to_string(),
        files: names.iter().map(|(n, k)| entry(path, n, *k)).collect(),
    }
}

fn browsing(path: &str, names: &[(&str, FileKind)]) -> State {
    let mut s = State::new(path.to_string());
    s.apply_read(ReadRes::Read(listing(path, names)));
    s
}

fn not_readable(path: &str) -> BrowseError {
    BrowseError::NotReadable { path: path.to_string(), cause: "No such file or directory".to_string() }
}

#[test]
fn first_step_reads_with_fallback_then_directly() {
    let mut s = State::new("/home/u".to_string());
    assert_eq!(
        s.read_plan(),
        ReadPlan::WithFallback { path: "/home/u".to_string(), fallback: "./".to_string() }
    );
    s.apply_read(ReadRes::Read(listing("/home/u", &[("a", FileKind::File)])));
    assert_eq!(s.read_plan(), ReadPlan::Direct("/home/u".to_string()));
    assert_eq!(s.last_path, "/home/u");
}

#[test]
fn missing_path_falls_back_with_error() {
    let step = read_with_fallback(Err(not_readable("/gone")), "./".to_string());
    let (error, path) = match step {
        ReadStep::Fallback { error, path } => (error, path),
        ReadStep::Done(_) => panic!("expected a fallback"),
    };
    assert_eq!(path, "./");
    let res = finish_fallback(error, Ok(listing("/home/u", &[("x", FileKind::Dir)]))).unwrap();
    match res {
        ReadRes::FallBack { error, files } => {
            assert!(matches!(error, BrowseError::NotReadable { .. }));
            assert_eq!(files.path, "/home/u");
            assert_eq!(files.files.len(), 1);
        }
        ReadRes::Read(_) => panic!("expected a fallback result"),
    }
}

#[test]
fn unreadable_fallback_is_fatal() {
    let step = read_with_fallback(Err(not_readable("/gone")), "./".to_string());
    let error = match step {
        ReadStep::Fallback { error, .. } => error,
        ReadStep::Done(_) => panic!("expected a fallback"),
    };
    let res = finish_fallback(error, Err(not_readable("./")));
    assert!(matches!(res, Err(BrowseError::FatalRead { .. })));
}

#[test]
fn readable_path_is_read() {
    let step = read_with_fallback(Ok(listing("/a", &[("f", FileKind::File)])), "./".to_string());
    assert!(matches!(step, ReadStep::Done(ReadRes::Read(_))));
}

#[test]
fn fallback_moves_to_fallback_and_reports() {
    let mut s = State::new("/gone".to_string());
    s.apply_read(ReadRes::FallBack {
        error: not_readable("/gone"),
        files: listing("/home/u", &[("a", FileKind::File)]),
    });
    assert_eq!(s.path, "/home/u");
    assert_eq!(s.last_path, "/home/u");
    assert_eq!(s.info.len(), 1);
    assert!(matches!(s.info[0].kind, InfoKind::Error(BrowseError::NotReadable { .. })));
}

#[test]
fn failed_direct_read_reports_and_reads_with_fallback_next() {
    let mut s = browsing("/a", &[("f", FileKind::File)]);
    s.apply_direct(Err(not_readable("/a")));
    assert_eq!(s.info.len(), 1);
    assert_eq!(s.files.files.len(), 1);
    assert!(matches!(s.read_plan(), ReadPlan::WithFallback { .. }));
}

#[test]
fn selection_stays_in_range_on_empty_listing() {
    let mut s = browsing("/empty", &[]);
    s.handle_input(InputResult::MoveDown);
    assert_eq!(s.selected, 0);
    s.handle_input(InputResult::MoveUp);
    assert_eq!(s.selected, 0);
    s.handle_input(InputResult::MoveUp);
    assert_eq!(s.selected, 0);
}

#[test]
fn selection_stops_at_both_ends() {
    let mut s = browsing("/a", &[("x", FileKind::File), ("y", FileKind::File), ("z", FileKind::File)]);
    for _ in 0..5 {
        s.handle_input(InputResult::MoveDown);
    }
    assert_eq!(s.selected, 2);
    s.handle_input(InputResult::MoveUp);
    assert_eq!(s.selected, 1);
    for _ in 0..5 {
        s.handle_input(InputResult::MoveUp);
    }
    assert_eq!(s.selected, 0);
}

#[test]
fn refresh_clamps_selection_to_shorter_listing() {
    let mut s = browsing("/a", &[("x", FileKind::File), ("y", FileKind::File), ("z", FileKind::File)]);
    s.handle_input(InputResult::MoveDown);
    s.handle_input(InputResult::MoveDown);
    s.apply_direct(Ok(listing("/a", &[("x", FileKind::File)])));
    assert_eq!(s.selected, 0);
    s.apply_direct(Ok(listing("/a", &[])));
    assert_eq!(s.selected, 0);
}

#[test]
fn entering_a_directory_moves_there() {
    let mut s = browsing("/a", &[("f", FileKind::File), ("sub", FileKind::Dir)]);
    s.handle_input(InputResult::MoveDown);
    let action = s.handle_input(InputResult::EnterFolder);
    assert_eq!(action, Action::Resolve("/a/sub".to_string()));
    s.enter_folder(Ok(FileKind::Dir));
    assert_eq!(s.path, "/a/sub");
    assert_eq!(s.selected, 0);
}

#[test]
fn entering_a_link_to_a_directory_moves_there() {
    let mut s = browsing("/a", &[("link", FileKind::Symlink)]);
    s.enter_folder(Ok(FileKind::Dir));
    assert_eq!(s.path, "/a/link");
}

#[test]
fn entering_a_file_changes_nothing() {
    let mut s = browsing("/a", &[("f", FileKind::File), ("link", FileKind::Symlink)]);
    s.enter_folder(Ok(FileKind::File));
    assert_eq!(s.path, "/a");
    s.handle_input(InputResult::MoveDown);
    s.enter_folder(Ok(FileKind::File));
    assert_eq!(s.path, "/a");
    assert_eq!(s.selected, 1);
}

#[test]
fn entering_a_deleted_directory_reports_and_keeps_selection() {
    let mut s = browsing("/a", &[("f", FileKind::File), ("gone", FileKind::Dir)]);
    s.handle_input(InputResult::MoveDown);
    let error = BrowseError::Resolution {
        path: "/a/gone".to_string(),
        cause: "No such file or directory".to_string(),
    };
    s.enter_folder(Err(error));
    assert_eq!(s.path, "/a");
    assert_eq!(s.selected, 1);
    assert_eq!(s.info.len(), 1);
    assert!(matches!(s.info[0].kind, InfoKind::Error(BrowseError::Resolution { .. })));
}

#[test]
fn entering_with_nothing_listed_asks_for_nothing() {
    let mut s = browsing("/a", &[]);
    assert_eq!(s.handle_input(InputResult::EnterFolder), Action::Nothing);
}

#[test]
fn going_back_pops_a_segment() {
    let mut s = browsing("/a/b", &[("f", FileKind::File), ("g", FileKind::File)]);
    s.handle_input(InputResult::MoveDown);
    s.handle_input(InputResult::GoBack);
    assert_eq!(s.path, "/a");
    assert_eq!(s.selected, 0);
}

#[test]
fn search_mode_sets_and_clears_fuzzy_filter() {
    let mut s = browsing("/a", &[("a.txt", FileKind::File), ("b.md", FileKind::File)]);
    s.handle_input(InputResult::ModeChange(ModeKind::Search));
    assert_eq!(s.files.sort_mode, SortMode::Fuzzy);
    s.handle_input(InputResult::ModifyMode(ModifyMode::PushChar('t')));
    s.handle_input(InputResult::ModifyMode(ModifyMode::PushChar('x')));
    assert_eq!(s.mode, Mode::Search("tx".to_string()));
    assert_eq!(s.files.input, "tx");
    s.handle_input(InputResult::ModifyMode(ModifyMode::PopChar));
    assert_eq!(s.files.input, "t");
    s.handle_input(InputResult::ModeChange(ModeKind::EscapedSearch));
    assert_eq!(s.mode, Mode::EscapedSearch);
    assert_eq!(s.files.sort_mode, SortMode::Fuzzy);
    assert_eq!(s.files.input, "t");
    s.handle_input(InputResult::ModeChange(ModeKind::Basic));
    assert_eq!(s.files.sort_mode, SortMode::Default);
    assert_eq!(s.files.input, "");
}

#[test]
fn filtered_listing_after_refresh_in_search() {
    let mut s = browsing("/a", &[]);
    s.handle_input(InputResult::ModeChange(ModeKind::Search));
    for c in "txt".chars() {
        s.handle_input(InputResult::ModifyMode(ModifyMode::PushChar(c)));
    }
    s.apply_direct(Ok(listing(
        "/a",
        &[("a.txt", FileKind::File), ("b.md", FileKind::File), ("test.txt", FileKind::File)],
    )));
    let names: Vec<&str> = s.files.files.iter().map(|f| f.name.as_str()).collect();
    assert_eq!(names.len(), 2);
    assert!(!names.contains(&"b.md"));
}

#[test]
fn delete_with_no_leaves_files_alone() {
    let mut s = browsing("/a", &[("f", FileKind::File)]);
    s.handle_input(InputResult::ModeChange(ModeKind::DeleteFile));
    assert_eq!(s.mode, Mode::DeleteFile("/a/f".to_string(), String::new()));
    s.handle_input(InputResult::ModifyMode(ModifyMode::PushChar('n')));
    let action = s.handle_input(InputResult::ExecuteMode);
    assert_eq!(action, Action::Nothing);
    assert_eq!(s.mode, Mode::Basic);
}

#[test]
fn delete_with_yes_in_either_case() {
    for answer in ['y', 'Y'] {
        let mut s = browsing("/a", &[("f", FileKind::File)]);
        s.handle_input(InputResult::ModeChange(ModeKind::DeleteFile));
        s.handle_input(InputResult::ModifyMode(ModifyMode::PushChar(answer)));
        let action = s.handle_input(InputResult::ExecuteMode);
        assert_eq!(action, Action::Mutate(Mutation::Delete("/a/f".to_string())));
        assert_eq!(s.mode, Mode::Basic);
    }
}

#[test]
fn create_with_trailing_separator_makes_directory() {
    let mut s = browsing("/a", &[]);
    s.handle_input(InputResult::ModeChange(ModeKind::CreateFile));
    for c in "newdir/".chars() {
        s.handle_input(InputResult::ModifyMode(ModifyMode::PushChar(c)));
    }
    let action = s.handle_input(InputResult::ExecuteMode);
    assert_eq!(action, Action::Mutate(Mutation::CreateDir("/a/newdir/".to_string())));
    assert_eq!(s.mode, Mode::Basic);
}

#[test]
fn create_plain_name_makes_file() {
    let mut s = browsing("/a", &[]);
    s.handle_input(InputResult::ModeChange(ModeKind::CreateFile));
    for c in "notes.md".chars() {
        s.handle_input(InputResult::ModifyMode(ModifyMode::PushChar(c)));
    }
    let action = s.handle_input(InputResult::ExecuteMode);
    assert_eq!(action, Action::Mutate(Mutation::CreateFile("/a/notes.md".to_string())));
}

#[test]
fn rename_is_seeded_with_selected_path() {
    let mut s = browsing("/a", &[("old.txt", FileKind::File)]);
    s.handle_input(InputResult::ModeChange(ModeKind::RenameFile));
    assert_eq!(s.mode, Mode::RenameFile("/a/old.txt".to_string(), "/a/old.txt".to_string()));
    for _ in 0.."old.txt".len() {
        s.handle_input(InputResult::ModifyMode(ModifyMode::PopChar));
    }
    for c in "new.txt".chars() {
        s.handle_input(InputResult::ModifyMode(ModifyMode::PushChar(c)));
    }
    let action = s.handle_input(InputResult::ExecuteMode);
    assert_eq!(
        action,
        Action::Mutate(Mutation::Rename { from: "/a/old.txt".to_string(), to: "/a/new.txt".to_string() })
    );
}

#[test]
fn rename_relative_name_stays_in_directory() {
    let mut s = browsing("/a", &[("old.txt", FileKind::File)]);
    s.handle_input(InputResult::ModeChange(ModeKind::RenameFile));
    s.mode = Mode::RenameFile("/a/old.txt".to_string(), "other.txt".to_string());
    let action = s.handle_input(InputResult::ExecuteMode);
    assert_eq!(
        action,
        Action::Mutate(Mutation::Rename { from: "/a/old.txt".to_string(), to: "/a/other.txt".to_string() })
    );
}

#[test]
fn rename_and_delete_need_a_selection() {
    let mut s = browsing("/a", &[]);
    s.handle_input(InputResult::ModeChange(ModeKind::RenameFile));
    assert_eq!(s.mode, Mode::Basic);
    s.handle_input(InputResult::ModeChange(ModeKind::DeleteFile));
    assert_eq!(s.mode, Mode::Basic);
}

#[test]
fn quit_and_skip() {
    let mut s = browsing("/a", &[]);
    assert_eq!(s.handle_input(InputResult::Quit), Action::Quit);
    assert_eq!(s.handle_input(InputResult::Skip), Action::Nothing);
}

#[test]
fn reports_mutation_outcomes() {
    let mut s = browsing("/a", &[]);
    s.report(Ok(Mutation::CreateFile("/a/x".to_string())));
    match &s.info[0].kind {
        InfoKind::Message(t) => assert_eq!(t, "created /a/x"),
        InfoKind::Error(_) => panic!("expected a message"),
    }
    s.report(Err(BrowseError::Io { cause: "Permission denied".to_string() }));
    assert!(matches!(s.info[1].kind, InfoKind::Error(BrowseError::Io { .. })));
    assert_eq!(
        Mutation::Rename { from: "/a".to_string(), to: "/b".to_string() }.describe(),
        "renamed /a to /b"
    );
}
