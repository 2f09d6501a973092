use onyx::input::{input, match_keycode, InputEvent, InputResult, Key, ModeKind, ModifyMode};
use onyx::settings::parse_args;
use onyx::state::Mode;

#[test]
fn browsing_keys() {
    let m = Mode::Basic;
    assert_eq!(match_keycode(&m, Key::Char('q')), InputResult::Quit);
    assert_eq!(match_keycode(&m, Key::Up), InputResult::MoveUp);
    assert_eq!(match_keycode(&m, Key::Char('k')), InputResult::MoveUp);
    assert_eq!(match_keycode(&m, Key::Down), InputResult::MoveDown);
    assert_eq!(match_keycode(&m, Key::Char('j')), InputResult::MoveDown);
    assert_eq!(match_keycode(&m, Key::Left), InputResult::GoBack);
    assert_eq!(match_keycode(&m, Key::Char('h')), InputResult::GoBack);
    assert_eq!(match_keycode(&m, Key::Right), InputResult::EnterFolder);
    assert_eq!(match_keycode(&m, Key::Char('l')), InputResult::EnterFolder);
    assert_eq!(match_keycode(&m, Key::Char('/')), InputResult::ModeChange(ModeKind::Search));
    assert_eq!(match_keycode(&m, Key::Char(':')), InputResult::ModeChange(ModeKind::Command));
    assert_eq!(match_keycode(&m, Key::Char('c')), InputResult::ModeChange(ModeKind::CreateFile));
    assert_eq!(match_keycode(&m, Key::Char('r')), InputResult::ModeChange(ModeKind::RenameFile));
    assert_eq!(match_keycode(&m, Key::Char('d')), InputResult::ModeChange(ModeKind::DeleteFile));
    assert_eq!(match_keycode(&m, Key::Char('x')), InputResult::Skip);
    assert_eq!(match_keycode(&m, Key::Esc), InputResult::Skip);
}

#[test]
fn prompt_keys() {
    let m = Mode::Search(String::new());
    assert_eq!(match_keycode(&m, Key::Char('q')), InputResult::ModifyMode(ModifyMode::PushChar('q')));
    assert_eq!(match_keycode(&m, Key::Backspace), InputResult::ModifyMode(ModifyMode::PopChar));
    assert_eq!(match_keycode(&m, Key::Esc), InputResult::ModeChange(ModeKind::EscapedSearch));
    assert_eq!(match_keycode(&m, Key::Down), InputResult::MoveDown);
    let c = Mode::CreateFile(String::new());
    assert_eq!(match_keycode(&c, Key::Enter), InputResult::ExecuteMode);
    assert_eq!(match_keycode(&c, Key::Esc), InputResult::ModeChange(ModeKind::Basic));
    assert_eq!(match_keycode(&Mode::EscapedSearch, Key::Esc), InputResult::ModeChange(ModeKind::Basic));
    assert_eq!(match_keycode(&Mode::EscapedSearch, Key::Char('j')), InputResult::MoveDown);
}

#[test]
fn key_releases_and_other_events_are_skipped() {
    let m = Mode::Basic;
    assert_eq!(input(&m, InputEvent::Key { code: Key::Char('q'), released: false }), InputResult::Quit);
    assert_eq!(input(&m, InputEvent::Key { code: Key::Char('q'), released: true }), InputResult::Skip);
    assert_eq!(input(&m, InputEvent::Other), InputResult::Skip);
}

#[test]
fn mode_buffer_edits() {
    let mut m = Mode::Command(String::new());
    m.push('l');
    m.push('s');
    assert_eq!(m.get(), Some("ls".to_string()));
    m.pop();
    m.pop();
    m.pop();
    assert_eq!(m.get(), Some(String::new()));
    let mut b = Mode::Basic;
    b.push('x');
    assert_eq!(b, Mode::Basic);
    assert_eq!(b.get(), None);
}

#[test]
fn directory_argument_defaults_to_current() {
    assert_eq!(parse_args(None).dir, "./");
    assert_eq!(parse_args(Some("/tmp".to_string())).dir, "/tmp");
}
