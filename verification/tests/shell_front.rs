//! The shell front end: command parsing, the built-in programs, and the
//! line editor driven key by key.

use flario::command::{ArgZero, Command, ShellContext};
use flario::editor::{key_of_input, InputAction, Key, Shell};
use flario::kb::KeyInput;
use flario::keyboard::ScancodeQueue;
use flario::programs;
use flario::shellstring::String;
use flario::status::Status;

fn s(text: &str) -> String {
    String::from_bytes(text.as_bytes())
}

fn line_bytes(lines: &[String]) -> Vec<Vec<u8>> {
    lines.iter().map(|l| l.bytes()).collect()
}

#[test]
fn arg_zero_parses_every_word() {
    assert_eq!(ArgZero::from_string(&s("help")), ArgZero::Help);
    assert_eq!(ArgZero::from_string(&s("about")), ArgZero::About);
    assert_eq!(ArgZero::from_string(&s("ls")), ArgZero::Ls);
    assert_eq!(ArgZero::from_string(&s("mkdir")), ArgZero::Mkdir);
    assert_eq!(ArgZero::from_string(&s("clear")), ArgZero::Clear);
    assert_eq!(ArgZero::from_string(&s("mkfile")), ArgZero::Mkfile);
    assert_eq!(ArgZero::from_string(&s("env")), ArgZero::Env);
    assert_eq!(ArgZero::from_string(&s("logo")), ArgZero::Logo);
    assert_eq!(ArgZero::from_string(&s("time")), ArgZero::Time);
    assert_eq!(ArgZero::from_string(&s("cd")), ArgZero::Cd);
    assert_eq!(ArgZero::from_string(&s("nonsense")), ArgZero::NotFound);
    assert_eq!(ArgZero::Mkdir.name().bytes(), b"mkdir".to_vec());
    assert_eq!(ArgZero::NotFound.name().bytes(), b"not found".to_vec());
}

#[test]
fn command_splits_program_and_args() {
    let cmd = Command::from_args(vec![s("mkdir"), s("a"), s("b")]);
    assert_eq!(cmd.arg_zero, ArgZero::Mkdir);
    assert_eq!(cmd.args.len(), 2);
    assert_eq!(cmd.args[0].bytes(), b"a".to_vec());
}

#[test]
fn run_dispatches_programs() {
    let mut ctx = ShellContext::new();

    let (code, lines) = Command::from_args(vec![s("help"), s("topic")]).run(&mut ctx);
    assert_eq!(code, Status::Success);
    assert_eq!(line_bytes(&lines), vec![b"topic".to_vec()]);

    let (code, lines) = Command::from_args(vec![s("help")]).run(&mut ctx);
    assert_eq!(code, Status::NotFound);
    assert_eq!(line_bytes(&lines), vec![b"HELP NOT IMPLEMENTED".to_vec()]);

    let (code, lines) = Command::from_args(vec![s("env")]).run(&mut ctx);
    assert_eq!(code, Status::Success);
    assert_eq!(line_bytes(&lines), vec![b"cwd  =  /".to_vec()]);

    let (code, lines) = Command::from_args(vec![s("time")]).run(&mut ctx);
    assert_eq!(code, Status::Success);
    assert_eq!(line_bytes(&lines), vec![b"0:0:0\t0".to_vec()]);

    let (code, lines) = Command::from_args(vec![s("wat")]).run(&mut ctx);
    assert_eq!(code, Status::NotFound);
    assert!(lines.is_empty());

    let (code, lines) = Command::from_args(vec![s("wat"), s("x")]).run(&mut ctx);
    assert_eq!(code, Status::NotFound);
    assert_eq!(line_bytes(&lines), vec![b"Not found: x".to_vec()]);

    let (code, lines) = Command::from_args(vec![s("clear")]).run(&mut ctx);
    assert_eq!(code, Status::Success);
    assert!(lines.is_empty());
}

#[test]
fn mkdir_then_ls_lists_the_directory() {
    let mut ctx = ShellContext::new();
    let (code, _) = Command::from_args(vec![s("mkdir"), s("projects")]).run(&mut ctx);
    assert_eq!(code, Status::Success);
    let (code, lines) = Command::from_args(vec![s("ls")]).run(&mut ctx);
    assert_eq!(code, Status::Success);
    assert_eq!(line_bytes(&lines), vec![b"projects:0".to_vec()]);
}

#[test]
fn cd_into_directory_and_not_into_file() {
    let mut ctx = ShellContext::new();
    Command::from_args(vec![s("mkdir"), s("d")]).run(&mut ctx);
    Command::from_args(vec![s("mkfile"), s("f")]).run(&mut ctx);

    let (code, _) = Command::from_args(vec![s("cd"), s("d")]).run(&mut ctx);
    assert_eq!(code, Status::Success);
    assert_eq!(ctx.env.cwd().bytes(), b"d".to_vec());

    let (code, _) = Command::from_args(vec![s("cd"), s("f")]).run(&mut ctx);
    assert_eq!(code, Status::NotFound);
    assert_eq!(ctx.env.cwd().bytes(), b"d".to_vec());

    let (code, _) = Command::from_args(vec![s("cd"), s("/")]).run(&mut ctx);
    assert_eq!(code, Status::Success);
    assert_eq!(ctx.env.cwd().bytes(), b"/".to_vec());

    let (code, _) = Command::from_args(vec![s("cd")]).run(&mut ctx);
    assert_eq!(code, Status::FailedToRead);
}

#[test]
fn read_and_rmdir_on_the_flat_fs() {
    let mut ctx = ShellContext::new();
    let (code, lines) = programs::read(&vec![s("readme")], &ctx.files);
    assert_eq!(code, Status::Success);
    assert_eq!(lines.len(), 1);

    let (code, lines) = programs::read(&vec![s("nope")], &ctx.files);
    assert_eq!(code, Status::NotFound);
    assert_eq!(line_bytes(&lines), vec![b"Error: file does not exist".to_vec()]);

    ctx.files.create_dir("d");
    let (code, lines) = programs::rmdir(&vec![s("d")], &mut ctx.files);
    assert_eq!(code, Status::Success);
    assert!(lines.is_empty());
    let (_, lines) = programs::rmdir(&vec![s("d")], &mut ctx.files);
    assert_eq!(line_bytes(&lines), vec![b"Error: directory does not exist".to_vec()]);
    let (_, lines) = programs::rmdir(&vec![s("readme")], &mut ctx.files);
    assert_eq!(line_bytes(&lines), vec![b"Error: 'readme' is not a directory".to_vec()]);
}

#[test]
fn debug_program_summarizes() {
    let ctx = ShellContext::new();
    let (code, lines) = programs::debug(
        &vec![s("filesystem"), s("environment")],
        &ctx.scratch,
        &ctx.env,
    );
    assert_eq!(code, Status::Success);
    assert_eq!(
        line_bytes(&lines),
        vec![b"filesystem entries: 0".to_vec(), b"environment entries: 1".to_vec()]
    );
    let (code, _) = programs::debug(&vec![s("nonsense")], &ctx.scratch, &ctx.env);
    assert_eq!(code, Status::NotFound);
    assert_eq!(programs::Item::from_string(&s("filesystem")), Ok(programs::Item::FileSystem));
    assert_eq!(programs::Item::from_string(&s("environment")), Ok(programs::Item::Environment));
    assert_eq!(programs::Item::from_string(&s("other")), Err(()));
}

#[test]
fn indentation_is_four_spaces_per_level() {
    assert_eq!(programs::indentation_from_level(0).bytes(), b"".to_vec());
    assert_eq!(programs::indentation_from_level(2).bytes(), b"        ".to_vec());
    assert_eq!(programs::indentation_from_level(-3).bytes(), b"".to_vec());
}

#[test]
fn key_interpretation() {
    assert_eq!(key_of_input(KeyInput::Text('a')), Key::Char('a'));
    assert_eq!(key_of_input(KeyInput::Text('\n')), Key::Enter);
    assert_eq!(key_of_input(KeyInput::Text('\u{8}')), Key::Backspace);
    assert_eq!(key_of_input(KeyInput::Raw(flario::editor::RAW_BACKSPACE)), Key::Backspace);
    assert_eq!(key_of_input(KeyInput::Raw(40)), Key::Other(40));
}

#[test]
fn scancodes_decode_to_keys() {
    let mut cell = ScancodeQueue::new();
    let mut shell = flario::editor::shell(&mut cell);
    let mut ready = flario::queue::ReadyQueue::new(8);
    let mut gen = flario::task::TaskIdGen::new();
    let cx = flario::task::WakeHandle::new(flario::task::TaskId::new(&mut gen));

    // an empty queue yields no key
    assert_eq!(shell.key(&mut cell, &cx), Key::Nothing);

    // scancode 0x1e is the press of the letter a
    flario::keyboard::add_scancode(&mut cell, &mut ready, 0x1e);
    assert_eq!(shell.key(&mut cell, &cx), Key::Char('a'));

    // the release that follows decodes to nothing
    flario::keyboard::add_scancode(&mut cell, &mut ready, 0x9e);
    assert_eq!(shell.key(&mut cell, &cx), Key::Nothing);

    // the enter key press submits
    flario::keyboard::add_scancode(&mut cell, &mut ready, 0x1c);
    assert_eq!(shell.key(&mut cell, &cx), Key::Enter);
}

#[test]
fn line_editor_gathers_words() {
    let mut cell = ScancodeQueue::new();
    let mut shell = flario::editor::shell(&mut cell);

    for c in "mkdir ".chars() {
        match shell.handle_key(Key::Char(c)) {
            InputAction::Echo(e) => assert_eq!(e, c),
            _ => panic!("expected an echo"),
        }
    }
    // a typo, erased with backspace
    shell.handle_key(Key::Char('x'));
    assert!(matches!(shell.handle_key(Key::Backspace), InputAction::Redraw));
    for c in "docs".chars() {
        shell.handle_key(Key::Char(c));
    }
    assert!(matches!(shell.handle_key(Key::Other(99)), InputAction::Skip));
    match shell.handle_key(Key::Enter) {
        InputAction::Submit(words) => {
            let words: Vec<Vec<u8>> = words.iter().map(|w| w.bytes()).collect();
            assert_eq!(words, vec![b"mkdir".to_vec(), b"docs".to_vec()]);
        },
        _ => panic!("expected a submitted line"),
    }
}

#[test]
fn line_editor_empty_enter_reprompts() {
    let mut cell = ScancodeQueue::new();
    let mut shell = flario::editor::shell(&mut cell);
    assert!(matches!(shell.handle_key(Key::Enter), InputAction::Prompt));
    assert!(matches!(shell.handle_key(Key::Backspace), InputAction::Skip));
    assert!(matches!(shell.handle_key(Key::Nothing), InputAction::Skip));
}

#[test]
fn prompt_shows_failures() {
    let mut cell = ScancodeQueue::new();
    let mut shell = flario::editor::shell(&mut cell);
    let mut ctx = ShellContext::new();
    assert_eq!(shell.prompt_text().bytes(), b"> ".to_vec());

    let lines = shell.exe(vec![s("bogus")], &mut ctx);
    assert!(lines.is_empty());
    assert_eq!(shell.prompt_text().bytes(), b"[NotFound]> ".to_vec());

    let _ = shell.exe(vec![s("logo")], &mut ctx);
    assert_eq!(shell.prompt_text().bytes(), b"> ".to_vec());
}

#[test]
fn shell_session_end_to_end() {
    let mut cell = ScancodeQueue::new();
    let mut shell = flario::editor::shell(&mut cell);
    let mut ctx = ShellContext::new();

    for c in "mkdir notes".chars() {
        shell.handle_key(Key::Char(c));
    }
    if let InputAction::Submit(words) = shell.handle_key(Key::Enter) {
        let _ = shell.exe(words, &mut ctx);
    } else {
        panic!("expected a submitted line");
    }
    for c in "ls".chars() {
        shell.handle_key(Key::Char(c));
    }
    if let InputAction::Submit(words) = shell.handle_key(Key::Enter) {
        let lines = shell.exe(words, &mut ctx);
        assert_eq!(line_bytes(&lines), vec![b"notes:0".to_vec()]);
    } else {
        panic!("expected a submitted line");
    }
}
