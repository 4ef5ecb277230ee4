//! The pure kernel services: the flat filesystem, the id-mapped filesystem,
//! the environment table, the clock, strings and small helpers.

use flario::btfs::{FileSystem, FileSyetemRef, Inode, NodeIdent, BTFS};
use flario::environ::{environmentref, EnvironmentRef, Key};
use flario::fs::Filesystem;
use flario::interrupts::{InterruptIndex, PIC_1_OFFSET};
use flario::mem::align_up;
use flario::sc::{Instant, SystemClock, CLOCK_RATE};
use flario::shellstring::{decimal_of, String, ToString};
use flario::status::{Status, Termination};
use flario::vga::{Color, ColorCode, ScreenChar};

fn s(text: &str) -> String {
    String::from_bytes(text.as_bytes())
}

#[test]
fn flat_fs_readme_round_trip() {
    let mut fs = Filesystem::new();
    fs.write_readme();
    let (code, data) = fs.read_file(s("readme"));
    assert_eq!(code, Status::Success);
    let text = core::str::from_utf8(&data).unwrap();
    assert!(text.starts_with("# flario shell"));
    assert!(text.ends_with("Thank you!\n"));
}

#[test]
fn flat_fs_statuses() {
    let mut fs = Filesystem::new();
    assert_eq!(fs.create_file(s("a")), Status::Success);
    assert_eq!(fs.create_file(s("a")), Status::AlreadyExists);
    assert_eq!(fs.create_dir("d"), Status::Success);
    assert_eq!(fs.create_dir("d"), Status::AlreadyExists);

    assert_eq!(fs.read_file(s("missing")).0, Status::NotFound);
    assert_eq!(fs.read_file(s("d")).0, Status::WrongType);
    assert_eq!(fs.write_to_file(s("missing"), vec![1]), Status::NotFound);
    assert_eq!(fs.write_to_file(s("d"), vec![1]), Status::WrongType);

    assert_eq!(fs.write_to_file(s("a"), vec![1, 2, 3]), Status::Success);
    let (code, data) = fs.read_file(s("a"));
    assert_eq!(code, Status::Success);
    assert_eq!(data, vec![1, 2, 3]);

    // a file holding data may not be removed; empty files and directories may
    assert_eq!(fs.remove_file(s("a")), Status::FailedToWrite);
    assert_eq!(fs.remove_file(s("d")), Status::WrongType);
    assert_eq!(fs.create_file(s("empty")), Status::Success);
    assert_eq!(fs.remove_file(s("empty")), Status::Success);
    assert_eq!(fs.remove_dir(s("a")), Status::WrongType);
    assert_eq!(fs.remove_dir(s("d")), Status::Success);
    assert_eq!(fs.remove_dir(s("d")), Status::NotFound);
}

#[test]
fn flat_fs_write_appends() {
    let mut fs = Filesystem::new();
    fs.create_file(s("log"));
    fs.write_to_file(s("log"), b"ab".to_vec());
    fs.write_to_file(s("log"), b"cd".to_vec());
    let (_, data) = fs.read_file(s("log"));
    assert_eq!(data, b"abcd".to_vec());
}

#[test]
fn flat_fs_node_predicates() {
    let node = flario::fs::Node::new();
    assert!(node.is_empty());
    assert!(!node.is_file());
    assert!(!node.is_directory());
    assert!(!node.is_both());
    assert!(node.as_file().is_none());
    assert!(node.as_directory().is_none());
}

#[test]
fn environment_basics() {
    let mut env = environmentref();
    let cwd = env.cwd();
    assert_eq!(cwd.bytes(), b"/".to_vec());

    assert_eq!(env.add(&s("cwd"), &s("/tmp")), Err(Status::AlreadyExists));
    assert_eq!(env.add(&s("user"), &s("root")), Ok(1));
    assert!(env.contains_entry(&s("user")));
    assert!(!env.contains_entry(&s("missing")));
    assert!(env.contains_key(&Key::new(s("user"), s("root"))));
    assert!(!env.contains_key(&Key::new(s("user"), s("other"))));

    assert_eq!(env.update(&s("user"), &s("guest")), Status::Success);
    assert_eq!(env.get(&s("user")).unwrap().bytes(), b"guest".to_vec());
    assert_eq!(env.update(&s("missing"), &s("x")), Status::NotFound);
    assert!(env.get(&s("missing")).is_none());
    assert_eq!(env.keys().len(), 2);
}

#[test]
fn environment_ref_starts_with_cwd() {
    let env = EnvironmentRef::new();
    let keys = env.keys();
    assert_eq!(keys.len(), 1);
    assert_eq!(keys[0].name.bytes(), b"cwd".to_vec());
    assert_eq!(keys[0].value.bytes(), b"/".to_vec());
}

#[test]
fn btfs_create_and_resolve() {
    let clock = SystemClock::new(CLOCK_RATE);
    let mut fs = BTFS::new(&clock);
    let fd = fs.create_file(&s("hello"), &clock).expect("create failed");
    let id = fd.id(&fs).expect("resolve failed");
    assert_eq!(id, 1);
    assert_eq!(fd.name(&fs).unwrap().bytes(), b"hello".to_vec());
    assert_eq!(fd.kind(&fs), Some(false));
    assert_eq!(fd.size(&fs), Some(0));

    // the root is a directory holding the new file
    assert_eq!(fs.flatten_ident(&NodeIdent::Root), Some(0));
    assert_eq!(fs.flatten_ident(&NodeIdent::Id(9)), Some(9));
    assert_eq!(fs.flatten_ident(&NodeIdent::Name(s("hello"))), Some(1));
    assert_eq!(fs.flatten_ident(&NodeIdent::Name(s("absent"))), None);
    assert_eq!(fs.size(0), Some(0));
}

#[test]
fn btfs_listing_follows_cwd() {
    let clock = SystemClock::new(CLOCK_RATE);
    let env = EnvironmentRef::new();
    let mut fs = BTFS::new(&clock);
    fs.create_file(&s("a"), &clock).unwrap();
    fs.create_dir(&s("d"), &clock).unwrap();
    let listing = fs.map(&env).expect("listing failed");
    assert_eq!(listing.len(), 2);
    assert!(listing.contains_key(&1));
    assert!(listing.contains_key(&2));
}

#[test]
fn btfs_node_metadata() {
    let mut clock = SystemClock::new(CLOCK_RATE);
    clock.tick();
    clock.tick();
    let node = flario::btfs::Node::new(s("dir"), 5, true, &clock);
    assert!(node.is_dir());
    assert!(!node.is_file());
    assert!(!node.is_deleted());
    assert_eq!(node.id(), 5);
    assert_eq!(node.name().bytes(), b"dir".to_vec());
    assert_eq!(node.mod_time().ticks(), 2);
    assert_eq!(node.create_time().ticks(), 2);
    assert!(node.children().is_some());
    assert!(node.data().is_none());
}

#[test]
fn btfs_basename_resolution() {
    let clock = SystemClock::new(CLOCK_RATE);
    let mut fs = FileSyetemRef::new(&clock);
    let fd = fs.create_file(&s("home"), &clock).expect("create failed");
    assert_eq!(fd.name(fs.fs()).unwrap().bytes(), b"home".to_vec());
    // a node's name is the last path segment of its stored name
    let node = fs.get_node(1).unwrap();
    assert_eq!(node.name().bytes(), b"home".to_vec());
}

#[test]
fn clock_and_instants() {
    let mut clock = SystemClock::new(10);
    for _ in 0..73256 {
        clock.tick();
    }
    // 73256 ticks at 10 ticks per second: 7325 seconds = 2h 2m 5s
    assert_eq!(clock.seconds(), 7325);
    assert_eq!(clock.minutes(), (5, 122));
    assert_eq!(clock.hours(), (5, 2, 2));

    let now = Instant::now(&clock);
    assert_eq!(now.ticks(), 73256);
    assert_eq!(now.seconds(&clock), 7325);
    assert_eq!(now.checked_add(4).unwrap().ticks(), 73260);
    assert_eq!(Instant::zero().ticks(), 0);
    assert_eq!(Instant::zero().checked_add(usize::MAX).unwrap().ticks(), usize::MAX);
    assert!(now.checked_add(usize::MAX).is_none());
}

#[test]
fn status_codes() {
    assert_eq!(Status::Success.sys_report(), 0);
    assert_eq!(Status::NotFound.sys_report(), 1);
    assert_eq!(Status::WrongType.sys_report(), 2);
    assert_eq!(Status::FailedToWrite.sys_report(), 3);
    assert_eq!(Status::FailedToRead.sys_report(), 4);
    assert_eq!(Status::AlreadyExists.sys_report(), 5);
    assert_eq!(Status::NotEmpty.sys_report(), 6);
    assert_eq!(Status::NotEmpty.report(), 6);
    assert_eq!(Status::NotFound.to_string().bytes(), b"NotFound".to_vec());
}

#[test]
fn string_operations() {
    let a = s("abc");
    assert_eq!(a.len(), 3);
    assert!(!a.is_empty());
    assert!(String::new().is_empty());
    assert_eq!(a.at(1), b'b');
    assert!(a == s("abc"));
    assert!(a != s("abd"));
    assert_eq!(a.concat(&s("def")).bytes(), b"abcdef".to_vec());
    assert_eq!(a.suffix_from(1).bytes(), b"bc".to_vec());
    assert_eq!(s("a/b").remove_matches(&s("b")).bytes(), b"a/".to_vec());
    assert_eq!(s("xyxyx").remove_matches(&s("xy")).bytes(), b"x".to_vec());
    assert_eq!(s("abc").remove_matches(&String::new()).bytes(), b"abc".to_vec());
    assert_eq!(decimal_of(0).bytes(), b"0".to_vec());
    assert_eq!(decimal_of(1234).bytes(), b"1234".to_vec());
    assert_eq!(decimal_of(u64::MAX).bytes(), b"18446744073709551615".to_vec());
}

#[test]
fn align_up_rounds_to_multiples() {
    assert_eq!(align_up(0, 8), 0);
    assert_eq!(align_up(1, 8), 8);
    assert_eq!(align_up(8, 8), 8);
    assert_eq!(align_up(9, 8), 16);
    assert_eq!(align_up(4096, 4096), 4096);
    assert_eq!(align_up(4097, 4096), 8192);
    assert_eq!(align_up(7, 1), 7);
}

#[test]
fn interrupt_vectors() {
    assert_eq!(PIC_1_OFFSET, 32);
    assert_eq!(InterruptIndex::Timer.as_u8(), 32);
    assert_eq!(InterruptIndex::Keyboard.as_u8(), 33);
    assert_eq!(InterruptIndex::Mouse.as_u8(), 34);
    assert_eq!(InterruptIndex::Keyboard.as_usize(), 33);
}

#[test]
fn color_codes_pack() {
    let code = ColorCode::new(Color::Yellow, Color::Black);
    let cell = ScreenChar { ascii_character: b'A', color_code: code };
    assert_eq!(cell.color_code, ColorCode::new(Color::Yellow, Color::Black));
    assert_ne!(code, ColorCode::new(Color::White, Color::Blue));
}

#[test]
fn shell_scratch_fs() {
    let mut fs = flario::shellfs::Filesystem::new();
    fs.create_file(&s("a"));
    fs.create_dir(&s("b"));
    assert_eq!(fs.len(), 2);
    // creating under an existing name replaces the entry
    fs.create_dir(&s("a"));
    assert_eq!(fs.len(), 2);
}
