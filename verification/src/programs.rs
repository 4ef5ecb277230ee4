//! The shell's built-in programs. Each one computes a status and the lines
//! it wants printed; the caller owns the console.

use vstd::prelude::*;
use vstd::string::StringSliceAdditionalSpecFns;

use crate::btfs::{lemma_find_name_props, lemma_wf_ref_facts, spec_create_outcome,
    spec_find_name, spec_size_of, FileDescriptor, FileSyetemRef, Inode, NodeIdent};
use crate::environ::{env_has_name, env_idx, EnvironmentRef};
use crate::sc::SystemClock;
use crate::shellstring::{spec_decimal, decimal_of, String};
use crate::status::Status;

verus! {

broadcast use vstd::laws_cmp::group_laws_cmp;

/// The views of a list of argument strings.
pub open spec fn arg_views(args: Seq<String>) -> Seq<Seq<u8>> {
    args.map_values(|s: String| s@)
}

/// `help`: echoes its arguments, or reports that no help text exists.
pub fn help(args: &Vec<String>) -> (r: (Status, Vec<String>))
    ensures
        if args@.len() > 0 {
            r.0 == Status::Success && arg_views(r.1@) == arg_views(args@)
        } else {
            r.0 == Status::NotFound && arg_views(r.1@) == seq![
                "HELP NOT IMPLEMENTED".spec_bytes(),
            ]
        },
{
    if args.len() > 0 {
        let mut lines: Vec<String> = Vec::new();
        let mut i: usize = 0;
        while i < args.len()
            invariant
                i <= args@.len(),
                lines@.len() == i,
                forall|j: int| 0 <= j < i ==> lines@[j]@ == args@[j]@,
            decreases args@.len() - i,
        {
            lines.push(args[i].clone());
            i = i + 1;
        }
        proof {
            assert(arg_views(lines@) =~= arg_views(args@));
        }
        (Status::Success, lines)
    } else {
        let mut lines: Vec<String> = Vec::new();
        lines.push(String::from_bytes("HELP NOT IMPLEMENTED".as_bytes()));
        proof {
            assert(arg_views(lines@) =~= seq!["HELP NOT IMPLEMENTED".spec_bytes()]);
        }
        (Status::NotFound, lines)
    }
}

/// `not_found`: names each argument as an unknown command.
pub fn not_found(args: &Vec<String>) -> (r: (Status, Vec<String>))
    ensures
        r.0 == Status::NotFound,
        r.1@.len() == args@.len(),
        forall|i: int|
            0 <= i < args@.len() ==> (#[trigger] r.1@[i])@ == "Not found: ".spec_bytes()
                + args@[i]@,
{
    let mut lines: Vec<String> = Vec::new();
    let mut i: usize = 0;
    while i < args.len()
        invariant
            i <= args@.len(),
            lines@.len() == i,
            forall|j: int|
                0 <= j < i ==> (#[trigger] lines@[j])@ == "Not found: ".spec_bytes() + args@[j]@,
        decreases args@.len() - i,
    {
        let prefix = String::from_bytes("Not found: ".as_bytes());
        lines.push(prefix.concat(&args[i]));
        i = i + 1;
    }
    (Status::NotFound, lines)
}

/// The lines `env` prints: one `name  =  value` per entry.
pub open spec fn spec_env_lines(e: Seq<(Seq<u8>, Seq<u8>)>) -> Seq<Seq<u8>> {
    Seq::new(e.len(), |i: int| e[i].0 + "  =  ".spec_bytes() + e[i].1)
}

/// `env`: lists every environment entry.
pub fn env_list(env: &EnvironmentRef) -> (r: (Status, Vec<String>))
    ensures
        r.0 == Status::Success,
        arg_views(r.1@) == spec_env_lines(env@),
{
    let keys = env.keys();
    let mut lines: Vec<String> = Vec::new();
    let mut i: usize = 0;
    while i < keys.len()
        invariant
            i <= keys@.len(),
            keys@.len() == env@.len(),
            forall|k: int| 0 <= k < keys@.len() ==> (#[trigger] keys@[k])@ == env@[k],
            lines@.len() == i,
            forall|j: int|
                0 <= j < i ==> (#[trigger] lines@[j])@ == env@[j].0 + "  =  ".spec_bytes()
                    + env@[j].1,
        decreases keys@.len() - i,
    {
        let sep = String::from_bytes("  =  ".as_bytes());
        let line = keys[i].name.concat(&sep).concat(&keys[i].value);
        proof {
            assert(keys@[i as int]@ == env@[i as int]);
        }
        lines.push(line);
        i = i + 1;
    }
    proof {
        assert(arg_views(lines@) =~= spec_env_lines(env@));
    }
    (Status::Success, lines)
}

/// The line `time` prints: `hours:minutes:seconds<TAB>ticks`.
pub open spec fn spec_time_line(tick: nat, rate: nat) -> Seq<u8> {
    let seconds = tick / rate;
    spec_decimal((seconds / 60) / 60) + ":".spec_bytes() + spec_decimal((seconds / 60) % 60)
        + ":".spec_bytes() + spec_decimal(seconds % 60) + "\t".spec_bytes() + spec_decimal(tick)
}

/// `time`: the current time of day counted from boot, and the raw tick.
pub fn time(clock: &SystemClock) -> (r: (Status, Vec<String>))
    requires
        clock.spec_rate() >= 1,
    ensures
        r.0 == Status::Success,
        arg_views(r.1@) == seq![spec_time_line(clock.spec_tick(), clock.spec_rate())],
{
    let now = crate::sc::Instant::now(clock);
    let (s, m, h) = now.hours(clock);
    let colon = String::from_bytes(":".as_bytes());
    let tab = String::from_bytes("\t".as_bytes());
    let line = decimal_of(h as u64).concat(&colon).concat(&decimal_of(m as u64)).concat(
        &colon,
    ).concat(&decimal_of(s as u64)).concat(&tab).concat(&decimal_of(now.ticks() as u64));
    let mut lines: Vec<String> = Vec::new();
    lines.push(line);
    proof {
        assert(arg_views(lines@) =~= seq![spec_time_line(clock.spec_tick(), clock.spec_rate())]);
    }
    (Status::Success, lines)
}

/// `mkdir` / `mkfile`: creates each named node left to right, stopping at
/// the first failure. The one-name case is pinned exactly; a longer list
/// applies the same creation step repeatedly.
pub fn make_nodes(args: &Vec<String>, kind: bool, fs: &mut FileSyetemRef, clock: &SystemClock)
    -> (r: Status)
    requires
        old(fs).wf(),
    ensures
        final(fs).wf(),
        r == Status::Success || r == Status::FailedToWrite,
        args@.len() == 0 ==> (r == Status::Success && final(fs).spec_map() == old(fs).spec_map()
            && final(fs).spec_next() == old(fs).spec_next()),
        args@.len() == 1 ==> ({
            ||| (r == Status::Success && exists|fd: FileDescriptor<NodeIdent>|
                spec_create_outcome(
                    old(fs).spec_map(),
                    old(fs).spec_next(),
                    final(fs).spec_map(),
                    final(fs).spec_next(),
                    args@[0]@,
                    kind,
                    clock.spec_tick(),
                    Some(fd),
                ))
            ||| (r == Status::FailedToWrite && spec_create_outcome(
                old(fs).spec_map(),
                old(fs).spec_next(),
                final(fs).spec_map(),
                final(fs).spec_next(),
                args@[0]@,
                kind,
                clock.spec_tick(),
                Option::<FileDescriptor<NodeIdent>>::None,
            ))
        }),
{
    let mut i: usize = 0;
    while i < args.len()
        invariant
            fs.wf(),
            i <= args@.len(),
            i == 0 ==> (fs.spec_map() == old(fs).spec_map() && fs.spec_next() == old(
                fs,
            ).spec_next()),
            args@.len() == 1 && i == 1 ==> (exists|fd: FileDescriptor<NodeIdent>|
                spec_create_outcome(
                    old(fs).spec_map(),
                    old(fs).spec_next(),
                    fs.spec_map(),
                    fs.spec_next(),
                    args@[0]@,
                    kind,
                    clock.spec_tick(),
                    Some(fd),
                )),
        decreases args@.len() - i,
    {
        let created = if kind {
            fs.create_dir(&args[i], clock)
        } else {
            fs.create_file(&args[i], clock)
        };
        match created {
            Some(fd) => {
                proof {
                    if i == 0 && args@.len() == 1 {
                        assert(spec_create_outcome(
                            old(fs).spec_map(),
                            old(fs).spec_next(),
                            fs.spec_map(),
                            fs.spec_next(),
                            args@[0]@,
                            kind,
                            clock.spec_tick(),
                            Some(fd),
                        ));
                    }
                }
            },
            None => {
                return Status::FailedToWrite;
            },
        }
        i = i + 1;
    }
    Status::Success
}

/// `mkdir`: creates each named directory.
pub fn mkdir(args: &Vec<String>, fs: &mut FileSyetemRef, clock: &SystemClock) -> (r: Status)
    requires
        old(fs).wf(),
    ensures
        final(fs).wf(),
        r == Status::Success || r == Status::FailedToWrite,
        args@.len() == 0 ==> (r == Status::Success && final(fs).spec_map() == old(fs).spec_map()),
{
    make_nodes(args, true, fs, clock)
}

/// `mkfile`: creates each named file.
pub fn mkfile(args: &Vec<String>, fs: &mut FileSyetemRef, clock: &SystemClock) -> (r: Status)
    requires
        old(fs).wf(),
    ensures
        final(fs).wf(),
        r == Status::Success || r == Status::FailedToWrite,
        args@.len() == 0 ==> (r == Status::Success && final(fs).spec_map() == old(fs).spec_map()),
{
    make_nodes(args, false, fs, clock)
}

/// Changes the working directory: `/` always works; any other path must
/// name a directory.
pub fn act_cd(path: &String, fs: &mut FileSyetemRef, env: &mut EnvironmentRef) -> (r: Option<()>)
    requires
        old(fs).wf(),
        old(env).wf(),
        env_has_name(old(env)@, "cwd".spec_bytes()),
    ensures
        final(fs).wf(),
        final(env).wf(),
        env_has_name(final(env)@, "cwd".spec_bytes()),
        final(fs).spec_map() == old(fs).spec_map(),
        final(fs).spec_next() == old(fs).spec_next(),
        ({
            let m = old(fs).spec_map();
            if path@ == "/".spec_bytes() {
                r == Some(()) && final(env)@ == old(env)@.update(
                    env_idx(old(env)@, "cwd".spec_bytes()),
                    ("cwd".spec_bytes(), path@),
                )
            } else {
                match spec_find_name(m, old(fs).spec_next(), path@) {
                    None => r is None && final(env)@ == old(env)@,
                    Some(i) => if m[i].spec_is_file() {
                        r is None && final(env)@ == old(env)@
                    } else {
                        r == Some(()) && final(env)@ == old(env)@.update(
                            env_idx(old(env)@, "cwd".spec_bytes()),
                            ("cwd".spec_bytes(), path@),
                        )
                    },
                }
            }
        }),
{
    let cwd_name = String::from_bytes("cwd".as_bytes());
    if path.eq_bytes("/".as_bytes()) {
        let ghost idx = env_idx(old(env)@, "cwd".spec_bytes());
        let updated = env.update(&cwd_name, path);
        let _ = updated;
        proof {
            assert(env@[idx].0 == "cwd".spec_bytes());
            assert(env_has_name(env@, "cwd".spec_bytes()));
        }
        return Some(());
    }
    let found = fs.open(NodeIdent::Name(path.clone()));
    proof {
        lemma_find_name_props(old(fs).spec_map(), old(fs).spec_next(), path@);
    }
    let id = match found {
        Some(fd) => fd,
        None => {
            return None;
        },
    };
    let is_dir = match id.kind(fs.fs()) {
        Some(k) => k,
        None => {
            return None;
        },
    };
    if !is_dir {
        return None;
    }
    let ghost idx = env_idx(old(env)@, "cwd".spec_bytes());
    let updated = env.update(&cwd_name, path);
    let _ = updated;
    proof {
        assert(env@[idx].0 == "cwd".spec_bytes());
        assert(env_has_name(env@, "cwd".spec_bytes()));
    }
    Some(())
}

/// `cd`: changes the working directory to its first argument.
pub fn cd(args: &Vec<String>, fs: &mut FileSyetemRef, env: &mut EnvironmentRef) -> (r: (
    Status,
    Vec<String>,
))
    requires
        old(fs).wf(),
        old(env).wf(),
        env_has_name(old(env)@, "cwd".spec_bytes()),
    ensures
        final(fs).wf(),
        final(env).wf(),
        env_has_name(final(env)@, "cwd".spec_bytes()),
        args@.len() == 0 ==> (r.0 == Status::FailedToRead && final(env)@ == old(env)@),
        args@.len() > 0 ==> (r.0 == Status::Success || r.0 == Status::NotFound),
{
    if args.len() == 0 {
        let mut lines: Vec<String> = Vec::new();
        lines.push(String::from_bytes("Usage: cd <path>".as_bytes()));
        return (Status::FailedToRead, lines);
    }
    let path = args[0].clone();
    let mut lines: Vec<String> = Vec::new();
    lines.push(path.clone());
    match act_cd(&path, fs, env) {
        Some(()) => (Status::Success, lines),
        None => (Status::NotFound, lines),
    }
}

/// What `debug` can inspect.
#[derive(Debug, Clone, Copy, PartialEq, Eq, Structural)]
pub enum Item {
    FileSystem,
    Environment,
}

impl Item {
    /// Parses an inspection target.
    pub fn from_string(s: &String) -> (r: Result<Item, ()>)
        ensures
            if s@ == "filesystem".spec_bytes() {
                r == Result::<Item, ()>::Ok(Item::FileSystem)
            } else if s@ == "environment".spec_bytes() {
                r == Result::<Item, ()>::Ok(Item::Environment)
            } else {
                r == Result::<Item, ()>::Err(())
            },
    {
        if s.eq_bytes("filesystem".as_bytes()) {
            Ok(Item::FileSystem)
        } else if s.eq_bytes("environment".as_bytes()) {
            Ok(Item::Environment)
        } else {
            Err(())
        }
    }
}

/// One line summarizing the scratch filesystem.
pub fn debug_fs(files: &crate::shellfs::Filesystem) -> (r: String)
    ensures
        r@ == "filesystem entries: ".spec_bytes() + spec_decimal(files@.len()),
{
    let prefix = String::from_bytes("filesystem entries: ".as_bytes());
    prefix.concat(&decimal_of(files.len() as u64))
}

/// One line summarizing the environment table.
pub fn debug_env(env: &EnvironmentRef) -> (r: String)
    ensures
        r@ == "environment entries: ".spec_bytes() + spec_decimal(env@.len()),
{
    let keys = env.keys();
    let prefix = String::from_bytes("environment entries: ".as_bytes());
    prefix.concat(&decimal_of(keys.len() as u64))
}

/// The indentation for a nesting level: four spaces per level.
pub fn indentation_from_level(level: i32) -> (r: String)
    requires
        level < 0x1000_0000,
    ensures
        r@ == Seq::new(
            (if level > 0 {
                4 * level
            } else {
                0
            }) as nat,
            |i: int| 32u8,
        ),
{
    let mut line = String::new();
    let mut i: i32 = 0;
    while i < level
        invariant
            0 <= i,
            level < 0x1000_0000,
            i <= level || i == 0,
            line@ == Seq::new((4 * i) as nat, |j: int| 32u8),
        decreases level - i,
    {
        i = i + 1;
        line.push_byte(32);
        line.push_byte(32);
        line.push_byte(32);
        line.push_byte(32);
        proof {
            assert(line@ =~= Seq::new((4 * i) as nat, |j: int| 32u8));
        }
    }
    proof {
        if level <= 0 {
            assert(line@ =~= Seq::new(0, |j: int| 32u8));
        }
    }
    line
}

/// The lines `ls` prints for the children in `ch`, scanning ids upward:
/// `name:size` for each child.
pub open spec fn spec_ls_lines(
    m: Map<u16, crate::btfs::Node>,
    ch: Set<u16>,
    lo: int,
    hi: int,
) -> Seq<Seq<u8>>
    decreases hi - lo,
{
    if lo >= hi {
        Seq::empty()
    } else {
        spec_ls_lines(m, ch, lo, hi - 1) + (if ch.contains((hi - 1) as u16) {
            seq![
                crate::btfs::after_last_slash(m[(hi - 1) as u16].spec_name()) + ":".spec_bytes()
                    + spec_decimal(spec_size_of(m, (hi - 1) as u16)),
            ]
        } else {
            Seq::empty()
        })
    }
}

/// The working directory's path with a trailing slash trimmed.
pub open spec fn spec_trim_cwd(cwdv: Seq<u8>) -> Seq<u8> {
    if cwdv.len() > 0 && cwdv[cwdv.len() - 1] == 47 {
        cwdv.drop_last()
    } else {
        cwdv
    }
}

/// The node the working directory names: the root for `/`, else whatever
/// the trimmed path resolves to.
pub open spec fn spec_cwd_target(
    m: Map<u16, crate::btfs::Node>,
    next: u16,
    e: Seq<(Seq<u8>, Seq<u8>)>,
) -> Option<u16> {
    let cwdv = e[env_idx(e, "cwd".spec_bytes())].1;
    if cwdv == "/".spec_bytes() {
        Some(0u16)
    } else {
        spec_find_name(m, next, spec_trim_cwd(cwdv))
    }
}

/// `ls` body: the `name:size` line of every child of the working directory,
/// in id order; nothing when the directory cannot be resolved or a size
/// overflows the machine. A file named by `cwd` lists nothing.
#[verifier::rlimit(50)]
pub fn rname(fs: &FileSyetemRef, env: &EnvironmentRef) -> (r: Option<Vec<String>>)
    requires
        fs.wf(),
        env.wf(),
        env_has_name(env@, "cwd".spec_bytes()),
    ensures
        ({
            let m = fs.spec_map();
            match spec_cwd_target(m, fs.spec_next(), env@) {
                None => r is None,
                Some(p) => match r {
                    Some(lines) => arg_views(lines@) == spec_ls_lines(
                        m,
                        m[p].spec_children().dom(),
                        0,
                        fs.spec_next() as int,
                    ),
                    None => exists|c: u16|
                        #[trigger] m[p].spec_children().dom().contains(c) && spec_size_of(m, c)
                            > usize::MAX,
                },
            }
        }),
{
    let cwd = env.cwd();
    let pid = if cwd.eq_bytes("/".as_bytes()) {
        proof {
            lemma_wf_ref_facts(fs);
        }
        0u16
    } else {
        let ends_slash = cwd.len() > 0 && cwd.at(cwd.len() - 1) == 47;
        let path = if ends_slash {
            let mut b = cwd.bytes();
            let popped = b.pop();
            let _ = popped;
            String::from_bytes(b.as_slice())
        } else {
            cwd
        };
        let found = fs.fs().flatten_ident(&NodeIdent::Name(path));
        proof {
            lemma_find_name_props(fs.spec_map(), fs.spec_next(), path@);
        }
        match found {
            Some(p) => p,
            None => {
                return None;
            },
        }
    };
    let node = match fs.get_node(pid) {
        Some(n) => n,
        None => {
            // unreachable: the root always exists and a found name is live
            proof {
                assert(false);
            }
            return None;
        },
    };
    let ghost m = fs.spec_map();
    let ghost ch = node.spec_children().dom();
    let ghost target = spec_cwd_target(m, fs.spec_next(), env@);
    let mut lines: Vec<String> = Vec::new();
    let bound = fs.next_id();
    match node.children() {
        None => {
            proof {
                assert(ch =~= Set::<u16>::empty());
                lemma_ls_lines_empty(m, ch, 0, bound as int);
            }
            Some(lines)
        },
        Some(children) => {
            let mut c: u16 = 0;
            while c < bound
                invariant
                    fs.wf(),
                    env.wf(),
                    env_has_name(env@, "cwd".spec_bytes()),
                    c <= bound,
                    bound == fs.spec_next(),
                    m == fs.spec_map(),
                    m.dom().contains(pid),
                    spec_cwd_target(m, fs.spec_next(), env@) == Some(pid),
                    children@ == m[pid].spec_children(),
                    ch == m[pid].spec_children().dom(),
                    arg_views(lines@) == spec_ls_lines(m, ch, 0, c as int),
                decreases bound - c,
            {
                if children.contains_key(&c) {
                    let child = match fs.get_node(c) {
                        Some(n) => n,
                        None => {
                            // unreachable: a child of a live directory is in
                            // the map
                            proof {
                                lemma_wf_ref_facts(fs);
                                assert(m[pid].spec_children().dom().contains(c));
                                assert(false);
                            }
                            return None;
                        },
                    };
                    let size = match fs.size(c) {
                        Some(s) => s,
                        None => {
                            proof {
                                lemma_wf_ref_facts(fs);
                                assert(m[pid].spec_children().dom().contains(c));
                                assert(m.dom().contains(c));
                                assert(spec_size_of(m, c) > usize::MAX);
                                assert(spec_cwd_target(m, fs.spec_next(), env@)->Some_0 == pid);
                                assert(m[spec_cwd_target(
                                    m,
                                    fs.spec_next(),
                                    env@,
                                )->Some_0].spec_children().dom().contains(c));
                            }
                            return None;
                        },
                    };
                    let line = child.name().concat(&String::from_bytes(":".as_bytes())).concat(
                        &decimal_of(size as u64),
                    );
                    lines.push(line);
                    proof {
                        assert(arg_views(lines@) =~= spec_ls_lines(m, ch, 0, c + 1));
                    }
                } else {
                    proof {
                        assert(arg_views(lines@) =~= spec_ls_lines(m, ch, 0, c + 1));
                    }
                }
                c = c + 1;
            }
            Some(lines)
        },
    }
}

/// An empty child set lists nothing.
proof fn lemma_ls_lines_empty(m: Map<u16, crate::btfs::Node>, ch: Set<u16>, lo: int, hi: int)
    requires
        ch == Set::<u16>::empty(),
    ensures
        spec_ls_lines(m, ch, lo, hi) == Seq::<Seq<u8>>::empty(),
    decreases hi - lo,
{
    if lo < hi {
        lemma_ls_lines_empty(m, ch, lo, hi - 1);
        assert(spec_ls_lines(m, ch, lo, hi) =~= Seq::<Seq<u8>>::empty());
    }
}

/// `ls`: lists the working directory.
pub fn ls(fs: &FileSyetemRef, env: &EnvironmentRef) -> (r: (Status, Vec<String>))
    requires
        fs.wf(),
        env.wf(),
        env_has_name(env@, "cwd".spec_bytes()),
    ensures
        r.0 == Status::Success || r.0 == Status::FailedToRead,
{
    match rname(fs, env) {
        Some(lines) => (Status::Success, lines),
        None => (Status::FailedToRead, Vec::new()),
    }
}


/// `read`: prints each named file's contents; errors are reported per file
/// and the status of the last attempt is returned. The single-name case is
/// pinned exactly.
pub fn read(args: &Vec<String>, files: &crate::fs::Filesystem) -> (r: (Status, Vec<String>))
    requires
        files.wf(),
    ensures
        args@.len() == 0 ==> (r.0 == Status::Success && r.1@.len() == 0),
        args@.len() == 1 ==> ({
            let s = files@;
            if !crate::fs::contains_name(s, args@[0]@) {
                r.0 == Status::NotFound && arg_views(r.1@) == seq![
                    "Error: file does not exist".spec_bytes(),
                ]
            } else {
                match s[crate::fs::idx_of(s, args@[0]@)].1.file {
                    Some(bytes) => r.0 == Status::Success && arg_views(r.1@) == seq![bytes],
                    None => r.0 == Status::WrongType && arg_views(r.1@) == seq![
                        "Error: ".spec_bytes() + args@[0]@ + " is not a file".spec_bytes(),
                    ],
                }
            }
        }),
{
    let mut code = Status::Success;
    let mut lines: Vec<String> = Vec::new();
    let mut i: usize = 0;
    while i < args.len()
        invariant
            files.wf(),
            i <= args@.len(),
            i == 0 ==> (code == Status::Success && lines@.len() == 0),
            args@.len() == 1 && i == 1 ==> ({
                let s = files@;
                if !crate::fs::contains_name(s, args@[0]@) {
                    code == Status::NotFound && arg_views(lines@) == seq![
                        "Error: file does not exist".spec_bytes(),
                    ]
                } else {
                    match s[crate::fs::idx_of(s, args@[0]@)].1.file {
                        Some(bytes) => code == Status::Success && arg_views(lines@) == seq![bytes],
                        None => code == Status::WrongType && arg_views(lines@) == seq![
                            "Error: ".spec_bytes() + args@[0]@ + " is not a file".spec_bytes(),
                        ],
                    }
                }
            }),
        decreases args@.len() - i,
    {
        let (c, data) = files.read_file(args[i].clone());
        code = c;
        match code {
            Status::Success => {
                lines.push(String::from_bytes(data.as_slice()));
            },
            Status::NotFound => {
                lines.push(String::from_bytes("Error: file does not exist".as_bytes()));
            },
            Status::WrongType => {
                let prefix = String::from_bytes("Error: ".as_bytes());
                let suffix = String::from_bytes(" is not a file".as_bytes());
                lines.push(prefix.concat(&args[i]).concat(&suffix));
            },
            _ => {
                lines.push(String::from_bytes("Unknown error".as_bytes()));
            },
        }
        proof {
            if i == 0 && args@.len() == 1 {
                assert(arg_views(lines@) =~= arg_views(lines@));
            }
        }
        i = i + 1;
    }
    (code, lines)
}

/// `rmdir`: removes each named directory, reporting failures line by line;
/// the program itself always reports success. The single-name case is
/// pinned exactly.
pub fn rmdir(args: &Vec<String>, files: &mut crate::fs::Filesystem) -> (r: (Status, Vec<String>))
    requires
        old(files).wf(),
    ensures
        final(files).wf(),
        r.0 == Status::Success,
        args@.len() == 0 ==> (final(files)@ == old(files)@ && r.1@.len() == 0),
        args@.len() == 1 ==> ({
            let s = old(files)@;
            if !crate::fs::contains_name(s, args@[0]@) {
                final(files)@ == s && arg_views(r.1@) == seq![
                    "Error: directory does not exist".spec_bytes(),
                ]
            } else {
                match s[crate::fs::idx_of(s, args@[0]@)].1.dir {
                    Some(entries) => if entries.len() == 0 {
                        final(files)@ == s.remove(crate::fs::idx_of(s, args@[0]@)) && r.1@.len()
                            == 0
                    } else {
                        final(files)@ == s && arg_views(r.1@) == seq![
                            "Error: directory is not empty".spec_bytes(),
                        ]
                    },
                    None => final(files)@ == s && arg_views(r.1@) == seq![
                        "Error: '".spec_bytes() + args@[0]@
                            + "' is not a directory".spec_bytes(),
                    ],
                }
            }
        }),
{
    let mut lines: Vec<String> = Vec::new();
    let mut i: usize = 0;
    while i < args.len()
        invariant
            files.wf(),
            i <= args@.len(),
            i == 0 ==> (files@ == old(files)@ && lines@.len() == 0),
            args@.len() == 1 && i == 1 ==> ({
                let s = old(files)@;
                if !crate::fs::contains_name(s, args@[0]@) {
                    files@ == s && arg_views(lines@) == seq![
                        "Error: directory does not exist".spec_bytes(),
                    ]
                } else {
                    match s[crate::fs::idx_of(s, args@[0]@)].1.dir {
                        Some(entries) => if entries.len() == 0 {
                            files@ == s.remove(crate::fs::idx_of(s, args@[0]@)) && lines@.len()
                                == 0
                        } else {
                            files@ == s && arg_views(lines@) == seq![
                                "Error: directory is not empty".spec_bytes(),
                            ]
                        },
                        None => files@ == s && arg_views(lines@) == seq![
                            "Error: '".spec_bytes() + args@[0]@
                                + "' is not a directory".spec_bytes(),
                        ],
                    }
                }
            }),
        decreases args@.len() - i,
    {
        let code = files.remove_dir(args[i].clone());
        match code {
            Status::NotFound => {
                lines.push(String::from_bytes("Error: directory does not exist".as_bytes()));
            },
            Status::WrongType => {
                let prefix = String::from_bytes("Error: '".as_bytes());
                let suffix = String::from_bytes("' is not a directory".as_bytes());
                lines.push(prefix.concat(&args[i]).concat(&suffix));
            },
            Status::NotEmpty => {
                lines.push(String::from_bytes("Error: directory is not empty".as_bytes()));
            },
            _ => (),
        }
        i = i + 1;
    }
    (Status::Success, lines)
}

/// `debug`: one summary line per inspected item; an unknown item name ends
/// the run with `NotFound`.
pub fn debug(
    args: &Vec<String>,
    files: &crate::shellfs::Filesystem,
    env: &EnvironmentRef,
) -> (r: (Status, Vec<String>))
    ensures
        r.0 == Status::Success || r.0 == Status::NotFound,
        args@.len() == 0 ==> (r.0 == Status::Success && r.1@.len() == 0),
{
    let mut lines: Vec<String> = Vec::new();
    let mut i: usize = 0;
    while i < args.len()
        invariant
            i <= args@.len(),
            i == 0 ==> lines@.len() == 0,
        decreases args@.len() - i,
    {
        match Item::from_string(&args[i]) {
            Ok(Item::FileSystem) => {
                lines.push(debug_fs(files));
            },
            Ok(Item::Environment) => {
                lines.push(debug_env(env));
            },
            Err(()) => {
                let suffix = String::from_bytes(
                    " not an item or not yet implemented".as_bytes(),
                );
                lines.push(args[i].concat(&suffix));
                return (Status::NotFound, lines);
            },
        }
        i = i + 1;
    }
    (Status::Success, lines)
}

/// The ascii banner `logo` prints.
pub fn logo() -> (r: (Status, Vec<String>))
    ensures
        r.0 == Status::Success,
        r.1@.len() == 5,
{
    let mut lines: Vec<String> = Vec::new();
    lines.push(String::from_bytes(",------.,--.               ,--.".as_bytes()));
    lines.push(String::from_bytes("|  .---'|  | ,--,--.,--.--.`--' ,---.".as_bytes()));
    lines.push(String::from_bytes("|  `--, |  |' ,-.  ||  .--',--.| .-. |".as_bytes()));
    lines.push(String::from_bytes("|  |`   |  |\\ '-'  ||  |   |  |' '-' '".as_bytes()));
    lines.push(String::from_bytes("`--'    `--' `--`--'`--'   `--' `---'".as_bytes()));
    (Status::Success, lines)
}

/// `about`: one line naming the kernel.
pub fn about() -> (r: (Status, Vec<String>))
    ensures
        r.0 == Status::Success,
        arg_views(r.1@) == seq![
            "flario: a kernel with an integrated shell".spec_bytes(),
        ],
{
    let mut lines: Vec<String> = Vec::new();
    lines.push(String::from_bytes("flario: a kernel with an integrated shell".as_bytes()));
    proof {
        assert(arg_views(lines@) =~= seq![
            "flario: a kernel with an integrated shell".spec_bytes(),
        ]);
    }
    (Status::Success, lines)
}

} // verus!
