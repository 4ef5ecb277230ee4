//! Parsed shell commands: the first word picks a program, the rest become
//! its arguments, and running the command drives that program against the
//! kernel's state.

use vstd::prelude::*;
use vstd::string::StringSliceAdditionalSpecFns;

use crate::environ::{env_has_name, EnvironmentRef};
use crate::btfs::FileSyetemRef;
use crate::programs;
use crate::sc::SystemClock;
use crate::shellstring::String;
use crate::status::Status;

verus! {

/// The program a command's first word names.
#[derive(Debug, Clone, Copy, PartialEq, Eq, Structural)]
pub enum ArgZero {
    Help,
    About,
    Ls,
    Mkdir,
    Clear,
    Mkfile,
    Env,
    Logo,
    NotFound,
    Time,
    Cd,
}

/// The program a word names; anything unknown is `NotFound`.
pub open spec fn spec_arg_zero(s: Seq<u8>) -> ArgZero {
    if s == "help".spec_bytes() {
        ArgZero::Help
    } else if s == "about".spec_bytes() {
        ArgZero::About
    } else if s == "ls".spec_bytes() {
        ArgZero::Ls
    } else if s == "mkdir".spec_bytes() {
        ArgZero::Mkdir
    } else if s == "clear".spec_bytes() {
        ArgZero::Clear
    } else if s == "mkfile".spec_bytes() {
        ArgZero::Mkfile
    } else if s == "logo".spec_bytes() {
        ArgZero::Logo
    } else if s == "env".spec_bytes() {
        ArgZero::Env
    } else if s == "time".spec_bytes() {
        ArgZero::Time
    } else if s == "cd".spec_bytes() {
        ArgZero::Cd
    } else {
        ArgZero::NotFound
    }
}

impl ArgZero {
    /// Parses a command word.
    pub fn from_string(s: &String) -> (r: ArgZero)
        ensures
            r == spec_arg_zero(s@),
    {
        if s.eq_bytes("help".as_bytes()) {
            ArgZero::Help
        } else if s.eq_bytes("about".as_bytes()) {
            ArgZero::About
        } else if s.eq_bytes("ls".as_bytes()) {
            ArgZero::Ls
        } else if s.eq_bytes("mkdir".as_bytes()) {
            ArgZero::Mkdir
        } else if s.eq_bytes("clear".as_bytes()) {
            ArgZero::Clear
        } else if s.eq_bytes("mkfile".as_bytes()) {
            ArgZero::Mkfile
        } else if s.eq_bytes("logo".as_bytes()) {
            ArgZero::Logo
        } else if s.eq_bytes("env".as_bytes()) {
            ArgZero::Env
        } else if s.eq_bytes("time".as_bytes()) {
            ArgZero::Time
        } else if s.eq_bytes("cd".as_bytes()) {
            ArgZero::Cd
        } else {
            ArgZero::NotFound
        }
    }

    /// The word this program answers to.
    pub fn name(&self) -> (r: String)
        ensures
            r@ == (match *self {
                ArgZero::Help => "help".spec_bytes(),
                ArgZero::About => "about".spec_bytes(),
                ArgZero::Ls => "ls".spec_bytes(),
                ArgZero::Mkdir => "mkdir".spec_bytes(),
                ArgZero::Clear => "clear".spec_bytes(),
                ArgZero::Mkfile => "mkfile".spec_bytes(),
                ArgZero::Logo => "logo".spec_bytes(),
                ArgZero::Env => "env".spec_bytes(),
                ArgZero::NotFound => "not found".spec_bytes(),
                ArgZero::Time => "time".spec_bytes(),
                ArgZero::Cd => "cd".spec_bytes(),
            }),
    {
        match *self {
            ArgZero::Help => String::from_bytes("help".as_bytes()),
            ArgZero::About => String::from_bytes("about".as_bytes()),
            ArgZero::Ls => String::from_bytes("ls".as_bytes()),
            ArgZero::Mkdir => String::from_bytes("mkdir".as_bytes()),
            ArgZero::Clear => String::from_bytes("clear".as_bytes()),
            ArgZero::Mkfile => String::from_bytes("mkfile".as_bytes()),
            ArgZero::Logo => String::from_bytes("logo".as_bytes()),
            ArgZero::Env => String::from_bytes("env".as_bytes()),
            ArgZero::NotFound => String::from_bytes("not found".as_bytes()),
            ArgZero::Time => String::from_bytes("time".as_bytes()),
            ArgZero::Cd => String::from_bytes("cd".as_bytes()),
        }
    }
}

/// The kernel state the shell's programs act on: the two filesystems, the
/// scratch table, the environment and the clock, owned together by the
/// shell's driver.
pub struct ShellContext {
    pub fs: FileSyetemRef,
    pub files: crate::fs::Filesystem,
    pub scratch: crate::shellfs::Filesystem,
    pub env: EnvironmentRef,
    pub clock: SystemClock,
}

impl ShellContext {
    /// Every component is well formed and the environment knows `cwd`.
    pub open spec fn wf(&self) -> bool {
        &&& self.fs.wf()
        &&& self.files.wf()
        &&& self.scratch.wf()
        &&& self.env.wf()
        &&& env_has_name(self.env@, "cwd".spec_bytes())
        &&& self.clock.spec_rate() >= 1
    }

    /// The kernel state as it is booted.
    pub fn new() -> (c: ShellContext)
        ensures
            c.wf(),
    {
        let clock = SystemClock::new(crate::sc::CLOCK_RATE);
        let fs = FileSyetemRef::new(&clock);
        let mut files = crate::fs::Filesystem::new();
        files.write_readme();
        let env = EnvironmentRef::new();
        proof {
            assert(env@[0].0 == "cwd".spec_bytes());
            assert(env_has_name(env@, "cwd".spec_bytes()));
        }
        ShellContext { fs, files, scratch: crate::shellfs::Filesystem::new(), env, clock }
    }
}

/// A parsed command line.
#[derive(Debug)]
pub struct Command {
    pub arg_zero: ArgZero,
    pub args: Vec<String>,
}

impl Command {
    /// Parses a word list: the first word picks the program, the rest are
    /// its arguments.
    pub fn from_args(words: Vec<String>) -> (c: Command)
        requires
            words@.len() >= 1,
        ensures
            c.arg_zero == spec_arg_zero(words@[0]@),
            c.args@ == words@.drop_first(),
    {
        let mut words = words;
        let first = words.remove(0);
        let arg_zero = ArgZero::from_string(&first);
        Command { arg_zero, args: words }
    }

    /// Runs the command: executes the program it names against the kernel
    /// state and hands back the program's status and output lines. `clear`
    /// prints nothing; the console clears the screen for it.
    pub fn run(self, ctx: &mut ShellContext) -> (r: (Status, Vec<String>))
        requires
            old(ctx).wf(),
        ensures
            final(ctx).wf(),
            final(ctx).clock == old(ctx).clock,
            self.arg_zero == ArgZero::Help ==> final(ctx).env@ == old(ctx).env@ && (if self.args@.len()
                > 0 {
                r.0 == Status::Success
            } else {
                r.0 == Status::NotFound
            }),
            self.arg_zero == ArgZero::About ==> r.0 == Status::Success,
            self.arg_zero == ArgZero::Clear ==> r.0 == Status::Success && r.1@.len() == 0,
            self.arg_zero == ArgZero::Logo ==> r.0 == Status::Success,
            self.arg_zero == ArgZero::Env ==> r.0 == Status::Success && programs::arg_views(r.1@)
                == programs::spec_env_lines(old(ctx).env@),
            self.arg_zero == ArgZero::Time ==> r.0 == Status::Success && programs::arg_views(r.1@)
                == seq![
                programs::spec_time_line(old(ctx).clock.spec_tick(), old(ctx).clock.spec_rate()),
            ],
            self.arg_zero == ArgZero::NotFound ==> r.0 == Status::NotFound,
            self.arg_zero == ArgZero::Mkdir || self.arg_zero == ArgZero::Mkfile ==> (r.0
                == Status::Success || r.0 == Status::FailedToWrite),
            self.arg_zero == ArgZero::Cd && self.args@.len() == 0 ==> r.0 == Status::FailedToRead,
    {
        match self.arg_zero {
            ArgZero::Help => programs::help(&self.args),
            ArgZero::About => programs::about(),
            ArgZero::Ls => programs::ls(&ctx.fs, &ctx.env),
            ArgZero::Mkdir => {
                let code = programs::mkdir(&self.args, &mut ctx.fs, &ctx.clock);
                (code, Vec::new())
            },
            ArgZero::Clear => (Status::Success, Vec::new()),
            ArgZero::Mkfile => {
                let code = programs::mkfile(&self.args, &mut ctx.fs, &ctx.clock);
                (code, Vec::new())
            },
            ArgZero::Env => programs::env_list(&ctx.env),
            ArgZero::Logo => programs::logo(),
            ArgZero::NotFound => programs::not_found(&self.args),
            ArgZero::Time => programs::time(&ctx.clock),
            ArgZero::Cd => {
                let r = programs::cd(&self.args, &mut ctx.fs, &mut ctx.env);
                r
            },
        }
    }

    /// Runs the command; `execute` is the caller-facing name.
    pub fn execute(self, ctx: &mut ShellContext) -> (r: (Status, Vec<String>))
        requires
            old(ctx).wf(),
        ensures
            final(ctx).wf(),
    {
        self.run(ctx)
    }
}

} // verus!
