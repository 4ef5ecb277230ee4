//! The shell's front end: decoded keys, the line editor that turns key
//! presses into argument lists, and the shell state that runs the parsed
//! commands. The kernel's scheduling loop feeds scancodes in; everything
//! here decides, and hands the console work back out.

use vstd::prelude::*;
use vstd::string::StringSliceAdditionalSpecFns;

use crate::command::{Command, ShellContext};
use crate::channel::BytePoll;
use crate::kb::{kb_add_byte, kb_decoded_input, kb_new, kb_process, KeyDecoder, KeyInput};
use crate::keyboard::{ScancodeQueue, ScancodeStream};
use crate::shellstring::{spec_status_text, String, ToString};
use crate::status::Status;
use crate::task::WakeHandle;

verus! {

/// The raw key number of the backspace key in the decoder's key list, for
/// keyboards whose layout reports backspace as a raw key.
pub const RAW_BACKSPACE: u8 = 7;

/// A key press, as the line editor consumes it.
#[derive(Debug, Clone, Copy, PartialEq, Eq, Structural)]
pub enum Key {
    Char(char),
    Enter,
    Backspace,
    Other(u8),
    Nothing,
}

/// How a decoded input reads as an editor key.
pub open spec fn spec_key_of_input(i: KeyInput) -> Key {
    match i {
        KeyInput::Text(c) => if c == '\n' {
            Key::Enter
        } else if c == '\u{8}' {
            Key::Backspace
        } else {
            Key::Char(c)
        },
        KeyInput::Raw(code) => if code == RAW_BACKSPACE {
            Key::Backspace
        } else {
            Key::Other(code)
        },
    }
}

/// Reads a decoded input as an editor key: newline submits, the backspace
/// character (or raw backspace key) erases, any other character is text.
pub fn key_of_input(i: KeyInput) -> (r: Key)
    ensures
        r == spec_key_of_input(i),
{
    match i {
        KeyInput::Text(c) => {
            if c == '\n' {
                Key::Enter
            } else if c == '\u{8}' {
                Key::Backspace
            } else {
                Key::Char(c)
            }
        },
        KeyInput::Raw(code) => {
            if code == RAW_BACKSPACE {
                Key::Backspace
            } else {
                Key::Other(code)
            }
        },
    }
}

/// What the console should do after one key is handled.
pub enum InputAction {
    /// Print the character the user typed.
    Echo(char),
    /// The last buffered character was erased: clear the row and redraw the
    /// prompt and buffer.
    Redraw,
    /// An empty line was submitted: print the prompt again.
    Prompt,
    /// A full command line was submitted.
    Submit(Vec<String>),
    /// Nothing to do.
    Skip,
}

/// The shell: the scancode decoder, the consumer side of the scancode
/// queue, the status of the last command, the last command itself, the
/// prompt character, and the line being edited.
pub struct Shell {
    keyboard: KeyDecoder,
    scancodes: ScancodeStream,
    code: Status,
    last: Option<Command>,
    prompt: u8,
    args: Vec<String>,
    buffer: Vec<u8>,
}

impl Shell {
    /// The words gathered so far on the current line.
    pub closed spec fn spec_args(&self) -> Seq<Seq<u8>> {
        self.args@.map_values(|s: String| s@)
    }

    /// The word being typed.
    pub closed spec fn spec_buffer(&self) -> Seq<u8> {
        self.buffer@
    }

    /// The status of the last command.
    pub closed spec fn spec_code(&self) -> Status {
        self.code
    }

    /// The prompt character.
    pub closed spec fn spec_prompt(&self) -> u8 {
        self.prompt
    }

    /// A fresh shell around a decoder and the scancode consumer handle:
    /// empty line, successful status, `>` prompt.
    pub fn new(keyboard: KeyDecoder, scancodes: ScancodeStream) -> (s: Shell)
        ensures
            s.spec_args() == Seq::<Seq<u8>>::empty(),
            s.spec_buffer() == Seq::<u8>::empty(),
            s.spec_code() == Status::Success,
            s.spec_prompt() == 62,
    {
        let s = Shell {
            keyboard,
            scancodes,
            code: Status::Success,
            last: None,
            prompt: 62,
            args: Vec::new(),
            buffer: Vec::new(),
        };
        proof {
            assert(s.spec_args() =~= Seq::<Seq<u8>>::empty());
        }
        s
    }

    /// The prompt line: the last status in brackets when it was a failure,
    /// then the prompt character and a space.
    pub fn prompt_text(&self) -> (r: String)
        ensures
            r@ == (if self.spec_code() == Status::Success {
                seq![self.spec_prompt(), 32u8]
            } else {
                seq![91u8] + spec_status_text(self.spec_code()) + seq![93u8]
                    + seq![self.spec_prompt(), 32u8]
            }),
    {
        let mut out = String::new();
        if !matches!(self.code, Status::Success) {
            out.push_byte(91);
            out = out.concat(&self.code.to_string());
            out.push_byte(93);
        }
        out.push_byte(self.prompt);
        out.push_byte(32);
        proof {
            if self.spec_code() == Status::Success {
                assert(out@ =~= seq![self.spec_prompt(), 32u8]);
            } else {
                assert(out@ =~= seq![91u8] + spec_status_text(self.spec_code()) + seq![93u8]
                    + seq![self.spec_prompt(), 32u8]);
            }
        }
        out
    }

    /// One step of the line editor. Backspace erases the last buffered
    /// character; a space closes the current word; enter submits the line
    /// (or just reprints the prompt when nothing was typed); any other
    /// character joins the current word; unknown keys do nothing.
    pub fn handle_key(&mut self, k: Key) -> (a: InputAction)
        ensures
            final(self).spec_code() == old(self).spec_code(),
            final(self).spec_prompt() == old(self).spec_prompt(),
            match k {
                Key::Backspace => if old(self).spec_buffer().len() == 0 {
                    a is Skip && final(self).spec_args() == old(self).spec_args() && final(self).spec_buffer() == old(self).spec_buffer()
                } else {
                    a is Redraw && final(self).spec_args() == old(self).spec_args() && final(self).spec_buffer() == old(self).spec_buffer().drop_last()
                },
                Key::Char(c) => if c == ' ' {
                    a is Echo && (a matches InputAction::Echo(e) && e == c) && final(self).spec_args() == old(self).spec_args().push(old(self).spec_buffer()) && final(self).spec_buffer() == Seq::<u8>::empty()
                } else {
                    a is Echo && (a matches InputAction::Echo(e) && e == c) && final(self).spec_args() == old(self).spec_args() && final(self).spec_buffer() == old(self).spec_buffer().push(c as u8)
                },
                Key::Enter => if old(self).spec_buffer().len() == 0 {
                    a is Prompt && final(self).spec_args() == old(self).spec_args() && final(self).spec_buffer() == old(self).spec_buffer()
                } else {
                    &&& (a matches InputAction::Submit(words) && words@.map_values(
                        |s: String| s@,
                    ) == old(self).spec_args().push(old(self).spec_buffer()))
                    &&& final(self).spec_args() == Seq::<Seq<u8>>::empty()
                    &&& final(self).spec_buffer() == Seq::<u8>::empty()
                },
                Key::Other(_) => a is Skip && final(self).spec_args() == old(self).spec_args()
                    && final(self).spec_buffer() == old(self).spec_buffer(),
                Key::Nothing => a is Skip && final(self).spec_args() == old(self).spec_args()
                    && final(self).spec_buffer() == old(self).spec_buffer(),
            },
    {
        match k {
            Key::Backspace => {
                if self.buffer.len() == 0 {
                    InputAction::Skip
                } else {
                    let _ = self.buffer.pop();
                    InputAction::Redraw
                }
            },
            Key::Char(c) => {
                if c == ' ' {
                    let word = String::from_bytes(self.buffer.as_slice());
                    let ghost pre_args = self.spec_args();
                    self.args.push(word);
                    self.buffer = Vec::new();
                    proof {
                        assert(self.spec_args() =~= pre_args.push(old(self).spec_buffer()));
                    }
                    InputAction::Echo(c)
                } else {
                    self.buffer.push(c as u8);
                    InputAction::Echo(c)
                }
            },
            Key::Enter => {
                if self.buffer.len() == 0 {
                    InputAction::Prompt
                } else {
                    let word = String::from_bytes(self.buffer.as_slice());
                    let ghost pre_args = self.spec_args();
                    self.args.push(word);
                    let mut words: Vec<String> = Vec::new();
                    core::mem::swap(&mut words, &mut self.args);
                    self.buffer = Vec::new();
                    proof {
                        assert(words@.map_values(|s: String| s@) =~= pre_args.push(
                            old(self).spec_buffer(),
                        ));
                        assert(self.spec_args() =~= Seq::<Seq<u8>>::empty());
                    }
                    InputAction::Submit(words)
                }
            },
            Key::Other(_) => InputAction::Skip,
            Key::Nothing => InputAction::Skip,
        }
    }

    /// Feeds one scancode byte through the decoder and reads the result as
    /// an editor key; an incomplete or undecodable sequence yields nothing.
    pub fn key(&mut self, queue: &mut ScancodeQueue, cx: &WakeHandle) -> (r: Key)
        requires
            old(queue).wf(),
            old(queue)@ is Some,
        ensures
            final(queue).wf(),
            final(queue)@ is Some,
    {
        let polled = self.scancodes.poll_next(queue, cx);
        let scancode = match polled {
            BytePoll::Ready(b) => b,
            BytePoll::Pending => {
                return Key::Nothing;
            },
        };
        let event = match kb_add_byte(&mut self.keyboard, scancode) {
            Some(e) => e,
            None => {
                return Key::Nothing;
            },
        };
        match kb_process(&mut self.keyboard, event) {
            Some(decoded) => key_of_input(kb_decoded_input(decoded)),
            None => Key::Nothing,
        }
    }

    /// Runs a submitted command line and records its status and the
    /// command itself; the program's output lines go back to the console.
    pub fn exe(&mut self, words: Vec<String>, ctx: &mut ShellContext) -> (r: Vec<String>)
        requires
            words@.len() >= 1,
            old(ctx).wf(),
        ensures
            final(ctx).wf(),
            final(self).spec_args() == old(self).spec_args(),
            final(self).spec_buffer() == old(self).spec_buffer(),
    {
        let cmd = Command::from_args(words);
        let mut copy: Vec<String> = Vec::new();
        let mut i: usize = 0;
        while i < cmd.args.len()
            invariant
                i <= cmd.args@.len(),
            decreases cmd.args@.len() - i,
        {
            copy.push(cmd.args[i].clone());
            i = i + 1;
        }
        self.last = Some(Command { arg_zero: cmd.arg_zero, args: copy });
        let (code, lines) = cmd.execute(ctx);
        self.code = code;
        lines
    }
}

/// A fresh shell wired to a fresh scancode queue, as kernel startup builds
/// it: the queue is initialized here, exactly once.
pub fn shell(queue: &mut ScancodeQueue) -> (s: Shell)
    requires
        old(queue)@ is None,
    ensures
        final(queue).wf(),
        final(queue)@ is Some,
        s.spec_args() == Seq::<Seq<u8>>::empty(),
        s.spec_buffer() == Seq::<u8>::empty(),
        s.spec_code() == Status::Success,
{
    let scancodes = ScancodeStream::new(queue);
    let keyboard = kb_new();
    Shell::new(keyboard, scancodes)
}

} // verus!
