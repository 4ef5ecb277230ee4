//! The verified core of a small cooperative kernel: the task executor, the
//! bounded event channel that bridges interrupt-context producers to
//! task-context consumers, and the pure kernel services around them — two
//! in-memory filesystems, the shell's command layer, the environment table,
//! the system clock and the text-grid writer.

pub mod btfs;
pub mod channel;
pub mod command;
pub mod editor;
pub mod environ;
pub mod executor;
pub mod fs;
pub mod interrupts;
pub mod kb;
pub mod keyboard;
pub mod mem;
pub mod programs;
pub mod queue;
pub mod sc;
pub mod shellfs;
pub mod shellstring;
pub mod status;
pub mod task;
pub mod vga;
pub mod vsfs;
