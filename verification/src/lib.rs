//! Turns a working directory into the path under which the Windows Subsystem
//! for Linux mounts it (`C:\Users\x` becomes `/mnt/c/Users/x/`), and decides
//! from the command line whether that path is quoted or a message is shown
//! instead.
//!
//! The library is pure: it reads no directory, opens no dialog and touches no
//! clipboard. A caller hands it the arguments and the directory as text and
//! gets back what to show or what to copy.

pub mod arguments;
pub mod command;
pub mod notice;
pub mod path;
pub mod quoting;
pub mod text;
pub mod usage;
