//! Inter-process core of a desktop panel whose applets run as child processes.
//!
//! The panel (the host) launches each applet as a process of its own. An applet
//! connects back over one local socket, is recognised by its process id, and
//! from then on exchanges length-prefixed binary messages with the host: layout
//! events travel to the applet, layout requests travel back.
//!
//! Everything here is a pure function of plain values: bytes in, messages and
//! decisions out. Sockets, tasks and child processes belong to the caller, who
//! performs what these functions decide.
//!
//! [`applet`] holds that core. The other modules hold the few plain choices of
//! the panel's look that need no drawing to be made.

pub mod applet;
pub mod application;
pub mod theme;
pub mod utils;
pub mod widget;
