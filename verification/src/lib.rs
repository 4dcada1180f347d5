//! The logic of `qgui`, a small GUI session manager that runs a desktop (Xvfb,
//! XFCE, x11vnc, noVNC with websockify) inside a container.
//!
//! Nothing here touches a file, a process or a socket. What a command does is
//! named, one action at a time, by [`startup`], [`supervise`], [`teardown`] and
//! [`doctor`]; what it says and what it looks at is worked out by the other
//! modules.

pub mod active;
pub mod clock;
pub mod command;
pub mod component;
pub mod doctor;
pub mod env;
pub mod exit;
pub mod json;
pub mod paths;
pub mod pidfile;
pub mod resolution;
pub mod session;
pub mod shell;
pub mod startup;
pub mod status;
pub mod supervise;
pub mod target;
pub mod teardown;
pub mod text;
