//! Verified core of a virtual-desktop terminal host: UTF-16 text for the
//! window system, the xterm colour palette, keyboard escape sequences, the
//! terminal window's message decisions, the screen renderer and the desktop
//! switching table.
pub mod desktops;
pub mod keys;
pub mod messages;
pub mod palette;
pub mod render;
pub mod screen;
pub mod terminal;
pub mod wide;
