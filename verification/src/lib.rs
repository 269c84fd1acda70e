//! The logic of an interactive Telnet client with YMODEM upload.
//!
//! Everything the client decides is here: the Telnet byte codec, the keyboard
//! encoding, the command prefix and mode handling of the terminal UI, the file
//! picker, what is drawn where, and what an upload is told and reports. Sockets,
//! files and the terminal itself belong to the program around this library.

pub mod cli;
pub mod file_picker;
pub mod keymap;
pub mod listing;
pub mod scene;
pub mod screen;
pub mod session;
pub mod telnet;
pub mod text;
pub mod upload;
