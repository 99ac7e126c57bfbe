//! Verified core of an interactive music-player session.
//!
//! The library owns the session state machine: the current result set, the
//! current selection, and the browsing cursor, together with the command
//! interpreter that maps one line of user input to a session action.  The
//! external collaborators (the search backend, the downloader, the audio
//! player and the terminal renderer) are pure I/O and live outside this
//! crate; the library hands them plain values and takes plain values back.

pub mod command;
pub mod error;
pub mod laws;
pub mod parse;
pub mod session;
pub mod track;
