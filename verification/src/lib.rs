//! Management of AWS credential profiles kept in an INI-style credentials file.
//!
//! The library works on the text of the credentials file and on plain values:
//! the caller looks up the home directory, reads and writes the file, and
//! calls the identity service, and hands over what it found.
//!
//! - [`commands`] holds the profile commands, from what was found at the
//!   place of the file to what is to be reported or written back.
//! - [`store`] holds the sections of a file in memory and the operations on
//!   them; [`ini_file`] is the parser underneath, whose behaviour is stated
//!   and not proved.
//! - [`listing`] reads the profile names off the header lines of a text.
//! - [`format`] says what text stands for which sections, [`rendering`] what
//!   a listing finds in such a text, and [`laws`] what holds of the
//!   operations taken together.
//! - [`identity`] reports the outcome of the identity check.

pub mod commands;
pub mod error;
pub mod format;
pub mod identity;
pub mod ini_file;
pub mod laws;
pub mod listing;
pub mod profile;
pub mod rendering;
pub mod store;
