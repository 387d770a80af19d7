//! Client-side rules of a command-line tool for a school portal: which days
//! a query covers, how a request is issued and issued again when the session
//! has expired, what a login answer yields, which shape an answer has, and
//! how the answers become tables.
//!
//! Nothing here sends, receives, reads the clock or touches a file. The
//! caller hands in today's date, the bodies it received and the choices of
//! the user, and is told what to send and what to show.

pub mod api;
pub mod dates;
pub mod display;
pub mod input;
pub mod response_types;
pub mod session;
pub mod settings;
pub mod sorting;
pub mod text;
