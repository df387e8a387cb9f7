//! Temperature conversion between Fahrenheit and Celsius for the command
//! line: what a command line asks for, how the lines of an interactive
//! session are answered, the table of common conversions, and the text that
//! is shown.
//!
//! The library decides and lays out; it reads nothing and prints nothing.
//! Degrees are kept as the text that was entered, checked against the grammar
//! of numbers: the arithmetic on real numbers is the caller's.
//!
//! - [`command`]: the command as it stands on the command line.
//! - [`commands`]: from a command, or from flags, to what is to be done.
//! - [`interactive`]: the interactive session, one line at a time.
//! - [`table`]: the table of common conversions.
//! - [`present`]: the layout of numbers and conversions.
//! - [`usage`]: the usage text.
//! - [`degrees`], [`number`], [`text`]: the grammar of degrees, whole numbers
//!   as text, white space.
//! - [`scale`], [`error`]: the two scales, and what can go wrong.

pub mod command;
pub mod commands;
pub mod degrees;
pub mod error;
pub mod interactive;
pub mod number;
pub mod present;
pub mod scale;
pub mod table;
pub mod text;
pub mod usage;
