//! A voice-command backend: a line of text names a command and carries an
//! argument; the library decides what each command does and what it answers.
pub mod calendar;
pub mod commands;
pub mod dispatch;
pub mod files;
pub mod numbers;
pub mod places;
pub mod protocol;
pub mod registry;
pub mod replies;
pub mod sanitize;
pub mod utilities;
pub mod words;
