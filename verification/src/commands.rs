//! The command layer: a literal-and-argument tree per command, built at
//! startup, and the argument checks each executor makes before acting.
//! Running a command against the world happens at the caller; the
//! decisions here work on the parsed arguments as plain values.

pub mod tree;
pub mod ban;
pub mod setworldspawn;
