//! The interactive shell and file driver for a small scripting-language
//! runtime.  The shell's own decisions are verified here: how a raw line is
//! trimmed, classified, and dispatched as a meta-command or as source text,
//! and how parse errors, computed values, runtime errors, and failed `eval`
//! targets are routed to diagnostic lines.  The language's parser and
//! interpreter are outside collaborators; the shell only routes what they
//! return.

pub mod command;
pub mod messages;
pub mod pipeline;
pub mod text;

