//! The command surface.
//!
//! The host shell exposes three commands to its front end, each addressed by
//! name over a dispatch channel.  The routing from a request name to the
//! command it denotes is a fixed table, built here as a verified function;
//! the handlers' file-system work stays with the caller.

use vstd::prelude::*;

verus! {

/// A command of the native surface.
#[derive(Clone, Copy, Debug, PartialEq, Eq, Structural)]
pub enum Command {
    /// Report the portable database path, if one is in use.
    ResolvePortableDbPath,
    /// Overwrite a file with the given text.
    WriteTextFile,
    /// Copy a file byte-for-byte.
    CopyFile,
}

/// The request name of the resolver command.
pub open spec fn resolve_command_name() -> Seq<char> {
    "resolve_portable_db_path"@
}

/// The request name of the text-writing command.
pub open spec fn write_command_name() -> Seq<char> {
    "write_text_file"@
}

/// The request name of the copying command.
pub open spec fn copy_command_name() -> Seq<char> {
    "copy_file"@
}

/// Which command a request name denotes, if any.
pub open spec fn spec_route(name: Seq<char>) -> Option<Command> {
    if name == resolve_command_name() {
        Some(Command::ResolvePortableDbPath)
    } else if name == write_command_name() {
        Some(Command::WriteTextFile)
    } else if name == copy_command_name() {
        Some(Command::CopyFile)
    } else {
        None
    }
}

/// The result a file operation reports to the front end, built from the
/// file system's outcome: the error text verbatim when the operation
/// failed, plain success otherwise.  A failure is never swallowed and a
/// success is never invented; no retry or recovery happens here.
pub fn file_op_report(error: Option<String>) -> (r: Result<(), String>)
    ensures
        error matches Some(text) ==> (r matches Err(t) && t@ == text@),
        error is None <==> r is Ok,
{
    match error {
        Some(text) => Err(text),
        None => Ok(()),
    }
}

/// Map a request name to the command it denotes.  Absence means the name is
/// not part of the surface: the caller reports it as an unknown command.
pub fn route(name: &str) -> (r: Option<Command>)
    ensures
        r == spec_route(name@),
{
    let owned = name.to_owned();
    if owned == "resolve_portable_db_path".to_owned() {
        Some(Command::ResolvePortableDbPath)
    } else if owned == "write_text_file".to_owned() {
        Some(Command::WriteTextFile)
    } else if owned == "copy_file".to_owned() {
        Some(Command::CopyFile)
    } else {
        None
    }
}

} // verus!
