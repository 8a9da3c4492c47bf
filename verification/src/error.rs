//! The errors a command can reply with.

use vstd::prelude::*;

verus! {

/// The two classes of failure.
#[derive(Clone, Copy, Debug, PartialEq, Eq, Structural)]
pub enum ErrorKind {
    /// The file or folder that the command was given does not exist.
    NotFound,
    /// The operating system refused or failed a call, and the message is its
    /// own; or it offers no way at all to do what was asked.
    Os,
}

/// A failed command: its class and the text shown to the caller.
#[derive(Debug, PartialEq, Eq)]
pub struct CommandError {
    pub kind: ErrorKind,
    pub message: String,
}

/// A failure as a plain value.
pub struct CommandErrorView {
    pub kind: ErrorKind,
    pub message: Seq<char>,
}

impl View for CommandError {
    type V = CommandErrorView;

    open spec fn view(&self) -> CommandErrorView {
        CommandErrorView { kind: self.kind, message: self.message@ }
    }
}

/// The text before the path in the message about a missing file.
pub open spec fn missing_file_prefix() -> Seq<char> {
    "File does not exist: "@
}

/// The text before the path in the message about a missing folder.
pub open spec fn missing_folder_prefix() -> Seq<char> {
    "Folder does not exist: "@
}

/// The message of the failure on a platform that has no program to show a
/// folder with.
pub open spec fn no_opener_message() -> Seq<char> {
    "No opener available on this platform"@
}

/// `needle` occurs in `text` as a contiguous run of characters.
pub open spec fn contains_text(text: Seq<char>, needle: Seq<char>) -> bool {
    exists|start: int|
        0 <= start && start + needle.len() <= text.len() && #[trigger] text.subrange(
            start,
            start + needle.len(),
        ) == needle
}

impl CommandError {
    /// The failure for a file path that names nothing.
    pub fn missing_file(file_path: &str) -> (error: CommandError)
        ensures
            error@.kind == ErrorKind::NotFound,
            error@.message == missing_file_prefix() + file_path@,
    {
        CommandError {
            kind: ErrorKind::NotFound,
            message: String::from_str("File does not exist: ").concat(file_path),
        }
    }

    /// The failure for a folder path that names nothing.
    pub fn missing_folder(folder_path: &str) -> (error: CommandError)
        ensures
            error@.kind == ErrorKind::NotFound,
            error@.message == missing_folder_prefix() + folder_path@,
    {
        CommandError {
            kind: ErrorKind::NotFound,
            message: String::from_str("Folder does not exist: ").concat(folder_path),
        }
    }

    /// The failure on a platform that has no program to show a folder with.
    pub fn no_opener() -> (error: CommandError)
        ensures
            error@.kind == ErrorKind::Os,
            error@.message == no_opener_message(),
    {
        CommandError {
            kind: ErrorKind::Os,
            message: String::from_str("No opener available on this platform"),
        }
    }

    /// The failure that carries the operating system's own message.
    pub fn os(message: String) -> (error: CommandError)
        ensures
            error@.kind == ErrorKind::Os,
            error@.message == message@,
    {
        CommandError { kind: ErrorKind::Os, message }
    }

    /// The message alone, as the caller across the process boundary gets it.
    pub fn into_message(self) -> (message: String)
        ensures
            message@ == self@.message,
    {
        self.message
    }
}

/// A message made of a prefix and a path holds the path.
pub proof fn lemma_message_holds_path(prefix: Seq<char>, path: Seq<char>)
    ensures
        contains_text(prefix + path, path),
{
    let text = prefix + path;
    let start = prefix.len() as int;
    assert(text.subrange(start, start + path.len()) =~= path);
}

} // verus!
