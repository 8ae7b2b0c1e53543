//! The kinds of failure, and what each means for the run.

use vstd::prelude::*;

verus! {

/// The kinds of failure that a command can end in.
#[derive(Clone, Copy, Debug, PartialEq, Eq, Structural)]
pub enum ErrorKind {
    /// The command is unknown or malformed: the usage text is shown.
    Usage,
    /// An index names no monitor, or a file or image is missing: a message
    /// is shown and the command ends without having changed anything.
    NotFound,
    /// A provider call failed.
    Provider,
    /// A directory could not be read.
    Io,
}

/// A fatal failure ends the command at once: nothing here recovers from
/// it. Usage and not-found failures are reported to the user instead.
pub open spec fn fatal(kind: ErrorKind) -> bool {
    kind is Provider || kind is Io
}

/// Whether `kind` ends the command at once.
pub fn is_fatal(kind: ErrorKind) -> (yes: bool)
    ensures
        yes == fatal(kind),
{
    match kind {
        ErrorKind::Provider | ErrorKind::Io => true,
        ErrorKind::Usage | ErrorKind::NotFound => false,
    }
}

/// A failure that the exit status signals: every kind but not-found, which
/// is reported by its message alone.
pub open spec fn signalled(kind: ErrorKind) -> bool {
    !(kind is NotFound)
}

/// Whether the run ends with a non-zero exit status after `kind`.
pub fn exits_nonzero(kind: ErrorKind) -> (yes: bool)
    ensures
        yes == signalled(kind),
        fatal(kind) ==> yes,
{
    match kind {
        ErrorKind::NotFound => false,
        ErrorKind::Usage | ErrorKind::Provider | ErrorKind::Io => true,
    }
}

} // verus!
