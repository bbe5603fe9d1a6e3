//! The kinds of events the editor hands to its tools.
use vstd::prelude::*;

verus! {

/// What the mouse did.
#[derive(Debug, Clone, Copy, PartialEq, Eq, Structural)]
pub enum MouseEventType {
    Pressed,
    DoubleClick,
    Released,
    Moved,
    Scrolled,
}

/// What happened to the files of the glyph.
#[derive(Debug, Clone, Copy, PartialEq, Eq, Structural)]
pub enum IOEventType {
    FileSwitched,
    FileSaved,
    FileSavedAs,
    FileFlattened,
    FileFlattenedAs,
    FileExported,
    FontinfoWritten,
    /// Always follows a `FontinfoWritten`; comes alone where the font info
    /// was rewritten by another program.
    FontinfoReloaded,
}

} // verus!
