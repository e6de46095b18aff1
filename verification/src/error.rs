use vstd::prelude::*;

verus! {

/// Typed outcome of a decode step that cannot proceed.
///
/// Every parsing failure is reported to the immediate caller through one of
/// these kinds; no decode ever panics or reads past the supplied buffer.
#[derive(Clone, Copy, Debug, PartialEq, Eq, Structural)]
pub enum FormatError {
    /// The buffer is not a 188-byte packet beginning with the sync byte.
    BadSync,
    /// A declared length or computed offset exceeds the available bytes.
    Truncated,
    /// A PSI length field is inconsistent with the entry-size constraints.
    BadLength,
    /// The section syntax indicator is clear where a structured section was
    /// expected.
    UnsupportedSyntax,
    /// A control field carries a reserved code, so the layout that follows
    /// it is undefined.
    ReservedValue,
}

} // verus!
