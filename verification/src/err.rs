//! Error taxonomy of the codec.
//!
//! Every failure of a parse or emit step is fatal to the enclosing call and is
//! reported as an [`NlError`]: an [`ErrorKind`] together with the chain of
//! field names that were being decoded when the failure happened, so that a
//! failure inside a nested tree reports a path.

use vstd::prelude::*;

verus! {

/// Why a decode or encode step failed.
#[derive(Clone, Copy, Debug, PartialEq, Eq, Structural)]
pub enum ErrorKind {
    /// A slice is shorter than a record's declared length, or below the
    /// four-byte record minimum.
    BufferTooShort,
    /// An attribute id that is not part of the active schema; carries the
    /// offending id.
    UnknownAttributeType(u16),
    /// A command byte outside the family's closed set; carries the byte.
    UnknownCommand(u8),
    /// A fixed-width field with the wrong byte count, or a value whose bytes
    /// do not have the expected shape (for strings: invalid UTF-8).
    MalformedScalar,
    /// An outer message whose declared length does not match the bytes
    /// available to consume; terminates reassembly, distinct from the
    /// data-level errors above.
    FramingViolation,
    /// An attribute tree nested deeper than the codec's defensive limit.
    NestingTooDeep,
}

/// A decode error: its kind plus the chain of field names from the outermost
/// context to the failing field.
#[derive(Clone, Debug)]
pub struct NlError {
    pub kind: ErrorKind,
    pub path: Vec<&'static str>,
}

impl NlError {
    /// A fresh error with an empty context chain.
    pub fn new(kind: ErrorKind) -> (r: NlError)
        ensures
            r.kind == kind,
            r.path@ == Seq::<&'static str>::empty(),
    {
        NlError { kind, path: Vec::new() }
    }

    /// The same error, with `field` prepended to the context chain.
    pub fn context(self, field: &'static str) -> (r: NlError)
        ensures
            r.kind == self.kind,
            r.path@ == seq![field] + self.path@,
    {
        let mut path = self.path;
        path.insert(0, field);
        NlError { kind: self.kind, path }
    }
}

} // verus!
