use vstd::prelude::*;

verus! {

/// Errors arising while decoding a BOM container.
///
/// `Truncated` and `CorruptIndex` are fatal: no document is produced.
/// Every other variant arises while resolving one section or one block and
/// is recorded as a soft failure against the document, never aborting the
/// decode of unrelated regions.
#[derive(Clone, Copy, Debug, PartialEq, Eq, Structural)]
pub enum BomError {
    /// The buffer is too short to hold the fixed file header.
    Truncated,
    /// A declared index region lies outside the buffer or cannot hold its
    /// declared entries.
    CorruptIndex,
    /// A read reaches beyond the end of the buffer or of a block.
    OutOfBounds,
    /// A block index that the blocks index does not contain.
    BadIndex,
    /// The named variable for an optional section is absent from the
    /// variables index. This is the expected-absence signal, distinct from
    /// every failure case.
    MissingVariable,
    /// No known block kind matches the block's bytes.
    UnknownBlockType,
    /// A block of one to three bytes: too small to hold the leading bytes
    /// classification inspects.
    TooSmall,
    /// A string field is not properly NUL-terminated.
    BadString,
    /// A linked chain of blocks revisits a block or never terminates.
    CycleDetected,
}

impl BomError {
    /// A human-readable description, for recording against a document.
    pub fn message(&self) -> (r: String)
        ensures
            self is Truncated ==> r@ == "buffer too small for BOM header"@,
            self is CorruptIndex ==> r@ == "index region corrupt or out of declared bounds"@,
            self is OutOfBounds ==> r@ == "read out of bounds"@,
            self is BadIndex ==> r@ == "bad index into BOM data"@,
            self is MissingVariable ==> r@ == "named variable not found"@,
            self is UnknownBlockType ==> r@ == "unknown block type"@,
            self is TooSmall ==> r@ == "block too small for type detection"@,
            self is BadString ==> r@ == "string field not NUL-terminated"@,
            self is CycleDetected ==> r@ == "cycle in linked block chain"@,
    {
        match self {
            BomError::Truncated => "buffer too small for BOM header".to_string(),
            BomError::CorruptIndex => "index region corrupt or out of declared bounds".to_string(),
            BomError::OutOfBounds => "read out of bounds".to_string(),
            BomError::BadIndex => "bad index into BOM data".to_string(),
            BomError::MissingVariable => "named variable not found".to_string(),
            BomError::UnknownBlockType => "unknown block type".to_string(),
            BomError::TooSmall => "block too small for type detection".to_string(),
            BomError::BadString => "string field not NUL-terminated".to_string(),
            BomError::CycleDetected => "cycle in linked block chain".to_string(),
        }
    }
}

} // verus!
