use vstd::prelude::*;

verus! {

/// Everything the engine can fail with. Every variant carries plain data
/// (slot indices and byte counts), so contracts can state exactly which
/// error an operation returns on which input.
///
/// * `Truncation`: the stream had fewer bytes left than a decode needed.
/// * `VersionUnsupported`: a combinator read a field whose slot holds the
///   absent marker because the resolved version excludes the field.
/// * `TypeMismatch`: a value of the wrong runtime variant reached a
///   combinator or a coercion (for example, comparing against a list).
/// * `UninitializedField`: a combinator read a slot that has not been
///   populated yet — a schema-authoring bug, not a data bug.
/// * `CompressionUnsupported`: a field asked for compressed handling but the
///   record type supplies no decompression hook.
/// * `ValueOutOfRange`: a count was negative or did not fit its target width.
#[derive(Debug, Clone, Copy, PartialEq, Eq, Structural)]
pub enum BfpError {
    Truncation { requested: usize, available: usize },
    VersionUnsupported { field: usize },
    TypeMismatch { field: usize },
    UninitializedField { field: usize },
    CompressionUnsupported { field: usize },
    ValueOutOfRange { field: usize },
}

} // verus!
