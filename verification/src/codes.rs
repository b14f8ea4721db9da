//! Boundary-visible result codes and the total mapping from internal
//! failure categories to exactly one code.

use vstd::prelude::*;

verus! {

/// The closed set of outcomes a boundary call can report.
///
/// Exactly one of these is produced by every entry point; no other signal
/// crosses the boundary.
#[derive(Copy, Clone, Debug, PartialEq, Eq, Structural)]
pub enum Lazrs_Result {
    LAZRS_OK,
    LAZRS_UNKNOWN_LAZ_ITEM,
    LAZRS_UNKNOWN_LAZ_ITEM_VERSION,
    LAZRS_UNKNOWN_COMPRESSOR_TYPE,
    LAZRS_UNSUPPORTED_COMPRESSOR_TYPE,
    LAZRS_UNSUPPORTED_POINT_FORMAT,
    LAZRS_IO_ERROR,
    LAZRS_MISSING_CHUNK_TABLE,
    LAZRS_OTHER,
}

/// Older revisions of this interface used this name for the same code set.
pub type LazrsResult = Lazrs_Result;

/// Internal failure categories: every error the codec engine can report,
/// plus the two failure sources of this layer itself (stream I/O and
/// contained internal faults).
#[derive(Copy, Clone, Debug, PartialEq, Eq, Structural)]
pub enum CodecFault {
    UnknownLazItem,
    UnsupportedLazItemVersion,
    UnknownCompressorType,
    UnsupportedCompressorType,
    UnsupportedPointFormat,
    IoError,
    MissingChunkTable,
    Other,
}

/// The one code each failure category maps to.
pub open spec fn spec_result_of_fault(f: CodecFault) -> Lazrs_Result {
    match f {
        CodecFault::UnknownLazItem => Lazrs_Result::LAZRS_UNKNOWN_LAZ_ITEM,
        CodecFault::UnsupportedLazItemVersion => Lazrs_Result::LAZRS_UNKNOWN_LAZ_ITEM_VERSION,
        CodecFault::UnknownCompressorType => Lazrs_Result::LAZRS_UNKNOWN_COMPRESSOR_TYPE,
        CodecFault::UnsupportedCompressorType => Lazrs_Result::LAZRS_UNSUPPORTED_COMPRESSOR_TYPE,
        CodecFault::UnsupportedPointFormat => Lazrs_Result::LAZRS_UNSUPPORTED_POINT_FORMAT,
        CodecFault::IoError => Lazrs_Result::LAZRS_IO_ERROR,
        CodecFault::MissingChunkTable => Lazrs_Result::LAZRS_MISSING_CHUNK_TABLE,
        CodecFault::Other => Lazrs_Result::LAZRS_OTHER,
    }
}

/// Total mapping from a failure category to a result code.
///
/// Every internal failure is mapped to exactly one non-ok code before it
/// crosses the boundary; nothing is logged, retried or escalated.
pub fn result_of_fault(f: &CodecFault) -> (r: Lazrs_Result)
    ensures
        r == spec_result_of_fault(*f),
{
    match f {
        CodecFault::UnknownLazItem => Lazrs_Result::LAZRS_UNKNOWN_LAZ_ITEM,
        CodecFault::UnsupportedLazItemVersion => Lazrs_Result::LAZRS_UNKNOWN_LAZ_ITEM_VERSION,
        CodecFault::UnknownCompressorType => Lazrs_Result::LAZRS_UNKNOWN_COMPRESSOR_TYPE,
        CodecFault::UnsupportedCompressorType => Lazrs_Result::LAZRS_UNSUPPORTED_COMPRESSOR_TYPE,
        CodecFault::UnsupportedPointFormat => Lazrs_Result::LAZRS_UNSUPPORTED_POINT_FORMAT,
        CodecFault::IoError => Lazrs_Result::LAZRS_IO_ERROR,
        CodecFault::MissingChunkTable => Lazrs_Result::LAZRS_MISSING_CHUNK_TABLE,
        CodecFault::Other => Lazrs_Result::LAZRS_OTHER,
    }
}

/// Law: the mapping keeps failure categories apart.  Two different
/// failure categories never collapse into one code, and no failure is ever
/// reported as success, so a caller can reconstruct the category from the
/// code alone, stably across calls.
pub proof fn lemma_fault_codes_distinct(f1: CodecFault, f2: CodecFault)
    ensures
        spec_result_of_fault(f1) == spec_result_of_fault(f2) ==> f1 == f2,
        spec_result_of_fault(f1) != Lazrs_Result::LAZRS_OK,
{
}

} // verus!
