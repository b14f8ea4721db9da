//! Source and destination variants: the tags a caller selects a byte
//! source or destination with, and the validation their payloads get
//! before any stream is constructed from them.

use vstd::prelude::*;
use crate::codes::Lazrs_Result;
use crate::mem::MemStream;
use crate::utf8check::is_utf8;
use vstd::utf8::valid_utf8;

verus! {

/// An owned, immutable byte buffer handed across the boundary.
pub struct Lazrs_Buffer {
    pub data: Vec<u8>,
}

impl View for Lazrs_Buffer {
    type V = Seq<u8>;

    open spec fn view(&self) -> Seq<u8> {
        self.data@
    }
}

/// The kinds of byte source a decompression session can read from.
#[derive(Copy, Clone, Debug, PartialEq, Eq, Structural)]
pub enum Lazrs_SourceType {
    /// An in-memory buffer.
    LAZRS_SOURCE_BUFFER,
    /// An already-open native file handle.
    LAZRS_SOURCE_CFILE,
    /// A file path, as length-prefixed bytes, to be opened for reading.
    LAZRS_SOURCE_FNAME,
    /// A caller-supplied set of read/seek/tell callbacks.
    LAZRS_SOURCE_CUSTOM,
}

/// The kinds of byte destination a compression session can write to.
#[derive(Copy, Clone, Debug, PartialEq, Eq, Structural)]
pub enum Lazrs_DestType {
    /// An already-open native file handle.
    LAZRS_DEST_CFILE,
    /// A caller-supplied set of write/flush/seek/tell callbacks.
    LAZRS_DEST_CUSTOM,
}

/// Builds the memory adapter for a buffer-tagged source: cannot fail, the
/// stream holds exactly the buffer's bytes with the cursor at the start.
pub fn memory_source(buffer: Lazrs_Buffer) -> (s: MemStream)
    ensures
        s.wf(),
        s.spec_data() == buffer@,
        s.spec_pos() == 0,
{
    MemStream::new(buffer.data)
}

/// Validates a path-tagged source payload: the raw bytes must be
/// well-formed text before they may be interpreted as a path.  A payload
/// that is not well-formed UTF-8 is rejected with the I/O-error code — the
/// same code a failing open would produce — and never reaches the
/// filesystem.
pub fn validate_path_payload(payload: &[u8]) -> (r: Result<(), Lazrs_Result>)
    ensures
        (r is Ok) <==> valid_utf8(payload@),
        r matches Err(code) ==> code == Lazrs_Result::LAZRS_IO_ERROR,
{
    if is_utf8(payload) {
        Ok(())
    } else {
        Err(Lazrs_Result::LAZRS_IO_ERROR)
    }
}

/// The outcome of a custom seek, as a function of the seek callback's
/// status and of whatever position the position callback would report:
/// only a zero status confirms the seek and passes that position on.
pub open spec fn spec_custom_seek(status: i32, position: u64) -> Result<u64, Lazrs_Result> {
    if status == 0 {
        Ok(position)
    } else {
        Err(Lazrs_Result::LAZRS_IO_ERROR)
    }
}

/// Law: after a seek callback reports a non-zero status, the operation's
/// outcome is the I/O-error code whatever position the position callback
/// would have reported — so that callback need never be invoked, and a
/// position the adapter did not confirm is never trusted.
pub proof fn lemma_failed_seek_needs_no_position(status: i32, p1: u64, p2: u64)
    requires
        status != 0,
    ensures
        spec_custom_seek(status, p1) == spec_custom_seek(status, p2),
        spec_custom_seek(status, p1) == Err::<u64, Lazrs_Result>(Lazrs_Result::LAZRS_IO_ERROR),
{
}

/// Decides what follows the return of a caller-supplied seek callback: a
/// zero status — and only a zero status — lets the operation go on to the
/// position query; any non-zero status aborts it with the I/O-error code
/// before the position callback is consulted.  The decision agrees with
/// `spec_custom_seek` for every position the query could return.
pub fn custom_seek_decision(status: i32) -> (r: Result<(), Lazrs_Result>)
    ensures
        (r is Ok) <==> status == 0,
        r matches Err(code) ==> code == Lazrs_Result::LAZRS_IO_ERROR,
        forall|p: u64|
            #[trigger] spec_custom_seek(status, p) == match r {
                Ok(()) => Ok::<u64, Lazrs_Result>(p),
                Err(code) => Err::<u64, Lazrs_Result>(code),
            },
{
    if status == 0 {
        Ok(())
    } else {
        Err(Lazrs_Result::LAZRS_IO_ERROR)
    }
}

} // verus!
