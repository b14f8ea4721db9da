//! The trusted boundary to the codec engine (the `laz` crate) and to the
//! in-memory byte stream it consumes (`std::io::Cursor`).
//!
//! Everything in this module is a declaration or a thin wrapper whose
//! contract states what the engine's source shows; nothing here is proved.
//! All decisions — validation, dispatch, error mapping, buffer
//! arithmetic — live in the verified modules and only call through here.

use vstd::prelude::*;
use crate::codes::CodecFault;

verus! {

#[verifier::external_type_specification]
#[verifier::external_body]
pub struct ExLazVlr(laz::LazVlr);

#[verifier::external_type_specification]
#[verifier::external_body]
pub struct ExLasZipError(laz::LasZipError);

#[verifier::external_type_specification]
#[verifier::external_body]
#[verifier::reject_recursive_types(T)]
pub struct ExCursor<T>(std::io::Cursor<T>);

/// The in-memory byte stream every engine session of this crate reads from
/// or writes to.
pub type MemCursor = std::io::Cursor<Vec<u8>>;

/// An engine decompression session over an in-memory stream.  The engine's
/// session type is generic over traits Verus does not know, so it is held
/// opaquely in a struct of this crate.
#[verifier::external_body]
pub struct EngineDecompressor {
    inner: laz::LasZipDecompressor<'static, std::io::Cursor<Vec<u8>>>,
}

/// An engine compression session over an in-memory stream, held opaquely
/// for the same reason.
#[verifier::external_body]
pub struct EngineCompressor {
    inner: laz::LasZipCompressor<'static, std::io::Cursor<Vec<u8>>>,
}

/// Whether `laz::LazVlr::from_buffer` accepts the given configuration
/// record bytes.  The parse reads the bytes alone, so its outcome is a
/// function of them.
pub uninterp spec fn vlr_record_wellformed(record_data: Seq<u8>) -> bool;

/// The configuration `laz::LazVlr::from_buffer` parses out of well-formed
/// record bytes.
pub uninterp spec fn parsed_vlr(record_data: Seq<u8>) -> laz::LazVlr;

/// The failure category `laz::LazVlr::from_buffer` reports on record bytes
/// it does not accept.
pub uninterp spec fn vlr_parse_fault(record_data: Seq<u8>) -> CodecFault;

/// The item descriptors a configuration holds, one `(type code, size,
/// version)` triple per item, in order.
pub uninterp spec fn vlr_items(v: laz::LazVlr) -> Seq<(u16, u16, u16)>;

/// The chunk length a configuration holds (`0xffff_ffff` is the engine's
/// sentinel for variable-size chunks).
pub uninterp spec fn vlr_chunk_length_spec(v: laz::LazVlr) -> u32;

/// The bytes an in-memory stream holds.
pub uninterp spec fn cursor_bytes(c: std::io::Cursor<Vec<u8>>) -> Seq<u8>;

/// The position of an in-memory stream's cursor.
pub uninterp spec fn cursor_position(c: std::io::Cursor<Vec<u8>>) -> u64;

/// The item descriptors of the configuration a decompression session was
/// created with.
pub uninterp spec fn decomp_items(d: EngineDecompressor) -> Seq<(u16, u16, u16)>;

/// Whether `laz::LasZipDecompressor::new` succeeds over a stream holding
/// `data` at position `pos` with configuration `v`.  The constructor reads
/// the stream and the configuration alone, so its outcome is a function of
/// them.
pub uninterp spec fn decomp_new_ok(data: Seq<u8>, pos: u64, v: laz::LazVlr) -> bool;

/// The failure category `laz::LasZipDecompressor::new` reports when it
/// does not succeed on those inputs.
pub uninterp spec fn decomp_new_fault(data: Seq<u8>, pos: u64, v: laz::LazVlr) -> CodecFault;

/// Whether decoding the next record of a decompression session succeeds.
/// The session value holds the whole decoder and stream state, so the
/// outcome is a function of it alone.
pub uninterp spec fn decomp_decode_ok(d: EngineDecompressor) -> bool;

/// The decompression session's state after decoding one record (after a
/// failed decode, the state it is left in).
pub uninterp spec fn decomp_after_decode(d: EngineDecompressor) -> EngineDecompressor;

/// The record bytes a successful decode of the session's next record
/// yields, a function of the session state alone.
pub uninterp spec fn decomp_record(d: EngineDecompressor) -> Seq<u8>;

/// The item descriptors of the configuration a compression session was
/// created with.
pub uninterp spec fn comp_items(c: EngineCompressor) -> Seq<(u16, u16, u16)>;

/// The item descriptors the engine's builder produces for a point format
/// and extra-byte count: the default item record of that format.
pub uninterp spec fn default_laz_items(point_format_id: u8, num_extra_bytes: u16) -> Seq<
    (u16, u16, u16),
>;

/// The compression session's state after encoding one record.
pub uninterp spec fn comp_after_compress(c: EngineCompressor, record: Seq<u8>) -> EngineCompressor;

/// The compression session's state after the trailing chunk-table
/// metadata is flushed.
pub uninterp spec fn comp_after_done(c: EngineCompressor) -> EngineCompressor;

/// The bytes a compression session's in-memory destination holds.
pub uninterp spec fn comp_dest_bytes(c: EngineCompressor) -> Seq<u8>;

/// The uncompressed record size of each LAS point format the engine's
/// builder knows, without extra bytes.
pub open spec fn spec_point_format_size(point_format_id: u8) -> int {
    match point_format_id {
        0u8 => 20,
        1u8 => 28,
        2u8 => 26,
        3u8 => 34,
        4u8 => 57,
        5u8 => 63,
        6u8 => 30,
        7u8 => 36,
        8u8 => 38,
        9u8 => 59,
        10u8 => 67,
        _ => 0,
    }
}

/// The record size an item descriptor contributes: its size field.
pub open spec fn items_total_size(items: Seq<(u16, u16, u16)>) -> int
    decreases items.len(),
{
    if items.len() == 0 {
        0
    } else {
        items[0].1 + items_total_size(items.skip(1))
    }
}

/// True when an item descriptor's claimed size is the size the engine's
/// field coders will actually move for that item type.  Type codes 0 and 14
/// are the extra-bytes items, whose size is free; the others have the fixed
/// sizes of the LAS point fields.
pub open spec fn item_desc_honest(d: (u16, u16, u16)) -> bool {
    match d.0 {
        0u16 => true,
        6u16 => d.1 == 20,
        7u16 => d.1 == 8,
        8u16 => d.1 == 6,
        9u16 => d.1 == 29,
        10u16 => d.1 == 30,
        11u16 => d.1 == 6,
        12u16 => d.1 == 8,
        13u16 => d.1 == 29,
        14u16 => true,
        _ => false,
    }
}

/// True when every item descriptor is honest (see `item_desc_honest`).
/// Sessions are only ever created over honest descriptors, so that a
/// caller-sized buffer computed from the claimed sizes is always large
/// enough for the engine's field coders.
pub open spec fn items_honest(items: Seq<(u16, u16, u16)>) -> bool {
    forall|k: int| 0 <= k < items.len() ==> #[trigger] item_desc_honest(items[k])
}

/// Relies on the shape of `laz::LasZipError`: one arm per variant of the
/// engine's error enum, keeping only the category; the enum is declared
/// non-exhaustive, so anything a later engine might add falls to the
/// generic category.  (The payloads — item codes, the wrapped I/O error —
/// do not cross into the verified layer.)
#[verifier::external_body]
pub(crate) fn fault_of_laz_error(e: laz::LasZipError) -> CodecFault {
    match e {
        laz::LasZipError::UnknownLazItem(_) => CodecFault::UnknownLazItem,
        laz::LasZipError::UnsupportedLazItemVersion(_, _) => CodecFault::UnsupportedLazItemVersion,
        laz::LasZipError::UnknownCompressorType(_) => CodecFault::UnknownCompressorType,
        laz::LasZipError::UnsupportedCompressorType(_) => CodecFault::UnsupportedCompressorType,
        laz::LasZipError::UnsupportedPointFormat(_) => CodecFault::UnsupportedPointFormat,
        laz::LasZipError::IoError(_) => CodecFault::IoError,
        laz::LasZipError::MissingChunkTable => CodecFault::MissingChunkTable,
        _ => CodecFault::Other,
    }
}

/// Relies on `laz::LazVlr::from_buffer`: parses a configuration record from
/// bytes alone, succeeding exactly on well-formed records; what it parses
/// out, and which failure category it reports, are functions of the bytes.
#[verifier::external_body]
pub(crate) fn parse_laszip_vlr(record_data: &[u8]) -> (r: Result<laz::LazVlr, CodecFault>)
    ensures
        (r is Ok) == vlr_record_wellformed(record_data@),
        r matches Ok(v) ==> v == parsed_vlr(record_data@),
        r matches Err(f) ==> f == vlr_parse_fault(record_data@),
{
    laz::LazVlr::from_buffer(record_data).map_err(fault_of_laz_error)
}

/// Relies on `laz::LazVlr::items` and the `laz::LazItem` getters: hands the
/// configuration's item descriptors out as plain values, in order.
#[verifier::external_body]
pub(crate) fn vlr_item_descs(v: &laz::LazVlr) -> (descs: Vec<(u16, u16, u16)>)
    ensures
        descs@ == vlr_items(*v),
{
    v.items().iter().map(|it| (u16::from(it.item_type()), it.size(), it.version())).collect()
}

/// Relies on `laz::LazVlr::chunk_size`: reports the configuration's chunk
/// length.
#[verifier::external_body]
pub(crate) fn vlr_chunk_length(v: &laz::LazVlr) -> (n: u32)
    ensures
        n == vlr_chunk_length_spec(*v),
{
    v.chunk_size()
}

/// Relies on `std::io::Cursor::new`: wraps bytes as a stream positioned at
/// the start.
#[verifier::external_body]
pub(crate) fn cursor_over(data: Vec<u8>) -> (c: MemCursor)
    ensures
        cursor_bytes(c) == data@,
        cursor_position(c) == 0,
{
    std::io::Cursor::new(data)
}

/// Relies on `std::io::Cursor::set_position`: moves the stream's cursor to
/// an absolute position without touching the bytes.
#[verifier::external_body]
pub(crate) fn cursor_seek_to(c: &mut MemCursor, pos: u64)
    ensures
        cursor_bytes(*final(c)) == cursor_bytes(*old(c)),
        cursor_position(*final(c)) == pos,
{
    c.set_position(pos)
}

/// Relies on `std::io::Cursor::into_inner`: gives the stream's bytes back.
#[verifier::external_body]
pub(crate) fn cursor_take_bytes(c: MemCursor) -> (v: Vec<u8>)
    ensures
        v@ == cursor_bytes(c),
{
    c.into_inner()
}

/// Relies on `laz::LasZipDecompressor::new`: builds a decompression session
/// over the stream, reading the chunk table from it.  The configuration
/// must hold at least one item (the engine asserts this rather than
/// reporting it) and a fixed chunk length (with variable-size chunks the
/// engine indexes its chunk table unchecked when a caller reads past the
/// last chunk, so such configurations are kept out of sessions altogether).
/// Crafted stream bytes can still drive the engine's arithmetic decoder
/// out of its table bounds while the chunk table is read — a fault this
/// boundary cannot exclude, since the whole byte domain is admitted; the
/// raw boundary's unwind containment absorbs it.
#[verifier::external_body]
pub(crate) fn laz_decompressor_new(source: MemCursor, vlr: laz::LazVlr) -> (r: Result<
    EngineDecompressor,
    CodecFault,
>)
    requires
        vlr_items(vlr).len() >= 1,
        vlr_chunk_length_spec(vlr) != 0xffff_ffffu32,
    ensures
        (r is Ok) == decomp_new_ok(cursor_bytes(source), cursor_position(source), vlr),
        r matches Ok(d) ==> decomp_items(d) == vlr_items(vlr),
        r matches Err(f) ==> f == decomp_new_fault(
            cursor_bytes(source),
            cursor_position(source),
            vlr,
        ),
{
    match laz::LasZipDecompressor::new(source, vlr) {
        Ok(d) => Ok(EngineDecompressor { inner: d }),
        Err(e) => Err(fault_of_laz_error(e)),
    }
}

/// Relies on `laz::LasZipDecompressor::decompress_one`: decodes the next
/// record into the front of `out`, leaving the rest of the buffer
/// untouched on success and reporting whether it succeeded.  The buffer
/// must cover one record of the session's honest item sizes, so the
/// engine's field coders stay within it.  The session's configuration is
/// not changed by decoding.  Crafted stream bytes can still drive the
/// engine's arithmetic decoder out of its table bounds — a fault this
/// boundary cannot exclude, since the decode reads arbitrary caller
/// bytes; the raw boundary's unwind containment absorbs it.
#[verifier::external_body]
pub(crate) fn laz_decompress_point(d: &mut EngineDecompressor, out: &mut Vec<u8>) -> (ok: bool)
    requires
        items_honest(decomp_items(*old(d))),
        1 <= items_total_size(decomp_items(*old(d))),
        items_total_size(decomp_items(*old(d))) <= old(out)@.len(),
    ensures
        ok == decomp_decode_ok(*old(d)),
        *final(d) == decomp_after_decode(*old(d)),
        decomp_items(*final(d)) == decomp_items(*old(d)),
        final(out)@.len() == old(out)@.len(),
        ok ==> final(out)@ == decomp_record(*old(d)) + old(out)@.skip(
            items_total_size(decomp_items(*old(d))),
        ),
{
    d.inner.decompress_one(out.as_mut_slice()).is_ok()
}

/// Relies on `laz::LazItemRecordBuilder::default_for_point_format_id`,
/// `laz::LazVlr::from_laz_items` and `laz::LasZipCompressor::new`, composed
/// here because the contract — creation succeeds exactly for the point
/// formats the builder knows, and the resulting session's items are the
/// builder's defaults for that format — is about the composition; no
/// caller sees the intermediate values.  The builder accepts formats 0
/// through 10, each yielding between one and five items whose sizes are
/// the true field sizes and sum to the format's record size plus the
/// extra-byte count; the compressor constructor accepts every such item
/// list.
#[verifier::external_body]
pub(crate) fn laz_compressor_new_for_point_format(
    dest: MemCursor,
    point_format_id: u8,
    num_extra_bytes: u16,
) -> (r: Result<EngineCompressor, CodecFault>)
    ensures
        (r is Ok) == (point_format_id <= 10),
        r matches Err(f) ==> f == CodecFault::UnsupportedPointFormat,
        r matches Ok(c) ==> {
            &&& comp_items(c) == default_laz_items(point_format_id, num_extra_bytes)
            &&& items_honest(comp_items(c))
            &&& items_total_size(comp_items(c)) == spec_point_format_size(point_format_id)
                + num_extra_bytes
            &&& 1 <= comp_items(c).len() <= 5
        },
{
    let items = laz::LazItemRecordBuilder::default_for_point_format_id(
        point_format_id,
        num_extra_bytes,
    );
    match items {
        Ok(items) => match laz::LasZipCompressor::new(dest, laz::LazVlr::from_laz_items(items)) {
            Ok(c) => Ok(EngineCompressor { inner: c }),
            Err(e) => Err(fault_of_laz_error(e)),
        },
        Err(e) => Err(fault_of_laz_error(e)),
    }
}

/// Relies on `laz::LasZipCompressor::vlr`, `laz::LazVlr::items` and the
/// `laz::LazItem` getters: hands the session configuration's item
/// descriptors out as plain values, in order.
#[verifier::external_body]
pub(crate) fn laz_compressor_item_descs(c: &EngineCompressor) -> (descs: Vec<(u16, u16, u16)>)
    ensures
        descs@ == comp_items(*c),
{
    c.inner.vlr().items().iter().map(|it| (u16::from(it.item_type()), it.size(), it.version())).collect()
}

/// Relies on `laz::LasZipCompressor::compress_one`: encodes the one record
/// at the front of `input` — the engine reads exactly the record's bytes,
/// so the session steps as a function of the old state and that record.
/// The input must cover one record of the session's honest item sizes, so
/// the engine's field coders stay within it.  Every failure path of the
/// call is a write or seek on the destination, and this session's
/// destination is an in-memory stream whose writes and seeks cannot fail,
/// so the call succeeds.  (Under a build profile that checks integer
/// overflow, records with extreme coordinate values can overflow the
/// engine's delta arithmetic — a fault this boundary cannot exclude; the
/// raw boundary's unwind containment absorbs it.)
#[verifier::external_body]
pub(crate) fn laz_compress_point(c: &mut EngineCompressor, input: &[u8]) -> (ok: bool)
    requires
        items_honest(comp_items(*old(c))),
        1 <= items_total_size(comp_items(*old(c))),
        items_total_size(comp_items(*old(c))) <= input@.len(),
    ensures
        ok,
        comp_items(*final(c)) == comp_items(*old(c)),
        *final(c) == comp_after_compress(
            *old(c),
            input@.take(items_total_size(comp_items(*old(c)))),
        ),
{
    c.inner.compress_one(input).is_ok()
}

/// Relies on `laz::LasZipCompressor::done`: flushes the last chunk and
/// writes the chunk table.  Every failure path is a write or seek on the
/// destination, and this session's destination is an in-memory stream
/// whose writes and seeks cannot fail, so the call succeeds.  The
/// session's configuration is not changed.
#[verifier::external_body]
pub(crate) fn laz_compressor_done(c: &mut EngineCompressor) -> (ok: bool)
    ensures
        ok,
        comp_items(*final(c)) == comp_items(*old(c)),
        *final(c) == comp_after_done(*old(c)),
    no_unwind
{
    c.inner.done().is_ok()
}

/// Relies on `laz::LazVlr::write_to` (through `laz::LasZipCompressor::vlr`)
/// writing the fixed 34-byte configuration header followed by six bytes
/// per item; writing into a vector cannot fail.  `laz::LazVlr::read_from`
/// reads back exactly what `write_to` emits, so the record parses, its
/// items are the session's items, and its chunk length is the fixed
/// default, not the variable-size sentinel.
#[verifier::external_body]
pub(crate) fn laz_compressor_vlr_record(c: &EngineCompressor) -> (r: Vec<u8>)
    ensures
        r@.len() == 34 + 6 * comp_items(*c).len(),
        vlr_record_wellformed(r@),
        vlr_items(parsed_vlr(r@)) == comp_items(*c),
        vlr_chunk_length_spec(parsed_vlr(r@)) != 0xffff_ffffu32,
{
    let mut buf = Vec::new();
    let _ = c.inner.vlr().write_to(&mut buf);
    buf
}

/// Relies on `laz::LasZipCompressor::into_inner`: gives the destination
/// stream back, consuming the session.
#[verifier::external_body]
pub(crate) fn laz_compressor_take_dest(c: EngineCompressor) -> (r: MemCursor)
    ensures
        cursor_bytes(r) == comp_dest_bytes(c),
{
    c.inner.into_inner()
}

} // verus!
