//! Codec sessions over in-memory streams: creation, per-record operation
//! and destruction of decompressors and compressors.
//!
//! The state machine per session is uncreated → live → destroyed.  A "new"
//! function hands a live session out only on full success, paired with the
//! ok code; on any failure it hands out no session and the code records the
//! cause.  Caller mistakes this layer can decide — an undersized buffer, a
//! configuration that would misdirect the engine — are checked up front
//! and reported as the generic failure code instead of faulting.  What
//! this layer cannot decide stays with the engine: crafted compressed
//! bytes can still drive its decoder into a fault, and only the raw
//! boundary's unwind containment absorbs that.

use vstd::prelude::*;
use crate::codes::Lazrs_Result;
use crate::codes::spec_result_of_fault;
use crate::codes::lemma_fault_codes_distinct;
use crate::codes::result_of_fault;
use crate::engine::EngineCompressor;
use crate::engine::EngineDecompressor;
use crate::engine::comp_after_compress;
use crate::engine::comp_after_done;
use crate::engine::comp_dest_bytes;
use crate::engine::comp_items;
use crate::engine::cursor_over;
use crate::engine::cursor_seek_to;
use crate::engine::cursor_take_bytes;
use crate::engine::decomp_after_decode;
use crate::engine::decomp_decode_ok;
use crate::engine::decomp_items;
use crate::engine::decomp_new_fault;
use crate::engine::default_laz_items;
use crate::engine::decomp_new_ok;
use crate::engine::decomp_record;
use crate::engine::item_desc_honest;
use crate::engine::items_honest;
use crate::engine::items_total_size;
use crate::engine::laz_compress_point;
use crate::engine::laz_compressor_done;
use crate::engine::laz_compressor_item_descs;
use crate::engine::laz_compressor_new_for_point_format;
use crate::engine::laz_compressor_take_dest;
use crate::engine::laz_compressor_vlr_record;
use crate::engine::laz_decompress_point;
use crate::engine::laz_decompressor_new;
use crate::engine::parse_laszip_vlr;
use crate::engine::spec_point_format_size;
use crate::engine::parsed_vlr;
use crate::engine::vlr_chunk_length;
use crate::engine::vlr_chunk_length_spec;
use crate::engine::vlr_item_descs;
use crate::engine::vlr_items;
use crate::engine::vlr_parse_fault;
use crate::engine::vlr_record_wellformed;
use crate::source::Lazrs_Buffer;

verus! {

/// Sum of the claimed item sizes is never negative and never exceeds the
/// largest size times the item count.
proof fn lemma_items_total_size_bounds(items: Seq<(u16, u16, u16)>)
    ensures
        0 <= items_total_size(items) <= 0xffff * items.len(),
    decreases items.len(),
{
    if items.len() > 0 {
        lemma_items_total_size_bounds(items.skip(1));
    }
}

/// Checks every item descriptor for honesty (claimed size == true field
/// size; see `item_desc_honest`).
fn check_items_honest(descs: &Vec<(u16, u16, u16)>) -> (ok: bool)
    ensures
        ok == items_honest(descs@),
{
    let mut i: usize = 0;
    while i < descs.len()
        invariant
            i <= descs@.len(),
            forall|k: int| 0 <= k < i ==> #[trigger] item_desc_honest(descs@[k]),
        decreases descs@.len() - i,
    {
        let d = descs[i];
        let honest = match d.0 {
            0u16 => true,
            6u16 => d.1 == 20,
            7u16 => d.1 == 8,
            8u16 => d.1 == 6,
            9u16 => d.1 == 29,
            10u16 => d.1 == 30,
            11u16 => d.1 == 6,
            12u16 => d.1 == 8,
            13u16 => d.1 == 29,
            14u16 => true,
            _ => false,
        };
        proof {
            assert(honest == item_desc_honest(descs@[i as int]));
        }
        if !honest {
            return false;
        }
        i += 1;
    }
    true
}

/// Sums the claimed item sizes.
fn items_size_sum(descs: &Vec<(u16, u16, u16)>) -> (s: u64)
    requires
        descs@.len() <= 0xffff,
    ensures
        s == items_total_size(descs@),
{
    proof {
        lemma_items_total_size_bounds(descs@);
        assert(descs@.skip(0) =~= descs@);
    }
    let mut s: u64 = 0;
    let mut i: usize = 0;
    while i < descs.len()
        invariant
            i <= descs@.len(),
            descs@.len() <= 0xffff,
            s + items_total_size(descs@.skip(i as int)) == items_total_size(descs@),
            s <= 0xffff * i,
        decreases descs@.len() - i,
    {
        proof {
            let rest = descs@.skip(i as int);
            assert(rest.len() > 0);
            assert(rest[0] == descs@[i as int]);
            assert(rest.skip(1) =~= descs@.skip(i as int + 1));
            lemma_items_total_size_bounds(descs@.skip(i as int + 1));
        }
        s = s + descs[i].1 as u64;
        i += 1;
    }
    proof {
        assert(descs@.skip(i as int) =~= Seq::<(u16, u16, u16)>::empty());
    }
    s
}

/// The decompression session's state after `k` record decodes.
pub open spec fn decode_steps(d: EngineDecompressor, k: nat) -> EngineDecompressor
    decreases k,
{
    if k == 0 {
        d
    } else {
        decode_steps(decomp_after_decode(d), (k - 1) as nat)
    }
}

/// Whether the session's next `k` record decodes all succeed.
pub open spec fn decode_ok_n(d: EngineDecompressor, k: nat) -> bool
    decreases k,
{
    k > 0 ==> decomp_decode_ok(d) && decode_ok_n(decomp_after_decode(d), (k - 1) as nat)
}

/// The bytes of the session's next `k` records, in stream order.
pub open spec fn decoded_records(d: EngineDecompressor, k: nat) -> Seq<u8>
    decreases k,
{
    if k == 0 {
        Seq::empty()
    } else {
        decomp_record(d) + decoded_records(decomp_after_decode(d), (k - 1) as nat)
    }
}

/// Unrolling the iterated decode at its far end: `k + 1` decodes succeed
/// exactly when the first `k` do and the decode from the `k`-step state
/// does, the `k + 1`-step state is that state's successor, and the
/// `k + 1`-record bytes are the `k`-record bytes followed by that state's
/// record.
proof fn lemma_decode_iter_snoc(d: EngineDecompressor, k: nat)
    ensures
        decode_ok_n(d, k + 1) == (decode_ok_n(d, k) && decomp_decode_ok(decode_steps(d, k))),
        decode_steps(d, k + 1) == decomp_after_decode(decode_steps(d, k)),
        decoded_records(d, k + 1) == decoded_records(d, k) + decomp_record(decode_steps(d, k)),
    decreases k,
{
    reveal_with_fuel(decode_ok_n, 2);
    reveal_with_fuel(decode_steps, 2);
    reveal_with_fuel(decoded_records, 2);
    if k > 0 {
        lemma_decode_iter_snoc(decomp_after_decode(d), (k - 1) as nat);
        assert(decoded_records(d, k + 1) =~= decoded_records(d, k) + decomp_record(
            decode_steps(d, k),
        ));
    } else {
        assert(decoded_records(d, 1) =~= decoded_records(d, 0) + decomp_record(
            decode_steps(d, 0),
        ));
    }
}

/// When `n` decodes all succeed, the decode from each earlier step's state
/// succeeds too.
proof fn lemma_decode_ok_n_index(d: EngineDecompressor, k: nat, n: nat)
    requires
        k < n,
        decode_ok_n(d, n),
    ensures
        decomp_decode_ok(decode_steps(d, k)),
    decreases k,
{
    if k > 0 {
        lemma_decode_ok_n_index(decomp_after_decode(d), (k - 1) as nat, (n - 1) as nat);
    }
}

/// A live sequential decompression session over an in-memory source.
pub struct LasZipDecompressor {
    engine: EngineDecompressor,
    point_size: usize,
}

impl LasZipDecompressor {
    /// The decompressed size of one record, fixed at creation from the
    /// configuration's item sizes.
    pub closed spec fn spec_record_size(&self) -> int {
        self.point_size as int
    }

    /// The engine state the session holds; the named decode outcomes are
    /// functions of it.
    pub closed spec fn spec_engine_state(&self) -> EngineDecompressor {
        self.engine
    }

    /// Well-formedness, established at creation and preserved by every
    /// call: the configuration's items are honest and the stored record
    /// size is their total.
    pub closed spec fn wf(&self) -> bool {
        &&& items_honest(decomp_items(self.engine))
        &&& 1 <= items_total_size(decomp_items(self.engine))
        &&& self.point_size == items_total_size(decomp_items(self.engine))
    }

    /// The decompressed size of one record, in bytes.
    pub fn record_size(&self) -> (n: usize)
        ensures
            n == self.spec_record_size(),
    {
        self.point_size
    }

    /// Decodes the next record into the front of `out`.
    ///
    /// A buffer smaller than one record is the caller failing the
    /// operate-call contract; it is checked here and reported as the
    /// generic failure code, with nothing read from the stream and the
    /// session untouched.  Otherwise the call reports ok exactly when the
    /// decode of the session's next record succeeds — the record's bytes
    /// then fill the front of `out` — steps the session to its successor
    /// state either way, and reports any stream or engine failure as the
    /// I/O-error code.  The session stays live, and safe to delete,
    /// whatever the code.  (Crafted stream bytes can still fault inside
    /// the engine's decoder; only the raw boundary's unwind containment
    /// absorbs that.)
    pub fn decompress_one(&mut self, out: &mut Vec<u8>) -> (r: Lazrs_Result)
        requires
            old(self).wf(),
        ensures
            final(self).wf(),
            final(self).spec_record_size() == old(self).spec_record_size(),
            final(out)@.len() == old(out)@.len(),
            (r == Lazrs_Result::LAZRS_OTHER) <==> old(out)@.len() < old(self).spec_record_size(),
            old(out)@.len() < old(self).spec_record_size() ==> *final(self) == *old(self)
                && final(out)@ == old(out)@,
            old(out)@.len() >= old(self).spec_record_size() ==> {
                &&& (r == Lazrs_Result::LAZRS_OK) <==> decomp_decode_ok(
                    old(self).spec_engine_state(),
                )
                &&& r == Lazrs_Result::LAZRS_OK || r == Lazrs_Result::LAZRS_IO_ERROR
                &&& final(self).spec_engine_state() == decomp_after_decode(
                    old(self).spec_engine_state(),
                )
                &&& r == Lazrs_Result::LAZRS_OK ==> final(out)@ == decomp_record(
                    old(self).spec_engine_state(),
                ) + old(out)@.skip(old(self).spec_record_size())
            },
    {
        if out.len() < self.point_size {
            return Lazrs_Result::LAZRS_OTHER;
        }
        if laz_decompress_point(&mut self.engine, out) {
            Lazrs_Result::LAZRS_OK
        } else {
            Lazrs_Result::LAZRS_IO_ERROR
        }
    }

    /// Decodes as many whole records as fit in `out`, from the front: one
    /// record per `record_size()` bytes, the trailing partial slot left
    /// untouched.  The call reports ok exactly when every one of those
    /// decodes succeeds — `out` then holds their bytes in stream order —
    /// stepping the session across them; the first failure aborts the
    /// call with the I/O-error code, and records decoded before it remain
    /// in `out`.  The session stays live either way.  (Crafted stream
    /// bytes can still fault inside the engine's decoder; only the raw
    /// boundary's unwind containment absorbs that.)
    pub fn decompress_many(&mut self, out: &mut Vec<u8>) -> (r: Lazrs_Result)
        requires
            old(self).wf(),
        ensures
            final(self).wf(),
            final(self).spec_record_size() == old(self).spec_record_size(),
            final(out)@.len() == old(out)@.len(),
            r == Lazrs_Result::LAZRS_OK || r == Lazrs_Result::LAZRS_IO_ERROR,
            forall|j: int|
                old(out)@.len() as int - old(out)@.len() as int % old(self).spec_record_size() <= j
                    < old(out)@.len() ==> final(out)@[j] == old(out)@[j],
            (r == Lazrs_Result::LAZRS_OK) <==> decode_ok_n(
                old(self).spec_engine_state(),
                (old(out)@.len() as int / old(self).spec_record_size()) as nat,
            ),
            r == Lazrs_Result::LAZRS_OK ==> final(self).spec_engine_state() == decode_steps(
                old(self).spec_engine_state(),
                (old(out)@.len() as int / old(self).spec_record_size()) as nat,
            ),
            r == Lazrs_Result::LAZRS_OK ==> final(out)@ == decoded_records(
                old(self).spec_engine_state(),
                (old(out)@.len() as int / old(self).spec_record_size()) as nat,
            ) + old(out)@.skip(
                old(out)@.len() as int - old(out)@.len() as int % old(self).spec_record_size(),
            ),
    {
        let ps = self.point_size;
        let mut tmp: Vec<u8> = Vec::new();
        let mut f: usize = 0;
        while f < ps
            invariant
                f <= ps,
                tmp@.len() == f,
            decreases ps - f,
        {
            tmp.push(0);
            f += 1;
        }
        let mut base: usize = 0;
        let out_len = out.len();
        let ghost d0 = self.engine;
        let ghost n: int = out_len as int / ps as int;
        let ghost mut chunks: int = 0;
        while out_len - base >= ps
            invariant
                self.wf(),
                ps == self.point_size,
                ps >= 1,
                out_len == out@.len(),
                base <= out@.len(),
                0 <= chunks,
                base == ps * chunks,
                n == out_len as int / ps as int,
                d0 == old(self).spec_engine_state(),
                self.engine == decode_steps(d0, chunks as nat),
                decode_ok_n(d0, chunks as nat),
                decoded_records(d0, chunks as nat).len() == base,
                forall|m: int|
                    0 <= m < base ==> out@[m] == decoded_records(d0, chunks as nat)[m],
                forall|j: int| base <= j < out@.len() ==> out@[j] == old(out)@[j],
                tmp@.len() == ps,
                out@.len() == old(out)@.len(),
                out@.len() <= usize::MAX,
                self.spec_record_size() == old(self).spec_record_size(),
            decreases out@.len() - base,
        {
            proof {
                lemma_decode_iter_snoc(d0, chunks as nat);
            }
            if !laz_decompress_point(&mut self.engine, &mut tmp) {
                proof {
                    assert(ps * (chunks + 1) == ps * chunks + ps) by (nonlinear_arith);
                    vstd::arithmetic::div_mod::lemma_div_is_ordered(
                        ps * (chunks + 1),
                        out_len as int,
                        ps as int,
                    );
                    vstd::arithmetic::div_mod::lemma_div_multiples_vanish(chunks + 1, ps as int);
                    assert(chunks < n);
                    assert(0 <= n) by {
                        vstd::arithmetic::div_mod::lemma_div_is_ordered(
                            0,
                            out_len as int,
                            ps as int,
                        );
                    };
                    if decode_ok_n(d0, n as nat) {
                        lemma_decode_ok_n_index(d0, chunks as nat, n as nat);
                        assert(false);
                    }
                    assert(!decode_ok_n(d0, n as nat));
                    vstd::arithmetic::div_mod::lemma_fundamental_div_mod(out_len as int, ps as int);
                    assert(ps * chunks <= ps * n) by (nonlinear_arith)
                        requires
                            chunks <= n,
                            ps >= 0,
                    ;
                }
                return Lazrs_Result::LAZRS_IO_ERROR;
            }
            proof {
                assert(tmp@ =~= decomp_record(decode_steps(d0, chunks as nat)));
            }
            let mut j: usize = 0;
            while j < ps
                invariant
                    j <= ps,
                    base + ps <= out@.len(),
                    out@.len() <= usize::MAX,
                    tmp@.len() == ps,
                    out@.len() == old(out)@.len(),
                    decoded_records(d0, chunks as nat).len() == base,
                    forall|m: int|
                        0 <= m < base ==> out@[m] == decoded_records(d0, chunks as nat)[m],
                    forall|m: int| 0 <= m < j ==> out@[base + m] == tmp@[m],
                    forall|m: int| base + j <= m < out@.len() ==> out@[m] == old(out)@[m],
                decreases ps - j,
            {
                let b = tmp[j];
                out[base + j] = b;
                j += 1;
            }
            base += ps;
            proof {
                assert(ps * (chunks + 1) == ps * chunks + ps) by (nonlinear_arith);
                chunks = chunks + 1;
            }
        }
        proof {
            assert(out_len as int == chunks * (ps as int) + (out_len as int - base as int))
                by (nonlinear_arith)
                requires
                    base as int == (ps as int) * chunks,
            ;
            vstd::arithmetic::div_mod::lemma_fundamental_div_mod_converse(
                out_len as int,
                ps as int,
                chunks,
                out_len - base,
            );
            assert(out@ =~= decoded_records(d0, n as nat) + old(out)@.skip(
                out_len as int - out_len as int % ps as int,
            ));
        }
        Lazrs_Result::LAZRS_OK
    }
}

/// The code a buffer-source session creation reports, as a function of
/// the buffer bytes, the source offset and the configuration bytes alone:
/// a malformed configuration fails with its parse failure's code; an
/// offset outside the buffer fails with the I/O-error code before the
/// engine sees the stream; a configuration whose item list is empty, lies
/// about item sizes, or asks for variable-size chunks would let caller
/// input drive the engine into a fault, so it is contained as the generic
/// failure code; otherwise the engine constructor decides, its failure
/// category mapped to the matching code.
pub open spec fn spec_new_decompressor_code(
    data: Seq<u8>,
    source_offset: u64,
    config: Seq<u8>,
) -> Lazrs_Result {
    if !vlr_record_wellformed(config) {
        spec_result_of_fault(vlr_parse_fault(config))
    } else if source_offset > data.len() {
        Lazrs_Result::LAZRS_IO_ERROR
    } else {
        let v = parsed_vlr(config);
        let items = vlr_items(v);
        if items.len() == 0 || items.len() > 0xffff || !items_honest(items) || items_total_size(
            items,
        ) == 0 || vlr_chunk_length_spec(v) == 0xffff_ffffu32 {
            Lazrs_Result::LAZRS_OTHER
        } else if decomp_new_ok(data, source_offset, v) {
            Lazrs_Result::LAZRS_OK
        } else {
            spec_result_of_fault(decomp_new_fault(data, source_offset, v))
        }
    }
}

/// Law: creation is deterministic.  The code a buffer-source creation
/// reports is a function of the buffer bytes, the source offset and the
/// configuration bytes alone, so repeated calls on equal inputs report
/// equal codes — in particular, the error code for a given malformed
/// configuration is stable across calls.
pub proof fn lemma_creation_code_stable(
    data1: Seq<u8>,
    offset1: u64,
    config1: Seq<u8>,
    data2: Seq<u8>,
    offset2: u64,
    config2: Seq<u8>,
)
    requires
        data1 == data2,
        offset1 == offset2,
        config1 == config2,
    ensures
        spec_new_decompressor_code(data1, offset1, config1) == spec_new_decompressor_code(
            data2,
            offset2,
            config2,
        ),
{
}

/// Creates a decompression session reading from an in-memory buffer.
///
/// The code reported is exactly `spec_new_decompressor_code` of the
/// inputs, and a session is handed out exactly when that code is ok — a
/// failed creation never leaves a live session behind.
pub fn new_decompressor(buffer: Lazrs_Buffer, source_offset: u64, laszip_vlr: &[u8]) -> (r: (
    Lazrs_Result,
    Option<LasZipDecompressor>,
))
    ensures
        r.0 == spec_new_decompressor_code(buffer@, source_offset, laszip_vlr@),
        (r.0 == Lazrs_Result::LAZRS_OK) <==> (r.1 is Some),
        r.1 matches Some(d) ==> d.wf() && d.spec_record_size() == items_total_size(
            vlr_items(parsed_vlr(laszip_vlr@)),
        ) && 1 <= d.spec_record_size(),
{
    let vlr = match parse_laszip_vlr(laszip_vlr) {
        Ok(v) => v,
        Err(f) => {
            proof {
                lemma_fault_codes_distinct(f, f);
            }
            return (result_of_fault(&f), None);
        },
    };
    if source_offset > buffer.data.len() as u64 {
        return (Lazrs_Result::LAZRS_IO_ERROR, None);
    }
    let descs = vlr_item_descs(&vlr);
    if descs.len() == 0 || descs.len() > 0xffff {
        return (Lazrs_Result::LAZRS_OTHER, None);
    }
    if !check_items_honest(&descs) {
        return (Lazrs_Result::LAZRS_OTHER, None);
    }
    let ps = items_size_sum(&descs);
    if ps == 0 {
        return (Lazrs_Result::LAZRS_OTHER, None);
    }
    if vlr_chunk_length(&vlr) == 0xffff_ffff {
        return (Lazrs_Result::LAZRS_OTHER, None);
    }
    proof {
        lemma_items_total_size_bounds(descs@);
    }
    let mut cursor = cursor_over(buffer.data);
    cursor_seek_to(&mut cursor, source_offset);
    match laz_decompressor_new(cursor, vlr) {
        Ok(engine) => {
            let d = LasZipDecompressor { engine, point_size: ps as usize };
            (Lazrs_Result::LAZRS_OK, Some(d))
        },
        Err(f) => {
            proof {
                lemma_fault_codes_distinct(f, f);
            }
            (result_of_fault(&f), None)
        },
    }
}

/// Destroys a decompression session.  A missing handle is accepted and is
/// a no-op; destruction itself cannot fail and reports nothing.
pub fn delete_decompressor(decompressor: Option<LasZipDecompressor>) {
    let _ = decompressor;
}

/// The compression session's state after encoding, in order, the `k`
/// whole records of size `rs` at the front of `data`.
pub open spec fn compress_steps(
    c: EngineCompressor,
    data: Seq<u8>,
    rs: int,
    k: nat,
) -> EngineCompressor
    decreases k,
{
    if k == 0 {
        c
    } else {
        compress_steps(comp_after_compress(c, data.take(rs)), data.skip(rs), rs, (k - 1) as nat)
    }
}

/// Unrolling the iterated encode at its far end: the `k + 1`-step state is
/// the `k`-step state after encoding the `k`-th record of `data`.
proof fn lemma_compress_steps_snoc(c: EngineCompressor, data: Seq<u8>, rs: int, k: nat)
    requires
        1 <= rs,
        rs * (k + 1) <= data.len(),
    ensures
        compress_steps(c, data, rs, k + 1) == comp_after_compress(
            compress_steps(c, data, rs, k),
            data.subrange(rs * k, rs * k + rs),
        ),
    decreases k,
{
    reveal_with_fuel(compress_steps, 2);
    if k == 0 {
        assert(data.take(rs) =~= data.subrange(0, rs));
    } else {
        assert(rs * k == rs * (k - 1) + rs) by (nonlinear_arith);
        assert(rs * (k + 1) == rs * k + rs) by (nonlinear_arith);
        lemma_compress_steps_snoc(
            comp_after_compress(c, data.take(rs)),
            data.skip(rs),
            rs,
            (k - 1) as nat,
        );
        assert(data.skip(rs).subrange(rs * (k - 1), rs * (k - 1) + rs) =~= data.subrange(
            rs * k,
            rs * k + rs,
        ));
    }
}

/// A live sequential compression session writing to an in-memory
/// destination.
pub struct LasZipCompressor {
    engine: EngineCompressor,
    vlr_record: Vec<u8>,
    point_size: usize,
}

impl LasZipCompressor {
    /// The uncompressed size of one record, fixed at creation from the
    /// point format.
    pub closed spec fn spec_record_size(&self) -> int {
        self.point_size as int
    }

    /// The configuration record the session generated, for the caller to
    /// persist alongside the compressed stream.
    pub closed spec fn spec_vlr_record(&self) -> Seq<u8> {
        self.vlr_record@
    }

    /// The engine state the session holds; the named encode successors
    /// are functions of it.
    pub closed spec fn spec_engine_state(&self) -> EngineCompressor {
        self.engine
    }

    /// Well-formedness, established at creation and preserved by every
    /// call: the configuration's items are the builder's honest defaults,
    /// the stored record size is their total, and the cached
    /// configuration record has the fixed header plus six bytes per item.
    pub closed spec fn wf(&self) -> bool {
        &&& items_honest(comp_items(self.engine))
        &&& 1 <= items_total_size(comp_items(self.engine))
        &&& self.point_size == items_total_size(comp_items(self.engine))
        &&& comp_items(self.engine).len() <= 5
        &&& self.vlr_record@.len() == 34 + 6 * comp_items(self.engine).len()
    }

    /// The uncompressed size of one record, in bytes.
    pub fn record_size(&self) -> (n: usize)
        ensures
            n == self.spec_record_size(),
    {
        self.point_size
    }

    /// The size of the generated configuration record: the fixed header
    /// plus six bytes per item.
    pub fn laszip_vlr_size(&self) -> (n: u16)
        requires
            self.wf(),
        ensures
            n == self.spec_vlr_record().len(),
    {
        self.vlr_record.len() as u16
    }

    /// Copies the generated configuration record into `out`, which must be
    /// sized exactly by `laszip_vlr_size`; a wrongly sized buffer is the
    /// caller failing the contract, contained here as the generic failure
    /// code with `out` untouched.
    pub fn laszip_vlr_data(&self, out: &mut Vec<u8>) -> (r: Lazrs_Result)
        ensures
            final(out)@.len() == old(out)@.len(),
            (r == Lazrs_Result::LAZRS_OK) <==> old(out)@.len() == self.spec_vlr_record().len(),
            r == Lazrs_Result::LAZRS_OK ==> final(out)@ == self.spec_vlr_record(),
            r != Lazrs_Result::LAZRS_OK ==> r == Lazrs_Result::LAZRS_OTHER && final(out)@ == old(
                out,
            )@,
    {
        if out.len() != self.vlr_record.len() {
            return Lazrs_Result::LAZRS_OTHER;
        }
        let n = self.vlr_record.len();
        let mut j: usize = 0;
        while j < n
            invariant
                j <= n,
                n == self.vlr_record@.len(),
                out@.len() == n,
                forall|k: int| 0 <= k < j ==> out@[k] == self.vlr_record@[k],
            decreases n - j,
        {
            let b = self.vlr_record[j];
            out[j] = b;
            j += 1;
        }
        proof {
            assert(out@ =~= self.vlr_record@);
        }
        Lazrs_Result::LAZRS_OK
    }

    /// Encodes one record read from the front of `data`.
    ///
    /// A buffer smaller than one record is the caller failing the
    /// operate-call contract; it is checked here and reported as the
    /// generic failure code, with nothing written and the session
    /// untouched.  A buffer covering one record is always encoded — the
    /// session steps by that record — since the destination is in memory
    /// and no stream failure can occur.  (Under a build profile that
    /// checks integer overflow, extreme coordinate values can fault in
    /// the engine's delta arithmetic; only the raw boundary's unwind
    /// containment absorbs that.)
    pub fn compress_one(&mut self, data: &[u8]) -> (r: Lazrs_Result)
        requires
            old(self).wf(),
        ensures
            final(self).wf(),
            final(self).spec_record_size() == old(self).spec_record_size(),
            final(self).spec_vlr_record() == old(self).spec_vlr_record(),
            (r == Lazrs_Result::LAZRS_OK) <==> data@.len() >= old(self).spec_record_size(),
            (r == Lazrs_Result::LAZRS_OTHER) <==> data@.len() < old(self).spec_record_size(),
            data@.len() < old(self).spec_record_size() ==> *final(self) == *old(self),
            data@.len() >= old(self).spec_record_size() ==> final(self).spec_engine_state()
                == comp_after_compress(
                old(self).spec_engine_state(),
                data@.take(old(self).spec_record_size()),
            ),
    {
        if data.len() < self.point_size {
            return Lazrs_Result::LAZRS_OTHER;
        }
        if laz_compress_point(&mut self.engine, data) {
            Lazrs_Result::LAZRS_OK
        } else {
            Lazrs_Result::LAZRS_IO_ERROR
        }
    }

    /// Encodes as many whole records as `data` holds, from the front: one
    /// record per `record_size()` bytes, a trailing partial record
    /// ignored.  Always succeeds — the session steps across exactly those
    /// records in order — since the destination is in memory and no
    /// stream failure can occur.
    pub fn compress_many(&mut self, data: &[u8]) -> (r: Lazrs_Result)
        requires
            old(self).wf(),
        ensures
            final(self).wf(),
            final(self).spec_record_size() == old(self).spec_record_size(),
            final(self).spec_vlr_record() == old(self).spec_vlr_record(),
            r == Lazrs_Result::LAZRS_OK,
            final(self).spec_engine_state() == compress_steps(
                old(self).spec_engine_state(),
                data@,
                old(self).spec_record_size(),
                (data@.len() as int / old(self).spec_record_size()) as nat,
            ),
    {
        let ps = self.point_size;
        let mut base: usize = 0;
        let data_len = data.len();
        let ghost c0 = self.engine;
        let ghost n: int = data_len as int / ps as int;
        let ghost mut chunks: int = 0;
        while data_len - base >= ps
            invariant
                self.wf(),
                ps == self.point_size,
                ps >= 1,
                data_len == data@.len(),
                base <= data@.len(),
                data@.len() <= usize::MAX,
                0 <= chunks,
                base == ps * chunks,
                n == data_len as int / ps as int,
                c0 == old(self).spec_engine_state(),
                self.engine == compress_steps(c0, data@, ps as int, chunks as nat),
                self.spec_record_size() == old(self).spec_record_size(),
                self.spec_vlr_record() == old(self).spec_vlr_record(),
            decreases data@.len() - base,
        {
            let mut tmp: Vec<u8> = Vec::new();
            let mut j: usize = 0;
            while j < ps
                invariant
                    j <= ps,
                    base + ps <= data@.len(),
                    data@.len() <= usize::MAX,
                    tmp@.len() == j,
                    forall|m: int| 0 <= m < j ==> tmp@[m] == data@[base + m],
                decreases ps - j,
            {
                let b = data[base + j];
                tmp.push(b);
                j += 1;
            }
            proof {
                assert(tmp@ =~= data@.subrange(base as int, base + ps));
                assert(ps * (chunks + 1) == ps * chunks + ps) by (nonlinear_arith);
                lemma_compress_steps_snoc(c0, data@, ps as int, chunks as nat);
                assert(tmp@.take(ps as int) =~= tmp@);
            }
            if !laz_compress_point(&mut self.engine, tmp.as_slice()) {
                return Lazrs_Result::LAZRS_IO_ERROR;
            }
            base += ps;
            proof {
                chunks = chunks + 1;
            }
        }
        proof {
            assert(data_len as int == chunks * (ps as int) + (data_len as int - base as int))
                by (nonlinear_arith)
                requires
                    base as int == (ps as int) * chunks,
            ;
            vstd::arithmetic::div_mod::lemma_fundamental_div_mod_converse(
                data_len as int,
                ps as int,
                chunks,
                data_len - base,
            );
        }
        Lazrs_Result::LAZRS_OK
    }

    /// Tells the session that no more records will be compressed: flushes
    /// the last chunk and writes the trailing chunk-table metadata,
    /// stepping the session to its flushed state.  Must be called exactly
    /// once, before the session is destroyed; calling it again is a
    /// protocol violation that never faults, but appends a second copy of
    /// the chunk-table metadata to the destination.  Always succeeds: the
    /// destination is in memory, so no stream failure can occur.
    pub fn done(&mut self) -> (r: Lazrs_Result)
        requires
            old(self).wf(),
        ensures
            final(self).wf(),
            final(self).spec_record_size() == old(self).spec_record_size(),
            final(self).spec_vlr_record() == old(self).spec_vlr_record(),
            r == Lazrs_Result::LAZRS_OK,
            final(self).spec_engine_state() == comp_after_done(old(self).spec_engine_state()),
    {
        if laz_compressor_done(&mut self.engine) {
            Lazrs_Result::LAZRS_OK
        } else {
            Lazrs_Result::LAZRS_IO_ERROR
        }
    }

    /// The bytes the session's in-memory destination holds.
    pub closed spec fn spec_dest_bytes(&self) -> Seq<u8> {
        comp_dest_bytes(self.engine)
    }

    /// Consumes the session and hands back the destination buffer with
    /// everything written so far (call `done` first).
    pub fn into_destination(self) -> (v: Vec<u8>)
        ensures
            v@ == self.spec_dest_bytes(),
    {
        let LasZipCompressor { engine, vlr_record: _, point_size: _ } = self;
        cursor_take_bytes(laz_compressor_take_dest(engine))
    }
}

/// Creates a compression session writing to a fresh in-memory destination,
/// from a point-format id and a count of extra bytes per record.
///
/// Creation succeeds exactly for the point formats the engine knows (ids
/// up to 10); an unknown id fails with the unsupported-point-format code.
/// A session is handed out exactly when the code is ok; its configuration
/// is the builder's default item record for the format, its record size
/// is the format's size plus the extra bytes, and the configuration
/// record it generates parses back to that same item record, ready to
/// build a matching decompression session.
pub fn new_compressor_for_point_format(point_format_id: u8, num_extra_bytes: u16) -> (r: (
    Lazrs_Result,
    Option<LasZipCompressor>,
))
    ensures
        (r.0 == Lazrs_Result::LAZRS_OK) <==> (r.1 is Some),
        (r.0 == Lazrs_Result::LAZRS_OK) <==> point_format_id <= 10,
        point_format_id > 10 ==> r.0 == Lazrs_Result::LAZRS_UNSUPPORTED_POINT_FORMAT,
        r.1 matches Some(c) ==> {
            &&& c.wf()
            &&& c.spec_record_size() == spec_point_format_size(point_format_id) + num_extra_bytes
            &&& 1 <= c.spec_record_size()
            &&& comp_items(c.spec_engine_state()) == default_laz_items(
                point_format_id,
                num_extra_bytes,
            )
            &&& vlr_record_wellformed(c.spec_vlr_record())
            &&& vlr_items(parsed_vlr(c.spec_vlr_record())) == default_laz_items(
                point_format_id,
                num_extra_bytes,
            )
            &&& vlr_chunk_length_spec(parsed_vlr(c.spec_vlr_record())) != 0xffff_ffffu32
        },
{
    let dest = cursor_over(Vec::new());
    match laz_compressor_new_for_point_format(dest, point_format_id, num_extra_bytes) {
        Ok(engine) => {
            let descs = laz_compressor_item_descs(&engine);
            let ps = items_size_sum(&descs);
            proof {
                lemma_items_total_size_bounds(descs@);
            }
            let vlr_record = laz_compressor_vlr_record(&engine);
            let c = LasZipCompressor { engine, vlr_record, point_size: ps as usize };
            (Lazrs_Result::LAZRS_OK, Some(c))
        },
        Err(f) => {
            proof {
                lemma_fault_codes_distinct(f, f);
            }
            (result_of_fault(&f), None)
        },
    }
}

/// Destroys a compression session.  A missing handle is accepted and is a
/// no-op; destruction itself cannot fail and reports nothing.  (Records
/// compressed but not flushed by `done` are lost, as the original contract
/// says: `done` must have been called before.)
pub fn delete_compressor(compressor: Option<LasZipCompressor>) {
    let _ = compressor;
}

} // verus!
