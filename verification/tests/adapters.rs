use lazrs::codes::CodecFault;
use lazrs::codes::Lazrs_Result;
use lazrs::codes::result_of_fault;
use lazrs::mem::MemStream;
use lazrs::mem::SeekOrigin;
use lazrs::mem::resolve_seek;
use lazrs::mem::seek_origin_whence;
use lazrs::source::Lazrs_Buffer;
use lazrs::source::custom_seek_decision;
use lazrs::source::memory_source;
use lazrs::source::validate_path_payload;
use lazrs::utf8check::is_utf8;

#[test]
fn result_codes_mapping() {
    assert_eq!(
        result_of_fault(&CodecFault::UnknownLazItem),
        Lazrs_Result::LAZRS_UNKNOWN_LAZ_ITEM
    );
    assert_eq!(
        result_of_fault(&CodecFault::UnsupportedLazItemVersion),
        Lazrs_Result::LAZRS_UNKNOWN_LAZ_ITEM_VERSION
    );
    assert_eq!(
        result_of_fault(&CodecFault::UnknownCompressorType),
        Lazrs_Result::LAZRS_UNKNOWN_COMPRESSOR_TYPE
    );
    assert_eq!(
        result_of_fault(&CodecFault::UnsupportedCompressorType),
        Lazrs_Result::LAZRS_UNSUPPORTED_COMPRESSOR_TYPE
    );
    assert_eq!(
        result_of_fault(&CodecFault::UnsupportedPointFormat),
        Lazrs_Result::LAZRS_UNSUPPORTED_POINT_FORMAT
    );
    assert_eq!(result_of_fault(&CodecFault::IoError), Lazrs_Result::LAZRS_IO_ERROR);
    assert_eq!(
        result_of_fault(&CodecFault::MissingChunkTable),
        Lazrs_Result::LAZRS_MISSING_CHUNK_TABLE
    );
    assert_eq!(result_of_fault(&CodecFault::Other), Lazrs_Result::LAZRS_OTHER);
}

#[test]
fn mem_stream_reads_and_advances() {
    let mut s = MemStream::new(vec![10, 20, 30, 40, 50]);
    assert_eq!(s.len(), 5);
    assert_eq!(s.tell(), 0);
    let mut out = vec![0u8; 2];
    assert_eq!(s.read_into(&mut out), 2);
    assert_eq!(out, vec![10, 20]);
    assert_eq!(s.tell(), 2);
    let mut rest = vec![0u8; 10];
    assert_eq!(s.read_into(&mut rest), 3);
    assert_eq!(&rest[..3], &[30, 40, 50]);
    assert_eq!(&rest[3..], &[0u8; 7]);
    assert_eq!(s.tell(), 5);
    assert_eq!(s.read_into(&mut rest), 0);
}

#[test]
fn mem_stream_write_is_bounded_by_region() {
    let mut s = MemStream::new(vec![0u8; 4]);
    assert_eq!(s.write_from(&[1, 2, 3]), 3);
    assert_eq!(s.tell(), 3);
    assert_eq!(s.write_from(&[4, 5, 6]), 1);
    assert_eq!(s.tell(), 4);
    assert_eq!(s.write_from(&[7]), 0);
    assert_eq!(s.into_vec(), vec![1, 2, 3, 4]);
}

#[test]
fn mem_stream_seek_rejects_out_of_range() {
    let mut s = MemStream::new(vec![1, 2, 3, 4]);
    assert_eq!(s.seek(SeekOrigin::Start, 2), Ok(2));
    assert_eq!(s.tell(), 2);
    assert_eq!(s.seek(SeekOrigin::Current, 1), Ok(3));
    assert_eq!(s.seek(SeekOrigin::End, -4), Ok(0));
    assert_eq!(s.seek(SeekOrigin::End, 0), Ok(4));
    // out of range in either direction: failure, and the cursor stays put
    assert_eq!(s.seek(SeekOrigin::Start, 5), Err(()));
    assert_eq!(s.tell(), 4);
    assert_eq!(s.seek(SeekOrigin::Current, -5), Err(()));
    assert_eq!(s.seek(SeekOrigin::End, 1), Err(()));
    assert_eq!(s.tell(), 4);
}

#[test]
fn resolve_seek_arithmetic() {
    assert_eq!(resolve_seek(10, 4, SeekOrigin::Current, -2), Some(2));
    assert_eq!(resolve_seek(10, 4, SeekOrigin::Current, 6), Some(10));
    assert_eq!(resolve_seek(10, 4, SeekOrigin::Current, 7), None);
    assert_eq!(resolve_seek(10, 4, SeekOrigin::Start, 0), Some(0));
    assert_eq!(resolve_seek(10, 4, SeekOrigin::Start, -1), None);
    assert_eq!(resolve_seek(10, 4, SeekOrigin::End, -10), Some(0));
    assert_eq!(resolve_seek(10, 4, SeekOrigin::End, i64::MIN), None);
}

#[test]
fn whence_codes_match_stdio() {
    assert_eq!(seek_origin_whence(SeekOrigin::Start), 0);
    assert_eq!(seek_origin_whence(SeekOrigin::Current), 1);
    assert_eq!(seek_origin_whence(SeekOrigin::End), 2);
}

#[test]
fn memory_source_wraps_buffer() {
    let s = memory_source(Lazrs_Buffer { data: vec![9, 8, 7] });
    assert_eq!(s.len(), 3);
    assert_eq!(s.tell(), 0);
}

#[test]
fn utf8_checker_agrees_with_std() {
    let cases: Vec<&[u8]> = vec![
        b"",
        b"plain ascii",
        "caf\u{e9} \u{20ac} \u{1d11e}".as_bytes(),
        b"\x80",             // lone continuation byte
        b"\xc0\x80",         // overlong two-byte encoding
        b"\xc2",             // truncated two-byte encoding
        b"\xc2\x41",         // bad continuation byte
        b"\xe0\x80\x80",     // overlong three-byte encoding
        b"\xe0\xa0\x80",     // smallest valid three-byte encoding
        b"\xed\xa0\x80",     // surrogate
        b"\xed\x9f\xbf",     // just below the surrogate range
        b"\xf0\x80\x80\x80", // overlong four-byte encoding
        b"\xf0\x90\x80\x80", // smallest valid four-byte encoding
        b"\xf4\x8f\xbf\xbf", // largest valid scalar
        b"\xf4\x90\x80\x80", // just above the largest scalar
        b"\xf5\x80\x80\x80", // leading byte out of range
        b"\xf8\x88\x80\x80\x80",
        b"ends mid-scalar \xe2\x82",
    ];
    for bytes in cases {
        assert_eq!(
            is_utf8(bytes),
            std::str::from_utf8(bytes).is_ok(),
            "disagreement on {:?}",
            bytes
        );
    }
}

#[test]
fn non_utf8_path_payload_is_io_error() {
    assert_eq!(validate_path_payload(b"\xff\xfe"), Err(Lazrs_Result::LAZRS_IO_ERROR));
    assert_eq!(validate_path_payload(b"\xed\xa0\x80"), Err(Lazrs_Result::LAZRS_IO_ERROR));
    assert_eq!(validate_path_payload("some/ordinary path.laz".as_bytes()), Ok(()));
    assert_eq!(validate_path_payload("p\u{e9}th".as_bytes()), Ok(()));
}

#[test]
fn custom_seek_nonzero_status_aborts() {
    assert_eq!(custom_seek_decision(0), Ok(()));
    assert_eq!(custom_seek_decision(1), Err(Lazrs_Result::LAZRS_IO_ERROR));
    assert_eq!(custom_seek_decision(-1), Err(Lazrs_Result::LAZRS_IO_ERROR));
    assert_eq!(custom_seek_decision(i32::MIN), Err(Lazrs_Result::LAZRS_IO_ERROR));
}
