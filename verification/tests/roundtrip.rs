use lazrs::codes::Lazrs_Result;
use lazrs::session::delete_compressor;
use lazrs::session::delete_decompressor;
use lazrs::session::new_compressor_for_point_format;
use lazrs::session::new_decompressor;
use lazrs::source::Lazrs_Buffer;

/// Three distinct fixed records of the given size.
fn fixed_records(size: usize) -> Vec<Vec<u8>> {
    let mut records = Vec::new();
    for k in 0..3u8 {
        let mut r = Vec::with_capacity(size);
        for j in 0..size {
            r.push((k.wrapping_mul(31)).wrapping_add(j as u8));
        }
        records.push(r);
    }
    records
}

#[test]
fn three_records_compress_then_decompress_byte_identical() {
    // configuration: point format 0, zero extra bytes; three fixed
    // 20-byte records into a memory destination
    let (code, handle) = new_compressor_for_point_format(0, 0);
    assert_eq!(code, Lazrs_Result::LAZRS_OK);
    let mut compressor = handle.expect("ok code must come with a session");
    assert_eq!(compressor.record_size(), 20);

    let records = fixed_records(20);
    for r in &records {
        assert_eq!(compressor.compress_one(r), Lazrs_Result::LAZRS_OK);
    }
    assert_eq!(compressor.done(), Lazrs_Result::LAZRS_OK);

    let config_len = compressor.laszip_vlr_size() as usize;
    let mut config = vec![0u8; config_len];
    assert_eq!(compressor.laszip_vlr_data(&mut config), Lazrs_Result::LAZRS_OK);
    let compressed = compressor.into_destination();
    assert!(!compressed.is_empty());

    let (dcode, dhandle) = new_decompressor(Lazrs_Buffer { data: compressed }, 0, &config);
    assert_eq!(dcode, Lazrs_Result::LAZRS_OK);
    let mut decompressor = dhandle.expect("ok code must come with a session");
    assert_eq!(decompressor.record_size(), 20);

    // exactly three reads: the caller tracks the record count, a fourth
    // call is never attempted
    for expected in &records {
        let mut out = vec![0u8; 20];
        assert_eq!(decompressor.decompress_one(&mut out), Lazrs_Result::LAZRS_OK);
        assert_eq!(&out, expected);
    }
    delete_decompressor(Some(decompressor));
}

#[test]
fn decompress_many_round_trips_whole_buffers() {
    let (code, handle) = new_compressor_for_point_format(1, 2);
    assert_eq!(code, Lazrs_Result::LAZRS_OK);
    let mut compressor = handle.unwrap();
    let ps = compressor.record_size();
    assert_eq!(ps, 30); // format 1 is 28 bytes, plus two extra bytes

    let records = fixed_records(ps);
    let mut all: Vec<u8> = Vec::new();
    for r in &records {
        all.extend_from_slice(r);
    }
    assert_eq!(compressor.compress_many(&all), Lazrs_Result::LAZRS_OK);
    assert_eq!(compressor.done(), Lazrs_Result::LAZRS_OK);

    let config_len = compressor.laszip_vlr_size() as usize;
    let mut config = vec![0u8; config_len];
    assert_eq!(compressor.laszip_vlr_data(&mut config), Lazrs_Result::LAZRS_OK);
    let compressed = compressor.into_destination();

    let (dcode, dhandle) = new_decompressor(Lazrs_Buffer { data: compressed }, 0, &config);
    assert_eq!(dcode, Lazrs_Result::LAZRS_OK);
    let mut decompressor = dhandle.unwrap();
    let mut out = vec![0u8; all.len()];
    assert_eq!(decompressor.decompress_many(&mut out), Lazrs_Result::LAZRS_OK);
    assert_eq!(out, all);
    delete_decompressor(Some(decompressor));
}

#[test]
fn source_offset_skips_leading_bytes() {
    let (code, handle) = new_compressor_for_point_format(0, 0);
    assert_eq!(code, Lazrs_Result::LAZRS_OK);
    let mut compressor = handle.unwrap();
    let records = fixed_records(20);
    for r in &records {
        assert_eq!(compressor.compress_one(r), Lazrs_Result::LAZRS_OK);
    }
    assert_eq!(compressor.done(), Lazrs_Result::LAZRS_OK);
    let config_len = compressor.laszip_vlr_size() as usize;
    let mut config = vec![0u8; config_len];
    assert_eq!(compressor.laszip_vlr_data(&mut config), Lazrs_Result::LAZRS_OK);
    let compressed = compressor.into_destination();

    // embed the compressed stream after a preamble inside a larger
    // buffer, patching the stream's leading chunk-table position — an
    // absolute offset — the way a container writer compressing at that
    // position would have produced it
    let preamble = b"container header bytes".to_vec();
    let offset = preamble.len() as u64;
    let mut container = preamble;
    container.extend_from_slice(&compressed);
    let table_pos = i64::from_le_bytes(compressed[..8].try_into().unwrap());
    let patched = table_pos + offset as i64;
    container[offset as usize..offset as usize + 8].copy_from_slice(&patched.to_le_bytes());

    let (dcode, dhandle) = new_decompressor(Lazrs_Buffer { data: container }, offset, &config);
    assert_eq!(dcode, Lazrs_Result::LAZRS_OK);
    let mut decompressor = dhandle.unwrap();
    for expected in &records {
        let mut out = vec![0u8; 20];
        assert_eq!(decompressor.decompress_one(&mut out), Lazrs_Result::LAZRS_OK);
        assert_eq!(&out, expected);
    }
    delete_decompressor(Some(decompressor));
}

#[test]
fn undersized_out_buffer_is_contained_and_session_survives() {
    let (code, handle) = new_compressor_for_point_format(0, 0);
    assert_eq!(code, Lazrs_Result::LAZRS_OK);
    let mut compressor = handle.unwrap();
    let records = fixed_records(20);
    for r in &records {
        assert_eq!(compressor.compress_one(r), Lazrs_Result::LAZRS_OK);
    }
    assert_eq!(compressor.done(), Lazrs_Result::LAZRS_OK);
    let config_len = compressor.laszip_vlr_size() as usize;
    let mut config = vec![0u8; config_len];
    assert_eq!(compressor.laszip_vlr_data(&mut config), Lazrs_Result::LAZRS_OK);
    let compressed = compressor.into_destination();

    let (dcode, dhandle) = new_decompressor(Lazrs_Buffer { data: compressed }, 0, &config);
    assert_eq!(dcode, Lazrs_Result::LAZRS_OK);
    let mut decompressor = dhandle.unwrap();
    let mut small = vec![0u8; 19];
    assert_eq!(decompressor.decompress_one(&mut small), Lazrs_Result::LAZRS_OTHER);
    let mut out = vec![0u8; 20];
    assert_eq!(decompressor.decompress_one(&mut out), Lazrs_Result::LAZRS_OK);
    assert_eq!(&out, &records[0]);
    delete_decompressor(Some(decompressor));
}

#[test]
fn compress_done_delete_in_order_never_faults() {
    let (code, handle) = new_compressor_for_point_format(2, 0);
    assert_eq!(code, Lazrs_Result::LAZRS_OK);
    let mut compressor = handle.unwrap();
    let ps = compressor.record_size();
    let records = fixed_records(ps);
    assert_eq!(compressor.compress_one(&records[0]), Lazrs_Result::LAZRS_OK);
    let mut rest: Vec<u8> = Vec::new();
    rest.extend_from_slice(&records[1]);
    rest.extend_from_slice(&records[2]);
    assert_eq!(compressor.compress_many(&rest), Lazrs_Result::LAZRS_OK);
    assert_eq!(compressor.done(), Lazrs_Result::LAZRS_OK);
    delete_compressor(Some(compressor));
}

#[test]
fn calling_done_twice_does_not_fault() {
    // a second `done` is a protocol violation; this pins down that it
    // reports a code instead of faulting (the destination gains a second
    // copy of the trailing metadata, which a decoder never reaches)
    let (code, handle) = new_compressor_for_point_format(0, 0);
    assert_eq!(code, Lazrs_Result::LAZRS_OK);
    let mut compressor = handle.unwrap();
    assert_eq!(compressor.compress_one(&fixed_records(20)[0]), Lazrs_Result::LAZRS_OK);
    assert_eq!(compressor.done(), Lazrs_Result::LAZRS_OK);
    assert_eq!(compressor.done(), Lazrs_Result::LAZRS_OK);
    delete_compressor(Some(compressor));
}

#[test]
fn decompress_many_ignores_trailing_partial_slot() {
    let (code, handle) = new_compressor_for_point_format(0, 0);
    assert_eq!(code, Lazrs_Result::LAZRS_OK);
    let mut compressor = handle.unwrap();
    let records = fixed_records(20);
    for r in &records {
        assert_eq!(compressor.compress_one(r), Lazrs_Result::LAZRS_OK);
    }
    assert_eq!(compressor.done(), Lazrs_Result::LAZRS_OK);
    let config_len = compressor.laszip_vlr_size() as usize;
    let mut config = vec![0u8; config_len];
    assert_eq!(compressor.laszip_vlr_data(&mut config), Lazrs_Result::LAZRS_OK);
    let compressed = compressor.into_destination();

    let (dcode, dhandle) = new_decompressor(Lazrs_Buffer { data: compressed }, 0, &config);
    assert_eq!(dcode, Lazrs_Result::LAZRS_OK);
    let mut decompressor = dhandle.unwrap();
    // 65 bytes hold three whole records; the last five bytes are a partial
    // slot that must stay untouched
    let mut out = vec![0xAAu8; 65];
    assert_eq!(decompressor.decompress_many(&mut out), Lazrs_Result::LAZRS_OK);
    for (k, expected) in records.iter().enumerate() {
        assert_eq!(&out[k * 20..(k + 1) * 20], expected.as_slice());
    }
    assert_eq!(&out[60..], &[0xAAu8; 5]);
    delete_decompressor(Some(decompressor));
}
