use md5::Digest;
use std::io::Write;
use scratch_io::wharf::bsdiff::Control;
use scratch_io::wharf::common::{decompress_stream, WharfError, PATCH_MAGIC, SIGNATURE_MAGIC};
use scratch_io::wharf::container::{container_permissions, container_symlinks, get_container_file};
use scratch_io::wharf::patch::{
    add_bytes, apply_patch, copy_range, read_patch, SyncEntry, SyncEntryIter, SyncHeader,
};
use scratch_io::wharf::protobuf::{
    parse_embedded_fields, parse_fields, read_delimited, read_length_delimiter, ByteReader,
    StreamError, WireValue,
};
use scratch_io::wharf::pwr::{
    BlockHash, CompressionAlgorithm, PatchHeader, SyncHeaderType, SyncOp, SyncOpType,
};
use scratch_io::wharf::signature::{read_signature, verify_file, verify_files};
use scratch_io::wharf::tlc::Container;

fn varint(mut n: u64) -> Vec<u8> {
    let mut out = Vec::new();
    loop {
        let b = (n & 0x7f) as u8;
        n >>= 7;
        if n == 0 {
            out.push(b);
            return out;
        }
        out.push(b | 0x80);
    }
}

fn field_varint(num: u64, v: u64) -> Vec<u8> {
    let mut out = varint(num << 3);
    out.extend(varint(v));
    out
}

fn field_bytes(num: u64, b: &[u8]) -> Vec<u8> {
    let mut out = varint((num << 3) | 2);
    out.extend(varint(b.len() as u64));
    out.extend_from_slice(b);
    out
}

fn delimited(msg: &[u8]) -> Vec<u8> {
    let mut out = varint(msg.len() as u64);
    out.extend_from_slice(msg);
    out
}

fn header(algorithm: u64) -> Vec<u8> {
    field_bytes(1, &field_varint(1, algorithm))
}

fn file_msg(path: &str, mode: u64, size: u64) -> Vec<u8> {
    let mut m = field_bytes(1, path.as_bytes());
    m.extend(field_varint(2, mode));
    m.extend(field_varint(3, size));
    m
}

fn container(files: &[Vec<u8>], dirs: &[Vec<u8>], symlinks: &[Vec<u8>], size: u64) -> Vec<u8> {
    let mut m = Vec::new();
    for f in files {
        m.extend(field_bytes(1, f));
    }
    for d in dirs {
        m.extend(field_bytes(2, d));
    }
    for s in symlinks {
        m.extend(field_bytes(3, s));
    }
    m.extend(field_varint(16, size));
    m
}

fn sync_header(kind: u64, file_index: u64) -> Vec<u8> {
    let mut m = field_varint(1, kind);
    m.extend(field_varint(16, file_index));
    m
}

fn data_op(data: &[u8]) -> Vec<u8> {
    let mut m = field_varint(1, 1);
    m.extend(field_bytes(5, data));
    m
}

fn block_range_op(file_index: u64, block_index: u64, block_span: u64) -> Vec<u8> {
    let mut m = field_varint(1, 0);
    m.extend(field_varint(2, file_index));
    m.extend(field_varint(3, block_index));
    m.extend(field_varint(4, block_span));
    m
}

fn end_op() -> Vec<u8> {
    field_varint(1, 2049)
}

fn control(add: &[u8], copy: &[u8], seek: i64, eof: bool) -> Vec<u8> {
    let mut m = field_bytes(1, add);
    m.extend(field_bytes(2, copy));
    m.extend(field_varint(3, seek as u64));
    m.extend(field_varint(4, eof as u64));
    m
}

/// The operation stream of a patch that builds "hello abc" from data and a
/// block of the old file "abc", then "bcxy" from a bsdiff of "abc".
fn sample_ops() -> Vec<u8> {
    let mut ops = Vec::new();
    ops.extend(delimited(&sync_header(0, 0)));
    ops.extend(delimited(&data_op(b"hello ")));
    ops.extend(delimited(&block_range_op(0, 0, 1)));
    ops.extend(delimited(&end_op()));
    ops.extend(delimited(&sync_header(1, 1)));
    ops.extend(delimited(&field_varint(1, 0)));
    ops.extend(delimited(&control(&[1, 1], b"xy", 0, false)));
    ops.extend(delimited(&control(&[], &[], 0, true)));
    ops.extend(delimited(&end_op()));
    ops
}

fn sample_body() -> Vec<u8> {
    let mut body = Vec::new();
    body.extend(delimited(&container(&[file_msg("old.bin", 0o644, 3)], &[], &[], 3)));
    body.extend(delimited(&container(
        &[file_msg("a.txt", 0o644, 9), file_msg("b.txt", 0o755, 4)],
        &[field_bytes(1, b"dir")],
        &[],
        13,
    )));
    body.extend(sample_ops());
    body
}

fn patch_file(algorithm: u64, body: &[u8]) -> Vec<u8> {
    let mut f = PATCH_MAGIC.to_le_bytes().to_vec();
    f.extend(delimited(&header(algorithm)));
    f.extend_from_slice(body);
    f
}

fn gzip(data: &[u8]) -> Vec<u8> {
    let mut e = flate2::write::GzEncoder::new(Vec::new(), flate2::Compression::default());
    e.write_all(data).unwrap();
    e.finish().unwrap()
}

fn brotli_compress(data: &[u8]) -> Vec<u8> {
    let mut out = Vec::new();
    {
        let mut w = brotli::CompressorWriter::new(&mut out, 4096, 5, 22);
        w.write_all(data).unwrap();
    }
    out
}

fn zstd_compress(data: &[u8]) -> Vec<u8> {
    zstd::stream::encode_all(data, 3).unwrap()
}

fn old_files() -> Vec<Option<Vec<u8>>> {
    vec![Some(b"abc".to_vec())]
}

#[test]
fn length_delimiter_single_and_multi_byte() {
    let mut r = ByteReader::new(vec![5, 9]);
    assert_eq!(read_length_delimiter(&mut r), Ok(5));
    assert_eq!(r.remaining_len(), 1);
    let mut r = ByteReader::new(vec![0xAC, 0x02]);
    assert_eq!(read_length_delimiter(&mut r), Ok(300));
    assert!(r.is_at_end());
}

#[test]
fn length_delimiter_errors() {
    let mut r = ByteReader::new(vec![]);
    assert_eq!(read_length_delimiter(&mut r), Err(StreamError::UnexpectedEof));
    let mut r = ByteReader::new(vec![0x80, 0x80]);
    assert_eq!(read_length_delimiter(&mut r), Err(StreamError::UnexpectedEof));
    let mut r = ByteReader::new(vec![0xFF; 12]);
    assert_eq!(read_length_delimiter(&mut r), Err(StreamError::InvalidLengthDelimiter));
    assert_eq!(r.remaining_len(), 2);
}

#[test]
fn delimited_message_and_truncation() {
    let mut r = ByteReader::new(vec![3, 1, 2, 3, 4]);
    assert_eq!(read_delimited(&mut r), Ok(vec![1, 2, 3]));
    assert_eq!(r.remaining_len(), 1);
    let mut r = ByteReader::new(vec![3, 1]);
    assert_eq!(read_delimited(&mut r), Err(StreamError::UnexpectedEof));
}

#[test]
fn byte_reader_reads() {
    let mut r = ByteReader::new(vec![1, 2, 3]);
    assert_eq!(r.read_byte(), Ok(1));
    assert_eq!(r.read_exact(5), Err(StreamError::UnexpectedEof));
    assert_eq!(r.read_exact(1), Ok(vec![2]));
    assert_eq!(r.read_rest(), vec![3]);
    assert_eq!(r.read_byte(), Err(StreamError::UnexpectedEof));
}

#[test]
fn parse_fields_by_wire_type() {
    let mut bytes = field_varint(1, 150);
    bytes.extend(field_bytes(2, b"hi"));
    bytes.push((3 << 3) | 5);
    bytes.extend_from_slice(&[1, 0, 0, 0]);
    bytes.push((4 << 3) | 1);
    bytes.extend_from_slice(&[2, 0, 0, 0, 0, 0, 0, 1]);
    let fields = parse_fields(&bytes).unwrap();
    assert_eq!(fields.len(), 4);
    assert_eq!(fields[0].number, 1);
    assert_eq!(fields[0].value, WireValue::Varint(150));
    assert_eq!(fields[1].value, WireValue::LengthDelimited(b"hi".to_vec()));
    assert_eq!(fields[2].value, WireValue::Fixed32(1));
    assert_eq!(fields[3].value, WireValue::Fixed64(2 + (1u64 << 56)));
}

#[test]
fn ten_byte_varints() {
    let mut bytes = vec![0x08];
    bytes.extend(varint(u64::MAX));
    assert_eq!(bytes.len(), 11);
    assert_eq!(parse_fields(&bytes).unwrap()[0].value, WireValue::Varint(u64::MAX));
    let mut too_big = vec![0x08];
    too_big.extend_from_slice(&[0xFF; 9]);
    too_big.push(0x02);
    assert_eq!(parse_fields(&too_big), Err(StreamError::InvalidVarint));
    let mut too_long = vec![0x08];
    too_long.extend_from_slice(&[0x80; 10]);
    too_long.push(0x00);
    assert_eq!(parse_fields(&too_long), Err(StreamError::InvalidVarint));
}

#[test]
fn parse_fields_errors() {
    assert_eq!(parse_fields(&[0x08]), Err(StreamError::InvalidVarint));
    assert_eq!(parse_fields(&[0x00, 0x01]), Err(StreamError::InvalidTag));
    assert_eq!(parse_fields(&[0x0B]), Err(StreamError::InvalidVarint));
    assert_eq!(parse_fields(&[0x0C]), Err(StreamError::InvalidWireType));
    assert_eq!(parse_fields(&[0x0E]), Err(StreamError::InvalidWireType));
    assert_eq!(parse_fields(&[0x12, 0x05, 0x01]), Err(StreamError::BufferUnderflow));
    assert_eq!(parse_fields(&[0x0D, 0x01]), Err(StreamError::BufferUnderflow));
    let mut big_key = varint(1u64 << 35);
    big_key.push(0);
    assert_eq!(parse_fields(&big_key), Err(StreamError::InvalidKey));
}

#[test]
fn scalar_fields_keep_their_last_value() {
    let mut bytes = field_varint(1, 1);
    bytes.extend(field_varint(16, 7));
    bytes.extend(field_varint(16, 9));
    let h = scalar_header(&bytes);
    assert_eq!(h.file_index, 9);
    assert_eq!(h.header_type(), SyncHeaderType::Bsdiff);
}

fn scalar_header(bytes: &[u8]) -> scratch_io::wharf::pwr::SyncHeader {
    scratch_io::wharf::pwr::SyncHeader::decode(bytes).unwrap()
}

fn nested_groups(depth: usize) -> Vec<u8> {
    let mut bytes = vec![(7 << 3) | 3; depth];
    bytes.extend(vec![(7 << 3) | 4; depth]);
    bytes
}

#[test]
fn groups_are_skipped() {
    let mut bytes = field_varint(1, 1);
    bytes.push((9 << 3) | 3);
    bytes.extend(field_varint(2, 300));
    bytes.extend(field_bytes(3, b"abc"));
    bytes.push((4 << 3) | 3);
    bytes.extend(field_varint(5, 1));
    bytes.push((4 << 3) | 4);
    bytes.push((9 << 3) | 4);
    bytes.extend(field_varint(16, 8));
    let fields = parse_fields(&bytes).unwrap();
    assert_eq!(fields.len(), 3);
    assert_eq!(fields[1].number, 9);
    assert_eq!(fields[1].value, WireValue::Group);
    assert_eq!(fields[2].value, WireValue::Varint(8));
    let header = scratch_io::wharf::pwr::SyncHeader::decode(&bytes).unwrap();
    assert_eq!(header.file_index, 8);
}

#[test]
fn group_errors() {
    assert_eq!(parse_fields(&[(9 << 3) | 3, (8 << 3) | 4]), Err(StreamError::UnexpectedEndGroup));
    assert_eq!(parse_fields(&[(9 << 3) | 3, 0x08]), Err(StreamError::InvalidVarint));
    let bytes = vec![(1 << 3) | 3, (1 << 3) | 4];
    assert_eq!(parse_fields(&bytes).unwrap()[0].value, WireValue::Group);
    assert_eq!(
        scratch_io::wharf::pwr::SyncHeader::decode(&bytes),
        Err(StreamError::InvalidMessage)
    );
}

#[test]
fn group_nesting_is_limited() {
    assert!(parse_fields(&nested_groups(100)).is_ok());
    assert_eq!(parse_fields(&nested_groups(101)), Err(StreamError::RecursionLimit));
    assert!(parse_embedded_fields(&nested_groups(99)).is_ok());
    assert_eq!(parse_embedded_fields(&nested_groups(100)), Err(StreamError::RecursionLimit));
    let mut inner = nested_groups(99);
    inner.insert(99, 0x08);
    inner.insert(100, 0x01);
    assert_eq!(parse_fields(&inner).unwrap().len(), 1);
    let mut deep = nested_groups(100);
    deep.insert(100, 0x08);
    deep.insert(101, 0x01);
    assert_eq!(parse_fields(&deep), Err(StreamError::RecursionLimit));
}

#[test]
fn wrong_wire_type_makes_a_message_invalid() {
    let bytes = field_bytes(16, b"x");
    assert_eq!(
        scratch_io::wharf::pwr::SyncHeader::decode(&bytes),
        Err(StreamError::InvalidMessage)
    );
}

#[test]
fn invalid_utf8_path_makes_a_file_invalid() {
    let bytes = field_bytes(1, &[0xFF, 0xFE]);
    assert_eq!(
        scratch_io::wharf::tlc::File::decode(&bytes),
        Err(StreamError::InvalidMessage)
    );
}

#[test]
fn embedded_message_is_merged_across_occurrences() {
    let mut bytes = field_bytes(1, &field_varint(1, 3));
    bytes.extend(field_bytes(1, &field_varint(2, 9)));
    let h = PatchHeader::decode(&bytes).unwrap();
    let c = h.compression.unwrap();
    assert_eq!(c.algorithm(), CompressionAlgorithm::Zstd);
    assert_eq!(c.quality, 9);
}

#[test]
fn unknown_algorithm_reads_as_uncompressed() {
    assert_eq!(CompressionAlgorithm::from_value(7), CompressionAlgorithm::Uncompressed);
    assert_eq!(CompressionAlgorithm::from_value(1), CompressionAlgorithm::Brotli);
    assert_eq!(CompressionAlgorithm::from_value(2), CompressionAlgorithm::Gzip);
}

#[test]
fn container_decodes_files_dirs_and_symlinks() {
    let mut link = field_bytes(1, b"link");
    link.extend(field_varint(2, 0o777));
    link.extend(field_bytes(3, b"a.txt"));
    let bytes = container(&[file_msg("a.txt", 0o644, 9)], &[field_bytes(1, b"dir")], &[link], 9);
    let c = Container::decode(&bytes).unwrap();
    assert_eq!(c.files.len(), 1);
    assert_eq!(c.files[0].path, "a.txt");
    assert_eq!(c.files[0].mode, 0o644);
    assert_eq!(c.files[0].size, 9);
    assert_eq!(c.dirs[0].path, "dir");
    assert_eq!(c.symlinks[0].dest, "a.txt");
    assert_eq!(c.size, 9);
    assert_eq!(
        container_permissions(&c),
        vec![("a.txt".to_string(), 0o644), ("dir".to_string(), 0), ("link".to_string(), 0o777)]
    );
    assert_eq!(container_symlinks(&c), vec![("link".to_string(), "a.txt".to_string())]);
    assert_eq!(get_container_file(&c, 0).unwrap().path, "a.txt");
    assert_eq!(get_container_file(&c, 1), Err(WharfError::InvalidOldFileIndex));
}

#[test]
fn sync_op_types() {
    let op = SyncOp::decode(&end_op()).unwrap();
    assert_eq!(op.op_type(), SyncOpType::HeyYouDidIt);
    let op = SyncOp::decode(&data_op(b"zz")).unwrap();
    assert_eq!(op.op_type(), SyncOpType::Data);
    assert_eq!(op.data, b"zz".to_vec());
    let op = SyncOp::decode(&field_varint(1, 77)).unwrap();
    assert_eq!(op.op_type(), SyncOpType::BlockRange);
}

#[test]
fn control_decodes() {
    let c = Control::decode(&control(&[1, 2], b"q", -3, false)).unwrap();
    assert_eq!(c.add, vec![1, 2]);
    assert_eq!(c.copy, b"q".to_vec());
    assert_eq!(c.seek, -3);
    assert!(!c.eof);
}

#[test]
fn block_hash_decodes() {
    let mut bytes = field_varint(1, 42);
    bytes.extend(field_bytes(2, &[9; 16]));
    let h = BlockHash::decode(&bytes).unwrap();
    assert_eq!(h.weak_hash, 42);
    assert_eq!(h.strong_hash, vec![9; 16]);
}

#[test]
fn read_and_apply_uncompressed_patch() {
    let file = patch_file(0, &sample_body());
    let mut patch = read_patch(&file).unwrap();
    assert_eq!(patch.container_old.files[0].path, "old.bin");
    assert_eq!(patch.container_new.files.len(), 2);
    let out = apply_patch(&old_files(), &mut patch).unwrap();
    assert_eq!(out, vec![Some(b"hello abc".to_vec()), Some(b"bcxy".to_vec())]);
}

#[test]
fn gzip_patch_is_decompressed() {
    let file = patch_file(2, &gzip(&sample_body()));
    let mut patch = read_patch(&file).unwrap();
    let out = apply_patch(&old_files(), &mut patch).unwrap();
    assert_eq!(out[0], Some(b"hello abc".to_vec()));
}

#[test]
fn brotli_patch_is_decompressed() {
    let file = patch_file(1, &brotli_compress(&sample_body()));
    let mut patch = read_patch(&file).unwrap();
    let out = apply_patch(&old_files(), &mut patch).unwrap();
    assert_eq!(out[1], Some(b"bcxy".to_vec()));
}

#[test]
fn zstd_patch_is_decompressed() {
    let file = patch_file(3, &zstd_compress(&sample_body()));
    let mut patch = read_patch(&file).unwrap();
    let out = apply_patch(&old_files(), &mut patch).unwrap();
    assert_eq!(out[0], Some(b"hello abc".to_vec()));
}

#[test]
fn decompress_stream_by_algorithm() {
    assert_eq!(decompress_stream(b"raw".to_vec(), CompressionAlgorithm::Uncompressed), Ok(b"raw".to_vec()));
    assert_eq!(decompress_stream(gzip(b"xyz"), CompressionAlgorithm::Gzip), Ok(b"xyz".to_vec()));
    assert_eq!(
        decompress_stream(b"not gzip".to_vec(), CompressionAlgorithm::Gzip),
        Err(WharfError::Decompression)
    );
}

#[test]
fn corrupted_body_fails_to_decompress() {
    let file = patch_file(2, b"garbage");
    assert!(matches!(read_patch(&file), Err(WharfError::Decompression)));
}

#[test]
fn patch_errors() {
    assert!(matches!(read_patch(&[0, 1]), Err(WharfError::Stream(StreamError::UnexpectedEof))));
    let mut sig = SIGNATURE_MAGIC.to_le_bytes().to_vec();
    sig.extend(delimited(&header(0)));
    assert!(matches!(read_patch(&sig), Err(WharfError::BadMagic)));
    let mut no_compression = PATCH_MAGIC.to_le_bytes().to_vec();
    no_compression.extend(delimited(&[]));
    assert!(matches!(read_patch(&no_compression), Err(WharfError::MissingCompression)));
}

fn patch_with_ops(ops: &[u8]) -> Vec<u8> {
    let mut body = Vec::new();
    body.extend(delimited(&container(&[file_msg("old.bin", 0o644, 3)], &[], &[], 3)));
    body.extend(delimited(&container(&[file_msg("a.txt", 0o644, 3)], &[], &[], 3)));
    body.extend_from_slice(ops);
    patch_file(0, &body)
}

#[test]
fn apply_patch_error_variants() {
    let cases: Vec<(Vec<u8>, WharfError)> = vec![
        (
            [delimited(&sync_header(0, 5)), delimited(&end_op())].concat(),
            WharfError::InvalidNewFileIndex,
        ),
        (
            [
                delimited(&sync_header(0, 0)),
                delimited(&block_range_op(3, 0, 1)),
                delimited(&end_op()),
            ]
            .concat(),
            WharfError::InvalidOldFileIndex,
        ),
        (
            [delimited(&sync_header(1, 0)), delimited(&field_varint(1, 0)), delimited(&control(&[1, 1, 1, 1], &[], 0, false))].concat(),
            WharfError::OldFileTooShort,
        ),
        (
            [delimited(&sync_header(1, 0)), delimited(&field_varint(1, 0)), delimited(&control(&[], &[], -1, false))].concat(),
            WharfError::InvalidSeek,
        ),
        (
            [
                delimited(&sync_header(1, 0)),
                delimited(&field_varint(1, 0)),
                delimited(&control(&[], &[], 0, true)),
                delimited(&data_op(b"x")),
            ]
            .concat(),
            WharfError::ExpectedHeyYouDidIt,
        ),
        (
            [delimited(&sync_header(0, 0)), vec![5, 1]].concat(),
            WharfError::Stream(StreamError::UnexpectedEof),
        ),
    ];
    for (ops, expected) in cases {
        let mut patch = read_patch(&patch_with_ops(&ops)).unwrap();
        assert_eq!(apply_patch(&old_files(), &mut patch), Err(expected));
    }
    let ops = [
        delimited(&sync_header(0, 0)),
        delimited(&block_range_op(0, 0, 1)),
        delimited(&end_op()),
    ]
    .concat();
    let mut patch = read_patch(&patch_with_ops(&ops)).unwrap();
    assert_eq!(apply_patch(&vec![None], &mut patch), Err(WharfError::OldFileUnavailable));
}

#[test]
fn unwritten_files_stay_absent() {
    let mut patch = read_patch(&patch_with_ops(&[])).unwrap();
    assert_eq!(apply_patch(&old_files(), &mut patch), Ok(vec![None]));
}

#[test]
fn later_header_replaces_earlier_content() {
    let ops = [
        delimited(&sync_header(0, 0)),
        delimited(&data_op(b"first")),
        delimited(&end_op()),
        delimited(&sync_header(0, 0)),
        delimited(&data_op(b"second")),
        delimited(&end_op()),
    ]
    .concat();
    let mut patch = read_patch(&patch_with_ops(&ops)).unwrap();
    assert_eq!(apply_patch(&old_files(), &mut patch), Ok(vec![Some(b"second".to_vec())]));
}

#[test]
fn sync_entries_alternate_between_headers_and_ops() {
    let mut it = SyncEntryIter::new(sample_ops());
    match it.next() {
        Some(Ok(SyncEntry::Header { header, bsdiff_header })) => {
            assert_eq!(header.file_index, 0);
            assert_eq!(bsdiff_header, None);
        }
        other => panic!("unexpected {other:?}"),
    }
    let mut ops = 0;
    loop {
        match it.next() {
            Some(Ok(SyncEntry::Op(op))) => {
                ops += 1;
                if op.op_type() == SyncOpType::HeyYouDidIt {
                    break;
                }
            }
            other => panic!("unexpected {other:?}"),
        }
    }
    assert_eq!(ops, 3);
    match it.next() {
        Some(Ok(SyncEntry::Header { header, bsdiff_header })) => {
            assert_eq!(header.file_index, 1);
            assert_eq!(bsdiff_header.map(|b| b.target_index), Some(0));
        }
        other => panic!("unexpected {other:?}"),
    }
}

#[test]
fn next_header_and_op_iterators() {
    let mut it = SyncEntryIter::new(sample_ops());
    assert_eq!(it.next_header(), Some(Ok(SyncHeader::Rsync { file_index: 0 })));
    assert_eq!(it.next_rsync_op().unwrap().unwrap().data, b"hello ".to_vec());
    assert_eq!(it.next_rsync_op().unwrap().unwrap().block_span, 1);
    assert!(it.next_rsync_op().is_none());
    assert_eq!(
        it.next_header(),
        Some(Ok(SyncHeader::Bsdiff { file_index: 1, target_index: 0 }))
    );
    assert_eq!(it.next_bsdiff_op().unwrap().unwrap().copy, b"xy".to_vec());
    assert!(it.next_bsdiff_op().is_none());
    assert_eq!(it.next_header(), None);
}

#[test]
fn copy_range_clamps_to_the_file() {
    let f: Vec<u8> = (0..200u32).map(|i| i as u8).collect();
    assert_eq!(copy_range(&f, 0, 1), f);
    assert_eq!(copy_range(&f, 1, 1), Vec::<u8>::new());
    let big: Vec<u8> = vec![7; 70000];
    assert_eq!(copy_range(&big, 1, 1).len(), 70000 - 65536);
    assert_eq!(copy_range(&big, 0, 0).len(), 0);
}

#[test]
fn add_bytes_wraps_around() {
    assert_eq!(add_bytes(&vec![250, 1, 2], 1, &vec![255, 10]), vec![0, 12]);
    assert_eq!(add_bytes(&vec![200], 0, &vec![100]), vec![44]);
}

fn md5(data: &[u8]) -> Vec<u8> {
    md5::Md5::digest(data).to_vec()
}

fn signature_file(files: &[(&str, u64)], hashes: &[Vec<u8>]) -> Vec<u8> {
    let mut f = SIGNATURE_MAGIC.to_le_bytes().to_vec();
    f.extend(delimited(&header(0)));
    let file_msgs: Vec<Vec<u8>> = files.iter().map(|(p, s)| file_msg(p, 0o644, *s)).collect();
    f.extend(delimited(&container(&file_msgs, &[], &[], 0)));
    for h in hashes {
        let mut m = field_varint(1, 0);
        m.extend(field_bytes(2, h));
        f.extend(delimited(&m));
    }
    f
}

#[test]
fn signature_verifies_intact_files() {
    let big: Vec<u8> = (0..70000u32).map(|i| (i % 251) as u8).collect();
    let sig = signature_file(
        &[("a", 3), ("empty", 0), ("big", 70000)],
        &[md5(b"abc"), md5(b""), md5(&big[..65536]), md5(&big[65536..])],
    );
    let mut s = read_signature(&sig).unwrap();
    assert_eq!(s.container_new.files.len(), 3);
    assert_eq!(verify_files(&vec![b"abc".to_vec(), vec![], big], &mut s), Ok(()));
    assert!(s.block_hash_iter.next().is_none());
}

#[test]
fn signature_detects_damage() {
    let sig = signature_file(&[("a", 3)], &[md5(b"abc")]);
    let mut s = read_signature(&sig).unwrap();
    assert_eq!(verify_files(&vec![b"abd".to_vec()], &mut s), Err(WharfError::HashMismatch));
    let mut s = read_signature(&sig).unwrap();
    assert_eq!(verify_files(&vec![b"abcd".to_vec()], &mut s), Err(WharfError::SizeMismatch));
    let sig = signature_file(&[("a", 3)], &[]);
    let mut s = read_signature(&sig).unwrap();
    assert_eq!(verify_file(&b"abc".to_vec(), 3, &mut s.block_hash_iter), Err(WharfError::MissingBlockHash));
}

#[test]
fn signature_rejects_a_patch() {
    let file = patch_file(0, &sample_body());
    assert!(matches!(read_signature(&file), Err(WharfError::BadMagic)));
}

#[test]
fn error_messages() {
    assert_eq!(WharfError::BadMagic.message(), "The magic bytes don't match! The binary file is corrupted!");
    assert_eq!(
        WharfError::Stream(StreamError::InvalidVarint).message(),
        "Couldn't decode Protobuf message!\ninvalid varint"
    );
    assert_eq!(
        WharfError::MissingBlockHash.message(),
        "Expected a block hash message in the signature, but EOF was encountered!"
    );
    assert_eq!(StreamError::RecursionLimit.message(), "recursion limit reached");
}
