use febase_storage::error::{Error, ErrorClass};
use febase_storage::trailer::{
    cell_comparator_of, compression_codec_of, max_trailer_size, trailer_size_for_version,
    trailer_window, uses_structured_payload, CellComparator, CompressionCodec, FileTrailerProto,
    HFileTrailer, PayloadFrame, MAX_TRAILER_SIZE,
};
use febase_storage::wire::{bytes_eq, read_varint};

const MAGIC: &[u8] = b"TRABLK\"$";

/// The encoding of a message that holds only `file_info_offset = 12345`.
const FILE_INFO_ONLY: &[u8] = &[0x08, 0xB9, 0x60];

/// Builds `pad` bytes of padding, then a trailer of `size` bytes: magic, a one-byte
/// length, the payload, zero filler, and the encoded version.
fn window(pad: usize, size: usize, payload: &[u8], version: u32) -> Vec<u8> {
    let mut w = vec![0xAAu8; pad];
    w.extend_from_slice(MAGIC);
    w.push(payload.len() as u8);
    w.extend_from_slice(payload);
    while w.len() < pad + size - 4 {
        w.push(0);
    }
    w.extend_from_slice(&version.to_be_bytes());
    w
}

fn class_of(r: Result<PayloadFrame, Error>) -> ErrorClass {
    match r {
        Ok(f) => panic!("expected an error, got {:?}", f),
        Err(e) => e.kind().class(),
    }
}

fn file_info_only() -> FileTrailerProto {
    FileTrailerProto { file_info_offset: Some(12345), ..Default::default() }
}

#[test]
fn decode_version_examples() {
    assert_eq!(HFileTrailer::decode_version(0x00000003), (3, 0));
    assert_eq!(HFileTrailer::decode_version(0x02000002), (2, 2));
    assert_eq!(HFileTrailer::decode_version(0x05123402), (2, 5));
    for major in 0..=255u32 {
        for minor in [0u32, 1, 2, 200, 255] {
            assert_eq!(
                HFileTrailer::decode_version(major | (minor << 24)),
                (major as u8, minor as u8)
            );
        }
    }
}

#[test]
fn check_version_accepts_only_two_and_three() {
    assert!(HFileTrailer::check_version(2).is_ok());
    assert!(HFileTrailer::check_version(3).is_ok());
    for v in [0u8, 1, 4, 7, 255] {
        let e = HFileTrailer::check_version(v).unwrap_err();
        assert_eq!(e.kind().class(), ErrorClass::InvalidMajorVersion(v));
    }
}

#[test]
fn trailer_sizes() {
    assert_eq!(trailer_size_for_version(2), 212);
    assert_eq!(trailer_size_for_version(3), 4096);
    assert_eq!(max_trailer_size(), 4096);
    assert_eq!(MAX_TRAILER_SIZE, 4096);
}

#[test]
fn structured_payload_cut_over() {
    assert!(!uses_structured_payload(2, 1));
    assert!(!uses_structured_payload(2, 0));
    assert!(uses_structured_payload(2, 2));
    assert!(uses_structured_payload(3, 0));
    assert!(uses_structured_payload(3, 255));
}

#[test]
fn window_of_short_and_long_files() {
    assert_eq!(trailer_window(100), (0, 100));
    assert_eq!(trailer_window(0), (0, 0));
    assert_eq!(trailer_window(4095), (0, 4095));
    assert_eq!(trailer_window(4096), (0, 4096));
    assert_eq!(trailer_window(10000), (5904, 4096));
}

#[test]
fn locate_version_two_trailer() {
    let w = window(0, 212, FILE_INFO_ONLY, 0x02000002);
    assert_eq!(w.len(), 212);
    let f = HFileTrailer::locate_payload(&w).unwrap();
    assert_eq!(f, PayloadFrame { major_version: 2, minor_version: 2, start: 9, len: 3 });
    assert_eq!(&w[f.start..f.start + f.len], FILE_INFO_ONLY);
}

#[test]
fn locate_after_padding_and_version_three() {
    let w = window(300, 212, FILE_INFO_ONLY, 0x02000002);
    let f = HFileTrailer::locate_payload(&w).unwrap();
    assert_eq!(f.start, 309);
    let w = window(0, 4096, FILE_INFO_ONLY, 0x00000003);
    let f = HFileTrailer::locate_payload(&w).unwrap();
    assert_eq!(f, PayloadFrame { major_version: 3, minor_version: 0, start: 9, len: 3 });
}

#[test]
fn bad_magic_is_invalid_trailer() {
    let mut w = window(0, 212, FILE_INFO_ONLY, 0x02000002);
    w[3] = b'x';
    assert_eq!(class_of(HFileTrailer::locate_payload(&w)), ErrorClass::InvalidTrailer);
}

#[test]
fn short_buffers() {
    assert_eq!(class_of(HFileTrailer::locate_payload(&[])), ErrorClass::Io);
    assert_eq!(class_of(HFileTrailer::locate_payload(&[0, 0, 2])), ErrorClass::Io);
    let w = window(0, 100, &[], 0x02000002);
    assert_eq!(class_of(HFileTrailer::locate_payload(&w)), ErrorClass::InvalidTrailer);
    let w = window(0, 212, &[], 0x00000003);
    assert_eq!(class_of(HFileTrailer::locate_payload(&w)), ErrorClass::InvalidTrailer);
}

#[test]
fn unsupported_major_version() {
    let w = window(0, 212, FILE_INFO_ONLY, 0x00000007);
    assert_eq!(class_of(HFileTrailer::locate_payload(&w)), ErrorClass::InvalidMajorVersion(7));
    let w = window(0, 212, FILE_INFO_ONLY, 0x01000001);
    assert_eq!(class_of(HFileTrailer::locate_payload(&w)), ErrorClass::InvalidMajorVersion(1));
}

#[test]
fn legacy_layout_is_unsupported() {
    let w = window(0, 212, FILE_INFO_ONLY, 0x01000002);
    assert_eq!(class_of(HFileTrailer::locate_payload(&w)), ErrorClass::UnsupportedFile);
    assert_eq!(
        HFileTrailer::from_proto(2, 1, file_info_only()).unwrap_err().kind().class(),
        ErrorClass::UnsupportedFile
    );
}

#[test]
fn truncated_payload_is_decode_error() {
    let mut w = window(0, 212, FILE_INFO_ONLY, 0x02000002);
    // A two-byte length of 199, where 198 bytes remain before the version.
    w[8] = 0xC7;
    w[9] = 0x01;
    assert_eq!(class_of(HFileTrailer::locate_payload(&w)), ErrorClass::ProtoDecode);
    // A one-byte length of 127, with a payload of 3 bytes: it runs into the filler.
    w[8] = 0x7F;
    let f = HFileTrailer::locate_payload(&w).unwrap();
    assert_eq!((f.start, f.len), (9, 127));
    // A length of 198 fills the trailer exactly.
    w[8] = 0xC6;
    w[9] = 0x01;
    let f = HFileTrailer::locate_payload(&w).unwrap();
    assert_eq!((f.start, f.len), (10, 198));
    assert_eq!(f.start + f.len, w.len() - 4);
}

#[test]
fn malformed_length_prefix_is_decode_error() {
    let mut w = window(0, 212, &[], 0x02000002);
    for i in 8..20 {
        w[i] = 0xFF;
    }
    assert_eq!(class_of(HFileTrailer::locate_payload(&w)), ErrorClass::ProtoDecode);
}

#[test]
fn round_trip_file_info_offset() {
    let w = window(0, 212, FILE_INFO_ONLY, 0x02000002);
    let f = HFileTrailer::locate_payload(&w).unwrap();
    let t = HFileTrailer::from_proto(f.major_version, f.minor_version, file_info_only()).unwrap();
    assert_eq!(t.major_version, 2);
    assert_eq!(t.minor_version, 2);
    assert_eq!(t.file_info_offset, 12345);
    assert_eq!(t.num_data_index_levels, 0);
    assert_eq!(t.last_data_block_offset, 0);
    assert_eq!(t.first_data_block_offset, 0);
    assert_eq!(t.load_on_open_data_offset, 0);
    assert_eq!(t.uncompressed_data_index_size, 0);
    assert_eq!(t.total_uncompressed_bytes, 0);
    assert_eq!(t.entry_count, 0);
    assert_eq!(t.data_index_count, 0);
    assert_eq!(t.meta_index_count, 0);
    assert_eq!(t.cell_comparator, CellComparator::KvComparator);
    assert_eq!(t.compression_codec, CompressionCodec::Uncompressed);
    assert!(t.use_protobuf());
}

#[test]
fn parsing_twice_gives_the_same_trailer() {
    let w = window(17, 212, FILE_INFO_ONLY, 0x02000002);
    let f1 = HFileTrailer::locate_payload(&w).unwrap();
    let f2 = HFileTrailer::locate_payload(&w).unwrap();
    assert_eq!(f1, f2);
    let t1 = HFileTrailer::from_proto(2, 2, file_info_only()).unwrap();
    let t2 = HFileTrailer::from_proto(2, 2, file_info_only()).unwrap();
    assert_eq!(t1, t2);
}

#[test]
fn every_field_is_copied() {
    let p = FileTrailerProto {
        file_info_offset: Some(1),
        load_on_open_data_offset: Some(2),
        uncompressed_data_index_size: Some(3),
        total_uncompressed_bytes: Some(4),
        data_index_count: Some(5),
        meta_index_count: Some(6),
        entry_count: Some(7),
        num_data_index_levels: Some(8),
        first_data_block_offset: Some(9),
        last_data_block_offset: Some(10),
        comparator_class_name: Some("org.apache.hadoop.hbase.KeyValue$MetaComparator".to_string()),
        compression_codec: Some(6),
        encryption_key: None,
    };
    let t = HFileTrailer::from_proto(3, 0, p).unwrap();
    assert_eq!(
        (t.file_info_offset, t.load_on_open_data_offset, t.uncompressed_data_index_size),
        (1, 2, 3)
    );
    assert_eq!((t.total_uncompressed_bytes, t.data_index_count, t.meta_index_count), (4, 5, 6));
    assert_eq!(
        (t.entry_count, t.num_data_index_levels, t.first_data_block_offset, t.last_data_block_offset),
        (7, 8, 9, 10)
    );
    assert_eq!(t.cell_comparator, CellComparator::MetaComparator);
    assert_eq!(t.compression_codec, CompressionCodec::Zstd);
}

#[test]
fn encryption_key_makes_file_unsupported() {
    let mut p = file_info_only();
    p.encryption_key = Some(Vec::new());
    let e = HFileTrailer::from_proto(2, 2, p).unwrap_err();
    assert_eq!(e.kind().class(), ErrorClass::UnsupportedFile);
    let p = FileTrailerProto { encryption_key: Some(vec![1, 2, 3]), ..Default::default() };
    let e = HFileTrailer::from_proto(3, 1, p).unwrap_err();
    assert_eq!(e.kind().class(), ErrorClass::UnsupportedFile);
}

#[test]
fn comparator_names() {
    assert_eq!(cell_comparator_of(None), CellComparator::KvComparator);
    for name in [
        "org.apache.hadoop.hbase.KeyValue$KVComparator",
        "org.apache.hadoop.hbase.CellComparator",
        "org.apache.hadoop.hbase.CellComparatorImpl",
    ] {
        assert_eq!(cell_comparator_of(Some(name.to_string())), CellComparator::KvComparator);
    }
    assert_eq!(
        cell_comparator_of(Some("org.apache.hadoop.hbase.CellComparatorImpl$MetaCellComparator".to_string())),
        CellComparator::MetaComparator
    );
    assert_eq!(
        cell_comparator_of(Some("com.example.Other".to_string())),
        CellComparator::Unknown("com.example.Other".to_string())
    );
    assert_eq!(cell_comparator_of(Some(String::new())), CellComparator::Unknown(String::new()));
}

#[test]
fn codec_numbers() {
    let expected = [
        CompressionCodec::Lzo,
        CompressionCodec::Gz,
        CompressionCodec::Uncompressed,
        CompressionCodec::Snappy,
        CompressionCodec::Lz4,
        CompressionCodec::Bzip2,
        CompressionCodec::Zstd,
    ];
    for (i, c) in expected.iter().enumerate() {
        assert_eq!(compression_codec_of(Some(i as u32)), *c);
    }
    assert_eq!(compression_codec_of(None), CompressionCodec::Uncompressed);
    assert_eq!(compression_codec_of(Some(9)), CompressionCodec::Unknown(9));
    assert_eq!(CompressionCodec::default(), CompressionCodec::Uncompressed);
    assert_eq!(CellComparator::default(), CellComparator::KvComparator);
}

#[test]
fn varint_reader() {
    assert_eq!(read_varint(&[0xB9, 0x60, 0x01]).unwrap(), (12345, 2));
    assert_eq!(read_varint(&[0x05]).unwrap(), (5, 1));
    assert!(read_varint(&[]).is_err());
    assert!(read_varint(&[0x80, 0x80]).is_err());
    let ten = [0xFF, 0xFF, 0xFF, 0xFF, 0xFF, 0xFF, 0xFF, 0xFF, 0xFF, 0x01];
    assert_eq!(read_varint(&ten).unwrap(), (u64::MAX, 10));
    let over = [0xFF, 0xFF, 0xFF, 0xFF, 0xFF, 0xFF, 0xFF, 0xFF, 0xFF, 0x02];
    assert!(read_varint(&over).is_err());
}

#[test]
fn byte_equality() {
    assert!(bytes_eq(b"abc", b"abc"));
    assert!(!bytes_eq(b"abc", b"abd"));
    assert!(!bytes_eq(b"abc", b"ab"));
    assert!(bytes_eq(b"", b""));
}

#[test]
fn error_kinds() {
    let e = Error::any("disk on fire".to_string());
    assert_eq!(e.kind().class(), ErrorClass::Storage);
    let e = Error::from(std::io::Error::from(std::io::ErrorKind::NotFound));
    assert_eq!(e.kind().class(), ErrorClass::Io);
}
