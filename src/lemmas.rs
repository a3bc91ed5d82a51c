//! Facts about reading a trailer that relate several of its steps.
use vstd::prelude::*;
use crate::error::ErrorClass;
use crate::trailer::{
    CellComparator, CompressionCodec, FileTrailerProto, HFileTrailer, PayloadFrame, located,
    parsed, spec_decode_version, spec_trailer_size, supported_major, trailer_from_message,
    trailer_magic,
};
use crate::wire::{be_u32, varint_len, varint_len_from, varint_value, varint_value_from};

verus! {

/// Decoding the version that puts `major` in the low byte and `minor` in the top
/// byte gives back exactly `(major, minor)`.
pub proof fn lemma_decode_version_inverts(major: u8, minor: u8)
    ensures
        spec_decode_version(major + minor * 0x1000000) == (major, minor),
{
    let e: int = major + minor * 0x1000000;
    assert(e % 0x100 == major as int) by (nonlinear_arith)
        requires e == major + minor * 0x1000000, 0 <= major < 0x100, 0 <= minor < 0x100;
    assert(e / 0x1000000 == minor as int) by (nonlinear_arith)
        requires e == major + minor * 0x1000000, 0 <= major < 0x100, 0 <= minor < 0x100;
}

/// Where the trailer's magic marker does not match, parsing fails with an invalid
/// trailer, whatever the message decoder would have made of the bytes.
pub proof fn lemma_bad_magic_rejected(
    b: Seq<u8>,
    decode: spec_fn(Seq<u8>) -> Option<FileTrailerProto>,
)
    requires
        b.len() >= 4,
        supported_major(spec_decode_version(be_u32(b.subrange(b.len() - 4, b.len() as int))).0),
        b.len() >= spec_trailer_size(
            spec_decode_version(be_u32(b.subrange(b.len() - 4, b.len() as int))).0,
        ),
        ({
            let start = b.len() - spec_trailer_size(
                spec_decode_version(be_u32(b.subrange(b.len() - 4, b.len() as int))).0,
            );
            b.subrange(start, start + 8) != trailer_magic()
        }),
    ensures
        located(b) == Err::<PayloadFrame, ErrorClass>(ErrorClass::InvalidTrailer),
        parsed(b, decode) == Err::<HFileTrailer, ErrorClass>(ErrorClass::InvalidTrailer),
{
}

/// A message that holds an encryption key, of any length, makes the file
/// unsupported, whatever else the message holds.
pub proof fn lemma_encryption_unsupported(major: u8, minor: u8, p: FileTrailerProto)
    requires
        p.encryption_key is Some,
    ensures
        trailer_from_message(major, minor, p) == Err::<HFileTrailer, ErrorClass>(
            ErrorClass::UnsupportedFile,
        ),
{
}

/// Parsing is a function of the bytes: two parses of the same bytes that succeed
/// give trailers with the same fields.
pub proof fn lemma_parse_idempotent(
    b: Seq<u8>,
    decode: spec_fn(Seq<u8>) -> Option<FileTrailerProto>,
    t1: HFileTrailer,
    t2: HFileTrailer,
)
    requires
        parsed(b, decode) == Ok::<HFileTrailer, ErrorClass>(t1),
        parsed(b, decode) == Ok::<HFileTrailer, ErrorClass>(t2),
    ensures
        t1 == t2,
{
}

/// The length prefix of the trailer message read from the bytes `region`
/// between the magic marker and the encoded version, when it runs past them.
pub open spec fn prefix_overruns(region: Seq<u8>) -> bool {
    match varint_len(region) {
        Some(n) => varint_value(region, n as int) > region.len() - n,
        None => false,
    }
}

/// A message length that runs past the end of the trailer makes parsing fail as
/// a decode failure, whatever the message decoder would have made of the bytes.
pub proof fn lemma_truncated_payload_rejected(
    b: Seq<u8>,
    decode: spec_fn(Seq<u8>) -> Option<FileTrailerProto>,
)
    requires
        b.len() >= 4,
        ({
            let v = spec_decode_version(be_u32(b.subrange(b.len() - 4, b.len() as int)));
            let start = b.len() - spec_trailer_size(v.0);
            &&& supported_major(v.0)
            &&& crate::trailer::spec_uses_structured_payload(v.0, v.1)
            &&& b.len() >= spec_trailer_size(v.0)
            &&& b.subrange(start, start + 8) == trailer_magic()
            &&& prefix_overruns(b.subrange(start + 8, b.len() - 4))
        }),
    ensures
        located(b) == Err::<PayloadFrame, ErrorClass>(ErrorClass::ProtoDecode),
        parsed(b, decode) == Err::<HFileTrailer, ErrorClass>(ErrorClass::ProtoDecode),
{
}

/// The message that holds only a file-info offset.
pub open spec fn file_info_only(offset: u64) -> FileTrailerProto {
    FileTrailerProto {
        file_info_offset: Some(offset),
        load_on_open_data_offset: None,
        uncompressed_data_index_size: None,
        total_uncompressed_bytes: None,
        data_index_count: None,
        meta_index_count: None,
        entry_count: None,
        num_data_index_levels: None,
        first_data_block_offset: None,
        last_data_block_offset: None,
        comparator_class_name: None,
        compression_codec: None,
        encryption_key: None,
    }
}

/// A version 2.2 trailer: the magic marker, a one-byte length, the message, any
/// filler, and the encoded version `0x02000002`, 212 bytes in all, after any bytes
/// at all. Parsing it gives version 2.2 and the message's file-info offset, with
/// every other count and offset zero and the default comparator and codec.
pub proof fn lemma_round_trip(
    pad: Seq<u8>,
    payload: Seq<u8>,
    filler: Seq<u8>,
    decode: spec_fn(Seq<u8>) -> Option<FileTrailerProto>,
)
    requires
        pad.len() + 212 <= usize::MAX,
        payload.len() < 0x80,
        8 + 1 + payload.len() + filler.len() + 4 == 212,
        decode(payload) == Some(file_info_only(12345)),
    ensures
        ({
            let w = pad + trailer_magic() + seq![payload.len() as u8] + payload + filler + seq![
                2u8,
                0u8,
                0u8,
                2u8,
            ];
            parsed(w, decode) == Ok::<HFileTrailer, ErrorClass>(
                HFileTrailer {
                    major_version: 2,
                    minor_version: 2,
                    num_data_index_levels: 0,
                    last_data_block_offset: 0,
                    first_data_block_offset: 0,
                    load_on_open_data_offset: 0,
                    uncompressed_data_index_size: 0,
                    total_uncompressed_bytes: 0,
                    entry_count: 0,
                    data_index_count: 0,
                    meta_index_count: 0,
                    file_info_offset: 12345,
                    cell_comparator: CellComparator::KvComparator,
                    compression_codec: CompressionCodec::Uncompressed,
                },
            )
        }),
{
    let l: int = payload.len() as int;
    let w = pad + trailer_magic() + seq![l as u8] + payload + filler + seq![2u8, 0u8, 0u8, 2u8];
    let n: int = pad.len() as int;
    assert(w.len() == n + 212);
    assert(w.subrange(w.len() - 4, w.len() as int) =~= seq![2u8, 0u8, 0u8, 2u8]);
    assert(be_u32(seq![2u8, 0u8, 0u8, 2u8]) == 0x02000002);
    assert(spec_decode_version(0x02000002) == (2u8, 2u8));
    assert(w.subrange(n, n + 8) =~= trailer_magic());
    let region = w.subrange(n + 8, w.len() - 4);
    assert(region =~= seq![l as u8] + payload + filler);
    assert(region[0] == l as u8);
    assert(varint_len_from(region, 0) == Some(1nat));
    assert(varint_value_from(region, 1, 1) == 0);
    assert(varint_value(region, 1) == l);
    assert(w.subrange(n + 9, n + 9 + l) =~= payload);
    let f = PayloadFrame {
        major_version: 2,
        minor_version: 2,
        start: (n + 9) as usize,
        len: l as usize,
    };
    assert(located(w) == Ok::<PayloadFrame, ErrorClass>(f));
    assert(w.subrange(f.start as int, f.start + f.len) == payload);
}

} // verus!
