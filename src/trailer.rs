//! The HFile trailer: where it sits at the end of the file, how its version is
//! read, and how its fields are taken from the decoded trailer message.
use vstd::prelude::*;
use vstd::slice::slice_subrange;
use vstd::string::*;
use vstd::utf8::encode_utf8;
use crate::error::{Error, ErrorClass, ErrorKind};
use crate::wire::{bytes_eq, be_u32, read_be_u32, read_varint, underflow_error, unexpected_eof, varint_len, varint_value};

verus! {

pub const MIN_FORMAT_VERSION: u8 = 2;
pub const MAX_FORMAT_VERSION: u8 = 3;
pub const MAX_TRAILER_SIZE: usize = 4096;
pub const PROTOBUF_TRAILER_MINOR_VERSION: u8 = 2;
pub const TRAILER_MAGIC_LEN: usize = 8;

/// The marker that opens every trailer: the bytes of `TRABLK"$`.
pub open spec fn trailer_magic() -> Seq<u8> {
    seq![0x54u8, 0x52u8, 0x41u8, 0x42u8, 0x4cu8, 0x4bu8, 0x22u8, 0x24u8]
}

/// Size in bytes of the trailer of a file with this major version.
pub open spec fn spec_trailer_size(version: u8) -> int {
    if version == 2 {
        212
    } else {
        4096
    }
}

/// The (major, minor) version pair held in an encoded version integer:
/// the major version in the low byte, the minor version in the top byte.
pub open spec fn spec_decode_version(encoded: int) -> (u8, u8) {
    ((encoded % 0x100) as u8, (encoded / 0x1000000) as u8)
}

pub open spec fn supported_major(major: u8) -> bool {
    MIN_FORMAT_VERSION <= major <= MAX_FORMAT_VERSION
}

/// Whether a trailer of this version holds a length-prefixed message
/// rather than the older fixed layout.
pub open spec fn spec_uses_structured_payload(major: u8, minor: u8) -> bool {
    major > 2 || (major == 2 && minor >= PROTOBUF_TRAILER_MINOR_VERSION)
}

/// Where the trailer's message lies in the buffer read from the end of a file.
#[derive(PartialEq, Eq, Structural, Debug, Clone, Copy)]
pub struct PayloadFrame {
    pub major_version: u8,
    pub minor_version: u8,
    /// Index in the buffer of the message's first byte.
    pub start: usize,
    /// Length of the message in bytes.
    pub len: usize,
}

/// What reading the trailer out of the buffer `b` gives: the place of the message,
/// or the kind of failure, checked in this order: the encoded version, the major
/// version, the room for the trailer, the magic marker, the layout, the length prefix.
pub open spec fn located(b: Seq<u8>) -> Result<PayloadFrame, ErrorClass> {
    if b.len() < 4 {
        Err(ErrorClass::Io)
    } else {
        let version = spec_decode_version(be_u32(b.subrange(b.len() - 4, b.len() as int)));
        let major = version.0;
        let minor = version.1;
        if !supported_major(major) {
            Err(ErrorClass::InvalidMajorVersion(major))
        } else if b.len() < spec_trailer_size(major) {
            Err(ErrorClass::InvalidTrailer)
        } else {
            let start = b.len() - spec_trailer_size(major);
            if b.subrange(start, start + 8) != trailer_magic() {
                Err(ErrorClass::InvalidTrailer)
            } else if !spec_uses_structured_payload(major, minor) {
                Err(ErrorClass::UnsupportedFile)
            } else {
                let region = b.subrange(start + 8, b.len() - 4);
                match varint_len(region) {
                    None => Err(ErrorClass::ProtoDecode),
                    Some(n) => {
                        let l = varint_value(region, n as int);
                        if l > region.len() - n {
                            Err(ErrorClass::ProtoDecode)
                        } else {
                            Ok(
                                PayloadFrame {
                                    major_version: major,
                                    minor_version: minor,
                                    start: (start + 8 + n) as usize,
                                    len: l as usize,
                                },
                            )
                        }
                    },
                }
            }
        }
    }
}

/// What parsing the buffer `b` gives, where `decode` is what decoding the bytes of
/// a trailer message gives (`None` for bytes that are no such message): the trailer,
/// or the kind of failure.
pub open spec fn parsed(
    b: Seq<u8>,
    decode: spec_fn(Seq<u8>) -> Option<FileTrailerProto>,
) -> Result<HFileTrailer, ErrorClass> {
    match located(b) {
        Err(c) => Err(c),
        Ok(f) => match decode(b.subrange(f.start as int, f.start + f.len)) {
            None => Err(ErrorClass::ProtoDecode),
            Some(p) => trailer_from_message(f.major_version, f.minor_version, p),
        },
    }
}

/// Size in bytes of the trailer of a file with this major version.
pub fn trailer_size_for_version(version: u8) -> (r: usize)
    ensures
        r == spec_trailer_size(version),
{
    if version == 2 {
        212
    } else {
        4096
    }
}

/// The largest trailer of any supported version.
pub fn max_trailer_size() -> (r: usize)
    ensures
        r == spec_trailer_size(MAX_FORMAT_VERSION),
        r == MAX_TRAILER_SIZE,
{
    trailer_size_for_version(MAX_FORMAT_VERSION)
}

/// The part of a file of `length` bytes that is read to find the trailer, as
/// (offset, size): its last `MAX_TRAILER_SIZE` bytes, or all of it when shorter.
pub fn trailer_window(length: u64) -> (r: (u64, u64))
    ensures
        length < MAX_TRAILER_SIZE ==> r == (0u64, length),
        length >= MAX_TRAILER_SIZE ==> r == ((length - MAX_TRAILER_SIZE) as u64, MAX_TRAILER_SIZE as u64),
        r.0 + r.1 == length,
{
    let size = MAX_TRAILER_SIZE as u64;
    if size > length {
        (0, length)
    } else {
        (length - size, size)
    }
}

/// Whether a trailer of this version holds a length-prefixed message.
pub fn uses_structured_payload(major: u8, minor: u8) -> (r: bool)
    ensures
        r == spec_uses_structured_payload(major, minor),
{
    major > 2 || (major == 2 && minor >= PROTOBUF_TRAILER_MINOR_VERSION)
}

/// Whether the `TRAILER_MAGIC_LEN` bytes of `b` from `at` on are the trailer magic.
fn magic_at(b: &[u8], at: usize) -> (r: bool)
    requires
        at + 8 <= b@.len(),
    ensures
        r == (b@.subrange(at as int, at + 8) == trailer_magic()),
{
    let r = b[at] == 0x54 && b[at + 1] == 0x52 && b[at + 2] == 0x41 && b[at + 3] == 0x42
        && b[at + 4] == 0x4c && b[at + 5] == 0x4b && b[at + 6] == 0x22 && b[at + 7] == 0x24;
    if r {
        assert(b@.subrange(at as int, at + 8) =~= trailer_magic());
    } else {
        assert(b@.subrange(at as int, at + 8) != trailer_magic()) by {
            let s = b@.subrange(at as int, at + 8);
            if s == trailer_magic() {
                assert(s[0] == b@[at as int] && s[1] == b@[at + 1] && s[2] == b@[at + 2]
                    && s[3] == b@[at + 3] && s[4] == b@[at + 4] && s[5] == b@[at + 5]
                    && s[6] == b@[at + 6] && s[7] == b@[at + 7]);
            }
        }
    }
    r
}

#[derive(Debug, Clone, PartialEq, Eq)]
pub enum CellComparator {
    KvComparator,
    MetaComparator,
    /// A comparator class name with no known mapping, kept as it was read.
    Unknown(String),
}

impl Default for CellComparator {
    fn default() -> (r: CellComparator)
        ensures
            r == CellComparator::KvComparator,
    {
        CellComparator::KvComparator
    }
}

#[derive(Debug, Clone, Copy, PartialEq, Eq, Structural)]
pub enum CompressionCodec {
    Lzo,
    Gz,
    Uncompressed,
    Snappy,
    Lz4,
    Bzip2,
    Zstd,
    /// A codec number with no known mapping, kept as it was read.
    Unknown(u32),
}

impl Default for CompressionCodec {
    fn default() -> (r: CompressionCodec)
        ensures
            r == CompressionCodec::Uncompressed,
    {
        CompressionCodec::Uncompressed
    }
}

/// The trailer message as decoded from its bytes: every field is optional.
#[derive(Debug, Clone, Default, PartialEq, Eq)]
pub struct FileTrailerProto {
    pub file_info_offset: Option<u64>,
    pub load_on_open_data_offset: Option<u64>,
    pub uncompressed_data_index_size: Option<u64>,
    pub total_uncompressed_bytes: Option<u64>,
    pub data_index_count: Option<u32>,
    pub meta_index_count: Option<u32>,
    pub entry_count: Option<u64>,
    pub num_data_index_levels: Option<u32>,
    pub first_data_block_offset: Option<u64>,
    pub last_data_block_offset: Option<u64>,
    pub comparator_class_name: Option<String>,
    pub compression_codec: Option<u32>,
    pub encryption_key: Option<Vec<u8>>,
}

/// The decoded trailer of an HFile.
#[derive(Debug, Clone, PartialEq, Eq)]
pub struct HFileTrailer {
    pub major_version: u8,
    pub minor_version: u8,
    pub num_data_index_levels: u32,
    pub last_data_block_offset: u64,
    pub first_data_block_offset: u64,
    pub load_on_open_data_offset: u64,
    pub uncompressed_data_index_size: u64,
    pub total_uncompressed_bytes: u64,
    pub entry_count: u64,
    pub data_index_count: u32,
    pub meta_index_count: u32,
    pub file_info_offset: u64,
    pub cell_comparator: CellComparator,
    pub compression_codec: CompressionCodec,
}

pub open spec fn or_zero_u64(v: Option<u64>) -> u64 {
    match v {
        Some(x) => x,
        None => 0,
    }
}

pub open spec fn or_zero_u32(v: Option<u32>) -> u32 {
    match v {
        Some(x) => x,
        None => 0,
    }
}

/// Whether `name` is the class name of the default key comparator.
pub open spec fn names_kv_comparator(name: Seq<u8>) -> bool {
    name == "org.apache.hadoop.hbase.KeyValue$KVComparator".spec_bytes()
        || name == "org.apache.hadoop.hbase.CellComparator".spec_bytes()
        || name == "org.apache.hadoop.hbase.CellComparatorImpl".spec_bytes()
}

/// Whether `name` is the class name of the meta table's comparator.
pub open spec fn names_meta_comparator(name: Seq<u8>) -> bool {
    name == "org.apache.hadoop.hbase.KeyValue$MetaComparator".spec_bytes()
        || name == "org.apache.hadoop.hbase.CellComparatorImpl$MetaCellComparator".spec_bytes()
}

/// The comparator that a class name, if present, stands for.
pub open spec fn spec_cell_comparator(name: Option<String>) -> CellComparator {
    match name {
        None => CellComparator::KvComparator,
        Some(s) => if names_kv_comparator(encode_utf8(s@)) {
            CellComparator::KvComparator
        } else if names_meta_comparator(encode_utf8(s@)) {
            CellComparator::MetaComparator
        } else {
            CellComparator::Unknown(s)
        },
    }
}

/// The codec that a codec number, if present, stands for.
pub open spec fn spec_compression_codec(code: Option<u32>) -> CompressionCodec {
    match code {
        None => CompressionCodec::Uncompressed,
        Some(c) => if c == 0 {
            CompressionCodec::Lzo
        } else if c == 1 {
            CompressionCodec::Gz
        } else if c == 2 {
            CompressionCodec::Uncompressed
        } else if c == 3 {
            CompressionCodec::Snappy
        } else if c == 4 {
            CompressionCodec::Lz4
        } else if c == 5 {
            CompressionCodec::Bzip2
        } else if c == 6 {
            CompressionCodec::Zstd
        } else {
            CompressionCodec::Unknown(c)
        },
    }
}

/// The trailer that a decoded message gives for a file of this version: each field
/// that the message holds, and the default for each that it lacks. A message with an
/// encryption key, or a version of the older fixed layout, is not supported.
pub open spec fn trailer_from_message(major: u8, minor: u8, p: FileTrailerProto) -> Result<HFileTrailer, ErrorClass> {
    if !spec_uses_structured_payload(major, minor) || p.encryption_key is Some {
        Err(ErrorClass::UnsupportedFile)
    } else {
        Ok(
            HFileTrailer {
                major_version: major,
                minor_version: minor,
                num_data_index_levels: or_zero_u32(p.num_data_index_levels),
                last_data_block_offset: or_zero_u64(p.last_data_block_offset),
                first_data_block_offset: or_zero_u64(p.first_data_block_offset),
                load_on_open_data_offset: or_zero_u64(p.load_on_open_data_offset),
                uncompressed_data_index_size: or_zero_u64(p.uncompressed_data_index_size),
                total_uncompressed_bytes: or_zero_u64(p.total_uncompressed_bytes),
                entry_count: or_zero_u64(p.entry_count),
                data_index_count: or_zero_u32(p.data_index_count),
                meta_index_count: or_zero_u32(p.meta_index_count),
                file_info_offset: or_zero_u64(p.file_info_offset),
                cell_comparator: spec_cell_comparator(p.comparator_class_name),
                compression_codec: spec_compression_codec(p.compression_codec),
            },
        )
    }
}

fn value_or_zero_u64(v: Option<u64>) -> (r: u64)
    ensures
        r == or_zero_u64(v),
{
    match v {
        Some(x) => x,
        None => 0,
    }
}

fn value_or_zero_u32(v: Option<u32>) -> (r: u32)
    ensures
        r == or_zero_u32(v),
{
    match v {
        Some(x) => x,
        None => 0,
    }
}

/// The comparator that a class name, if present, stands for.
pub fn cell_comparator_of(name: Option<String>) -> (r: CellComparator)
    ensures
        r == spec_cell_comparator(name),
{
    match name {
        None => CellComparator::KvComparator,
        Some(s) => {
            let b = s.as_str().as_bytes();
            if bytes_eq(b, "org.apache.hadoop.hbase.KeyValue$KVComparator".as_bytes())
                || bytes_eq(b, "org.apache.hadoop.hbase.CellComparator".as_bytes())
                || bytes_eq(b, "org.apache.hadoop.hbase.CellComparatorImpl".as_bytes()) {
                CellComparator::KvComparator
            } else if bytes_eq(b, "org.apache.hadoop.hbase.KeyValue$MetaComparator".as_bytes())
                || bytes_eq(
                b,
                "org.apache.hadoop.hbase.CellComparatorImpl$MetaCellComparator".as_bytes(),
            ) {
                CellComparator::MetaComparator
            } else {
                CellComparator::Unknown(s)
            }
        },
    }
}

/// The codec that a codec number, if present, stands for.
pub fn compression_codec_of(code: Option<u32>) -> (r: CompressionCodec)
    ensures
        r == spec_compression_codec(code),
{
    match code {
        None => CompressionCodec::Uncompressed,
        Some(c) => if c == 0 {
            CompressionCodec::Lzo
        } else if c == 1 {
            CompressionCodec::Gz
        } else if c == 2 {
            CompressionCodec::Uncompressed
        } else if c == 3 {
            CompressionCodec::Snappy
        } else if c == 4 {
            CompressionCodec::Lz4
        } else if c == 5 {
            CompressionCodec::Bzip2
        } else if c == 6 {
            CompressionCodec::Zstd
        } else {
            CompressionCodec::Unknown(c)
        },
    }
}

impl HFileTrailer {
    /// Splits an encoded version into (major, minor): the low byte and the top byte.
    pub fn decode_version(encoded: u32) -> (r: (u8, u8))
        ensures
            r == spec_decode_version(encoded as int),
    {
        assert(((encoded & 0x00ffffff) as u8) == ((encoded % 256) as u8)) by (bit_vector);
        assert(((encoded >> 24) as u8) == ((encoded / 0x1000000) as u8)) by (bit_vector);
        ((encoded & 0x00ffffff) as u8, (encoded >> 24) as u8)
    }

    /// Accepts the supported major versions and refuses every other one.
    pub fn check_version(major_version: u8) -> (r: Result<(), Error>)
        ensures
            r is Ok <==> supported_major(major_version),
            r is Err ==> r->Err_0.spec_class() == ErrorClass::InvalidMajorVersion(major_version),
    {
        if major_version < MIN_FORMAT_VERSION || major_version > MAX_FORMAT_VERSION {
            Err(Error::new(ErrorKind::InvalidMajorVersion(major_version)))
        } else {
            Ok(())
        }
    }

    /// Whether this trailer's version stores its fields as a length-prefixed message.
    pub fn use_protobuf(&self) -> (r: bool)
        ensures
            r == spec_uses_structured_payload(self.major_version, self.minor_version),
    {
        uses_structured_payload(self.major_version, self.minor_version)
    }

    /// Finds the trailer in `buf`, the bytes read from the end of a file, and the
    /// trailer message inside it (see `located`).
    pub fn locate_payload(buf: &[u8]) -> (r: Result<PayloadFrame, Error>)
        ensures
            match r {
                Ok(f) => located(buf@) == Ok::<PayloadFrame, ErrorClass>(f),
                Err(e) => located(buf@) == Err::<PayloadFrame, ErrorClass>(e.spec_class()),
            },
            r is Ok ==> r->Ok_0.start + r->Ok_0.len <= buf@.len() - 4,
    {
        let len = buf.len();
        if len < 4 {
            return Err(Error::new(ErrorKind::IOError(unexpected_eof())));
        }
        let encoded = read_be_u32(slice_subrange(buf, len - 4, len));
        let (major_version, minor_version) = Self::decode_version(encoded);
        match Self::check_version(major_version) {
            Err(e) => {
                return Err(e);
            },
            Ok(()) => {},
        }
        let trailer_size = trailer_size_for_version(major_version);
        if len < trailer_size {
            return Err(
                Error::new(ErrorKind::InvalidTrailer("file is shorter than its trailer".to_owned())),
            );
        }
        let start = len - trailer_size;
        if !magic_at(buf, start) {
            return Err(
                Error::new(ErrorKind::InvalidTrailer("trailer magic does not match".to_owned())),
            );
        }
        if !uses_structured_payload(major_version, minor_version) {
            return Err(
                Error::new(
                    ErrorKind::UnsupportedFile(
                        "trailers of the fixed legacy layout are not supported".to_owned(),
                    ),
                ),
            );
        }
        let region = slice_subrange(buf, start + TRAILER_MAGIC_LEN, len - 4);
        match read_varint(region) {
            Err(e) => Err(Error::new(ErrorKind::ProtoDecodeError(e))),
            Ok((length, n)) => {
                if length > (region.len() - n) as u64 {
                    Err(Error::new(ErrorKind::ProtoDecodeError(underflow_error())))
                } else {
                    Ok(
                        PayloadFrame {
                            major_version,
                            minor_version,
                            start: start + TRAILER_MAGIC_LEN + n,
                            len: length as usize,
                        },
                    )
                }
            },
        }
    }

    /// Builds the trailer of a file of this version from its decoded message
    /// (see `trailer_from_message`).
    pub fn from_proto(major_version: u8, minor_version: u8, proto: FileTrailerProto) -> (r: Result<
        HFileTrailer,
        Error,
    >)
        ensures
            match r {
                Ok(t) => trailer_from_message(major_version, minor_version, proto) == Ok::<
                    HFileTrailer,
                    ErrorClass,
                >(t),
                Err(e) => trailer_from_message(major_version, minor_version, proto) == Err::<
                    HFileTrailer,
                    ErrorClass,
                >(e.spec_class()),
            },
    {
        if !uses_structured_payload(major_version, minor_version) {
            return Err(
                Error::new(
                    ErrorKind::UnsupportedFile(
                        "trailers of the fixed legacy layout are not supported".to_owned(),
                    ),
                ),
            );
        }
        let trailer = HFileTrailer {
            major_version,
            minor_version,
            num_data_index_levels: value_or_zero_u32(proto.num_data_index_levels),
            last_data_block_offset: value_or_zero_u64(proto.last_data_block_offset),
            first_data_block_offset: value_or_zero_u64(proto.first_data_block_offset),
            load_on_open_data_offset: value_or_zero_u64(proto.load_on_open_data_offset),
            uncompressed_data_index_size: value_or_zero_u64(proto.uncompressed_data_index_size),
            total_uncompressed_bytes: value_or_zero_u64(proto.total_uncompressed_bytes),
            entry_count: value_or_zero_u64(proto.entry_count),
            data_index_count: value_or_zero_u32(proto.data_index_count),
            meta_index_count: value_or_zero_u32(proto.meta_index_count),
            file_info_offset: value_or_zero_u64(proto.file_info_offset),
            cell_comparator: cell_comparator_of(proto.comparator_class_name),
            compression_codec: compression_codec_of(proto.compression_codec),
        };
        if proto.encryption_key.is_some() {
            return Err(
                Error::new(ErrorKind::UnsupportedFile("encryption is not supported".to_owned())),
            );
        }
        Ok(trailer)
    }
}

} // verus!
