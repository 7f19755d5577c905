//! What patch and signature files share: the magic number at their start,
//! the compression of their body, and the errors met while reading them.
use vstd::prelude::*;
use vstd::string::StringExecFns;
use crate::wharf::protobuf::{
    le_u32, read_delimited, spec_read_delimited, stream_error_message, ByteReader, StreamError,
};
use crate::wharf::pwr::CompressionAlgorithm;

verus! {

/// The first four bytes of a patch file, read as a little-endian number.
pub const PATCH_MAGIC: u32 = 0x0FEF_5F00;

/// The first four bytes of a signature file, read as a little-endian number.
pub const SIGNATURE_MAGIC: u32 = 0x0FEF_5F01;

/// The size of the blocks that signatures hash and rsync operations copy.
pub const BLOCK_SIZE: usize = 65536;

/// Errors while reading, checking or applying wharf files.
#[derive(Debug, Clone, PartialEq, Eq)]
pub enum WharfError {
    /// The bytes of a message couldn't be read or decoded.
    Stream(StreamError),
    /// The file doesn't start with the expected magic number.
    BadMagic,
    /// The file header has no compression settings.
    MissingCompression,
    /// The compressed body couldn't be decompressed.
    Decompression,
    /// An operation names a file of the new build that doesn't exist.
    InvalidNewFileIndex,
    /// An operation names a file of the old build that doesn't exist.
    InvalidOldFileIndex,
    /// A file of the old build that an operation reads couldn't be opened.
    OldFileUnavailable,
    /// A bsdiff file's steps weren't followed by the end-of-file marker.
    ExpectedHeyYouDidIt,
    /// A bsdiff step moved before the start of the old file, or past the
    /// largest offset a file can have.
    InvalidSeek,
    /// A bsdiff step reads past the end of the old file.
    OldFileTooShort,
    /// A file's size on disk doesn't match the signature.
    SizeMismatch,
    /// The signature ended before every block was checked.
    MissingBlockHash,
    /// A block's hash doesn't match the signature.
    HashMismatch,
}

/// The text that describes a wharf error.
pub open spec fn wharf_error_message(e: WharfError) -> Seq<char> {
    match e {
        WharfError::Stream(s) => "Couldn't decode Protobuf message!\n"@ + stream_error_message(s),
        WharfError::BadMagic => "The magic bytes don't match! The binary file is corrupted!"@,
        WharfError::MissingCompression => "Missing compressing field in the header!"@,
        WharfError::Decompression => "Couldn't decompress the stream!"@,
        WharfError::InvalidNewFileIndex => "Invalid new file index in patch file!"@,
        WharfError::InvalidOldFileIndex => "Invalid old file index in patch file!"@,
        WharfError::OldFileUnavailable => "Couldn't open old file for reading!"@,
        WharfError::ExpectedHeyYouDidIt => "Expected a Rsync HeyYouDidIt sync operation, but did not found it!"@,
        WharfError::InvalidSeek => "Couldn't seek into old file at relative pos!"@,
        WharfError::OldFileTooShort => "Couldn't read data from old file into buffer!"@,
        WharfError::SizeMismatch => "The signature and the in-disk size of a file don't match!"@,
        WharfError::MissingBlockHash => "Expected a block hash message in the signature, but EOF was encountered!"@,
        WharfError::HashMismatch => "Hash mismatch!"@,
    }
}

impl WharfError {
    /// The text that describes the error.
    pub fn message(&self) -> (r: String)
        ensures
            r@ == wharf_error_message(*self),
    {
        let text = match self {
            WharfError::Stream(s) => {
                return String::from_str("Couldn't decode Protobuf message!\n").concat(
                    s.message().as_str(),
                );
            },
            WharfError::BadMagic => "The magic bytes don't match! The binary file is corrupted!",
            WharfError::MissingCompression => "Missing compressing field in the header!",
            WharfError::Decompression => "Couldn't decompress the stream!",
            WharfError::InvalidNewFileIndex => "Invalid new file index in patch file!",
            WharfError::InvalidOldFileIndex => "Invalid old file index in patch file!",
            WharfError::OldFileUnavailable => "Couldn't open old file for reading!",
            WharfError::ExpectedHeyYouDidIt => "Expected a Rsync HeyYouDidIt sync operation, but did not found it!",
            WharfError::InvalidSeek => "Couldn't seek into old file at relative pos!",
            WharfError::OldFileTooShort => "Couldn't read data from old file into buffer!",
            WharfError::SizeMismatch => "The signature and the in-disk size of a file don't match!",
            WharfError::MissingBlockHash => "Expected a block hash message in the signature, but EOF was encountered!",
            WharfError::HashMismatch => "Hash mismatch!",
        };
        String::from_str(text)
    }
}

/// What reading a four-byte magic number from `s` gives.
pub open spec fn spec_check_magic(s: Seq<u8>, expected: u32) -> Result<(), WharfError> {
    if s.len() < 4 {
        Err(WharfError::Stream(StreamError::UnexpectedEof))
    } else if le_u32(s.take(4)) == expected {
        Ok(())
    } else {
        Err(WharfError::BadMagic)
    }
}

/// Reads four bytes and checks that, as a little-endian number, they are
/// `expected`.
pub fn check_magic_bytes(reader: &mut ByteReader, expected: u32) -> (r: Result<(), WharfError>)
    requires
        old(reader).wf(),
    ensures
        final(reader).wf(),
        r == spec_check_magic(old(reader).remaining(), expected),
        r is Ok ==> final(reader).remaining() == old(reader).remaining().skip(4),
{
    let bytes = match reader.read_exact(4) {
        Ok(b) => b,
        Err(e) => {
            return Err(WharfError::Stream(e));
        },
    };
    let actual: u32 = (bytes[0] as u32) + 256 * (bytes[1] as u32) + 65536 * (bytes[2] as u32)
        + 16777216 * (bytes[3] as u32);
    if actual == expected {
        Ok(())
    } else {
        Err(WharfError::BadMagic)
    }
}

/// What reading one length-delimited message from `s` gives, with `decode`
/// turning its bytes into a value: the value and the number of bytes taken.
pub open spec fn spec_read_message<T>(
    s: Seq<u8>,
    decode: spec_fn(Seq<u8>) -> Result<T, StreamError>,
) -> Result<(T, nat), WharfError> {
    match spec_read_delimited(s) {
        Err(e) => Err(WharfError::Stream(e)),
        Ok((m, n)) => match decode(m) {
            Err(e) => Err(WharfError::Stream(e)),
            Ok(v) => Ok((v, n)),
        },
    }
}

/// Reads the bytes of one length-delimited message.
pub fn read_message_bytes(reader: &mut ByteReader) -> (r: Result<Vec<u8>, WharfError>)
    requires
        old(reader).wf(),
    ensures
        final(reader).wf(),
        match spec_read_delimited(old(reader).remaining()) {
            Ok((m, n)) => r is Ok && r->Ok_0@ == m && final(reader).remaining() == old(
                reader,
            ).remaining().skip(n as int),
            Err(e) => r == Err::<Vec<u8>, WharfError>(WharfError::Stream(e)),
        },
{
    match read_delimited(reader) {
        Ok(b) => Ok(b),
        Err(e) => Err(WharfError::Stream(e)),
    }
}

/// What `brotli::Decompressor` yields when it reads `bytes` to the end.
pub uninterp spec fn spec_brotli_decompress(bytes: Seq<u8>) -> Option<Seq<u8>>;

/// What `flate2::bufread::GzDecoder` yields when it reads `bytes` to the end.
pub uninterp spec fn spec_gzip_decompress(bytes: Seq<u8>) -> Option<Seq<u8>>;

/// What `zstd::Decoder::with_buffer` yields when it reads `bytes` to the end.
pub uninterp spec fn spec_zstd_decompress(bytes: Seq<u8>) -> Option<Seq<u8>>;

/// Decompresses Brotli data with `brotli::Decompressor`, reading it to the
/// end. The contract claims only that the outcome depends on the bytes alone.
#[verifier::external_body]
fn brotli_decompress(bytes: &[u8]) -> (r: Option<Vec<u8>>)
    ensures
        r is Some <==> spec_brotli_decompress(bytes@) is Some,
        r matches Some(v) ==> spec_brotli_decompress(bytes@) == Some(v@),
{
    let mut out: Vec<u8> = Vec::new();
    let mut decoder = brotli::Decompressor::new(bytes, 0);
    match std::io::Read::read_to_end(&mut decoder, &mut out) {
        Ok(_) => Some(out),
        Err(_) => None,
    }
}

/// Decompresses gzip data with `flate2::bufread::GzDecoder`, reading it to
/// the end. The contract claims only that the outcome depends on the bytes
/// alone.
#[verifier::external_body]
fn gzip_decompress(bytes: &[u8]) -> (r: Option<Vec<u8>>)
    ensures
        r is Some <==> spec_gzip_decompress(bytes@) is Some,
        r matches Some(v) ==> spec_gzip_decompress(bytes@) == Some(v@),
{
    let mut out: Vec<u8> = Vec::new();
    let mut decoder = flate2::bufread::GzDecoder::new(bytes);
    match std::io::Read::read_to_end(&mut decoder, &mut out) {
        Ok(_) => Some(out),
        Err(_) => None,
    }
}

/// Decompresses zstd data with `zstd::Decoder::with_buffer`, reading it to
/// the end. The contract claims only that the outcome depends on the bytes
/// alone; a decoder that can't be created counts as a failure.
#[verifier::external_body]
fn zstd_decompress(bytes: &[u8]) -> (r: Option<Vec<u8>>)
    ensures
        r is Some <==> spec_zstd_decompress(bytes@) is Some,
        r matches Some(v) ==> spec_zstd_decompress(bytes@) == Some(v@),
{
    let mut out: Vec<u8> = Vec::new();
    let mut decoder = match zstd::Decoder::with_buffer(bytes) {
        Ok(d) => d,
        Err(_) => {
            return None;
        },
    };
    match std::io::Read::read_to_end(&mut decoder, &mut out) {
        Ok(_) => Some(out),
        Err(_) => None,
    }
}

/// The body of a file compressed with `algorithm`, once decompressed.
pub open spec fn spec_decompress(algorithm: CompressionAlgorithm, bytes: Seq<u8>) -> Option<Seq<u8>> {
    match algorithm {
        CompressionAlgorithm::Uncompressed => Some(bytes),
        CompressionAlgorithm::Brotli => spec_brotli_decompress(bytes),
        CompressionAlgorithm::Gzip => spec_gzip_decompress(bytes),
        CompressionAlgorithm::Zstd => spec_zstd_decompress(bytes),
    }
}

/// Decompresses the body of a patch or signature file.
pub fn decompress_stream(bytes: Vec<u8>, algorithm: CompressionAlgorithm) -> (r: Result<Vec<u8>, WharfError>)
    ensures
        match spec_decompress(algorithm, bytes@) {
            Some(d) => r is Ok && r->Ok_0@ == d,
            None => r == Err::<Vec<u8>, WharfError>(WharfError::Decompression),
        },
{
    let out = match algorithm {
        CompressionAlgorithm::Uncompressed => Some(bytes),
        CompressionAlgorithm::Brotli => brotli_decompress(bytes.as_slice()),
        CompressionAlgorithm::Gzip => gzip_decompress(bytes.as_slice()),
        CompressionAlgorithm::Zstd => zstd_decompress(bytes.as_slice()),
    };
    match out {
        Some(d) => Ok(d),
        None => Err(WharfError::Decompression),
    }
}

} // verus!
