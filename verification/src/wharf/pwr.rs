//! The messages of wharf's `pwr` Protobuf package: the headers of patch and
//! signature files and the operations of a patch.
use vstd::prelude::*;
use crate::wharf::protobuf::{
    all_delimited, all_varint, concat_fields, fields_view, last_delimited, last_varint,
    lemma_empty_message_has_no_fields, nested_fields, occurrences, parse_fields, RECURSION_LIMIT, spec_embedded_fields, spec_fields, bytes_field, varint_field,
    SpecWireField, StreamError, WireField,
};

verus! {

/// The compression applied to the body of a patch or signature file.
#[derive(Debug, Clone, Copy, PartialEq, Eq)]
pub enum CompressionAlgorithm {
    Uncompressed,
    Brotli,
    Gzip,
    Zstd,
}

impl CompressionAlgorithm {
    /// The algorithm an enum value stands for; values this package doesn't
    /// know read as the default, [`CompressionAlgorithm::Uncompressed`].
    pub open spec fn spec_from_value(v: i32) -> CompressionAlgorithm {
        if v == 1 {
            CompressionAlgorithm::Brotli
        } else if v == 2 {
            CompressionAlgorithm::Gzip
        } else if v == 3 {
            CompressionAlgorithm::Zstd
        } else {
            CompressionAlgorithm::Uncompressed
        }
    }

    pub fn from_value(v: i32) -> (r: CompressionAlgorithm)
        ensures
            r == Self::spec_from_value(v),
    {
        if v == 1 {
            CompressionAlgorithm::Brotli
        } else if v == 2 {
            CompressionAlgorithm::Gzip
        } else if v == 3 {
            CompressionAlgorithm::Zstd
        } else {
            CompressionAlgorithm::Uncompressed
        }
    }
}

/// `CompressionSettings { algorithm = 1; quality = 2; }`
#[derive(Debug, Clone, Copy, PartialEq, Eq)]
pub struct CompressionSettings {
    pub algorithm: i32,
    pub quality: i32,
}

impl CompressionSettings {
    pub open spec fn spec_from_fields(fs: Seq<SpecWireField>) -> Option<CompressionSettings> {
        if all_varint(fs, 1) && all_varint(fs, 2) {
            Some(
                CompressionSettings {
                    algorithm: last_varint(fs, 1) as i32,
                    quality: last_varint(fs, 2) as i32,
                },
            )
        } else {
            None
        }
    }

    pub fn from_fields(fs: &Vec<WireField>) -> (r: Result<CompressionSettings, StreamError>)
        ensures
            r == (match Self::spec_from_fields(fields_view(fs@)) {
                Some(m) => Ok::<CompressionSettings, StreamError>(m),
                None => Err(StreamError::InvalidMessage),
            }),
    {
        let algorithm = varint_field(fs, 1)?;
        let quality = varint_field(fs, 2)?;
        Ok(CompressionSettings { algorithm: algorithm as i32, quality: quality as i32 })
    }

    pub open spec fn spec_algorithm(self) -> CompressionAlgorithm {
        CompressionAlgorithm::spec_from_value(self.algorithm)
    }

    /// The algorithm, read through [`CompressionAlgorithm::from_value`].
    pub fn algorithm(&self) -> (r: CompressionAlgorithm)
        ensures
            r == self.spec_algorithm(),
    {
        CompressionAlgorithm::from_value(self.algorithm)
    }
}

/// The compression settings carried in field `1` of a file header: `None`
/// when the field is absent.
pub open spec fn spec_compression_field(fs: Seq<SpecWireField>) -> Option<Option<CompressionSettings>> {
    if !all_delimited(fs, 1) {
        None
    } else if occurrences(fs, 1).len() == 0 {
        Some(None)
    } else {
        match concat_fields(occurrences(fs, 1)) {
            None => None,
            Some(nf) => match CompressionSettings::spec_from_fields(nf) {
                None => None,
                Some(c) => Some(Some(c)),
            },
        }
    }
}

fn compression_field(fs: &Vec<WireField>) -> (r: Result<Option<CompressionSettings>, StreamError>)
    ensures
        r == (match spec_compression_field(fields_view(fs@)) {
            Some(c) => Ok::<Option<CompressionSettings>, StreamError>(c),
            None => Err(StreamError::InvalidMessage),
        }),
{
    match nested_fields(fs, 1)? {
        None => Ok(None),
        Some(nf) => Ok(Some(CompressionSettings::from_fields(&nf)?)),
    }
}

/// The result of decoding a message from `bytes`, given what its fields make
/// of it.
pub open spec fn spec_decoded<T>(bytes: Seq<u8>, from_fields: spec_fn(Seq<SpecWireField>) -> Option<T>) -> Result<T, StreamError> {
    match spec_fields(bytes) {
        Err(e) => Err(e),
        Ok(fs) => match from_fields(fs) {
            Some(m) => Ok(m),
            None => Err(StreamError::InvalidMessage),
        },
    }
}

/// The result of decoding a message embedded in another one from `bytes`,
/// given what its fields make of it.
pub open spec fn spec_embedded_decoded<T>(bytes: Seq<u8>, from_fields: spec_fn(Seq<SpecWireField>) -> Option<T>) -> Result<T, StreamError> {
    match spec_embedded_fields(bytes) {
        Err(e) => Err(e),
        Ok(fs) => match from_fields(fs) {
            Some(m) => Ok(m),
            None => Err(StreamError::InvalidMessage),
        },
    }
}

/// `PatchHeader { compression = 1; }`
#[derive(Debug, Clone, Copy, PartialEq, Eq)]
pub struct PatchHeader {
    pub compression: Option<CompressionSettings>,
}

impl PatchHeader {
    pub open spec fn spec_from_fields(fs: Seq<SpecWireField>) -> Option<PatchHeader> {
        match spec_compression_field(fs) {
            Some(c) => Some(PatchHeader { compression: c }),
            None => None,
        }
    }

    pub open spec fn spec_decode(bytes: Seq<u8>) -> Result<PatchHeader, StreamError> {
        spec_decoded(bytes, |fs: Seq<SpecWireField>| Self::spec_from_fields(fs))
    }

    /// Decodes an encoded `PatchHeader`.
    pub fn decode(bytes: &[u8]) -> (r: Result<PatchHeader, StreamError>)
        ensures
            r == Self::spec_decode(bytes@),
    {
        let fs = parse_fields(bytes)?;
        let compression = compression_field(&fs)?;
        Ok(PatchHeader { compression })
    }
}

/// `SignatureHeader { compression = 1; }`
#[derive(Debug, Clone, Copy, PartialEq, Eq)]
pub struct SignatureHeader {
    pub compression: Option<CompressionSettings>,
}

impl SignatureHeader {
    pub open spec fn spec_from_fields(fs: Seq<SpecWireField>) -> Option<SignatureHeader> {
        match spec_compression_field(fs) {
            Some(c) => Some(SignatureHeader { compression: c }),
            None => None,
        }
    }

    pub open spec fn spec_decode(bytes: Seq<u8>) -> Result<SignatureHeader, StreamError> {
        spec_decoded(bytes, |fs: Seq<SpecWireField>| Self::spec_from_fields(fs))
    }

    /// Decodes an encoded `SignatureHeader`.
    pub fn decode(bytes: &[u8]) -> (r: Result<SignatureHeader, StreamError>)
        ensures
            r == Self::spec_decode(bytes@),
    {
        let fs = parse_fields(bytes)?;
        let compression = compression_field(&fs)?;
        Ok(SignatureHeader { compression })
    }
}

/// How a file of the new build is produced.
#[derive(Debug, Clone, Copy, PartialEq, Eq)]
pub enum SyncHeaderType {
    Rsync,
    Bsdiff,
}

/// `SyncHeader { type = 1; fileIndex = 16; }`
#[derive(Debug, Clone, Copy, PartialEq, Eq)]
pub struct SyncHeader {
    pub kind: i32,
    pub file_index: i64,
}

impl SyncHeader {
    pub open spec fn spec_from_fields(fs: Seq<SpecWireField>) -> Option<SyncHeader> {
        if all_varint(fs, 1) && all_varint(fs, 16) {
            Some(SyncHeader { kind: last_varint(fs, 1) as i32, file_index: last_varint(fs, 16) as i64 })
        } else {
            None
        }
    }

    pub open spec fn spec_decode(bytes: Seq<u8>) -> Result<SyncHeader, StreamError> {
        spec_decoded(bytes, |fs: Seq<SpecWireField>| Self::spec_from_fields(fs))
    }

    /// Decodes an encoded `SyncHeader`.
    pub fn decode(bytes: &[u8]) -> (r: Result<SyncHeader, StreamError>)
        ensures
            r == Self::spec_decode(bytes@),
    {
        let fs = parse_fields(bytes)?;
        let kind = varint_field(&fs, 1)?;
        let file_index = varint_field(&fs, 16)?;
        Ok(SyncHeader { kind: kind as i32, file_index: file_index as i64 })
    }

    pub open spec fn spec_header_type(self) -> SyncHeaderType {
        if self.kind == 1 {
            SyncHeaderType::Bsdiff
        } else {
            SyncHeaderType::Rsync
        }
    }

    /// The header's type; values this package doesn't know read as the
    /// default, [`SyncHeaderType::Rsync`].
    pub fn header_type(&self) -> (r: SyncHeaderType)
        ensures
            r == self.spec_header_type(),
    {
        if self.kind == 1 {
            SyncHeaderType::Bsdiff
        } else {
            SyncHeaderType::Rsync
        }
    }
}

/// `BsdiffHeader { targetIndex = 1; }`
#[derive(Debug, Clone, Copy, PartialEq, Eq)]
pub struct BsdiffHeader {
    pub target_index: i64,
}

impl BsdiffHeader {
    pub open spec fn spec_from_fields(fs: Seq<SpecWireField>) -> Option<BsdiffHeader> {
        if all_varint(fs, 1) {
            Some(BsdiffHeader { target_index: last_varint(fs, 1) as i64 })
        } else {
            None
        }
    }

    pub open spec fn spec_decode(bytes: Seq<u8>) -> Result<BsdiffHeader, StreamError> {
        spec_decoded(bytes, |fs: Seq<SpecWireField>| Self::spec_from_fields(fs))
    }

    /// Decodes an encoded `BsdiffHeader`.
    pub fn decode(bytes: &[u8]) -> (r: Result<BsdiffHeader, StreamError>)
        ensures
            r == Self::spec_decode(bytes@),
    {
        let fs = parse_fields(bytes)?;
        let target_index = varint_field(&fs, 1)?;
        Ok(BsdiffHeader { target_index: target_index as i64 })
    }
}

/// What a patch operation does.
#[derive(Debug, Clone, Copy, PartialEq, Eq)]
pub enum SyncOpType {
    BlockRange,
    Data,
    HeyYouDidIt,
}

/// The enum value that marks the end of a file's operations.
pub const HEY_YOU_DID_IT: i32 = 2049;

/// `SyncOp { type = 1; fileIndex = 2; blockIndex = 3; blockSpan = 4; data = 5; }`
#[derive(Debug, Clone, PartialEq, Eq)]
pub struct SyncOp {
    pub kind: i32,
    pub file_index: i64,
    pub block_index: i64,
    pub block_span: i64,
    pub data: Vec<u8>,
}

/// The mathematical form of a [`SyncOp`].
pub struct SpecSyncOp {
    pub kind: i32,
    pub file_index: i64,
    pub block_index: i64,
    pub block_span: i64,
    pub data: Seq<u8>,
}

impl View for SyncOp {
    type V = SpecSyncOp;

    open spec fn view(&self) -> SpecSyncOp {
        SpecSyncOp {
            kind: self.kind,
            file_index: self.file_index,
            block_index: self.block_index,
            block_span: self.block_span,
            data: self.data@,
        }
    }
}

impl SpecSyncOp {
    pub open spec fn spec_op_type(self) -> SyncOpType {
        if self.kind == 1 {
            SyncOpType::Data
        } else if self.kind == HEY_YOU_DID_IT {
            SyncOpType::HeyYouDidIt
        } else {
            SyncOpType::BlockRange
        }
    }
}

impl SyncOp {
    pub open spec fn spec_from_fields(fs: Seq<SpecWireField>) -> Option<SpecSyncOp> {
        if all_varint(fs, 1) && all_varint(fs, 2) && all_varint(fs, 3) && all_varint(fs, 4)
            && all_delimited(fs, 5) {
            Some(
                SpecSyncOp {
                    kind: last_varint(fs, 1) as i32,
                    file_index: last_varint(fs, 2) as i64,
                    block_index: last_varint(fs, 3) as i64,
                    block_span: last_varint(fs, 4) as i64,
                    data: last_delimited(fs, 5),
                },
            )
        } else {
            None
        }
    }

    pub open spec fn spec_decode(bytes: Seq<u8>) -> Result<SpecSyncOp, StreamError> {
        spec_decoded(bytes, |fs: Seq<SpecWireField>| Self::spec_from_fields(fs))
    }

    /// Decodes an encoded `SyncOp`.
    pub fn decode(bytes: &[u8]) -> (r: Result<SyncOp, StreamError>)
        ensures
            match Self::spec_decode(bytes@) {
                Ok(m) => r is Ok && r->Ok_0@ == m,
                Err(e) => r == Err::<SyncOp, StreamError>(e),
            },
    {
        let fs = parse_fields(bytes)?;
        let kind = varint_field(&fs, 1)?;
        let file_index = varint_field(&fs, 2)?;
        let block_index = varint_field(&fs, 3)?;
        let block_span = varint_field(&fs, 4)?;
        let data = bytes_field(&fs, 5)?;
        Ok(
            SyncOp {
                kind: kind as i32,
                file_index: file_index as i64,
                block_index: block_index as i64,
                block_span: block_span as i64,
                data,
            },
        )
    }

    /// The operation's type; values this package doesn't know read as the
    /// default, [`SyncOpType::BlockRange`].
    pub fn op_type(&self) -> (r: SyncOpType)
        ensures
            r == self@.spec_op_type(),
    {
        if self.kind == 1 {
            SyncOpType::Data
        } else if self.kind == HEY_YOU_DID_IT {
            SyncOpType::HeyYouDidIt
        } else {
            SyncOpType::BlockRange
        }
    }
}

/// `BlockHash { weakHash = 1; strongHash = 2; }`
#[derive(Debug, Clone, PartialEq, Eq)]
pub struct BlockHash {
    pub weak_hash: u32,
    pub strong_hash: Vec<u8>,
}

/// The mathematical form of a [`BlockHash`].
pub struct SpecBlockHash {
    pub weak_hash: u32,
    pub strong_hash: Seq<u8>,
}

impl View for BlockHash {
    type V = SpecBlockHash;

    open spec fn view(&self) -> SpecBlockHash {
        SpecBlockHash { weak_hash: self.weak_hash, strong_hash: self.strong_hash@ }
    }
}

impl BlockHash {
    pub open spec fn spec_from_fields(fs: Seq<SpecWireField>) -> Option<SpecBlockHash> {
        if all_varint(fs, 1) && all_delimited(fs, 2) {
            Some(
                SpecBlockHash {
                    weak_hash: last_varint(fs, 1) as u32,
                    strong_hash: last_delimited(fs, 2),
                },
            )
        } else {
            None
        }
    }

    pub open spec fn spec_decode(bytes: Seq<u8>) -> Result<SpecBlockHash, StreamError> {
        spec_decoded(bytes, |fs: Seq<SpecWireField>| Self::spec_from_fields(fs))
    }

    /// Decodes an encoded `BlockHash`.
    pub fn decode(bytes: &[u8]) -> (r: Result<BlockHash, StreamError>)
        ensures
            match Self::spec_decode(bytes@) {
                Ok(m) => r is Ok && r->Ok_0@ == m,
                Err(e) => r == Err::<BlockHash, StreamError>(e),
            },
    {
        let fs = parse_fields(bytes)?;
        let weak_hash = varint_field(&fs, 1)?;
        let strong_hash = bytes_field(&fs, 2)?;
        Ok(BlockHash { weak_hash: weak_hash as u32, strong_hash })
    }
}

/// An empty patch header carries no compression settings.
pub proof fn empty_patch_header_has_no_compression()
    ensures
        PatchHeader::spec_decode(Seq::<u8>::empty()) == Ok::<PatchHeader, StreamError>(
            PatchHeader { compression: None },
        ),
{
    lemma_empty_message_has_no_fields(RECURSION_LIMIT as nat);
    assert(occurrences(Seq::<SpecWireField>::empty(), 1) =~= Seq::<Seq<u8>>::empty());
}

} // verus!
