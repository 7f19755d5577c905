//! Patch files: how to build each file of a new build from the files of an
//! old one.
use vstd::prelude::*;
use vstd::slice::slice_to_vec;
use crate::wharf::bsdiff::{Control, SpecControl};
use crate::wharf::common::{
    BLOCK_SIZE, SIGNATURE_MAGIC,
    check_magic_bytes, decompress_stream, read_message_bytes, spec_check_magic, spec_decompress,
    spec_read_message, WharfError, PATCH_MAGIC,
};
use crate::wharf::protobuf::{le_u32, lemma_read_delimited_progress, spec_read_delimited, ByteReader, StreamError};
use vstd::slice::slice_subrange;
use crate::wharf::pwr;
use crate::wharf::pwr::{BsdiffHeader, PatchHeader, SpecSyncOp, SyncHeaderType, SyncOp, SyncOpType};
use crate::wharf::signature::Step;
use crate::wharf::tlc::{Container, SpecContainer};

verus! {

/// How one file of the new build is produced, as announced by the header
/// that opens its operations.
#[derive(Debug, Clone, Copy, PartialEq, Eq)]
pub enum SyncHeader {
    /// The file is assembled from blocks of old files and literal data.
    Rsync { file_index: i64 },
    /// The file is the old file `target_index` with a bsdiff patch applied.
    Bsdiff { file_index: i64, target_index: i64 },
}

/// One item of a patch's operation stream, as [`SyncEntryIter::next`] yields
/// them: a file's header, or one of its operations.
#[derive(Debug, Clone, PartialEq, Eq)]
pub enum SyncEntry {
    Header { header: pwr::SyncHeader, bsdiff_header: Option<BsdiffHeader> },
    Op(SyncOp),
}

/// The mathematical form of a [`SyncEntry`].
pub enum SpecSyncEntry {
    Header { header: pwr::SyncHeader, bsdiff_header: Option<BsdiffHeader> },
    Op(SpecSyncOp),
}

impl View for SyncEntry {
    type V = SpecSyncEntry;

    open spec fn view(&self) -> SpecSyncEntry {
        match self {
            SyncEntry::Header { header, bsdiff_header } => SpecSyncEntry::Header {
                header: *header,
                bsdiff_header: *bsdiff_header,
            },
            SyncEntry::Op(op) => SpecSyncEntry::Op(op@),
        }
    }
}

/// What reading a file's header from `s` gives: the `SyncHeader` message,
/// the `BsdiffHeader` that follows it when its type is bsdiff, and the number
/// of bytes taken.
pub open spec fn spec_read_header_messages(s: Seq<u8>) -> Result<(pwr::SyncHeader, Option<BsdiffHeader>, nat), WharfError> {
    match spec_read_message(s, |m: Seq<u8>| pwr::SyncHeader::spec_decode(m)) {
        Err(e) => Err(e),
        Ok((h, n)) => match h.spec_header_type() {
            SyncHeaderType::Rsync => Ok((h, None, n)),
            SyncHeaderType::Bsdiff => match spec_read_message(
                s.skip(n as int),
                |m: Seq<u8>| BsdiffHeader::spec_decode(m),
            ) {
                Err(e) => Err(e),
                Ok((b, k)) => Ok((h, Some(b), n + k)),
            },
        },
    }
}

/// The header described by the two header messages.
pub open spec fn spec_sync_header(h: pwr::SyncHeader, b: Option<BsdiffHeader>) -> SyncHeader {
    match b {
        None => SyncHeader::Rsync { file_index: h.file_index },
        Some(bh) => SyncHeader::Bsdiff { file_index: h.file_index, target_index: bh.target_index },
    }
}

/// What [`SyncEntryIter::next_header`] gives when `s` is left.
pub open spec fn spec_next_header(s: Seq<u8>) -> Step<SyncHeader> {
    if s.len() == 0 {
        Step::End(0)
    } else {
        match spec_read_header_messages(s) {
            Err(e) => Step::Failed(e),
            Ok((h, b, n)) => Step::Item(spec_sync_header(h, b), n),
        }
    }
}

/// What [`SyncEntryIter::next_rsync_op`] gives when `s` is left: the end
/// marker of a file's operations ends the sequence.
pub open spec fn spec_next_rsync_op(s: Seq<u8>) -> Step<SpecSyncOp> {
    match spec_read_message(s, |m: Seq<u8>| SyncOp::spec_decode(m)) {
        Err(e) => Step::Failed(e),
        Ok((op, n)) => if op.spec_op_type() == SyncOpType::HeyYouDidIt {
            Step::End(n)
        } else {
            Step::Item(op, n)
        },
    }
}

/// What [`SyncEntryIter::next_bsdiff_op`] gives when `s` is left: a step
/// marked `eof` ends the sequence, and must be followed by the end marker of
/// the file's operations.
pub open spec fn spec_next_bsdiff_op(s: Seq<u8>) -> Step<SpecControl> {
    match spec_read_message(s, |m: Seq<u8>| Control::spec_decode(m)) {
        Err(e) => Step::Failed(e),
        Ok((c, n)) => if c.eof {
            match spec_read_message(s.skip(n as int), |m: Seq<u8>| SyncOp::spec_decode(m)) {
                Err(e) => Step::Failed(e),
                Ok((op, k)) => if op.spec_op_type() == SyncOpType::HeyYouDidIt {
                    Step::End(n + k)
                } else {
                    Step::Failed(WharfError::ExpectedHeyYouDidIt)
                },
            }
        } else {
            Step::Item(c, n)
        },
    }
}

/// What [`SyncEntryIter::next`] gives when `s` is left and the previous
/// operation did (`finished`) or didn't end a file's sequence: the step, and
/// whether the sequence is finished afterwards.
pub open spec fn spec_next_entry(s: Seq<u8>, finished: bool) -> (Step<SpecSyncEntry>, bool) {
    if finished {
        if s.len() == 0 {
            (Step::End(0), true)
        } else {
            match spec_read_header_messages(s) {
                Err(e) => (Step::Failed(e), false),
                Ok((h, b, n)) => (
                    Step::Item(SpecSyncEntry::Header { header: h, bsdiff_header: b }, n),
                    false,
                ),
            }
        }
    } else {
        match spec_read_message(s, |m: Seq<u8>| SyncOp::spec_decode(m)) {
            Err(e) => (Step::Failed(e), false),
            Ok((op, n)) => (
                Step::Item(SpecSyncEntry::Op(op), n),
                op.spec_op_type() == SyncOpType::HeyYouDidIt,
            ),
        }
    }
}

/// The operation stream of a patch: for each file, a header and then its
/// operations, read on demand from the decompressed body.
pub struct SyncEntryIter {
    reader: ByteReader,
    op_sequence_finished: bool,
}

/// Reads one `SyncOp` message.
fn read_sync_op(reader: &mut ByteReader) -> (r: Result<SyncOp, WharfError>)
    requires
        old(reader).wf(),
    ensures
        final(reader).wf(),
        match spec_read_message(old(reader).remaining(), |m: Seq<u8>| SyncOp::spec_decode(m)) {
            Ok((op, n)) => r matches Ok(x) && x@ == op && final(reader).remaining() == old(
                reader,
            ).remaining().skip(n as int),
            Err(e) => r matches Err(x) && x == e,
        },
{
    let bytes = read_message_bytes(reader)?;
    match SyncOp::decode(bytes.as_slice()) {
        Ok(op) => Ok(op),
        Err(e) => Err(WharfError::Stream(e)),
    }
}

/// Reads a file's `SyncHeader` and, for a bsdiff file, its `BsdiffHeader`.
fn read_header_messages(reader: &mut ByteReader) -> (r: Result<(pwr::SyncHeader, Option<BsdiffHeader>), WharfError>)
    requires
        old(reader).wf(),
    ensures
        final(reader).wf(),
        match spec_read_header_messages(old(reader).remaining()) {
            Ok((h, b, n)) => r == Ok::<(pwr::SyncHeader, Option<BsdiffHeader>), WharfError>((h, b))
                && final(reader).remaining() == old(reader).remaining().skip(n as int),
            Err(e) => r == Err::<(pwr::SyncHeader, Option<BsdiffHeader>), WharfError>(e),
        },
{
    let ghost s = reader.remaining();
    let bytes = read_message_bytes(reader)?;
    let header = match pwr::SyncHeader::decode(bytes.as_slice()) {
        Ok(h) => h,
        Err(e) => {
            return Err(WharfError::Stream(e));
        },
    };
    match header.header_type() {
        SyncHeaderType::Rsync => Ok((header, None)),
        SyncHeaderType::Bsdiff => {
            let ghost n = spec_read_delimited(s)->Ok_0.1;
            let bytes = read_message_bytes(reader)?;
            let ghost k = spec_read_delimited(s.skip(n as int))->Ok_0.1;
            proof {
                lemma_read_delimited_progress(s);
                assert(s.skip(n as int).skip(k as int) =~= s.skip((n + k) as int));
            }
            match BsdiffHeader::decode(bytes.as_slice()) {
                Ok(b) => Ok((header, Some(b))),
                Err(e) => Err(WharfError::Stream(e)),
            }
        },
    }
}

impl SyncEntryIter {
    /// The bytes that haven't been read yet.
    pub closed spec fn remaining(&self) -> Seq<u8> {
        self.reader.remaining()
    }

    /// Whether the last operation read ended a file's sequence, so that a
    /// header comes next.
    pub closed spec fn finished(&self) -> bool {
        self.op_sequence_finished
    }

    pub closed spec fn wf(&self) -> bool {
        self.reader.wf()
    }

    /// An iterator over the operation stream `bytes`, which starts with a
    /// header.
    pub fn new(bytes: Vec<u8>) -> (r: SyncEntryIter)
        ensures
            r.wf(),
            r.remaining() == bytes@,
            r.finished(),
    {
        SyncEntryIter { reader: ByteReader::new(bytes), op_sequence_finished: true }
    }

    /// The next file header, or `None` once the stream has ended.
    pub fn next_header(&mut self) -> (r: Option<Result<SyncHeader, WharfError>>)
        requires
            old(self).wf(),
        ensures
            final(self).wf(),
            match spec_next_header(old(self).remaining()) {
                Step::End(n) => r is None && final(self).remaining() == old(self).remaining(),
                Step::Item(h, n) => r == Some(Ok::<SyncHeader, WharfError>(h))
                    && final(self).remaining() == old(self).remaining().skip(n as int),
                Step::Failed(e) => r == Some(Err::<SyncHeader, WharfError>(e)),
            },
    {
        if self.reader.is_at_end() {
            return None;
        }
        match read_header_messages(&mut self.reader) {
            Err(e) => Some(Err(e)),
            Ok((h, None)) => Some(Ok(SyncHeader::Rsync { file_index: h.file_index })),
            Ok((h, Some(b))) => Some(
                Ok(SyncHeader::Bsdiff { file_index: h.file_index, target_index: b.target_index }),
            ),
        }
    }

    /// The next operation of an rsync file, or `None` once its end marker
    /// has been read.
    pub fn next_rsync_op(&mut self) -> (r: Option<Result<SyncOp, WharfError>>)
        requires
            old(self).wf(),
        ensures
            final(self).wf(),
            match spec_next_rsync_op(old(self).remaining()) {
                Step::End(n) => r is None && final(self).remaining() == old(self).remaining().skip(
                    n as int,
                ),
                Step::Item(op, n) => r matches Some(Ok(x)) && x@ == op && final(self).remaining()
                    == old(self).remaining().skip(n as int),
                Step::Failed(e) => r matches Some(Err(x)) && x == e,
            },
    {
        match read_sync_op(&mut self.reader) {
            Err(e) => Some(Err(e)),
            Ok(op) => match op.op_type() {
                SyncOpType::HeyYouDidIt => None,
                _ => Some(Ok(op)),
            },
        }
    }

    /// The next step of a bsdiff file, or `None` once its last step and the
    /// end marker that follows it have been read.
    pub fn next_bsdiff_op(&mut self) -> (r: Option<Result<Control, WharfError>>)
        requires
            old(self).wf(),
        ensures
            final(self).wf(),
            match spec_next_bsdiff_op(old(self).remaining()) {
                Step::End(n) => r is None && final(self).remaining() == old(self).remaining().skip(
                    n as int,
                ),
                Step::Item(c, n) => r matches Some(Ok(x)) && x@ == c && final(self).remaining()
                    == old(self).remaining().skip(n as int),
                Step::Failed(e) => r matches Some(Err(x)) && x == e,
            },
    {
        let ghost s = self.reader.remaining();
        let bytes = match read_message_bytes(&mut self.reader) {
            Ok(b) => b,
            Err(e) => {
                return Some(Err(e));
            },
        };
        let control = match Control::decode(bytes.as_slice()) {
            Ok(c) => c,
            Err(e) => {
                return Some(Err(WharfError::Stream(e)));
            },
        };
        if !control.eof {
            return Some(Ok(control));
        }
        let ghost n = spec_read_delimited(s)->Ok_0.1;
        let op = match read_sync_op(&mut self.reader) {
            Ok(op) => op,
            Err(e) => {
                return Some(Err(e));
            },
        };
        let ghost k = spec_read_delimited(s.skip(n as int))->Ok_0.1;
        proof {
            assert(s.skip(n as int).skip(k as int) =~= s.skip((n + k) as int));
        }
        match op.op_type() {
            SyncOpType::HeyYouDidIt => None,
            _ => Some(Err(WharfError::ExpectedHeyYouDidIt)),
        }
    }

    /// The next header or operation. After an operation that ends a file's
    /// sequence, the next item is a header, or `None` when the stream has
    /// ended.
    pub fn next(&mut self) -> (r: Option<Result<SyncEntry, WharfError>>)
        requires
            old(self).wf(),
        ensures
            final(self).wf(),
            final(self).finished() == spec_next_entry(old(self).remaining(), old(self).finished()).1,
            match spec_next_entry(old(self).remaining(), old(self).finished()).0 {
                Step::End(n) => r is None && final(self).remaining() == old(self).remaining(),
                Step::Item(e, n) => r matches Some(Ok(x)) && x@ == e && final(self).remaining()
                    == old(self).remaining().skip(n as int),
                Step::Failed(e) => r matches Some(Err(x)) && x == e,
            },
    {
        if self.op_sequence_finished {
            if self.reader.is_at_end() {
                return None;
            }
            self.op_sequence_finished = false;
            match read_header_messages(&mut self.reader) {
                Err(e) => Some(Err(e)),
                Ok((header, bsdiff_header)) => Some(Ok(SyncEntry::Header { header, bsdiff_header })),
            }
        } else {
            match read_sync_op(&mut self.reader) {
                Err(e) => Some(Err(e)),
                Ok(op) => {
                    if let SyncOpType::HeyYouDidIt = op.op_type() {
                        self.op_sequence_finished = true;
                    }
                    Some(Ok(SyncEntry::Op(op)))
                },
            }
        }
    }
}

/// A decoded patch file: its header, the containers that describe the old
/// and the new build, and the operation stream, which is read on demand.
pub struct Patch {
    pub header: PatchHeader,
    pub container_old: Container,
    pub container_new: Container,
    pub sync_op_iter: SyncEntryIter,
}

/// What the body of a patch file gives once its header is read: the old and
/// the new container and the bytes left for the operation stream.
pub open spec fn spec_patch_body(header: PatchHeader, rest: Seq<u8>) -> Result<(SpecContainer, SpecContainer, Seq<u8>), WharfError> {
    match header.compression {
        None => Err(WharfError::MissingCompression),
        Some(c) => match spec_decompress(c.spec_algorithm(), rest) {
            None => Err(WharfError::Decompression),
            Some(body) => match spec_read_message(body, |m: Seq<u8>| Container::spec_decode(m)) {
                Err(e) => Err(e),
                Ok((old_c, k)) => match spec_read_message(
                    body.skip(k as int),
                    |m: Seq<u8>| Container::spec_decode(m),
                ) {
                    Err(e) => Err(e),
                    Ok((new_c, j)) => Ok((old_c, new_c, body.skip(k as int).skip(j as int))),
                },
            },
        },
    }
}

/// What reading a patch file from `s` gives: the header, the old and the new
/// container, and the bytes left for the operation stream.
///
/// The file is the magic number, a length-delimited `PatchHeader`, then a
/// body compressed as the header says, which holds the length-delimited old
/// and new `Container`s followed by the operation stream.
pub open spec fn spec_read_patch(s: Seq<u8>) -> Result<(PatchHeader, SpecContainer, SpecContainer, Seq<u8>), WharfError> {
    match spec_check_magic(s, PATCH_MAGIC) {
        Err(e) => Err(e),
        Ok(_) => match spec_read_message(s.skip(4), |m: Seq<u8>| PatchHeader::spec_decode(m)) {
            Err(e) => Err(e),
            Ok((header, n)) => match spec_patch_body(header, s.skip(4 + n as int)) {
                Err(e) => Err(e),
                Ok((old_c, new_c, rest)) => Ok((header, old_c, new_c, rest)),
            },
        },
    }
}

/// Reads one `Container` message.
fn read_container(reader: &mut ByteReader) -> (r: Result<Container, WharfError>)
    requires
        old(reader).wf(),
    ensures
        final(reader).wf(),
        match spec_read_message(old(reader).remaining(), |m: Seq<u8>| Container::spec_decode(m)) {
            Ok((c, n)) => r matches Ok(x) && x@ == c && final(reader).remaining() == old(
                reader,
            ).remaining().skip(n as int),
            Err(e) => r matches Err(x) && x == e,
        },
{
    let bytes = read_message_bytes(reader)?;
    match Container::decode(bytes.as_slice()) {
        Ok(c) => Ok(c),
        Err(e) => Err(WharfError::Stream(e)),
    }
}

fn read_patch_body(header: PatchHeader, rest: Vec<u8>) -> (r: Result<(Container, Container, SyncEntryIter), WharfError>)
    ensures
        match spec_patch_body(header, rest@) {
            Ok((old_c, new_c, left)) => r matches Ok((o, n, it)) && o@ == old_c && n@ == new_c
                && it.wf() && it.remaining() == left && it.finished(),
            Err(e) => r matches Err(x) && x == e,
        },
{
    let compression = match header.compression {
        Some(c) => c,
        None => {
            return Err(WharfError::MissingCompression);
        },
    };
    let body = decompress_stream(rest, compression.algorithm())?;
    let mut body_reader = ByteReader::new(body);
    let container_old = read_container(&mut body_reader)?;
    let container_new = read_container(&mut body_reader)?;
    Ok((container_old, container_new, SyncEntryIter { reader: body_reader, op_sequence_finished: true }))
}

/// Reads a patch file.
pub fn read_patch(bytes: &[u8]) -> (r: Result<Patch, WharfError>)
    ensures
        match spec_read_patch(bytes@) {
            Ok((header, old_c, new_c, rest)) => r matches Ok(p) && p.header == header
                && p.container_old@ == old_c && p.container_new@ == new_c && p.sync_op_iter.wf()
                && p.sync_op_iter.remaining() == rest && p.sync_op_iter.finished(),
            Err(e) => r matches Err(x) && x == e,
        },
{
    let ghost s = bytes@;
    let mut reader = ByteReader::new(slice_to_vec(bytes));
    check_magic_bytes(&mut reader, PATCH_MAGIC)?;
    let header_bytes = read_message_bytes(&mut reader)?;
    let header = match PatchHeader::decode(header_bytes.as_slice()) {
        Ok(h) => h,
        Err(e) => {
            return Err(WharfError::Stream(e));
        },
    };
    let ghost n = spec_read_delimited(s.skip(4))->Ok_0.1;
    proof {
        assert(s.skip(4).skip(n as int) =~= s.skip(4 + n as int));
    }
    let rest = reader.read_rest();
    let (container_old, container_new, sync_op_iter) = read_patch_body(header, rest)?;
    Ok(Patch { header, container_old, container_new, sync_op_iter })
}


/// The views of the files of a build, each of which may be missing.
pub open spec fn files_contents(v: Seq<Option<Vec<u8>>>) -> Seq<Option<Seq<u8>>> {
    v.map_values(|f: Option<Vec<u8>>| match f {
        Some(b) => Some(b@),
        None => None,
    })
}

/// The byte that a bsdiff step writes: the old byte plus the diff byte,
/// wrapping around.
pub open spec fn add_byte(old: u8, diff: u8) -> u8 {
    ((old as int + diff as int) % 256) as u8
}

/// The bytes that an rsync block range copies from the old file `f`: the
/// range starts at block `block_index` and spans `block_span` blocks, both
/// taken as unsigned 64-bit offsets that wrap around, and it stops at the end
/// of the file.
pub open spec fn spec_block_range(f: Seq<u8>, block_index: i64, block_span: i64) -> Seq<u8> {
    let start = vstd::wrapping::u64_specs::wrapping_mul(block_index as u64, BLOCK_SIZE as u64) as int;
    let len = vstd::wrapping::u64_specs::wrapping_mul(block_span as u64, BLOCK_SIZE as u64) as int;
    let lo = if start < f.len() { start } else { f.len() as int };
    let hi = if start + len < f.len() { start + len } else { f.len() as int };
    f.subrange(lo, hi)
}

/// Copies a block range of an old file.
pub fn copy_range(f: &Vec<u8>, block_index: i64, block_span: i64) -> (r: Vec<u8>)
    ensures
        r@ == spec_block_range(f@, block_index, block_span),
{
    let start: u64 = (block_index as u64).wrapping_mul(65536);
    let len: u64 = (block_span as u64).wrapping_mul(65536);
    let l: u64 = f.len() as u64;
    let lo: u64 = if start < l { start } else { l };
    let hi: u64 = if len < l - lo { lo + len } else { l };
    slice_to_vec(slice_subrange(f.as_slice(), lo as usize, hi as usize))
}

/// What one rsync operation appends to the new file, given the files of the
/// old build.
pub open spec fn spec_rsync_op_output(op: SpecSyncOp, old: Seq<Option<Seq<u8>>>) -> Result<Seq<u8>, WharfError> {
    match op.spec_op_type() {
        SyncOpType::Data => Ok(op.data),
        SyncOpType::BlockRange => if op.file_index < 0 || op.file_index >= old.len() {
            Err(WharfError::InvalidOldFileIndex)
        } else {
            match old[op.file_index as int] {
                None => Err(WharfError::OldFileUnavailable),
                Some(f) => Ok(spec_block_range(f, op.block_index, op.block_span)),
            }
        },
        SyncOpType::HeyYouDidIt => Ok(seq![]),
    }
}

fn rsync_op_output(op: &SyncOp, old_files: &Vec<Option<Vec<u8>>>) -> (r: Result<Vec<u8>, WharfError>)
    ensures
        match spec_rsync_op_output(op@, files_contents(old_files@)) {
            Ok(b) => r matches Ok(x) && x@ == b,
            Err(e) => r matches Err(x) && x == e,
        },
{
    match op.op_type() {
        SyncOpType::Data => Ok(op.data.clone()),
        SyncOpType::BlockRange => {
            if op.file_index < 0 || op.file_index as u64 >= old_files.len() as u64 {
                return Err(WharfError::InvalidOldFileIndex);
            }
            match &old_files[op.file_index as usize] {
                None => Err(WharfError::OldFileUnavailable),
                Some(f) => Ok(copy_range(f, op.block_index, op.block_span)),
            }
        },
        SyncOpType::HeyYouDidIt => Ok(Vec::new()),
    }
}

/// What the operations of an rsync file, read from `s`, make of it: its
/// bytes and the number of bytes the operations take, end marker included.
pub open spec fn spec_apply_rsync(s: Seq<u8>, old: Seq<Option<Seq<u8>>>) -> Result<(Seq<u8>, nat), WharfError>
    decreases s.len(),
{
    match spec_next_rsync_op(s) {
        Step::Failed(e) => Err(e),
        Step::End(n) => Ok((seq![], n)),
        Step::Item(op, n) => if n == 0 || n > s.len() {
            Err(WharfError::Stream(StreamError::UnexpectedEof))
        } else {
            match spec_rsync_op_output(op, old) {
                Err(e) => Err(e),
                Ok(bytes) => match spec_apply_rsync(s.skip(n as int), old) {
                    Err(e) => Err(e),
                    Ok((rest, m)) => Ok((bytes + rest, n + m)),
                },
            }
        },
    }
}

proof fn lemma_apply_rsync_len(s: Seq<u8>, old: Seq<Option<Seq<u8>>>)
    ensures
        spec_apply_rsync(s, old) matches Ok((b, m)) ==> m <= s.len(),
    decreases s.len(),
{
    lemma_read_delimited_progress(s);
    match spec_next_rsync_op(s) {
        Step::Item(op, n) => {
            if 0 < n <= s.len() {
                lemma_apply_rsync_len(s.skip(n as int), old);
            }
        },
        _ => {},
    }
}

/// Applies the operations of an rsync file: the new file's bytes.
fn apply_rsync(iter: &mut SyncEntryIter, old_files: &Vec<Option<Vec<u8>>>) -> (r: Result<Vec<u8>, WharfError>)
    requires
        old(iter).wf(),
    ensures
        final(iter).wf(),
        match spec_apply_rsync(old(iter).remaining(), files_contents(old_files@)) {
            Ok((b, m)) => r matches Ok(x) && x@ == b && final(iter).remaining() == old(
                iter,
            ).remaining().skip(m as int),
            Err(e) => r matches Err(x) && x == e,
        },
{
    let ghost s0 = iter.remaining();
    let ghost ov = files_contents(old_files@);
    let ghost mut c: nat = 0;
    let mut out: Vec<u8> = Vec::new();
    proof {
        assert(s0.skip(0) =~= s0);
        match spec_apply_rsync(s0, ov) {
            Ok((b, m)) => {
                assert(out@ + b =~= b);
            },
            Err(_) => {},
        }
    }
    loop
        invariant
            iter.wf(),
            s0 == old(iter).remaining(),
            c <= s0.len(),
            iter.remaining() == s0.skip(c as int),
            ov == files_contents(old_files@),
            spec_apply_rsync(s0, ov) == match spec_apply_rsync(iter.remaining(), ov) {
                Err(e) => Err::<(Seq<u8>, nat), WharfError>(e),
                Ok((rest, m)) => Ok((out@ + rest, c + m)),
            },
        decreases iter.remaining().len(),
    {
        let ghost cur = iter.remaining();
        proof {
            lemma_read_delimited_progress(cur);
        }
        match iter.next_rsync_op() {
            None => {
                proof {
                    let n = spec_read_delimited(cur)->Ok_0.1;
                    assert(out@ + seq![] =~= out@);
                    assert(s0.skip(c as int).skip(n as int) =~= s0.skip((c + n) as int));
                }
                return Ok(out);
            },
            Some(Err(e)) => {
                return Err(e);
            },
            Some(Ok(op)) => {
                let ghost n = spec_read_delimited(cur)->Ok_0.1;
                let bytes = rsync_op_output(&op, old_files)?;
                let ghost before = out@;
                let mut bytes_mut = bytes;
                out.append(&mut bytes_mut);
                proof {
                    assert(s0.skip(c as int).skip(n as int) =~= s0.skip((c + n) as int));
                    match spec_apply_rsync(cur.skip(n as int), ov) {
                        Ok((rest, m)) => {
                            assert(before + (bytes@ + rest) =~= out@ + rest);
                        },
                        Err(_) => {},
                    }
                    c = c + n;
                }
            },
        }
    }
}

/// What one bsdiff step makes of the old file `old` with the position `pos`
/// in it: the bytes it appends to the new file and the new position.
///
/// The added bytes are read at `pos`, and the read fails when they run past
/// the end of the old file. A move is refused when it would end before the
/// start of the file or past the largest offset of a file (`i64::MAX`).
pub open spec fn spec_bsdiff_step(c: SpecControl, old: Seq<u8>, pos: int) -> Result<(Seq<u8>, int), WharfError> {
    if c.add.len() > 0 && pos + c.add.len() > old.len() {
        Err(WharfError::OldFileTooShort)
    } else {
        let added = Seq::new(c.add.len(), |i: int| add_byte(old[pos + i], c.add[i]));
        let after_add = pos + c.add.len();
        let after_seek = after_add + c.seek;
        if c.seek != 0 && (after_seek < 0 || after_seek > i64::MAX) {
            Err(WharfError::InvalidSeek)
        } else {
            Ok((added + c.copy, after_seek))
        }
    }
}

/// Adds `add` byte by byte to the bytes of `old` from `pos` on.
pub fn add_bytes(old: &Vec<u8>, pos: usize, add: &Vec<u8>) -> (r: Vec<u8>)
    requires
        pos + add@.len() <= old@.len(),
    ensures
        r@ == Seq::new(add@.len(), |i: int| add_byte(old@[pos + i], add@[i])),
{
    let mut out: Vec<u8> = Vec::new();
    let mut i: usize = 0;
    while i < add.len()
        invariant
            i <= add@.len(),
            pos + add.len() <= old.len(),
            out@.len() == i,
            forall|j: int| 0 <= j < i ==> out@[j] == add_byte(old@[pos + j], add@[j]),
        decreases add@.len() - i,
    {
        let b = old[pos + i].wrapping_add(add[i]);
        proof {
            assert(b == add_byte(old@[pos + i], add@[i as int]));
        }
        out.push(b);
        i = i + 1;
    }
    proof {
        assert(out@ =~= Seq::new(add@.len(), |i: int| add_byte(old@[pos + i], add@[i])));
    }
    out
}

fn bsdiff_step(c: &Control, old: &Vec<u8>, pos: u64) -> (r: Result<(Vec<u8>, u64), WharfError>)
    ensures
        match spec_bsdiff_step(c@, old@, pos as int) {
            Ok((b, p)) => r matches Ok((x, q)) && x@ == b && q == p,
            Err(e) => r matches Err(x) && x == e,
        },
{
    let l: u64 = old.len() as u64;
    let k: u64 = c.add.len() as u64;
    if k > 0 && (pos > l || k > l - pos) {
        return Err(WharfError::OldFileTooShort);
    }
    let mut out = if k > 0 {
        add_bytes(old, pos as usize, &c.add)
    } else {
        Vec::new()
    };
    proof {
        assert(k == 0 ==> out@ =~= Seq::new(c@.add.len(), |i: int| add_byte(old@[pos + i], c@.add[i])));
    }
    let mut copy = c.copy.clone();
    out.append(&mut copy);
    let after_add: u64 = pos + k;
    if c.seek == 0 {
        return Ok((out, after_add));
    }
    let after_seek: i128 = (after_add as i128) + (c.seek as i128);
    if after_seek < 0 || after_seek > 0x7FFF_FFFF_FFFF_FFFF {
        return Err(WharfError::InvalidSeek);
    }
    Ok((out, after_seek as u64))
}

/// What the steps of a bsdiff file, read from `s`, make of the old file
/// `old` from position `pos` on: the new bytes and the number of bytes the
/// steps take, end marker included.
pub open spec fn spec_apply_bsdiff(s: Seq<u8>, old: Seq<u8>, pos: int) -> Result<(Seq<u8>, nat), WharfError>
    decreases s.len(),
{
    match spec_next_bsdiff_op(s) {
        Step::Failed(e) => Err(e),
        Step::End(n) => Ok((seq![], n)),
        Step::Item(c, n) => if n == 0 || n > s.len() {
            Err(WharfError::Stream(StreamError::UnexpectedEof))
        } else {
            match spec_bsdiff_step(c, old, pos) {
                Err(e) => Err(e),
                Ok((bytes, p)) => match spec_apply_bsdiff(s.skip(n as int), old, p) {
                    Err(e) => Err(e),
                    Ok((rest, m)) => Ok((bytes + rest, n + m)),
                },
            }
        },
    }
}

proof fn lemma_next_bsdiff_op_len(s: Seq<u8>)
    ensures
        spec_next_bsdiff_op(s) matches Step::End(n) ==> n <= s.len(),
        spec_next_bsdiff_op(s) matches Step::Item(c, n) ==> 1 <= n <= s.len(),
{
    lemma_read_delimited_progress(s);
    match spec_read_delimited(s) {
        Ok((m, n)) => {
            lemma_read_delimited_progress(s.skip(n as int));
        },
        Err(_) => {},
    }
}

proof fn lemma_apply_bsdiff_len(s: Seq<u8>, old: Seq<u8>, pos: int)
    ensures
        spec_apply_bsdiff(s, old, pos) matches Ok((b, m)) ==> m <= s.len(),
    decreases s.len(),
{
    lemma_next_bsdiff_op_len(s);
    match spec_next_bsdiff_op(s) {
        Step::Item(c, n) => {
            if 0 < n <= s.len() {
                match spec_bsdiff_step(c, old, pos) {
                    Ok((bytes, p)) => {
                        lemma_apply_bsdiff_len(s.skip(n as int), old, p);
                    },
                    Err(_) => {},
                }
            }
        },
        _ => {},
    }
}

/// Applies the steps of a bsdiff file to the old file: the new file's bytes.
#[verifier::rlimit(50)]
fn apply_bsdiff(iter: &mut SyncEntryIter, old_file: &Vec<u8>) -> (r: Result<Vec<u8>, WharfError>)
    requires
        old(iter).wf(),
    ensures
        final(iter).wf(),
        match spec_apply_bsdiff(old(iter).remaining(), old_file@, 0) {
            Ok((b, m)) => r matches Ok(x) && x@ == b && final(iter).remaining() == old(
                iter,
            ).remaining().skip(m as int),
            Err(e) => r matches Err(x) && x == e,
        },
{
    let ghost s0 = iter.remaining();
    let ghost mut c: nat = 0;
    let mut pos: u64 = 0;
    let mut out: Vec<u8> = Vec::new();
    proof {
        assert(s0.skip(0) =~= s0);
        match spec_apply_bsdiff(s0, old_file@, 0) {
            Ok((b, m)) => {
                assert(out@ + b =~= b);
            },
            Err(_) => {},
        }
    }
    loop
        invariant
            iter.wf(),
            s0 == old(iter).remaining(),
            c <= s0.len(),
            iter.remaining() == s0.skip(c as int),
            spec_apply_bsdiff(s0, old_file@, 0) == match spec_apply_bsdiff(
                iter.remaining(),
                old_file@,
                pos as int,
            ) {
                Err(e) => Err::<(Seq<u8>, nat), WharfError>(e),
                Ok((rest, m)) => Ok((out@ + rest, c + m)),
            },
        decreases iter.remaining().len(),
    {
        let ghost cur = iter.remaining();
        proof {
            lemma_next_bsdiff_op_len(cur);
        }
        match iter.next_bsdiff_op() {
            None => {
                proof {
                    let n = spec_next_bsdiff_op(cur)->End_0;
                    assert(out@ + seq![] =~= out@);
                    assert(s0.skip(c as int).skip(n as int) =~= s0.skip((c + n) as int));
                }
                return Ok(out);
            },
            Some(Err(e)) => {
                return Err(e);
            },
            Some(Ok(control)) => {
                let ghost n = spec_next_bsdiff_op(cur)->Item_1;
                let (bytes, next_pos) = bsdiff_step(&control, old_file, pos)?;
                let ghost before = out@;
                let mut bytes_mut = bytes;
                out.append(&mut bytes_mut);
                proof {
                    assert(s0.skip(c as int).skip(n as int) =~= s0.skip((c + n) as int));
                    match spec_apply_bsdiff(cur.skip(n as int), old_file@, next_pos as int) {
                        Ok((rest, m)) => {
                            assert(before + (bytes@ + rest) =~= out@ + rest);
                        },
                        Err(_) => {},
                    }
                    c = c + n;
                }
                pos = next_pos;
            },
        }
    }
}


/// What the operations of one file, read from `s` after its header `h`, make
/// of it: the index of the new file, its bytes, and the number of bytes the
/// operations take.
pub open spec fn spec_apply_file(
    s: Seq<u8>,
    h: SyncHeader,
    old: Seq<Option<Seq<u8>>>,
    new_count: nat,
) -> Result<(int, Seq<u8>, nat), WharfError> {
    match h {
        SyncHeader::Rsync { file_index } => if file_index < 0 || file_index >= new_count {
            Err(WharfError::InvalidNewFileIndex)
        } else {
            match spec_apply_rsync(s, old) {
                Err(e) => Err(e),
                Ok((b, m)) => Ok((file_index as int, b, m)),
            }
        },
        SyncHeader::Bsdiff { file_index, target_index } => if file_index < 0 || file_index
            >= new_count {
            Err(WharfError::InvalidNewFileIndex)
        } else if target_index < 0 || target_index >= old.len() {
            Err(WharfError::InvalidOldFileIndex)
        } else {
            match old[target_index as int] {
                None => Err(WharfError::OldFileUnavailable),
                Some(f) => match spec_apply_bsdiff(s, f, 0) {
                    Err(e) => Err(e),
                    Ok((b, m)) => Ok((file_index as int, b, m)),
                },
            }
        },
    }
}

/// What applying the operation stream `s` makes of the new build, given the
/// files of the old build and what has been written so far (`files`, one
/// entry per file of the new build; `None` for a file not written).
///
/// Each file's bytes replace what an earlier header wrote to the same file;
/// the first error ends the patch.
pub open spec fn spec_apply_entries(
    s: Seq<u8>,
    old: Seq<Option<Seq<u8>>>,
    files: Seq<Option<Seq<u8>>>,
) -> Result<Seq<Option<Seq<u8>>>, WharfError>
    decreases s.len(),
{
    match spec_next_header(s) {
        Step::End(_) => Ok(files),
        Step::Failed(e) => Err(e),
        Step::Item(h, n) => if n == 0 || n > s.len() {
            Err(WharfError::Stream(StreamError::UnexpectedEof))
        } else {
            match spec_apply_file(s.skip(n as int), h, old, files.len()) {
                Err(e) => Err(e),
                Ok((idx, bytes, m)) => if m > s.len() - n {
                    Err(WharfError::Stream(StreamError::UnexpectedEof))
                } else {
                    spec_apply_entries(
                        s.skip(n as int).skip(m as int),
                        old,
                        files.update(idx, Some(bytes)),
                    )
                },
            }
        },
    }
}

/// No file of the new build written yet.
pub open spec fn no_files(n: nat) -> Seq<Option<Seq<u8>>> {
    Seq::new(n, |i: int| None::<Seq<u8>>)
}

proof fn lemma_next_header_len(s: Seq<u8>)
    ensures
        spec_next_header(s) matches Step::Item(h, n) ==> 1 <= n <= s.len(),
{
    lemma_read_delimited_progress(s);
    match spec_read_delimited(s) {
        Ok((m, n)) => {
            lemma_read_delimited_progress(s.skip(n as int));
        },
        Err(_) => {},
    }
}

/// Applies the operations of one file, after its header.
fn apply_file(
    iter: &mut SyncEntryIter,
    h: SyncHeader,
    old_files: &Vec<Option<Vec<u8>>>,
    new_count: usize,
) -> (r: Result<(usize, Vec<u8>), WharfError>)
    requires
        old(iter).wf(),
    ensures
        final(iter).wf(),
        match spec_apply_file(old(iter).remaining(), h, files_contents(old_files@), new_count as nat) {
            Ok((idx, b, m)) => r matches Ok((i, x)) && i == idx && x@ == b && final(iter).remaining()
                == old(iter).remaining().skip(m as int),
            Err(e) => r matches Err(x) && x == e,
        },
{
    match h {
        SyncHeader::Rsync { file_index } => {
            if file_index < 0 || file_index as u64 >= new_count as u64 {
                return Err(WharfError::InvalidNewFileIndex);
            }
            let bytes = apply_rsync(iter, old_files)?;
            Ok((file_index as usize, bytes))
        },
        SyncHeader::Bsdiff { file_index, target_index } => {
            if file_index < 0 || file_index as u64 >= new_count as u64 {
                return Err(WharfError::InvalidNewFileIndex);
            }
            if target_index < 0 || target_index as u64 >= old_files.len() as u64 {
                return Err(WharfError::InvalidOldFileIndex);
            }
            match &old_files[target_index as usize] {
                None => Err(WharfError::OldFileUnavailable),
                Some(f) => {
                    let bytes = apply_bsdiff(iter, f)?;
                    Ok((file_index as usize, bytes))
                },
            }
        },
    }
}

/// Applies a patch to the files of an old build: the files of the new
/// build, one entry for each file of the new container, `None` for a file
/// the patch doesn't write.
///
/// `old_files` holds one entry for each file of the old container, `None`
/// for a file that couldn't be opened; it is an error only when an operation
/// reads it.
pub fn apply_patch(old_files: &Vec<Option<Vec<u8>>>, patch: &mut Patch) -> (r: Result<Vec<Option<Vec<u8>>>, WharfError>)
    requires
        old(patch).sync_op_iter.wf(),
    ensures
        final(patch).sync_op_iter.wf(),
        final(patch).header == old(patch).header,
        final(patch).container_old == old(patch).container_old,
        final(patch).container_new == old(patch).container_new,
        match spec_apply_entries(
            old(patch).sync_op_iter.remaining(),
            files_contents(old_files@),
            no_files(old(patch).container_new.files@.len()),
        ) {
            Ok(v) => r matches Ok(x) && files_contents(x@) == v,
            Err(e) => r matches Err(x) && x == e,
        },
{
    let ghost ov = files_contents(old_files@);
    let ghost s0 = patch.sync_op_iter.remaining();
    let new_count = patch.container_new.files.len();
    let mut files: Vec<Option<Vec<u8>>> = Vec::new();
    let mut i: usize = 0;
    while i < new_count
        invariant
            i <= new_count,
            files@.len() == i,
            forall|j: int| 0 <= j < i ==> files@[j] is None,
        decreases new_count - i,
    {
        files.push(None);
        i = i + 1;
    }
    proof {
        assert(files_contents(files@) =~= no_files(new_count as nat));
    }
    loop
        invariant
            patch.sync_op_iter.wf(),
            patch.header == old(patch).header,
            patch.container_old == old(patch).container_old,
            patch.container_new == old(patch).container_new,
            new_count == old(patch).container_new.files@.len(),
            ov == files_contents(old_files@),
            files@.len() == new_count,
            s0 == old(patch).sync_op_iter.remaining(),
            spec_apply_entries(s0, ov, no_files(new_count as nat)) == spec_apply_entries(
                patch.sync_op_iter.remaining(),
                ov,
                files_contents(files@),
            ),
        decreases patch.sync_op_iter.remaining().len(),
    {
        let ghost cur = patch.sync_op_iter.remaining();
        proof {
            lemma_next_header_len(cur);
        }
        let header = match patch.sync_op_iter.next_header() {
            None => {
                return Ok(files);
            },
            Some(Err(e)) => {
                return Err(e);
            },
            Some(Ok(h)) => h,
        };
        let ghost n = spec_next_header(cur)->Item_1;
        let ghost after_header = patch.sync_op_iter.remaining();
        proof {
            lemma_apply_file_len(after_header, header, ov, new_count as nat);
        }
        let (index, bytes) = apply_file(&mut patch.sync_op_iter, header, old_files, new_count)?;
        let ghost before = files@;
        files.set(index, Some(bytes));
        proof {
            assert(files_contents(files@) =~= files_contents(before).update(index as int, Some(bytes@)));
        }
    }
}

proof fn lemma_apply_file_len(s: Seq<u8>, h: SyncHeader, old: Seq<Option<Seq<u8>>>, new_count: nat)
    ensures
        spec_apply_file(s, h, old, new_count) matches Ok((idx, b, m)) ==> m <= s.len() && 0 <= idx
            < new_count,
{
    lemma_apply_rsync_len(s, old);
    match h {
        SyncHeader::Bsdiff { file_index, target_index } => {
            if 0 <= target_index < old.len() {
                match old[target_index as int] {
                    Some(f) => {
                        lemma_apply_bsdiff_len(s, f, 0);
                    },
                    None => {},
                }
            }
        },
        _ => {},
    }
}


/// A file that starts with the signature magic number is never read as a
/// patch.
pub proof fn signature_file_is_not_a_patch(s: Seq<u8>)
    requires
        s.len() >= 4,
        le_u32(s.take(4)) == SIGNATURE_MAGIC,
    ensures
        spec_read_patch(s) == Err::<(PatchHeader, SpecContainer, SpecContainer, Seq<u8>), WharfError>(
            WharfError::BadMagic,
        ),
{
}

/// The entries of a patch alternate: after the end marker of a file's
/// operations (and at the start) comes a header, or the end of the stream;
/// otherwise an operation, which ends the file's sequence exactly when it is
/// the end marker.
pub proof fn sync_entries_alternate(s: Seq<u8>, finished: bool)
    ensures
        spec_next_entry(s, finished).0 is End ==> finished && s.len() == 0,
        finished ==> (spec_next_entry(s, finished).0 matches Step::Item(e, n) ==> e is Header),
        !finished ==> (spec_next_entry(s, finished).0 matches Step::Item(e, n) ==> e is Op),
        spec_next_entry(s, finished).0 matches Step::Item(SpecSyncEntry::Op(op), n) ==> spec_next_entry(
            s,
            finished,
        ).1 == (op.spec_op_type() == SyncOpType::HeyYouDidIt),
        spec_next_entry(s, finished).0 matches Step::Item(SpecSyncEntry::Header { header, bsdiff_header }, n)
            ==> !spec_next_entry(s, finished).1 && (bsdiff_header is Some <==> header.spec_header_type()
            == SyncHeaderType::Bsdiff),
{
}

proof fn lemma_next_entry_len(s: Seq<u8>, finished: bool)
    ensures
        spec_next_entry(s, finished).0 matches Step::Item(e, n) ==> 1 <= n <= s.len(),
{
    lemma_next_header_len(s);
    lemma_read_delimited_progress(s);
}

/// The entries that calls of [`SyncEntryIter::next`] yield one after the
/// other from `s`, starting in the state `finished`, until the stream ends
/// or fails; and whether it ended (rather than failed).
pub open spec fn spec_entry_run(s: Seq<u8>, finished: bool) -> (Seq<SpecSyncEntry>, bool)
    decreases s.len(),
{
    match spec_next_entry(s, finished).0 {
        Step::End(_) => (seq![], true),
        Step::Failed(_) => (seq![], false),
        Step::Item(e, n) => if 0 < n <= s.len() {
            let rest = spec_entry_run(s.skip(n as int), spec_next_entry(s, finished).1);
            (seq![e] + rest.0, rest.1)
        } else {
            (seq![], false)
        },
    }
}

/// Whether `entries`, read from the state `finished`, follow the layout of a
/// patch: each file's header (with a bsdiff header exactly when it is of
/// the bsdiff type) comes first, then its operations, of which the last,
/// and only it, is the end marker.
pub open spec fn follows_patch_layout(entries: Seq<SpecSyncEntry>, finished: bool) -> bool
    decreases entries.len(),
{
    if entries.len() == 0 {
        true
    } else {
        match entries[0] {
            SpecSyncEntry::Header { header, bsdiff_header } => finished && (bsdiff_header is Some
                <==> header.spec_header_type() == SyncHeaderType::Bsdiff) && follows_patch_layout(
                entries.skip(1),
                false,
            ),
            SpecSyncEntry::Op(op) => !finished && follows_patch_layout(
                entries.skip(1),
                op.spec_op_type() == SyncOpType::HeyYouDidIt,
            ),
        }
    }
}

/// Over a whole run, the entries of a patch follow its layout, and the
/// stream ends only where a file's operations are finished: at the start
/// (from a finished state) or right after an end marker.
pub proof fn patch_entries_follow_the_layout(s: Seq<u8>, finished: bool)
    ensures
        follows_patch_layout(spec_entry_run(s, finished).0, finished),
        spec_entry_run(s, finished).1 ==> if spec_entry_run(s, finished).0.len() == 0 {
            finished
        } else {
            spec_entry_run(s, finished).0.last() matches SpecSyncEntry::Op(op) && op.spec_op_type()
                == SyncOpType::HeyYouDidIt
        },
    decreases s.len(),
{
    sync_entries_alternate(s, finished);
    lemma_next_entry_len(s, finished);
    match spec_next_entry(s, finished).0 {
        Step::Item(e, n) => {
            let next = spec_next_entry(s, finished).1;
            patch_entries_follow_the_layout(s.skip(n as int), next);
            let rest = spec_entry_run(s.skip(n as int), next);
            let run = seq![e] + rest.0;
            assert(run.skip(1) =~= rest.0);
            assert(run[0] == e);
            if rest.0.len() > 0 {
                assert(run.last() == rest.0.last());
            }
        },
        _ => {},
    }
}

/// A patch gives one entry for each file of the new build, whatever it
/// writes.
pub proof fn patched_build_has_one_entry_per_file(
    s: Seq<u8>,
    old: Seq<Option<Seq<u8>>>,
    files: Seq<Option<Seq<u8>>>,
)
    ensures
        spec_apply_entries(s, old, files) matches Ok(v) ==> v.len() == files.len(),
    decreases s.len(),
{
    lemma_next_header_len(s);
    match spec_next_header(s) {
        Step::Item(h, n) => {
            if 0 < n <= s.len() {
                lemma_apply_file_len(s.skip(n as int), h, old, files.len());
                match spec_apply_file(s.skip(n as int), h, old, files.len()) {
                    Ok((idx, bytes, m)) => {
                        if m <= s.len() - n {
                            patched_build_has_one_entry_per_file(
                                s.skip(n as int).skip(m as int),
                                old,
                                files.update(idx, Some(bytes)),
                            );
                        }
                    },
                    Err(_) => {},
                }
            }
        },
        _ => {},
    }
}

/// A bsdiff step writes as many bytes as it adds and copies.
pub proof fn bsdiff_step_writes_add_and_copy(c: SpecControl, old: Seq<u8>, pos: int)
    ensures
        spec_bsdiff_step(c, old, pos) matches Ok((bytes, p)) ==> bytes.len() == c.add.len()
            + c.copy.len(),
{
}

/// An rsync block range never copies more than the old file holds, nor
/// more than the blocks it spans.
pub proof fn block_range_stays_in_the_file(f: Seq<u8>, block_index: i64, block_span: i64)
    ensures
        spec_block_range(f, block_index, block_span).len() <= f.len(),
        spec_block_range(f, block_index, block_span).len() <= vstd::wrapping::u64_specs::wrapping_mul(
            block_span as u64,
            BLOCK_SIZE as u64,
        ),
{
}

/// A bsdiff step that succeeds from position `pos` of the old file writes
/// the added bytes (each old byte from `pos` on plus its diff byte, modulo
/// 256), then the copied bytes, and leaves the old file at `pos`, moved past
/// the bytes it read and then by the seek.
pub proof fn bsdiff_step_reads_adds_copies_and_seeks(c: SpecControl, old: Seq<u8>, pos: int)
    ensures
        spec_bsdiff_step(c, old, pos) matches Ok((bytes, p)) ==> {
            &&& p == pos + c.add.len() + c.seek
            &&& bytes.len() == c.add.len() + c.copy.len()
            &&& pos + c.add.len() <= old.len() || c.add.len() == 0
            &&& forall|i: int|
                0 <= i < c.add.len() ==> #[trigger] bytes[i] as int == (old[pos + i] as int
                    + c.add[i] as int) % 256
            &&& forall|j: int| 0 <= j < c.copy.len() ==> #[trigger] bytes[c.add.len() + j] == c.copy[j]
        },
{
}

/// An rsync block range within the old file copies exactly the blocks it
/// names: `block_span` whole blocks of `BLOCK_SIZE` bytes, starting with the
/// first byte of block `block_index`.
pub proof fn block_ranges_copy_the_named_blocks(f: Seq<u8>, block_index: i64, block_span: i64)
    requires
        0 <= block_index,
        0 <= block_span,
        (block_index + block_span) * BLOCK_SIZE <= f.len(),
        f.len() <= u64::MAX,
    ensures
        spec_block_range(f, block_index, block_span).len() == block_span * BLOCK_SIZE,
        forall|i: int|
            0 <= i < block_span * BLOCK_SIZE ==> #[trigger] spec_block_range(f, block_index, block_span)[i]
                == f[block_index * BLOCK_SIZE + i],
{
    let a = block_index as u64;
    let b = block_span as u64;
    assert(a as nat * (BLOCK_SIZE as u64) as nat == block_index * BLOCK_SIZE);
    assert(b as nat * (BLOCK_SIZE as u64) as nat == block_span * BLOCK_SIZE);
    assert((block_index * BLOCK_SIZE) % 0x1_0000_0000_0000_0000 == block_index * BLOCK_SIZE);
    assert((block_span * BLOCK_SIZE) % 0x1_0000_0000_0000_0000 == block_span * BLOCK_SIZE);
}

} // verus!
