//! Signature files: the hashes of every block of every file of a build.
use vstd::prelude::*;
use vstd::slice::slice_to_vec;
use vstd::slice::slice_subrange;
use crate::wharf::common::{
    BLOCK_SIZE, PATCH_MAGIC,
    check_magic_bytes, decompress_stream, read_message_bytes, spec_check_magic, spec_decompress,
    spec_read_message, WharfError, SIGNATURE_MAGIC,
};
use crate::wharf::protobuf::{le_u32, bytes_views, lemma_read_delimited_progress, spec_read_delimited, ByteReader};
use crate::wharf::pwr::{BlockHash, SignatureHeader, SpecBlockHash};
use crate::wharf::tlc::{Container, SpecContainer};

verus! {

/// One step of a stream of messages: the stream ended after `n` more bytes,
/// an item was read from `n` bytes, or reading failed.
pub enum Step<T> {
    End(nat),
    Item(T, nat),
    Failed(WharfError),
}

/// The hashes of a signature's blocks, read one after the other from the
/// decompressed body, until it ends.
pub struct BlockHashIter {
    reader: ByteReader,
}

/// What the next call of [`BlockHashIter::next`] gives when `s` is left.
pub open spec fn spec_next_block_hash(s: Seq<u8>) -> Step<SpecBlockHash> {
    if s.len() == 0 {
        Step::End(0)
    } else {
        match spec_read_message(s, |m: Seq<u8>| BlockHash::spec_decode(m)) {
            Err(e) => Step::Failed(e),
            Ok((h, n)) => Step::Item(h, n),
        }
    }
}

impl BlockHashIter {
    /// The bytes that haven't been read yet.
    pub closed spec fn remaining(&self) -> Seq<u8> {
        self.reader.remaining()
    }

    pub closed spec fn wf(&self) -> bool {
        self.reader.wf()
    }

    /// An iterator over the hashes encoded in `bytes`.
    pub fn new(bytes: Vec<u8>) -> (r: BlockHashIter)
        ensures
            r.wf(),
            r.remaining() == bytes@,
    {
        BlockHashIter { reader: ByteReader::new(bytes) }
    }

    /// The next block hash, or `None` once the stream has ended.
    pub fn next(&mut self) -> (r: Option<Result<BlockHash, WharfError>>)
        requires
            old(self).wf(),
        ensures
            final(self).wf(),
            match spec_next_block_hash(old(self).remaining()) {
                Step::End(n) => r is None && final(self).remaining() == old(self).remaining(),
                Step::Item(h, n) => r matches Some(Ok(x)) && x@ == h && final(self).remaining()
                    == old(self).remaining().skip(n as int),
                Step::Failed(e) => r == Some(Err::<BlockHash, WharfError>(e)),
            },
            spec_next_block_hash(old(self).remaining()) matches Step::Item(h, n) ==> 1 <= n
                <= old(self).remaining().len(),
    {
        proof {
            lemma_read_delimited_progress(self.reader.remaining());
        }
        if self.reader.is_at_end() {
            return None;
        }
        let ghost s = self.reader.remaining();
        let bytes = match read_message_bytes(&mut self.reader) {
            Ok(b) => b,
            Err(e) => {
                return Some(Err(e));
            },
        };
        match BlockHash::decode(bytes.as_slice()) {
            Ok(h) => Some(Ok(h)),
            Err(e) => Some(Err(WharfError::Stream(e))),
        }
    }
}

/// A decoded signature file: its header, the container that describes the
/// build, and the block hashes, which are read on demand.
pub struct Signature {
    pub header: SignatureHeader,
    pub container_new: Container,
    pub block_hash_iter: BlockHashIter,
}

/// What reading a signature file from `s` gives: the header, the container
/// and the bytes left for the block hashes.
///
/// The file is the magic number, a length-delimited `SignatureHeader`, then a
/// body compressed as the header says, which holds a length-delimited
/// `Container` followed by the length-delimited block hashes.
pub open spec fn spec_read_signature(s: Seq<u8>) -> Result<(SignatureHeader, SpecContainer, Seq<u8>), WharfError> {
    match spec_check_magic(s, SIGNATURE_MAGIC) {
        Err(e) => Err(e),
        Ok(_) => match spec_read_message(s.skip(4), |m: Seq<u8>| SignatureHeader::spec_decode(m)) {
            Err(e) => Err(e),
            Ok((header, n)) => match spec_signature_body(header, s.skip(4 + n as int)) {
                Err(e) => Err(e),
                Ok((container, rest)) => Ok((header, container, rest)),
            },
        },
    }
}

/// What the body of a signature file gives once its header is read: the
/// container and the bytes left for the block hashes.
pub open spec fn spec_signature_body(header: SignatureHeader, rest: Seq<u8>) -> Result<(SpecContainer, Seq<u8>), WharfError> {
    match header.compression {
        None => Err(WharfError::MissingCompression),
        Some(c) => match spec_decompress(c.spec_algorithm(), rest) {
            None => Err(WharfError::Decompression),
            Some(body) => match spec_read_message(body, |m: Seq<u8>| Container::spec_decode(m)) {
                Err(e) => Err(e),
                Ok((container, k)) => Ok((container, body.skip(k as int))),
            },
        },
    }
}

fn read_signature_body(header: SignatureHeader, rest: Vec<u8>) -> (r: Result<(Container, BlockHashIter), WharfError>)
    ensures
        match spec_signature_body(header, rest@) {
            Ok((container, left)) => r matches Ok((c, it)) && c@ == container && it.wf()
                && it.remaining() == left,
            Err(e) => r matches Err(x) && x == e,
        },
{
    let compression = match header.compression {
        Some(c) => c,
        None => {
            return Err(WharfError::MissingCompression);
        },
    };
    let body = decompress_stream(rest, compression.algorithm())?;
    let mut body_reader = ByteReader::new(body);
    let container_bytes = read_message_bytes(&mut body_reader)?;
    let container_new = match Container::decode(container_bytes.as_slice()) {
        Ok(c) => c,
        Err(e) => {
            return Err(WharfError::Stream(e));
        },
    };
    Ok((container_new, BlockHashIter { reader: body_reader }))
}

/// Reads a signature file.
pub fn read_signature(bytes: &[u8]) -> (r: Result<Signature, WharfError>)
    ensures
        match spec_read_signature(bytes@) {
            Ok((header, container, rest)) => r matches Ok(sig) && sig.header == header
                && sig.container_new@ == container && sig.block_hash_iter.wf()
                && sig.block_hash_iter.remaining() == rest,
            Err(e) => r matches Err(x) && x == e,
        },
{
    let ghost s = bytes@;
    let mut reader = ByteReader::new(slice_to_vec(bytes));
    check_magic_bytes(&mut reader, SIGNATURE_MAGIC)?;
    let header_bytes = read_message_bytes(&mut reader)?;
    let header = match SignatureHeader::decode(header_bytes.as_slice()) {
        Ok(h) => h,
        Err(e) => {
            return Err(WharfError::Stream(e));
        },
    };
    let ghost n = spec_read_delimited(s.skip(4))->Ok_0.1;
    proof {
        assert(s.skip(4).skip(n as int) =~= s.skip(4 + n as int));
    }
    let rest = reader.read_rest();
    let (container_new, block_hash_iter) = read_signature_body(header, rest)?;
    Ok(Signature { header, container_new, block_hash_iter })
}


/// What the MD5 digest of `bytes` is, as `md5::Md5::digest` computes it.
pub uninterp spec fn spec_md5(bytes: Seq<u8>) -> Seq<u8>;

/// Computes the MD5 digest of `bytes` with `md5::Md5::digest`. The contract
/// claims that the digest depends on the bytes alone and is sixteen bytes
/// long (its type fixes that length).
#[verifier::external_body]
fn md5_digest(bytes: &[u8]) -> (r: Vec<u8>)
    ensures
        r@ == spec_md5(bytes@),
        r@.len() == 16,
{
    <md5::Md5 as md5::Digest>::digest(bytes).to_vec()
}

/// The first block of `data`: its first `BLOCK_SIZE` bytes, or all of it
/// when it is shorter.
pub open spec fn first_block(data: Seq<u8>) -> Seq<u8> {
    if data.len() <= BLOCK_SIZE {
        data
    } else {
        data.take(BLOCK_SIZE as int)
    }
}

/// What checking the blocks of `data` against the hashes read from `s` gives:
/// the number of bytes of hashes taken. Each block's MD5 digest must be the
/// strong hash of the next block hash; an empty file has one (empty) block.
pub open spec fn spec_verify_blocks(s: Seq<u8>, data: Seq<u8>) -> Result<nat, WharfError>
    decreases data.len(),
{
    match spec_next_block_hash(s) {
        Step::End(_) => Err(WharfError::MissingBlockHash),
        Step::Failed(e) => Err(e),
        Step::Item(h, n) => if h.strong_hash != spec_md5(first_block(data)) {
            Err(WharfError::HashMismatch)
        } else if data.len() <= BLOCK_SIZE {
            Ok(n)
        } else {
            match spec_verify_blocks(s.skip(n as int), data.skip(BLOCK_SIZE as int)) {
                Err(e) => Err(e),
                Ok(m) => Ok(n + m),
            }
        },
    }
}

/// What checking one file, whose contents are `data` and whose size in the
/// container is `size`, against the hashes read from `s` gives.
pub open spec fn spec_verify_file(s: Seq<u8>, data: Seq<u8>, size: i64) -> Result<nat, WharfError> {
    if data.len() != size {
        Err(WharfError::SizeMismatch)
    } else {
        spec_verify_blocks(s, data)
    }
}

proof fn lemma_next_block_hash_len(s: Seq<u8>)
    ensures
        spec_next_block_hash(s) matches Step::Item(h, n) ==> 1 <= n <= s.len(),
{
    lemma_read_delimited_progress(s);
}

proof fn lemma_verify_blocks_len(s: Seq<u8>, data: Seq<u8>)
    ensures
        spec_verify_blocks(s, data) matches Ok(m) ==> m <= s.len(),
    decreases data.len(),
{
    lemma_next_block_hash_len(s);
    if data.len() > BLOCK_SIZE {
        match spec_next_block_hash(s) {
            Step::Item(h, n) => {
                lemma_verify_blocks_len(s.skip(n as int), data.skip(BLOCK_SIZE as int));
            },
            _ => {},
        }
    }
}

/// Checks the contents of one file of the build against the signature's
/// next block hashes, and its length against `size`.
pub fn verify_file(data: &Vec<u8>, size: i64, hashes: &mut BlockHashIter) -> (r: Result<(), WharfError>)
    requires
        old(hashes).wf(),
    ensures
        final(hashes).wf(),
        match spec_verify_file(old(hashes).remaining(), data@, size) {
            Ok(m) => r is Ok && final(hashes).remaining() == old(hashes).remaining().skip(m as int),
            Err(e) => r matches Err(x) && x == e,
        },
{
    if size < 0 || data.len() as u64 != size as u64 {
        return Err(WharfError::SizeMismatch);
    }
    let ghost s0 = hashes.remaining();
    let ghost mut c: nat = 0;
    let mut off: usize = 0;
    proof {
        assert(s0.skip(0) =~= s0);
        assert(data@.skip(0) =~= data@);
    }
    loop
        invariant
            hashes.wf(),
            s0 == old(hashes).remaining(),
            data@.len() == size,
            c <= s0.len(),
            off <= data@.len(),
            hashes.remaining() == s0.skip(c as int),
            spec_verify_blocks(s0, data@) == match spec_verify_blocks(
                hashes.remaining(),
                data@.skip(off as int),
            ) {
                Err(e) => Err::<nat, WharfError>(e),
                Ok(m) => Ok(c + m),
            },
        decreases data@.len() - off,
    {
        let ghost cur = hashes.remaining();
        let ghost rest = data@.skip(off as int);
        proof {
            lemma_next_block_hash_len(cur);
        }
        let end: usize = if data.len() - off <= BLOCK_SIZE { data.len() } else { off + BLOCK_SIZE };
        let block = slice_subrange(data.as_slice(), off, end);
        proof {
            assert(block@ =~= first_block(rest));
        }
        let digest = md5_digest(block);
        let expected = match hashes.next() {
            None => {
                return Err(WharfError::MissingBlockHash);
            },
            Some(Err(e)) => {
                return Err(e);
            },
            Some(Ok(h)) => h,
        };
        let ghost n = spec_read_delimited(cur)->Ok_0.1;
        if !bytes_equal(&expected.strong_hash, &digest) {
            return Err(WharfError::HashMismatch);
        }
        proof {
            assert(s0.skip(c as int).skip(n as int) =~= s0.skip((c + n) as int));
            c = c + n;
        }
        if end == data.len() {
            return Ok(());
        }
        proof {
            assert(data@.skip(end as int) =~= rest.skip(BLOCK_SIZE as int));
        }
        off = end;
    }
}

/// Whether two byte vectors hold the same bytes.
pub fn bytes_equal(a: &Vec<u8>, b: &Vec<u8>) -> (r: bool)
    ensures
        r == (a@ == b@),
{
    if a.len() != b.len() {
        return false;
    }
    let mut i: usize = 0;
    while i < a.len()
        invariant
            i <= a@.len(),
            a@.len() == b@.len(),
            forall|j: int| 0 <= j < i ==> a@[j] == b@[j],
        decreases a@.len() - i,
    {
        if a[i] != b[i] {
            return false;
        }
        i = i + 1;
    }
    proof {
        assert(a@ =~= b@);
    }
    true
}

/// What checking the files `files` (with the sizes `sizes`) one after the
/// other, from the `i`-th on, against the hashes read from `s` gives.
pub open spec fn spec_verify_files_from(
    s: Seq<u8>,
    files: Seq<Seq<u8>>,
    sizes: Seq<i64>,
    i: nat,
) -> Result<nat, WharfError>
    decreases files.len() - i,
{
    if i >= files.len() {
        Ok(0)
    } else {
        match spec_verify_file(s, files[i as int], sizes[i as int]) {
            Err(e) => Err(e),
            Ok(n) => if n > s.len() {
                Err(WharfError::MissingBlockHash)
            } else {
                match spec_verify_files_from(s.skip(n as int), files, sizes, i + 1) {
                    Err(e) => Err(e),
                    Ok(m) => Ok(n + m),
                }
            },
        }
    }
}

/// The sizes the container gives its files.
pub open spec fn container_sizes(c: SpecContainer) -> Seq<i64> {
    c.files.map_values(|f: crate::wharf::tlc::SpecFile| f.size)
}

/// Checks every file of the build, in the container's order, against the
/// signature. `files` holds the contents of each file of the signature's
/// container.
pub fn verify_files(files: &Vec<Vec<u8>>, signature: &mut Signature) -> (r: Result<(), WharfError>)
    requires
        old(signature).block_hash_iter.wf(),
        files@.len() == old(signature).container_new.files@.len(),
    ensures
        final(signature).block_hash_iter.wf(),
        final(signature).header == old(signature).header,
        final(signature).container_new == old(signature).container_new,
        match spec_verify_files_from(
            old(signature).block_hash_iter.remaining(),
            bytes_views(files@),
            container_sizes(old(signature).container_new@),
            0,
        ) {
            Ok(m) => r is Ok && final(signature).block_hash_iter.remaining() == old(
                signature,
            ).block_hash_iter.remaining().skip(m as int),
            Err(e) => r matches Err(x) && x == e,
        },
{
    let ghost s0 = signature.block_hash_iter.remaining();
    let ghost fv = bytes_views(files@);
    let ghost sizes = container_sizes(signature.container_new@);
    let ghost mut c: nat = 0;
    let mut i: usize = 0;
    proof {
        assert(s0.skip(0) =~= s0);
    }
    while i < files.len()
        invariant
            signature.block_hash_iter.wf(),
            signature.header == old(signature).header,
            signature.container_new == old(signature).container_new,
            s0 == old(signature).block_hash_iter.remaining(),
            fv == bytes_views(files@),
            sizes == container_sizes(signature.container_new@),
            files@.len() == signature.container_new.files@.len(),
            i <= files@.len(),
            c <= s0.len(),
            signature.block_hash_iter.remaining() == s0.skip(c as int),
            spec_verify_files_from(s0, fv, sizes, 0) == match spec_verify_files_from(
                signature.block_hash_iter.remaining(),
                fv,
                sizes,
                i as nat,
            ) {
                Err(e) => Err::<nat, WharfError>(e),
                Ok(m) => Ok(c + m),
            },
        decreases files@.len() - i,
    {
        let ghost cur = signature.block_hash_iter.remaining();
        let size = signature.container_new.files[i].size;
        proof {
            assert(sizes[i as int] == size);
            assert(fv[i as int] == files@[i as int]@);
            lemma_verify_blocks_len(cur, fv[i as int]);
        }
        verify_file(&files[i], size, &mut signature.block_hash_iter)?;
        proof {
            let n = spec_verify_file(cur, fv[i as int], size)->Ok_0;
            assert(s0.skip(c as int).skip(n as int) =~= s0.skip((c + n) as int));
            c = c + n;
        }
        i = i + 1;
    }
    proof {
        assert(spec_verify_files_from(signature.block_hash_iter.remaining(), fv, sizes, i as nat) == Ok::<nat, WharfError>(0));
    }
    Ok(())
}


/// The block hash stream ends exactly when no byte is left; otherwise the
/// next call yields a hash or an error.
pub proof fn block_hashes_end_exactly_at_the_end(s: Seq<u8>)
    ensures
        spec_next_block_hash(s) is End <==> s.len() == 0,
{
}

/// A file that starts with the patch magic number is never read as a
/// signature.
pub proof fn patch_file_is_not_a_signature(s: Seq<u8>)
    requires
        s.len() >= 4,
        le_u32(s.take(4)) == PATCH_MAGIC,
    ensures
        spec_read_signature(s) == Err::<(SignatureHeader, SpecContainer, Seq<u8>), WharfError>(
            WharfError::BadMagic,
        ),
{
}

/// The `k`-th block hash read from `s` (counting from zero), when the
/// stream holds that many.
pub open spec fn nth_block_hash(s: Seq<u8>, k: nat) -> Option<SpecBlockHash>
    decreases k,
{
    match spec_next_block_hash(s) {
        Step::Item(h, n) => if k == 0 {
            Some(h)
        } else if 0 < n <= s.len() {
            nth_block_hash(s.skip(n as int), (k - 1) as nat)
        } else {
            None
        },
        _ => None,
    }
}

/// The number of blocks a file of `len` bytes is split into: one for an
/// empty file, otherwise one per started `BLOCK_SIZE` bytes.
pub open spec fn block_count(len: nat) -> nat {
    if len == 0 {
        1
    } else {
        ((len + BLOCK_SIZE - 1) / (BLOCK_SIZE as int)) as nat
    }
}

/// The `k`-th block of `data`: the bytes from `k * BLOCK_SIZE` up to the
/// next block or the end of the data.
pub open spec fn nth_block(data: Seq<u8>, k: nat) -> Seq<u8> {
    let start = k * BLOCK_SIZE;
    let end = if start + BLOCK_SIZE <= data.len() { start + BLOCK_SIZE } else { data.len() as int };
    data.subrange(start as int, end)
}

/// A file that verifies has every block intact: the MD5 digest of its
/// `k`-th block is the strong hash of the `k`-th block hash read for it,
/// for every block, and its size is the one the container gives.
pub proof fn verified_files_have_every_block_intact(s: Seq<u8>, data: Seq<u8>, size: i64)
    ensures
        spec_verify_file(s, data, size) is Ok ==> data.len() == size && forall|k: nat|
            k < block_count(data.len()) ==> (#[trigger] nth_block_hash(s, k) matches Some(h)
                && h.strong_hash == spec_md5(nth_block(data, k))),
{
    if spec_verify_file(s, data, size) is Ok {
        lemma_verified_blocks_intact(s, data);
    }
}

proof fn lemma_verified_blocks_intact(s: Seq<u8>, data: Seq<u8>)
    requires
        spec_verify_blocks(s, data) is Ok,
    ensures
        forall|k: nat|
            k < block_count(data.len()) ==> (#[trigger] nth_block_hash(s, k) matches Some(h)
                && h.strong_hash == spec_md5(nth_block(data, k))),
    decreases data.len(),
{
    lemma_next_block_hash_len(s);
    match spec_next_block_hash(s) {
        Step::Item(h, n) => {
            assert(nth_block(data, 0) =~= first_block(data));
            if data.len() > BLOCK_SIZE {
                let rest = data.skip(BLOCK_SIZE as int);
                lemma_verified_blocks_intact(s.skip(n as int), rest);
                assert forall|k: nat| k < block_count(data.len()) implies (#[trigger] nth_block_hash(
                    s,
                    k,
                ) matches Some(h2) && h2.strong_hash == spec_md5(nth_block(data, k))) by {
                    if k > 0 {
                        let j = (k - 1) as nat;
                        assert(j < block_count(rest.len()));
                        assert(nth_block(rest, j) =~= nth_block(data, k));
                        assert(nth_block_hash(s.skip(n as int), j) == nth_block_hash(s, k));
                    }
                }
            } else {
                assert forall|k: nat| k < block_count(data.len()) implies (#[trigger] nth_block_hash(
                    s,
                    k,
                ) matches Some(h2) && h2.strong_hash == spec_md5(nth_block(data, k))) by {
                    assert(k == 0);
                }
            }
        },
        _ => {},
    }
}

/// A build that verifies has every file checked: each file, from the
/// `from`-th on, has the size the container gives and verifies against the
/// block hashes read from some point of the signature on.
pub proof fn verified_builds_check_every_file(
    s: Seq<u8>,
    files: Seq<Seq<u8>>,
    sizes: Seq<i64>,
    from: nat,
)
    ensures
        spec_verify_files_from(s, files, sizes, from) is Ok ==> forall|i: int|
            #![trigger files[i]]
            from <= i < files.len() ==> exists|o: int|
                0 <= o <= s.len() && (#[trigger] spec_verify_file(s.skip(o), files[i], sizes[i]))
                    is Ok,
    decreases files.len() - from,
{
    if spec_verify_files_from(s, files, sizes, from) is Ok && from < files.len() {
        let n = spec_verify_file(s, files[from as int], sizes[from as int])->Ok_0;
        let rest = s.skip(n as int);
        verified_builds_check_every_file(rest, files, sizes, from + 1);
        assert forall|i: int| #![trigger files[i]] from <= i < files.len() implies exists|o: int|
            0 <= o <= s.len() && (#[trigger] spec_verify_file(s.skip(o), files[i], sizes[i]))
                is Ok by {
            if i == from {
                assert(s.skip(0) =~= s);
                assert(spec_verify_file(s.skip(0), files[i], sizes[i]) is Ok);
            } else {
                let o2 = choose|o: int|
                    0 <= o <= rest.len() && (#[trigger] spec_verify_file(rest.skip(o), files[i], sizes[i]))
                        is Ok;
                assert(rest.skip(o2) =~= s.skip(n + o2));
                assert(spec_verify_file(s.skip(n + o2), files[i], sizes[i]) is Ok);
            }
        }
    }
}

} // verus!
