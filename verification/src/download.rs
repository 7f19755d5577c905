//! The decisions of a resumable download: what to ask the server for, how
//! to read its answer, and whether the downloaded file is intact.
use vstd::prelude::*;
use vstd::string::StringExecFns;
use crate::itch_api::types::Upload;
use crate::wharf::signature::spec_md5;
use crate::text::{bytes_to_hex, decimal_digits, eq_ignore_ascii_case, hex_bytes, str_eq_ignore_ascii_case, u64_to_decimal};

verus! {

/// What the caller of a download is told as it goes.
#[derive(Debug, Clone, PartialEq, Eq)]
pub enum DownloadStatus {
    Warning(String),
    StartingDownload { bytes_to_download: u64 },
    DownloadProgress { downloaded_bytes: u64 },
    Extract,
}

/// What to do with a partial download of `downloaded_bytes` bytes of a file
/// of `download_size` bytes.
#[derive(Debug, Clone, Copy, PartialEq, Eq)]
pub enum DownloadPlan {
    /// Nothing is downloaded yet: the whole file is streamed.
    WholeFile,
    /// The file is complete: nothing more is downloaded.
    Complete,
    /// Part of the file is there: ask for the rest, from byte `from` on.
    RequestRange { from: u64 },
    /// The partial file is longer than the file: it is emptied and the
    /// whole file is streamed again.
    Restart,
}

/// Decides how to go on with a partial download.
pub fn plan_download(downloaded_bytes: u64, download_size: u64) -> (r: DownloadPlan)
    ensures
        r == plan_download_spec(downloaded_bytes, download_size),
{
    if downloaded_bytes == 0 {
        DownloadPlan::WholeFile
    } else if downloaded_bytes == download_size {
        DownloadPlan::Complete
    } else if downloaded_bytes < download_size {
        DownloadPlan::RequestRange { from: downloaded_bytes }
    } else {
        DownloadPlan::Restart
    }
}

/// What to do with the server's answer to a range request.
#[derive(Debug, Clone, Copy, PartialEq, Eq)]
pub enum RangeOutcome {
    /// `206 Partial Content`: the server sends the requested range.
    UsePartial,
    /// `200 OK`: the server doesn't support ranges, so the partial file is
    /// emptied and the whole file is downloaded.
    Restart,
    /// Any other status: the download fails.
    Fail { status: u16 },
}

/// Reads the HTTP status of the answer to a range request.
pub fn range_outcome(status: u16) -> (r: RangeOutcome)
    ensures
        r == (if status == 206 {
            RangeOutcome::UsePartial
        } else if status == 200 {
            RangeOutcome::Restart
        } else {
            RangeOutcome::Fail { status }
        }),
{
    if status == 206 {
        RangeOutcome::UsePartial
    } else if status == 200 {
        RangeOutcome::Restart
    } else {
        RangeOutcome::Fail { status }
    }
}

/// The value of the `Range` header that asks for everything from byte
/// `start` on.
pub open spec fn range_header(start: u64) -> Seq<char> {
    "bytes="@ + decimal_digits(start as nat) + "-"@
}

/// Writes the `Range` header value that asks for everything from byte
/// `start` on: `bytes={start}-`.
pub fn range_header_value(start: u64) -> (r: String)
    ensures
        r@ == range_header(start),
{
    String::from_str("bytes=").concat(u64_to_decimal(start).as_str()).concat("-")
}

/// Whether the MD5 digest `digest` of the downloaded file matches the hash
/// `expected` that the server gave: the digest in hexadecimal must equal
/// the hash, regardless of ASCII case.
pub fn hash_matches(digest: &[u8], expected: &str) -> (r: bool)
    ensures
        r == eq_ignore_ascii_case(hex_bytes(digest@), expected@),
{
    let hex = bytes_to_hex(digest);
    str_eq_ignore_ascii_case(hex.as_str(), expected)
}

/// An `md5::Md5` hasher, held opaquely: Verus refuses a declaration of its
/// type (a `digest` `CoreWrapper` over `typenum` bounds).
#[verifier::external_body]
pub struct Md5Hasher {
    hasher: md5::Md5,
}

/// The bytes an [`Md5Hasher`] has been fed, in order.
pub uninterp spec fn md5_hasher_fed(h: Md5Hasher) -> Seq<u8>;

/// Makes a hasher with `<md5::Md5 as Digest>::new`. The contract claims that
/// it has been fed nothing.
#[verifier::external_body]
fn md5_hasher_new() -> (r: Md5Hasher)
    ensures
        md5_hasher_fed(r) == Seq::<u8>::empty(),
{
    Md5Hasher { hasher: <md5::Md5 as md5::Digest>::new() }
}

/// Feeds `chunk` to the hasher with `Digest::update`. The contract claims
/// that the chunk is appended to what the hasher has been fed.
#[verifier::external_body]
fn md5_hasher_update(h: &mut Md5Hasher, chunk: &[u8])
    ensures
        md5_hasher_fed(*final(h)) == md5_hasher_fed(*old(h)) + chunk@,
{
    md5::Digest::update(&mut h.hasher, chunk)
}

/// Finishes the hasher with `Digest::finalize`. The contract claims that the
/// digest is the MD5 digest of everything fed, the same that
/// `Md5::digest` gives for those bytes at once (`Digest::digest` is `new`,
/// `update` and `finalize`), sixteen bytes long.
#[verifier::external_body]
fn md5_hasher_finalize(h: Md5Hasher) -> (r: Vec<u8>)
    ensures
        r@ == spec_md5(md5_hasher_fed(h)),
        r@.len() == 16,
{
    md5::Digest::finalize(h.hasher).to_vec()
}

/// The MD5 digest of a file that arrives in chunks.
pub struct Md5Stream {
    hasher: Md5Hasher,
}

impl Md5Stream {
    /// The bytes fed so far, in order.
    pub closed spec fn fed(&self) -> Seq<u8> {
        md5_hasher_fed(self.hasher)
    }

    /// A stream that has been fed nothing.
    pub fn new() -> (r: Md5Stream)
        ensures
            r.fed() == Seq::<u8>::empty(),
    {
        Md5Stream { hasher: md5_hasher_new() }
    }

    /// Feeds the next chunk of the file.
    pub fn update(&mut self, chunk: &[u8])
        ensures
            final(self).fed() == old(self).fed() + chunk@,
    {
        md5_hasher_update(&mut self.hasher, chunk);
    }

    /// The MD5 digest of everything fed.
    pub fn finalize(self) -> (r: Vec<u8>)
        ensures
            r@ == spec_md5(self.fed()),
            r@.len() == 16,
    {
        md5_hasher_finalize(self.hasher)
    }

    /// Whether the MD5 digest of everything fed matches the hash `expected`
    /// that the server gave, as [`hash_matches`] compares them.
    pub fn digest_matches(self, expected: &str) -> (r: bool)
        ensures
            r == eq_ignore_ascii_case(hex_bytes(spec_md5(self.fed())), expected@),
    {
        let digest = self.finalize();
        hash_matches(digest.as_slice(), expected)
    }
}

/// The hash a download of `upload` is checked against: the upload's MD5
/// hash, unless checking is skipped.
pub fn expected_hash(upload: &Upload, skip_hash_verification: bool) -> (r: Option<&str>)
    ensures
        match r {
            Some(h) => !skip_hash_verification && upload.spec_hash() == Some(h@),
            None => skip_hash_verification || upload.spec_hash() is None,
        },
{
    if skip_hash_verification {
        None
    } else {
        upload.get_hash()
    }
}

/// The warning given once a download is done: checking was skipped, or the
/// upload has no hash to check against.
pub open spec fn spec_download_warning(skip_hash_verification: bool, has_hash: bool) -> Option<Seq<char>> {
    if skip_hash_verification {
        Some("Skipping hash verification! The file integrity won't be checked!"@)
    } else if !has_hash {
        Some("Missing md5 hash. Couldn't verify the file integrity!"@)
    } else {
        None
    }
}

/// The warning given once a download is done, if any.
pub fn download_warning(skip_hash_verification: bool, has_hash: bool) -> (r: Option<DownloadStatus>)
    ensures
        match spec_download_warning(skip_hash_verification, has_hash) {
            Some(w) => r matches Some(DownloadStatus::Warning(x)) && x@ == w,
            None => r is None,
        },
{
    if skip_hash_verification {
        Some(
            DownloadStatus::Warning(
                String::from_str("Skipping hash verification! The file integrity won't be checked!"),
            ),
        )
    } else if !has_hash {
        Some(
            DownloadStatus::Warning(
                String::from_str("Missing md5 hash. Couldn't verify the file integrity!"),
            ),
        )
    } else {
        None
    }
}

/// Where a seek of a reader over a download moves to.
#[derive(Debug, Clone, Copy, PartialEq, Eq)]
pub enum SeekPosition {
    /// That many bytes from the start.
    Start(u64),
    /// That many bytes from the end (usually a negative number).
    End(i64),
    /// That many bytes from the current position.
    Current(i64),
}

/// Why a seek is refused.
#[derive(Debug, Clone, Copy, PartialEq, Eq)]
pub enum SeekError {
    /// The position would be before the start, or past `u64::MAX`.
    BeforeStartOrOverflow,
    /// The position would be past the end of the data.
    PastEnd,
}

/// The position that a seek to `position` reaches in data of `len` bytes,
/// from the position `pos`.
pub open spec fn spec_seek(len: u64, pos: u64, position: SeekPosition) -> Result<u64, SeekError> {
    let target: int = match position {
        SeekPosition::Start(p) => p as int,
        SeekPosition::End(o) => len + o,
        SeekPosition::Current(o) => pos + o,
    };
    if target < 0 || target > u64::MAX {
        Err(SeekError::BeforeStartOrOverflow)
    } else if target > len {
        Err(SeekError::PastEnd)
    } else {
        Ok(target as u64)
    }
}

/// The position that a seek reaches, refused when it falls before the start
/// or past the end of the data.
pub fn seek_target(len: u64, pos: u64, position: SeekPosition) -> (r: Result<u64, SeekError>)
    ensures
        r == spec_seek(len, pos, position),
{
    let target = match position {
        SeekPosition::Start(p) => p,
        SeekPosition::End(o) => match len.checked_add_signed(o) {
            Some(t) => t,
            None => {
                return Err(SeekError::BeforeStartOrOverflow);
            },
        },
        SeekPosition::Current(o) => match pos.checked_add_signed(o) {
            Some(t) => t,
            None => {
                return Err(SeekError::BeforeStartOrOverflow);
            },
        },
    };
    if target > len {
        return Err(SeekError::PastEnd);
    }
    Ok(target)
}


/// A seek that succeeds stays within the data; a seek from the start to a
/// position within the data reaches exactly that position.
pub proof fn seeks_stay_within_the_data(len: u64, pos: u64, position: SeekPosition)
    ensures
        spec_seek(len, pos, position) matches Ok(t) ==> t <= len,
        position matches SeekPosition::Start(p) ==> (p <= len ==> spec_seek(len, pos, position)
            == Ok::<u64, SeekError>(p)),
{
}

/// A download resumes exactly where the partial file ends, asks for nothing
/// when the file is complete, and starts over only when nothing is there
/// yet or the partial file is longer than the file.
pub proof fn downloads_resume_where_they_stopped(downloaded_bytes: u64, download_size: u64)
    ensures
        plan_download_spec(downloaded_bytes, download_size) is Complete <==> downloaded_bytes
            == download_size && downloaded_bytes > 0,
        plan_download_spec(downloaded_bytes, download_size) is RequestRange <==> 0 < downloaded_bytes
            < download_size,
        plan_download_spec(downloaded_bytes, download_size) matches DownloadPlan::RequestRange { from }
            ==> from == downloaded_bytes,
        plan_download_spec(downloaded_bytes, download_size) is Restart <==> downloaded_bytes
            > download_size,
{
}

/// The plan [`plan_download`] makes.
pub open spec fn plan_download_spec(downloaded_bytes: u64, download_size: u64) -> DownloadPlan {
    if downloaded_bytes == 0 {
        DownloadPlan::WholeFile
    } else if downloaded_bytes == download_size {
        DownloadPlan::Complete
    } else if downloaded_bytes < download_size {
        DownloadPlan::RequestRange { from: downloaded_bytes }
    } else {
        DownloadPlan::Restart
    }
}

/// A seek relative to the end or to the current position reaches that
/// offset from there, exactly when the result lies within the data; two
/// seeks from the current position add up.
pub proof fn relative_seeks_add_their_offsets(len: u64, pos: u64, a: i64, b: i64)
    ensures
        spec_seek(len, pos, SeekPosition::End(a)) matches Ok(t) ==> t == len + a,
        spec_seek(len, pos, SeekPosition::Current(a)) matches Ok(t) ==> t == pos + a,
        0 <= len + a <= len ==> spec_seek(len, pos, SeekPosition::End(a)) == Ok::<u64, SeekError>(
            (len + a) as u64,
        ),
        0 <= pos + a <= len ==> spec_seek(len, pos, SeekPosition::Current(a)) == Ok::<u64, SeekError>(
            (pos + a) as u64,
        ),
        spec_seek(len, pos, SeekPosition::Current(a)) matches Ok(t) ==> (spec_seek(
            len,
            t,
            SeekPosition::Current(b),
        ) matches Ok(u) ==> u == pos + a + b),
{
}

} // verus!
