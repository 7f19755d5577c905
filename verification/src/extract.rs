//! Recognizing the archives that uploads come in.
use vstd::prelude::*;
use vstd::string::StringExecFns;
use crate::filesystem::{
    get_file_extension, get_file_stem, spec_path_extension, spec_path_file_stem, FilesystemError,
};

verus! {

/// What `str::to_lowercase` gives for `s`.
pub uninterp spec fn spec_to_lowercase(s: Seq<char>) -> Seq<char>;

/// Lowercases `s` with `str::to_lowercase`, which follows Unicode's
/// lowercase mapping. The contract claims only that the result depends on
/// the text alone.
#[verifier::external_body]
fn to_lowercase(s: &str) -> (r: String)
    ensures
        r@ == spec_to_lowercase(s@),
{
    s.to_lowercase()
}

/// The format of an archive, by its file name.
#[derive(Debug, Clone, Copy, PartialEq, Eq)]
pub enum ArchiveFormat {
    Zip,
    Tar,
    TarGz,
    TarBz2,
    TarXz,
    TarZst,
    Other,
}

/// Whether `s` ends with `suffix`.
pub open spec fn ends_with(s: Seq<char>, suffix: Seq<char>) -> bool {
    suffix.len() <= s.len() && s.subrange(s.len() - suffix.len(), s.len() as int) == suffix
}

/// The format of an archive whose lowercased extension is `ext` and whose
/// lowercased stem ends with `.tar` when `tar_stem` holds.
pub open spec fn spec_format(ext: Seq<char>, tar_stem: bool) -> ArchiveFormat {
    if ext == "zip"@ {
        ArchiveFormat::Zip
    } else if ext == "tar"@ {
        ArchiveFormat::Tar
    } else if (ext == "gz"@ && tar_stem) || ext == "tgz"@ || ext == "taz"@ {
        ArchiveFormat::TarGz
    } else if (ext == "bz2"@ && tar_stem) || ext == "tbz"@ || ext == "tbz2"@ || ext == "tz2"@ {
        ArchiveFormat::TarBz2
    } else if (ext == "xz"@ && tar_stem) || ext == "txz"@ {
        ArchiveFormat::TarXz
    } else if (ext == "zst"@ && tar_stem) || ext == "tzst"@ {
        ArchiveFormat::TarZst
    } else {
        ArchiveFormat::Other
    }
}

/// The format of the archive `file`: a file without an extension is no
/// archive (`Other`).
pub open spec fn spec_archive_format(file: Seq<char>) -> ArchiveFormat {
    match spec_path_extension(file) {
        None => ArchiveFormat::Other,
        Some(ext) => spec_format(
            spec_to_lowercase(ext),
            match spec_path_file_stem(file) {
                Some(stem) => ends_with(spec_to_lowercase(stem), ".tar"@),
                None => false,
            },
        ),
    }
}

fn str_ends_with(s: &str, suffix: &str) -> (r: bool)
    ensures
        r == ends_with(s@, suffix@),
{
    let n = s.unicode_len();
    let k = suffix.unicode_len();
    if k > n {
        return false;
    }
    let mut i: usize = 0;
    while i < k
        invariant
            k <= n,
            n == s@.len(),
            k == suffix@.len(),
            i <= k,
            forall|j: int| 0 <= j < i ==> s@[n - k + j] == suffix@[j],
        decreases k - i,
    {
        if s.get_char(n - k + i) != suffix.get_char(i) {
            proof {
                assert(s@.subrange(n - k, n as int)[i as int] != suffix@[i as int]);
            }
            return false;
        }
        i = i + 1;
    }
    proof {
        assert(s@.subrange(n - k, n as int) =~= suffix@);
    }
    true
}

fn is(s: &String, t: &str) -> (r: bool)
    ensures
        r == (s@ == t@),
{
    *s == String::from_str(t)
}

/// The format of the archive `file`, by its extension (and, for `gz`,
/// `bz2`, `xz` and `zst`, whether its stem ends with `.tar`), compared
/// without regard to case.
pub fn get_archive_format(file: &str) -> (r: Result<ArchiveFormat, FilesystemError>)
    ensures
        r == Ok::<ArchiveFormat, FilesystemError>(spec_archive_format(file@)),
{
    let extension = match get_file_extension(file) {
        Ok(e) => to_lowercase(e.as_str()),
        Err(_) => {
            return Ok(ArchiveFormat::Other);
        },
    };
    let stem = get_file_stem(file)?;
    let is_tar_compressed = str_ends_with(to_lowercase(stem.as_str()).as_str(), ".tar");
    let e = &extension;
    Ok(
        if is(e, "zip") {
            ArchiveFormat::Zip
        } else if is(e, "tar") {
            ArchiveFormat::Tar
        } else if (is(e, "gz") && is_tar_compressed) || is(e, "tgz") || is(e, "taz") {
            ArchiveFormat::TarGz
        } else if (is(e, "bz2") && is_tar_compressed) || is(e, "tbz") || is(e, "tbz2") || is(
            e,
            "tz2",
        ) {
            ArchiveFormat::TarBz2
        } else if (is(e, "xz") && is_tar_compressed) || is(e, "txz") {
            ArchiveFormat::TarXz
        } else if (is(e, "zst") && is_tar_compressed) || is(e, "tzst") {
            ArchiveFormat::TarZst
        } else {
            ArchiveFormat::Other
        },
    )
}

} // verus!
