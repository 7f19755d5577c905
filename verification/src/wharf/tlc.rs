//! The messages of the `tlc` Protobuf package: the description of a build's
//! files, directories and symbolic links.
use vstd::prelude::*;
use crate::wharf::protobuf::{
    all_delimited, all_varint, bytes_views, delimited_fields, fields_view, last_varint, occurrences,
    parse_embedded_fields, parse_fields, string_field, string_value, varint_field, SpecWireField, StreamError,
};
use crate::wharf::pwr::{spec_decoded, spec_embedded_decoded};

verus! {

/// `Dir { path = 1; mode = 2; }`
#[derive(Debug, Clone, PartialEq, Eq)]
pub struct Dir {
    pub path: String,
    pub mode: u32,
}

/// The mathematical form of a [`Dir`].
pub struct SpecDir {
    pub path: Seq<char>,
    pub mode: u32,
}

impl View for Dir {
    type V = SpecDir;

    open spec fn view(&self) -> SpecDir {
        SpecDir { path: self.path@, mode: self.mode }
    }
}

impl Dir {
    pub open spec fn spec_from_fields(fs: Seq<SpecWireField>) -> Option<SpecDir> {
        match string_value(fs, 1) {
            Some(path) => if all_varint(fs, 2) {
                Some(SpecDir { path, mode: last_varint(fs, 2) as u32 })
            } else {
                None
            },
            None => None,
        }
    }

    pub open spec fn spec_decode(bytes: Seq<u8>) -> Result<SpecDir, StreamError> {
        spec_embedded_decoded(bytes, |fs: Seq<SpecWireField>| Self::spec_from_fields(fs))
    }

    /// Decodes an encoded `Dir`, embedded in a `Container`.
    pub fn decode(bytes: &[u8]) -> (r: Result<Dir, StreamError>)
        ensures
            match Self::spec_decode(bytes@) {
                Ok(m) => r is Ok && r->Ok_0@ == m,
                Err(e) => r == Err::<Dir, StreamError>(e),
            },
    {
        let fs = parse_embedded_fields(bytes)?;
        let path = string_field(&fs, 1)?;
        let mode = varint_field(&fs, 2)?;
        Ok(Dir { path, mode: mode as u32 })
    }
}

/// `File { path = 1; mode = 2; size = 3; offset = 4; }`
#[derive(Debug, Clone, PartialEq, Eq)]
pub struct File {
    pub path: String,
    pub mode: u32,
    pub size: i64,
    pub offset: i64,
}

/// The mathematical form of a [`File`].
pub struct SpecFile {
    pub path: Seq<char>,
    pub mode: u32,
    pub size: i64,
    pub offset: i64,
}

impl View for File {
    type V = SpecFile;

    open spec fn view(&self) -> SpecFile {
        SpecFile { path: self.path@, mode: self.mode, size: self.size, offset: self.offset }
    }
}

impl File {
    pub open spec fn spec_from_fields(fs: Seq<SpecWireField>) -> Option<SpecFile> {
        match string_value(fs, 1) {
            Some(path) => if all_varint(fs, 2) && all_varint(fs, 3) && all_varint(fs, 4) {
                Some(
                    SpecFile {
                        path,
                        mode: last_varint(fs, 2) as u32,
                        size: last_varint(fs, 3) as i64,
                        offset: last_varint(fs, 4) as i64,
                    },
                )
            } else {
                None
            },
            None => None,
        }
    }

    pub open spec fn spec_decode(bytes: Seq<u8>) -> Result<SpecFile, StreamError> {
        spec_embedded_decoded(bytes, |fs: Seq<SpecWireField>| Self::spec_from_fields(fs))
    }

    /// Decodes an encoded `File`, embedded in a `Container`.
    pub fn decode(bytes: &[u8]) -> (r: Result<File, StreamError>)
        ensures
            match Self::spec_decode(bytes@) {
                Ok(m) => r is Ok && r->Ok_0@ == m,
                Err(e) => r == Err::<File, StreamError>(e),
            },
    {
        let fs = parse_embedded_fields(bytes)?;
        let path = string_field(&fs, 1)?;
        let mode = varint_field(&fs, 2)?;
        let size = varint_field(&fs, 3)?;
        let offset = varint_field(&fs, 4)?;
        Ok(File { path, mode: mode as u32, size: size as i64, offset: offset as i64 })
    }
}

/// `Symlink { path = 1; mode = 2; dest = 3; }`
#[derive(Debug, Clone, PartialEq, Eq)]
pub struct Symlink {
    pub path: String,
    pub mode: u32,
    pub dest: String,
}

/// The mathematical form of a [`Symlink`].
pub struct SpecSymlink {
    pub path: Seq<char>,
    pub mode: u32,
    pub dest: Seq<char>,
}

impl View for Symlink {
    type V = SpecSymlink;

    open spec fn view(&self) -> SpecSymlink {
        SpecSymlink { path: self.path@, mode: self.mode, dest: self.dest@ }
    }
}

impl Symlink {
    pub open spec fn spec_from_fields(fs: Seq<SpecWireField>) -> Option<SpecSymlink> {
        match (string_value(fs, 1), string_value(fs, 3)) {
            (Some(path), Some(dest)) => if all_varint(fs, 2) {
                Some(SpecSymlink { path, mode: last_varint(fs, 2) as u32, dest })
            } else {
                None
            },
            _ => None,
        }
    }

    pub open spec fn spec_decode(bytes: Seq<u8>) -> Result<SpecSymlink, StreamError> {
        spec_embedded_decoded(bytes, |fs: Seq<SpecWireField>| Self::spec_from_fields(fs))
    }

    /// Decodes an encoded `Symlink`, embedded in a `Container`.
    pub fn decode(bytes: &[u8]) -> (r: Result<Symlink, StreamError>)
        ensures
            match Self::spec_decode(bytes@) {
                Ok(m) => r is Ok && r->Ok_0@ == m,
                Err(e) => r == Err::<Symlink, StreamError>(e),
            },
    {
        let fs = parse_embedded_fields(bytes)?;
        let path = string_field(&fs, 1)?;
        let mode = varint_field(&fs, 2)?;
        let dest = string_field(&fs, 3)?;
        Ok(Symlink { path, mode: mode as u32, dest })
    }
}

/// Decodes each payload as a `File`; `None` when one doesn't decode.
pub open spec fn decode_files(occ: Seq<Seq<u8>>) -> Option<Seq<SpecFile>>
    decreases occ.len(),
{
    if occ.len() == 0 {
        Some(seq![])
    } else {
        match (decode_files(occ.drop_last()), File::spec_decode(occ.last())) {
            (Some(front), Ok(f)) => Some(front.push(f)),
            _ => None,
        }
    }
}

/// Decodes each payload as a `Dir`; `None` when one doesn't decode.
pub open spec fn decode_dirs(occ: Seq<Seq<u8>>) -> Option<Seq<SpecDir>>
    decreases occ.len(),
{
    if occ.len() == 0 {
        Some(seq![])
    } else {
        match (decode_dirs(occ.drop_last()), Dir::spec_decode(occ.last())) {
            (Some(front), Ok(d)) => Some(front.push(d)),
            _ => None,
        }
    }
}

/// Decodes each payload as a `Symlink`; `None` when one doesn't decode.
pub open spec fn decode_symlinks(occ: Seq<Seq<u8>>) -> Option<Seq<SpecSymlink>>
    decreases occ.len(),
{
    if occ.len() == 0 {
        Some(seq![])
    } else {
        match (decode_symlinks(occ.drop_last()), Symlink::spec_decode(occ.last())) {
            (Some(front), Ok(s)) => Some(front.push(s)),
            _ => None,
        }
    }
}

/// `Container { repeated files = 1; repeated dirs = 2; repeated symlinks = 3; size = 16; }`
#[derive(Debug, Clone, PartialEq, Eq)]
pub struct Container {
    pub files: Vec<File>,
    pub dirs: Vec<Dir>,
    pub symlinks: Vec<Symlink>,
    pub size: i64,
}

/// The mathematical form of a [`Container`].
pub struct SpecContainer {
    pub files: Seq<SpecFile>,
    pub dirs: Seq<SpecDir>,
    pub symlinks: Seq<SpecSymlink>,
    pub size: i64,
}

pub open spec fn files_view(v: Seq<File>) -> Seq<SpecFile> {
    v.map_values(|f: File| f@)
}

pub open spec fn dirs_view(v: Seq<Dir>) -> Seq<SpecDir> {
    v.map_values(|d: Dir| d@)
}

pub open spec fn symlinks_view(v: Seq<Symlink>) -> Seq<SpecSymlink> {
    v.map_values(|s: Symlink| s@)
}

impl View for Container {
    type V = SpecContainer;

    open spec fn view(&self) -> SpecContainer {
        SpecContainer {
            files: files_view(self.files@),
            dirs: dirs_view(self.dirs@),
            symlinks: symlinks_view(self.symlinks@),
            size: self.size,
        }
    }
}

/// Decodes every payload as a `File`.
fn decode_all_files(occ: &Vec<Vec<u8>>) -> (r: Result<Vec<File>, StreamError>)
    ensures
        match decode_files(bytes_views(occ@)) {
            Some(v) => r is Ok && files_view(r->Ok_0@) == v,
            None => r == Err::<Vec<File>, StreamError>(StreamError::InvalidMessage),
        },
{
    let ghost occ_view = bytes_views(occ@);
    let mut out: Vec<File> = Vec::new();
    let mut i: usize = 0;
    proof {
        assert(occ_view.take(0) =~= seq![]);
        assert(files_view(out@) =~= seq![]);
    }
    while i < occ.len()
        invariant
            i <= occ@.len(),
            occ_view == bytes_views(occ@),
            decode_files(occ_view.take(i as int)) == Some(files_view(out@)),
        decreases occ@.len() - i,
    {
        proof {
            assert(occ_view.take(i + 1).drop_last() =~= occ_view.take(i as int));
            assert(occ_view.take(i + 1).last() == occ@[i as int]@);
        }
        match File::decode(occ[i].as_slice()) {
            Ok(f) => {
                let ghost before = out@;
                out.push(f);
                proof {
                    assert(files_view(out@) =~= files_view(before).push(f@));
                }
            },
            Err(_) => {
                proof {
                    lemma_decode_files_none(occ_view, (i + 1) as nat);
                }
                return Err(StreamError::InvalidMessage);
            },
        }
        i = i + 1;
    }
    proof {
        assert(occ_view.take(i as int) =~= occ_view);
    }
    Ok(out)
}

proof fn lemma_decode_files_none(occ: Seq<Seq<u8>>, k: nat)
    requires
        k <= occ.len(),
        decode_files(occ.take(k as int)) is None,
    ensures
        decode_files(occ) is None,
    decreases occ.len() - k,
{
    if k < occ.len() {
        assert(occ.take((k + 1) as int).drop_last() =~= occ.take(k as int));
        lemma_decode_files_none(occ, k + 1);
    } else {
        assert(occ.take(k as int) =~= occ);
    }
}

/// Decodes every payload as a `Dir`.
fn decode_all_dirs(occ: &Vec<Vec<u8>>) -> (r: Result<Vec<Dir>, StreamError>)
    ensures
        match decode_dirs(bytes_views(occ@)) {
            Some(v) => r is Ok && dirs_view(r->Ok_0@) == v,
            None => r == Err::<Vec<Dir>, StreamError>(StreamError::InvalidMessage),
        },
{
    let ghost occ_view = bytes_views(occ@);
    let mut out: Vec<Dir> = Vec::new();
    let mut i: usize = 0;
    proof {
        assert(occ_view.take(0) =~= seq![]);
        assert(dirs_view(out@) =~= seq![]);
    }
    while i < occ.len()
        invariant
            i <= occ@.len(),
            occ_view == bytes_views(occ@),
            decode_dirs(occ_view.take(i as int)) == Some(dirs_view(out@)),
        decreases occ@.len() - i,
    {
        proof {
            assert(occ_view.take(i + 1).drop_last() =~= occ_view.take(i as int));
            assert(occ_view.take(i + 1).last() == occ@[i as int]@);
        }
        match Dir::decode(occ[i].as_slice()) {
            Ok(d) => {
                let ghost before = out@;
                out.push(d);
                proof {
                    assert(dirs_view(out@) =~= dirs_view(before).push(d@));
                }
            },
            Err(_) => {
                proof {
                    lemma_decode_dirs_none(occ_view, (i + 1) as nat);
                }
                return Err(StreamError::InvalidMessage);
            },
        }
        i = i + 1;
    }
    proof {
        assert(occ_view.take(i as int) =~= occ_view);
    }
    Ok(out)
}

proof fn lemma_decode_dirs_none(occ: Seq<Seq<u8>>, k: nat)
    requires
        k <= occ.len(),
        decode_dirs(occ.take(k as int)) is None,
    ensures
        decode_dirs(occ) is None,
    decreases occ.len() - k,
{
    if k < occ.len() {
        assert(occ.take((k + 1) as int).drop_last() =~= occ.take(k as int));
        lemma_decode_dirs_none(occ, k + 1);
    } else {
        assert(occ.take(k as int) =~= occ);
    }
}

/// Decodes every payload as a `Symlink`.
fn decode_all_symlinks(occ: &Vec<Vec<u8>>) -> (r: Result<Vec<Symlink>, StreamError>)
    ensures
        match decode_symlinks(bytes_views(occ@)) {
            Some(v) => r is Ok && symlinks_view(r->Ok_0@) == v,
            None => r == Err::<Vec<Symlink>, StreamError>(StreamError::InvalidMessage),
        },
{
    let ghost occ_view = bytes_views(occ@);
    let mut out: Vec<Symlink> = Vec::new();
    let mut i: usize = 0;
    proof {
        assert(occ_view.take(0) =~= seq![]);
        assert(symlinks_view(out@) =~= seq![]);
    }
    while i < occ.len()
        invariant
            i <= occ@.len(),
            occ_view == bytes_views(occ@),
            decode_symlinks(occ_view.take(i as int)) == Some(symlinks_view(out@)),
        decreases occ@.len() - i,
    {
        proof {
            assert(occ_view.take(i + 1).drop_last() =~= occ_view.take(i as int));
            assert(occ_view.take(i + 1).last() == occ@[i as int]@);
        }
        match Symlink::decode(occ[i].as_slice()) {
            Ok(s) => {
                let ghost before = out@;
                out.push(s);
                proof {
                    assert(symlinks_view(out@) =~= symlinks_view(before).push(s@));
                }
            },
            Err(_) => {
                proof {
                    lemma_decode_symlinks_none(occ_view, (i + 1) as nat);
                }
                return Err(StreamError::InvalidMessage);
            },
        }
        i = i + 1;
    }
    proof {
        assert(occ_view.take(i as int) =~= occ_view);
    }
    Ok(out)
}

proof fn lemma_decode_symlinks_none(occ: Seq<Seq<u8>>, k: nat)
    requires
        k <= occ.len(),
        decode_symlinks(occ.take(k as int)) is None,
    ensures
        decode_symlinks(occ) is None,
    decreases occ.len() - k,
{
    if k < occ.len() {
        assert(occ.take((k + 1) as int).drop_last() =~= occ.take(k as int));
        lemma_decode_symlinks_none(occ, k + 1);
    } else {
        assert(occ.take(k as int) =~= occ);
    }
}

impl Container {
    pub open spec fn spec_from_fields(fs: Seq<SpecWireField>) -> Option<SpecContainer> {
        if all_delimited(fs, 1) && all_delimited(fs, 2) && all_delimited(fs, 3) && all_varint(fs, 16) {
            match (
                decode_files(occurrences(fs, 1)),
                decode_dirs(occurrences(fs, 2)),
                decode_symlinks(occurrences(fs, 3)),
            ) {
                (Some(files), Some(dirs), Some(symlinks)) => Some(
                    SpecContainer { files, dirs, symlinks, size: last_varint(fs, 16) as i64 },
                ),
                _ => None,
            }
        } else {
            None
        }
    }

    pub open spec fn spec_decode(bytes: Seq<u8>) -> Result<SpecContainer, StreamError> {
        spec_decoded(bytes, |fs: Seq<SpecWireField>| Self::spec_from_fields(fs))
    }

    /// Decodes an encoded `Container`.
    pub fn decode(bytes: &[u8]) -> (r: Result<Container, StreamError>)
        ensures
            match Self::spec_decode(bytes@) {
                Ok(m) => r is Ok && r->Ok_0@ == m,
                Err(e) => r == Err::<Container, StreamError>(e),
            },
    {
        let fs = parse_fields(bytes)?;
        let file_bytes = delimited_fields(&fs, 1)?;
        let dir_bytes = delimited_fields(&fs, 2)?;
        let symlink_bytes = delimited_fields(&fs, 3)?;
        let size = varint_field(&fs, 16)?;
        let files = decode_all_files(&file_bytes)?;
        let dirs = decode_all_dirs(&dir_bytes)?;
        let symlinks = decode_all_symlinks(&symlink_bytes)?;
        Ok(Container { files, dirs, symlinks, size: size as i64 })
    }
}

/// Decoding the payloads of a container's files keeps one entry per
/// payload, in order, each the decoding of its payload; it fails exactly
/// when one payload doesn't decode.
pub proof fn decode_files_keeps_every_payload(occ: Seq<Seq<u8>>)
    ensures
        decode_files(occ) matches Some(v) ==> v.len() == occ.len() && forall|i: int|
            0 <= i < occ.len() ==> File::spec_decode(#[trigger] occ[i]) == Ok::<SpecFile, StreamError>(v[i]),
        decode_files(occ) is None <==> exists|i: int| 0 <= i < occ.len() && (File::spec_decode(#[trigger] occ[i]) is Err),
    decreases occ.len(),
{
    if occ.len() > 0 {
        decode_files_keeps_every_payload(occ.drop_last());
        let front = occ.drop_last();
        assert forall|i: int| 0 <= i < front.len() implies #[trigger] front[i] == occ[i] by {}
        match decode_files(occ) {
            Some(v) => {
                let fv = decode_files(front)->Some_0;
                assert(v == fv.push(File::spec_decode(occ.last())->Ok_0));
                assert forall|i: int| 0 <= i < occ.len() implies File::spec_decode(#[trigger] occ[i])
                    == Ok::<SpecFile, StreamError>(v[i]) by {
                    if i < front.len() {
                        assert(front[i] == occ[i]);
                        assert(v[i] == fv[i]);
                    }
                }
            },
            None => {},
        }
        if File::spec_decode(occ.last()) is Err {
            assert(File::spec_decode(occ[occ.len() - 1]) is Err);
        }
        if decode_files(front) is None {
            let j = choose|j: int| 0 <= j < front.len() && (File::spec_decode(#[trigger] front[j]) is Err);
            assert(File::spec_decode(occ[j]) is Err);
        }
        if exists|i: int| 0 <= i < occ.len() && (File::spec_decode(#[trigger] occ[i]) is Err) {
            let j = choose|j: int| 0 <= j < occ.len() && (File::spec_decode(#[trigger] occ[j]) is Err);
            if j < front.len() {
                assert(File::spec_decode(front[j]) is Err);
            }
        }
    }
}

/// Decoding the payloads of a container's folders keeps one entry per
/// payload, in order, each the decoding of its payload; it fails exactly
/// when one payload doesn't decode.
pub proof fn decode_dirs_keeps_every_payload(occ: Seq<Seq<u8>>)
    ensures
        decode_dirs(occ) matches Some(v) ==> v.len() == occ.len() && forall|i: int|
            0 <= i < occ.len() ==> Dir::spec_decode(#[trigger] occ[i]) == Ok::<SpecDir, StreamError>(v[i]),
        decode_dirs(occ) is None <==> exists|i: int| 0 <= i < occ.len() && (Dir::spec_decode(#[trigger] occ[i]) is Err),
    decreases occ.len(),
{
    if occ.len() > 0 {
        decode_dirs_keeps_every_payload(occ.drop_last());
        let front = occ.drop_last();
        assert forall|i: int| 0 <= i < front.len() implies #[trigger] front[i] == occ[i] by {}
        match decode_dirs(occ) {
            Some(v) => {
                let fv = decode_dirs(front)->Some_0;
                assert(v == fv.push(Dir::spec_decode(occ.last())->Ok_0));
                assert forall|i: int| 0 <= i < occ.len() implies Dir::spec_decode(#[trigger] occ[i])
                    == Ok::<SpecDir, StreamError>(v[i]) by {
                    if i < front.len() {
                        assert(front[i] == occ[i]);
                        assert(v[i] == fv[i]);
                    }
                }
            },
            None => {},
        }
        if Dir::spec_decode(occ.last()) is Err {
            assert(Dir::spec_decode(occ[occ.len() - 1]) is Err);
        }
        if decode_dirs(front) is None {
            let j = choose|j: int| 0 <= j < front.len() && (Dir::spec_decode(#[trigger] front[j]) is Err);
            assert(Dir::spec_decode(occ[j]) is Err);
        }
        if exists|i: int| 0 <= i < occ.len() && (Dir::spec_decode(#[trigger] occ[i]) is Err) {
            let j = choose|j: int| 0 <= j < occ.len() && (Dir::spec_decode(#[trigger] occ[j]) is Err);
            if j < front.len() {
                assert(Dir::spec_decode(front[j]) is Err);
            }
        }
    }
}

/// Decoding the payloads of a container's symbolic links keeps one entry per
/// payload, in order, each the decoding of its payload; it fails exactly
/// when one payload doesn't decode.
pub proof fn decode_symlinks_keeps_every_payload(occ: Seq<Seq<u8>>)
    ensures
        decode_symlinks(occ) matches Some(v) ==> v.len() == occ.len() && forall|i: int|
            0 <= i < occ.len() ==> Symlink::spec_decode(#[trigger] occ[i]) == Ok::<SpecSymlink, StreamError>(v[i]),
        decode_symlinks(occ) is None <==> exists|i: int| 0 <= i < occ.len() && (Symlink::spec_decode(#[trigger] occ[i]) is Err),
    decreases occ.len(),
{
    if occ.len() > 0 {
        decode_symlinks_keeps_every_payload(occ.drop_last());
        let front = occ.drop_last();
        assert forall|i: int| 0 <= i < front.len() implies #[trigger] front[i] == occ[i] by {}
        match decode_symlinks(occ) {
            Some(v) => {
                let fv = decode_symlinks(front)->Some_0;
                assert(v == fv.push(Symlink::spec_decode(occ.last())->Ok_0));
                assert forall|i: int| 0 <= i < occ.len() implies Symlink::spec_decode(#[trigger] occ[i])
                    == Ok::<SpecSymlink, StreamError>(v[i]) by {
                    if i < front.len() {
                        assert(front[i] == occ[i]);
                        assert(v[i] == fv[i]);
                    }
                }
            },
            None => {},
        }
        if Symlink::spec_decode(occ.last()) is Err {
            assert(Symlink::spec_decode(occ[occ.len() - 1]) is Err);
        }
        if decode_symlinks(front) is None {
            let j = choose|j: int| 0 <= j < front.len() && (Symlink::spec_decode(#[trigger] front[j]) is Err);
            assert(Symlink::spec_decode(occ[j]) is Err);
        }
        if exists|i: int| 0 <= i < occ.len() && (Symlink::spec_decode(#[trigger] occ[i]) is Err) {
            let j = choose|j: int| 0 <= j < occ.len() && (Symlink::spec_decode(#[trigger] occ[j]) is Err);
            if j < front.len() {
                assert(Symlink::spec_decode(front[j]) is Err);
            }
        }
    }
}

/// A decoded container keeps one file, folder and symbolic link for each
/// occurrence of its fields `1`, `2` and `3`, in order, each the decoding
/// of that occurrence's payload.
pub proof fn container_keeps_every_entry(fs: Seq<SpecWireField>)
    ensures
        Container::spec_from_fields(fs) matches Some(c) ==> {
            &&& c.files.len() == occurrences(fs, 1).len()
            &&& c.dirs.len() == occurrences(fs, 2).len()
            &&& c.symlinks.len() == occurrences(fs, 3).len()
            &&& forall|i: int|
                0 <= i < c.files.len() ==> File::spec_decode(#[trigger] occurrences(fs, 1)[i])
                    == Ok::<SpecFile, StreamError>(c.files[i])
            &&& forall|i: int|
                0 <= i < c.dirs.len() ==> Dir::spec_decode(#[trigger] occurrences(fs, 2)[i])
                    == Ok::<SpecDir, StreamError>(c.dirs[i])
            &&& forall|i: int|
                0 <= i < c.symlinks.len() ==> Symlink::spec_decode(
                    #[trigger] occurrences(fs, 3)[i],
                ) == Ok::<SpecSymlink, StreamError>(c.symlinks[i])
        },
{
    decode_files_keeps_every_payload(occurrences(fs, 1));
    decode_dirs_keeps_every_payload(occurrences(fs, 2));
    decode_symlinks_keeps_every_payload(occurrences(fs, 3));
}

} // verus!
