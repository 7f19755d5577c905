//! Where the files of installed games are kept.
use vstd::prelude::*;
use vstd::string::StringExecFns;
use crate::filesystem::{
    is_without_file_name, is_without_parent, OtherFilesystemErrorKind,
    get_file_name, parent, path_join, spec_path_file_name, spec_path_join, spec_path_parent,
    spec_path_with_file_name, FilesystemError,
};
use crate::text::{decimal_digits, hex_digits, u64_to_decimal, u64_to_hex};

verus! {

/// The folder, under the user's home, that holds the installed games.
pub open spec fn games_folder_name() -> Seq<char> {
    "Games"@
}

/// The folder of an upload: its ID, in decimal, inside the game's folder.
pub fn get_upload_folder(game_folder: &str, upload_id: u64) -> (r: String)
    ensures
        r@ == spec_path_join(game_folder@, decimal_digits(upload_id as nat)),
{
    let name = u64_to_decimal(upload_id);
    path_join(game_folder, name.as_str())
}

/// The name of the file an upload's archive is downloaded to:
/// `{upload_id}-download-{upload_filename}`.
pub open spec fn upload_archive_name(upload_id: u64, upload_filename: Seq<char>) -> Seq<char> {
    decimal_digits(upload_id as nat) + "-download-"@ + upload_filename
}

/// The path an upload's archive is downloaded to, inside the game's folder.
pub fn get_upload_archive_path(game_folder: &str, upload_id: u64, upload_filename: &str) -> (r: String)
    ensures
        r@ == spec_path_join(game_folder@, upload_archive_name(upload_id, upload_filename@)),
{
    let name = u64_to_decimal(upload_id).concat("-download-").concat(upload_filename);
    path_join(game_folder, name.as_str())
}

/// The path of the partial download of `file`: its file name with `.part`
/// appended.
pub fn add_part_extension(file: &str) -> (r: Result<String, FilesystemError>)
    ensures
        match spec_path_file_name(file@) {
            Some(n) => r matches Ok(p) && p@ == spec_path_with_file_name(file@, n + ".part"@),
            None => r matches Err(e) && is_without_file_name(e, file@),
        },
{
    let filename = get_file_name(file)?;
    let with_part = filename.concat(".part");
    Ok(crate::filesystem::with_file_name(file, with_part.as_str()))
}

/// The folder a game is installed to: `Games/{game_title}` in the user's
/// home folder.
pub fn get_game_folder(home_dir: &str, game_title: &str) -> (r: String)
    ensures
        r@ == spec_path_join(spec_path_join(home_dir@, games_folder_name()), game_title@),
{
    let games = path_join(home_dir, "Games");
    path_join(games.as_str(), game_title)
}

/// The `attempt`-th path tried for a file that must not overwrite `path`:
/// the file name with `attempt` appended in lowercase hexadecimal, in the
/// same folder.
pub fn available_path_candidate(path: &str, attempt: u64) -> (r: Result<String, FilesystemError>)
    ensures
        match (spec_path_parent(path@), spec_path_file_name(path@)) {
            (Some(p), Some(n)) => r matches Ok(c) && c@ == spec_path_join(
                p,
                n + hex_digits(attempt as nat),
            ),
            (None, _) => r matches Err(e) && is_without_parent(e, path@),
            (Some(_), None) => r matches Err(e) && is_without_file_name(e, path@),
        },
{
    let folder = parent(path)?;
    let filename = get_file_name(path)?;
    let candidate = filename.concat(u64_to_hex(attempt).as_str());
    Ok(path_join(folder.as_str(), candidate.as_str()))
}

/// The `attempt`-th candidate for a file that must not overwrite `path`, as
/// [`available_path_candidate`] builds it, when `path` has a folder and a
/// file name.
pub open spec fn spec_path_candidate(path: Seq<char>, attempt: nat) -> Option<Seq<char>> {
    match (spec_path_parent(path), spec_path_file_name(path)) {
        (Some(p), Some(n)) => Some(spec_path_join(p, n + hex_digits(attempt))),
        _ => None,
    }
}

/// The search for the first free path made from a file's path: candidates
/// are tried in order, and the caller reports each one it finds taken.
pub struct AvailablePathSearch {
    path: String,
    attempt: u64,
    taken: Ghost<Seq<Seq<char>>>,
}

impl AvailablePathSearch {
    /// The path the candidates are made from.
    pub closed spec fn path(&self) -> Seq<char> {
        self.path@
    }

    /// The candidates reported taken so far, in order.
    pub closed spec fn taken(&self) -> Seq<Seq<char>> {
        self.taken@
    }

    /// The candidates reported taken are the first ones, in order.
    pub closed spec fn wf(&self) -> bool {
        &&& self.taken@.len() == self.attempt
        &&& forall|i: int|
            0 <= i < self.taken@.len() ==> spec_path_candidate(self.path@, i as nat) == Some(
                #[trigger] self.taken@[i],
            )
    }

    /// A search from `path`, with nothing tried yet.
    pub fn new(path: &str) -> (r: AvailablePathSearch)
        ensures
            r.wf(),
            r.path() == path@,
            r.taken().len() == 0,
    {
        let taken: Ghost<Seq<Seq<char>>> = Ghost(Seq::empty());
        AvailablePathSearch { path: String::from_str(path), attempt: 0, taken }
    }

    /// The candidate to try now: the first one not reported taken. An error
    /// when the path has no folder or no file name.
    pub fn candidate(&self) -> (r: Result<String, FilesystemError>)
        requires
            self.wf(),
        ensures
            match spec_path_candidate(self.path(), self.taken().len()) {
                Some(c) => r matches Ok(x) && x@ == c,
                None => r matches Err(e) && (if spec_path_parent(self.path()) is None {
                    is_without_parent(e, self.path())
                } else {
                    is_without_file_name(e, self.path())
                }),
            },
    {
        available_path_candidate(self.path.as_str(), self.attempt)
    }

    /// Reports that the current candidate `candidate` is taken, so that the
    /// next one is tried; `false`, with nothing changed, when no further
    /// candidate can be numbered.
    pub fn report_taken(&mut self, candidate: &str) -> (r: bool)
        requires
            old(self).wf(),
            spec_path_candidate(old(self).path(), old(self).taken().len()) == Some(candidate@),
        ensures
            final(self).wf(),
            final(self).path() == old(self).path(),
            r ==> final(self).taken() == old(self).taken().push(candidate@),
            !r ==> final(self).taken() == old(self).taken(),
    {
        if self.attempt == u64::MAX {
            return false;
        }
        let ghost before = self.taken@;
        let taken: Ghost<Seq<Seq<char>>> = Ghost(before.push(candidate@));
        self.taken = taken;
        self.attempt = self.attempt + 1;
        proof {
            assert forall|i: int| 0 <= i < self.taken@.len() implies spec_path_candidate(
                self.path@,
                i as nat,
            ) == Some(#[trigger] self.taken@[i]) by {
                if i < before.len() {
                    assert(self.taken@[i] == before[i]);
                }
            }
        }
        true
    }
}

/// The search, in an extracted folder, for the deepest folder that the
/// folder only wraps: as long as the current root holds exactly one entry,
/// and that entry isn't a file, the search descends into it.
pub struct RootFolderSearch {
    last_root: String,
    descended: bool,
    roots: Ghost<Seq<Seq<char>>>,
}

impl RootFolderSearch {
    /// The folders gone through, from the extracted folder down to the
    /// current root.
    pub closed spec fn roots(&self) -> Seq<Seq<char>> {
        self.roots@
    }

    pub closed spec fn wf(&self) -> bool {
        &&& self.roots@.len() >= 1
        &&& self.roots@.last() == self.last_root@
        &&& self.descended == (self.roots@.len() > 1)
    }

    /// A search that starts at the extracted folder `folder`.
    pub fn new(folder: &str) -> (r: RootFolderSearch)
        ensures
            r.wf(),
            r.roots() == seq![folder@],
    {
        let roots: Ghost<Seq<Seq<char>>> = Ghost(Seq::empty().push(folder@));
        RootFolderSearch { last_root: String::from_str(folder), descended: false, roots }
    }

    /// The folder whose entries must be listed next.
    pub fn current_root(&self) -> (r: &str)
        requires
            self.wf(),
        ensures
            r@ == self.roots().last(),
    {
        self.last_root.as_str()
    }

    /// Takes in the listing of the current root: its first entry (its path,
    /// and whether it is a file), if any, and whether there are more. The
    /// search descends into that entry, and says so, exactly when it is the
    /// only one and isn't a file.
    pub fn descend(&mut self, first_entry: Option<(String, bool)>, more_entries: bool) -> (r: bool)
        requires
            old(self).wf(),
        ensures
            final(self).wf(),
            r == (first_entry matches Some((_, is_file)) && !is_file && !more_entries),
            r ==> final(self).roots() == old(self).roots().push(first_entry->Some_0.0@),
            !r ==> final(self).roots() == old(self).roots(),
    {
        match first_entry {
            Some((path, is_file)) => {
                if is_file || more_entries {
                    return false;
                }
                let ghost before = self.roots@;
                let roots: Ghost<Seq<Seq<char>>> = Ghost(before.push(path@));
                self.roots = roots;
                self.last_root = path;
                self.descended = true;
                true
            },
            None => false,
        }
    }

    /// The innermost wrapped folder, whose contents move up into the
    /// extracted folder; `None` when the extracted folder wraps nothing.
    pub fn wrapped_root(self) -> (r: Option<String>)
        requires
            self.wf(),
        ensures
            self.roots().len() == 1 ==> r is None,
            self.roots().len() > 1 ==> (r matches Some(p) && p@ == self.roots().last()),
    {
        if self.descended {
            Some(self.last_root)
        } else {
            None
        }
    }
}

/// The address of an HTML upload's web game.
pub open spec fn web_game_url(upload_id: u64) -> Seq<char> {
    "https://html-classic.itch.zone/html/"@ + decimal_digits(upload_id as nat) + "/index.html"@
}

/// The address of the web game of the HTML upload `upload_id`.
pub fn get_web_game_url(upload_id: u64) -> (r: String)
    ensures
        r@ == web_game_url(upload_id),
{
    String::from_str("https://html-classic.itch.zone/html/").concat(
        u64_to_decimal(upload_id).as_str(),
    ).concat("/index.html")
}


/// What a cancelled download of an upload leaves behind in the game's
/// folder: the files (the partial archive, then the archive) and the
/// folders (the partial upload folder) to remove. The upload's folder
/// itself is never among them.
pub fn partial_download_paths(game_folder: &str, upload_id: u64, upload_filename: &str) -> (r: Result<
    (Vec<String>, Vec<String>),
    FilesystemError,
>)
    ensures
        ({
            let folder = spec_path_join(game_folder@, decimal_digits(upload_id as nat));
            let archive = spec_path_join(game_folder@, upload_archive_name(upload_id, upload_filename@));
            match (spec_path_file_name(folder), spec_path_file_name(archive)) {
                (Some(f), Some(a)) => r matches Ok((files, folders)) && files@.len() == 2
                    && files@[0]@ == spec_path_with_file_name(archive, a + ".part"@) && files@[1]@
                    == archive && folders@.len() == 1 && folders@[0]@ == spec_path_with_file_name(
                    folder,
                    f + ".part"@,
                ),
                (None, _) => r matches Err(e) && is_without_file_name(e, folder),
                (Some(_), None) => r matches Err(e) && is_without_file_name(e, archive),
            }
        }),
{
    let upload_folder = get_upload_folder(game_folder, upload_id);
    let partial_folder = add_part_extension(upload_folder.as_str())?;
    let archive = get_upload_archive_path(game_folder, upload_id, upload_filename);
    let partial_archive = add_part_extension(archive.as_str())?;
    let mut files: Vec<String> = Vec::new();
    files.push(partial_archive);
    files.push(archive);
    let mut folders: Vec<String> = Vec::new();
    folders.push(partial_folder);
    Ok((files, folders))
}

/// Refuses to remove a folder whose canonical path is the user's home
/// folder (`home`, in canonical form, when it is known).
pub fn check_removal(canonical: &str, home: Option<&str>) -> (r: Result<(), FilesystemError>)
    ensures
        match home {
            Some(h) => if h@ == canonical@ {
                r matches Err(FilesystemError::OtherError(
                    OtherFilesystemErrorKind::RefusingToRemoveFolder(p),
                )) && p@ == canonical@
            } else {
                r is Ok
            },
            None => r is Ok,
        },
{
    match home {
        Some(h) => {
            if String::from_str(h) == String::from_str(canonical) {
                Err(
                    FilesystemError::OtherError(
                        OtherFilesystemErrorKind::RefusingToRemoveFolder(String::from_str(canonical)),
                    ),
                )
            } else {
                Ok(())
            }
        },
        None => Ok(()),
    }
}


/// The name a game's cover image is saved under when none is given.
pub open spec fn default_cover_name() -> Seq<char> {
    "cover.png"@
}

/// Where a game's cover image is saved in `folder`: under `cover_filename`,
/// or `cover.png` when none is given.
pub fn cover_path(folder: &str, cover_filename: Option<&str>) -> (r: String)
    ensures
        r@ == spec_path_join(
            folder@,
            match cover_filename {
                Some(f) => f@,
                None => default_cover_name(),
            },
        ),
{
    match cover_filename {
        Some(f) => path_join(folder, f),
        None => path_join(folder, "cover.png"),
    }
}

} // verus!
