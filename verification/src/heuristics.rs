//! The platforms an upload runs on, and the heuristics that pick a game's
//! executable among the files of its upload.
use vstd::prelude::*;
use crate::filesystem::{is_without_file_name, get_file_extension, get_file_stem, spec_path_extension, spec_path_file_stem, FilesystemError};
use crate::itch_api::types::{Upload, UploadTrait, UploadType};
use vstd::string::StringExecFns;
use crate::text::{ascii_lower, eq_ignore_ascii_case, push_char, str_eq_ignore_ascii_case};

verus! {

/// The platforms an upload can be made for, as this library reads them
/// from what the API says of the upload.
#[derive(Debug, Clone, Copy, PartialEq, Eq)]
pub enum GamePlatform {
    Linux,
    Windows,
    OSX,
    Android,
    Web,
    Flash,
    Java,
    UnityWebPlayer,
}

/// The platform an upload's type stands for, if any.
pub open spec fn type_platform(t: UploadType) -> Option<GamePlatform> {
    match t {
        UploadType::Html => Some(GamePlatform::Web),
        UploadType::Flash => Some(GamePlatform::Flash),
        UploadType::Java => Some(GamePlatform::Java),
        UploadType::Unity => Some(GamePlatform::UnityWebPlayer),
        _ => None,
    }
}

/// The platform an upload's trait stands for, if any.
pub open spec fn trait_platform(t: UploadTrait) -> Option<GamePlatform> {
    match t {
        UploadTrait::PLinux => Some(GamePlatform::Linux),
        UploadTrait::PWindows => Some(GamePlatform::Windows),
        UploadTrait::POsx => Some(GamePlatform::OSX),
        UploadTrait::PAndroid => Some(GamePlatform::Android),
        UploadTrait::Demo => None,
    }
}

/// The platforms of the traits `traits`, in order.
pub open spec fn traits_platforms(traits: Seq<UploadTrait>) -> Seq<GamePlatform>
    decreases traits.len(),
{
    if traits.len() == 0 {
        seq![]
    } else {
        let front = traits_platforms(traits.drop_last());
        match trait_platform(traits.last()) {
            Some(p) => front.push(p),
            None => front,
        }
    }
}

/// The platforms of an upload: the one its type stands for, then those of
/// its traits, in order.
pub open spec fn upload_platforms(t: UploadType, traits: Seq<UploadTrait>) -> Seq<GamePlatform> {
    match type_platform(t) {
        Some(p) => seq![p] + traits_platforms(traits),
        None => traits_platforms(traits),
    }
}

impl Upload {
    /// The platforms the upload runs on.
    pub fn to_game_platforms(&self) -> (r: Vec<GamePlatform>)
        ensures
            r@ == upload_platforms(self.upload_type, self.traits@),
    {
        let mut platforms: Vec<GamePlatform> = Vec::new();
        match self.upload_type {
            UploadType::Html => platforms.push(GamePlatform::Web),
            UploadType::Flash => platforms.push(GamePlatform::Flash),
            UploadType::Java => platforms.push(GamePlatform::Java),
            UploadType::Unity => platforms.push(GamePlatform::UnityWebPlayer),
            _ => {},
        }
        let ghost start = platforms@;
        let mut i: usize = 0;
        while i < self.traits.len()
            invariant
                i <= self.traits@.len(),
                start == match type_platform(self.upload_type) {
                    Some(p) => seq![p],
                    None => Seq::<GamePlatform>::empty(),
                },
                platforms@ == start + traits_platforms(self.traits@.take(i as int)),
            decreases self.traits@.len() - i,
        {
            proof {
                assert(self.traits@.take(i + 1).drop_last() =~= self.traits@.take(i as int));
            }
            match self.traits[i] {
                UploadTrait::PLinux => platforms.push(GamePlatform::Linux),
                UploadTrait::PWindows => platforms.push(GamePlatform::Windows),
                UploadTrait::POsx => platforms.push(GamePlatform::OSX),
                UploadTrait::PAndroid => platforms.push(GamePlatform::Android),
                UploadTrait::Demo => {},
            }
            proof {
                assert(platforms@ =~= start + traits_platforms(self.traits@.take(i + 1)));
            }
            i = i + 1;
        }
        proof {
            assert(self.traits@.take(i as int) =~= self.traits@);
            assert(platforms@ =~= upload_platforms(self.upload_type, self.traits@));
        }
        platforms
    }
}

/// The texts of a list of string slices.
pub open spec fn strs_view(v: Seq<&str>) -> Seq<Seq<char>> {
    v.map_values(|s: &str| s@)
}

/// The extensions an executable of `p` may have (lowercase, alphanumeric).
pub open spec fn allowed_extensions(p: GamePlatform) -> Seq<Seq<char>> {
    match p {
        GamePlatform::Linux => seq!["x8664"@, "x86"@, "bin"@, "sh"@, "run"@, ""@],
        GamePlatform::Windows => seq!["exe"@, "msi"@, "bat"@],
        GamePlatform::OSX => seq!["dmg"@, "app"@, "pkg"@],
        GamePlatform::Android => seq!["apk"@],
        GamePlatform::Web => seq!["html"@],
        GamePlatform::Flash => seq!["swf"@],
        GamePlatform::Java => seq!["jar"@],
        GamePlatform::UnityWebPlayer => seq!["unity3d"@],
    }
}

/// The file names (without extension) that mark the executable of `p`.
pub open spec fn best_filenames(p: GamePlatform) -> Seq<Seq<char>> {
    match p {
        GamePlatform::Web => seq!["index"@],
        _ => seq![],
    }
}

impl GamePlatform {
    /// The extensions an executable of this platform may have.
    pub fn get_allowed_extensions(&self) -> (r: Vec<&'static str>)
        ensures
            strs_view(r@) == allowed_extensions(*self),
    {
        let r = match self {
            GamePlatform::Linux => vec!["x8664", "x86", "bin", "sh", "run", ""],
            GamePlatform::Windows => vec!["exe", "msi", "bat"],
            GamePlatform::OSX => vec!["dmg", "app", "pkg"],
            GamePlatform::Android => vec!["apk"],
            GamePlatform::Web => vec!["html"],
            GamePlatform::Flash => vec!["swf"],
            GamePlatform::Java => vec!["jar"],
            GamePlatform::UnityWebPlayer => vec!["unity3d"],
        };
        proof {
            assert(strs_view(r@) =~= allowed_extensions(*self));
        }
        r
    }

    /// The file names that mark the executable of this platform.
    pub fn get_best_filenames(&self) -> (r: Vec<&'static str>)
        ensures
            strs_view(r@) == best_filenames(*self),
    {
        let r = match self {
            GamePlatform::Web => vec!["index"],
            _ => Vec::new(),
        };
        proof {
            assert(strs_view(r@) =~= best_filenames(*self));
        }
        r
    }
}

/// Whether `c` is an ASCII letter or digit.
pub open spec fn is_ascii_alphanumeric(c: char) -> bool {
    ('0' <= c && c <= '9') || ('a' <= c && c <= 'z') || ('A' <= c && c <= 'Z')
}

/// The ASCII letters and digits of `s`, in order, lowercased.
pub open spec fn alphanumeric_lowercase(s: Seq<char>) -> Seq<char>
    decreases s.len(),
{
    if s.len() == 0 {
        seq![]
    } else {
        let front = alphanumeric_lowercase(s.drop_last());
        if is_ascii_alphanumeric(s.last()) {
            front.push(ascii_lower(s.last()))
        } else {
            front
        }
    }
}

/// Keeps the ASCII letters and digits of `string` and makes them lowercase.
pub fn make_alphanumeric_lowercase(string: String) -> (r: String)
    ensures
        r@ == alphanumeric_lowercase(string@),
{
    let s = string.as_str();
    let n = s.unicode_len();
    let mut out = String::new();
    let mut i: usize = 0;
    while i < n
        invariant
            i <= n,
            n == s@.len(),
            out@ == alphanumeric_lowercase(s@.take(i as int)),
        decreases n - i,
    {
        let c = s.get_char(i);
        proof {
            assert(s@.take(i + 1).drop_last() =~= s@.take(i as int));
            assert(s@.take(i + 1).last() == c);
        }
        if ('0' <= c && c <= '9') || ('a' <= c && c <= 'z') {
            push_char(&mut out, c);
        } else if 'A' <= c && c <= 'Z' {
            push_char(&mut out, ((c as u8) + 32) as char);
        }
        i = i + 1;
    }
    proof {
        assert(s@.take(n as int) =~= s@);
    }
    out
}

/// Whether `s` matches one of `options`, regardless of ASCII case.
pub open spec fn matches_any(s: Seq<char>, options: Seq<Seq<char>>) -> bool {
    exists|i: int| 0 <= i < options.len() && eq_ignore_ascii_case(s, #[trigger] options[i])
}

fn any_eq_ignore_ascii_case(s: &str, options: &Vec<&'static str>) -> (r: bool)
    ensures
        r == matches_any(s@, strs_view(options@)),
{
    let mut i: usize = 0;
    while i < options.len()
        invariant
            i <= options@.len(),
            forall|j: int| 0 <= j < i ==> !eq_ignore_ascii_case(s@, #[trigger] strs_view(options@)[j]),
        decreases options@.len() - i,
    {
        if str_eq_ignore_ascii_case(s, options[i]) {
            proof {
                assert(strs_view(options@)[i as int] == options@[i as int]@);
            }
            return true;
        }
        i = i + 1;
    }
    false
}

/// The deepest folder level, below the upload's folder, searched for the
/// executable.
pub const MAX_DIRECTORY_LEVEL_DEPTH: usize = 2;

/// The name and the extension of a candidate executable, each reduced to
/// its lowercased ASCII letters and digits; a missing extension is empty.
pub open spec fn spec_executable_name(path: Seq<char>) -> Option<(Seq<char>, Seq<char>)> {
    match spec_path_file_stem(path) {
        None => None,
        Some(stem) => Some(
            (
                alphanumeric_lowercase(stem),
                alphanumeric_lowercase(
                    match spec_path_extension(path) {
                        Some(e) => e,
                        None => seq![],
                    },
                ),
            ),
        ),
    }
}

/// The name and the extension that the heuristics compare, for the file at
/// `file_path`.
pub fn executable_name(file_path: &str) -> (r: Result<(String, String), FilesystemError>)
    ensures
        match spec_executable_name(file_path@) {
            Some((n, e)) => r matches Ok((x, y)) && x@ == n && y@ == e,
            None => r matches Err(e) && is_without_file_name(e, file_path@),
        },
{
    let stem = get_file_stem(file_path)?;
    let extension = match get_file_extension(file_path) {
        Ok(e) => e,
        Err(_) => String::new(),
    };
    Ok((make_alphanumeric_lowercase(stem), make_alphanumeric_lowercase(extension)))
}

/// The rating of a candidate executable whose name and extension (as
/// [`executable_name`] gives them) are `name` and `ext`, found
/// `directory_levels` folders below the upload's folder, with
/// `proximity_points` for how close its name is to the game's title and to
/// good launcher names: a thousand points fewer per squared level, ten
/// million fewer for an extension the platform doesn't use, and 2300 more
/// for a name that marks the platform's executable.
pub open spec fn spec_rating(
    name: Seq<char>,
    ext: Seq<char>,
    directory_levels: nat,
    platform: GamePlatform,
    proximity_points: int,
) -> int {
    let depth_penalty: int = (directory_levels * directory_levels * 1000) as int;
    let extension_penalty: int = if matches_any(ext, allowed_extensions(platform)) {
        0
    } else {
        10_000_000
    };
    let name_bonus: int = if matches_any(name, best_filenames(platform)) {
        2300
    } else {
        0
    };
    name_bonus + proximity_points - depth_penalty - extension_penalty
}

/// Rates how likely the file at `file_path` is the game's executable.
/// `proximity_points` are the points the file's name earns for being close
/// to the game's title and to good launcher names.
pub fn rate_executable(
    file_path: &str,
    directory_levels: usize,
    platform: GamePlatform,
    proximity_points: i64,
) -> (r: Result<i64, FilesystemError>)
    requires
        directory_levels <= MAX_DIRECTORY_LEVEL_DEPTH,
        -1_000_000_000_000 <= proximity_points <= 1_000_000_000_000,
    ensures
        match spec_executable_name(file_path@) {
            Some((n, e)) => r matches Ok(x) && x == spec_rating(
                n,
                e,
                directory_levels as nat,
                platform,
                proximity_points as int,
            ),
            None => r matches Err(e) && is_without_file_name(e, file_path@),
        },
{
    let (filename, extension) = executable_name(file_path)?;
    let levels = directory_levels as i64;
    proof {
        assert(levels * levels <= 4) by (nonlinear_arith)
            requires
                0 <= levels <= 2,
        ;
    }
    let mut rating: i64 = 0 - levels * levels * 1000;
    if !any_eq_ignore_ascii_case(extension.as_str(), &platform.get_allowed_extensions()) {
        rating = rating - 10_000_000;
    }
    if any_eq_ignore_ascii_case(filename.as_str(), &platform.get_best_filenames()) {
        rating = rating + 2300;
    }
    Ok(rating + proximity_points)
}


/// The platforms of each upload, paired with the upload's ID, in order.
pub open spec fn spec_game_platforms(uploads: Seq<Upload>) -> Seq<(u64, GamePlatform)>
    decreases uploads.len(),
{
    if uploads.len() == 0 {
        seq![]
    } else {
        let u = uploads.last();
        spec_game_platforms(uploads.drop_last()) + upload_platforms(u.upload_type, u.traits@).map_values(
            |p: GamePlatform| (u.id, p),
        )
    }
}

/// The platforms a game's uploads are available in, each paired with the
/// upload's ID.
pub fn get_game_platforms(uploads: &Vec<Upload>) -> (r: Vec<(u64, GamePlatform)>)
    ensures
        r@ == spec_game_platforms(uploads@),
{
    let mut platforms: Vec<(u64, GamePlatform)> = Vec::new();
    let mut i: usize = 0;
    while i < uploads.len()
        invariant
            i <= uploads@.len(),
            platforms@ == spec_game_platforms(uploads@.take(i as int)),
        decreases uploads@.len() - i,
    {
        let u = &uploads[i];
        let ps = u.to_game_platforms();
        let ghost before = platforms@;
        let mut j: usize = 0;
        while j < ps.len()
            invariant
                j <= ps@.len(),
                platforms@ == before + ps@.take(j as int).map_values(|p: GamePlatform| (u.id, p)),
            decreases ps@.len() - j,
        {
            platforms.push((u.id, ps[j]));
            proof {
                assert(ps@.take(j + 1).map_values(|p: GamePlatform| (u.id, p)) =~= ps@.take(
                    j as int,
                ).map_values(|p: GamePlatform| (u.id, p)).push((u.id, ps@[j as int])));
            }
            j = j + 1;
        }
        proof {
            assert(uploads@.take(i + 1).drop_last() =~= uploads@.take(i as int));
            assert(ps@.take(j as int) =~= ps@);
        }
        i = i + 1;
    }
    proof {
        assert(uploads@.take(i as int) =~= uploads@);
    }
    platforms
}

/// The best candidate among `seen`, as the search keeps it: a candidate
/// replaces the current best only when its rating is strictly higher, and
/// the search starts from no candidate with the lowest rating.
pub open spec fn spec_best(seen: Seq<(Seq<char>, i64)>) -> (Option<Seq<char>>, i64)
    decreases seen.len(),
{
    if seen.len() == 0 {
        (None, i64::MIN)
    } else {
        let prev = spec_best(seen.drop_last());
        if seen.last().1 > prev.1 {
            (Some(seen.last().0), seen.last().1)
        } else {
            prev
        }
    }
}

/// The search for a game's executable, folder by folder, breadth first: the
/// caller reads each folder that [`ExecutableSearch::next_folder`] hands
/// out, reports its subfolders and rates its files, and finally asks for
/// the best file.
pub struct ExecutableSearch {
    queue: Vec<(String, usize)>,
    head: usize,
    best_path: Option<String>,
    best_rating: i64,
    seen: Ghost<Seq<(Seq<char>, i64)>>,
}

impl ExecutableSearch {
    /// The folders queued so far, with their depth below the upload's
    /// folder, in the order they are handed out.
    pub closed spec fn spec_queue(&self) -> Seq<(Seq<char>, nat)> {
        self.queue@.map_values(|q: (String, usize)| (q.0@, q.1 as nat))
    }

    /// How many folders have been handed out.
    pub closed spec fn spec_head(&self) -> nat {
        self.head as nat
    }

    /// The files rated so far, with their ratings, in order.
    pub closed spec fn spec_seen(&self) -> Seq<(Seq<char>, i64)> {
        self.seen@
    }

    /// The best file so far and its rating.
    pub closed spec fn spec_best_so_far(&self) -> (Option<Seq<char>>, i64) {
        (
            match self.best_path {
                Some(p) => Some(p@),
                None => None,
            },
            self.best_rating,
        )
    }

    pub closed spec fn wf(&self) -> bool {
        &&& self.head <= self.queue@.len()
        &&& forall|i: int| 0 <= i < self.queue@.len() ==> #[trigger] self.queue@[i].1 <= MAX_DIRECTORY_LEVEL_DEPTH
        &&& self.spec_best_so_far() == spec_best(self.seen@)
    }

    /// A search that starts at the upload's folder, at depth 0.
    pub fn new(upload_folder: &str) -> (r: ExecutableSearch)
        ensures
            r.wf(),
            r.spec_queue() == seq![(upload_folder@, 0nat)],
            r.spec_head() == 0,
            r.spec_seen() == Seq::<(Seq<char>, i64)>::empty(),
    {
        let mut queue: Vec<(String, usize)> = Vec::new();
        queue.push((String::from_str(upload_folder), 0));
        let r = ExecutableSearch {
            queue,
            head: 0,
            best_path: None,
            best_rating: i64::MIN,
            seen: Ghost(Seq::empty()),
        };
        proof {
            assert(r.spec_queue() =~= seq![(upload_folder@, 0nat)]);
        }
        r
    }

    /// The next folder to read and its depth, or `None` when every queued
    /// folder has been read.
    pub fn next_folder(&mut self) -> (r: Option<(String, usize)>)
        requires
            old(self).wf(),
        ensures
            final(self).wf(),
            final(self).spec_queue() == old(self).spec_queue(),
            final(self).spec_seen() == old(self).spec_seen(),
            old(self).spec_head() < old(self).spec_queue().len() ==> (r matches Some((f, d)) && (f@, d as nat)
                == old(self).spec_queue()[old(self).spec_head() as int] && final(self).spec_head()
                == old(self).spec_head() + 1),
            old(self).spec_head() >= old(self).spec_queue().len() ==> r is None && final(self).spec_head()
                == old(self).spec_head(),
    {
        if self.head < self.queue.len() {
            let entry = (self.queue[self.head].0.clone(), self.queue[self.head].1);
            self.head = self.head + 1;
            Some(entry)
        } else {
            None
        }
    }

    /// Reports a subfolder found in a folder of depth `depth`: it is queued
    /// at the next depth, unless the folder is already at the deepest level
    /// searched.
    pub fn add_directory(&mut self, path: String, depth: usize)
        requires
            old(self).wf(),
        ensures
            final(self).wf(),
            final(self).spec_head() == old(self).spec_head(),
            final(self).spec_seen() == old(self).spec_seen(),
            depth < MAX_DIRECTORY_LEVEL_DEPTH ==> final(self).spec_queue() == old(self).spec_queue().push(
                (path@, (depth + 1) as nat),
            ),
            depth >= MAX_DIRECTORY_LEVEL_DEPTH ==> final(self).spec_queue() == old(self).spec_queue(),
    {
        if depth < MAX_DIRECTORY_LEVEL_DEPTH {
            let ghost before = self.queue@;
            self.queue.push((path, depth + 1));
            proof {
                assert(self.spec_queue() =~= before.map_values(
                    |q: (String, usize)| (q.0@, q.1 as nat),
                ).push((path@, (depth + 1) as nat)));
            }
        }
    }

    /// Reports a file and its rating: it becomes the best file when its
    /// rating is strictly higher than the best one so far.
    pub fn add_file(&mut self, path: String, rating: i64)
        requires
            old(self).wf(),
        ensures
            final(self).wf(),
            final(self).spec_head() == old(self).spec_head(),
            final(self).spec_queue() == old(self).spec_queue(),
            final(self).spec_seen() == old(self).spec_seen().push((path@, rating)),
    {
        let ghost seen = self.seen@.push((path@, rating));
        proof {
            assert(seen.drop_last() =~= self.seen@);
        }
        if rating > self.best_rating {
            self.best_path = Some(path);
            self.best_rating = rating;
        }
        self.seen = Ghost(seen);
    }

    /// The best file found, or an error when no file was better than the
    /// lowest rating.
    pub fn finish(self, upload_folder: &str) -> (r: Result<String, String>)
        requires
            self.wf(),
        ensures
            match spec_best(self.spec_seen()).0 {
                Some(p) => r matches Ok(x) && x@ == p,
                None => r matches Err(m) && m@ == "Couldn't find any game file executable in: \""@
                    + upload_folder@ + "\""@,
            },
    {
        match self.best_path {
            Some(p) => Ok(p),
            None => Err(
                String::from_str("Couldn't find any game file executable in: \"").concat(
                    upload_folder,
                ).concat("\""),
            ),
        }
    }
}

/// The best candidate has the highest rating of all the candidates seen
/// (when one was kept), and it is the first candidate with that rating.
pub proof fn lemma_best_is_first_maximum(seen: Seq<(Seq<char>, i64)>)
    ensures
        forall|i: int| 0 <= i < seen.len() ==> #[trigger] seen[i].1 <= spec_best(seen).1,
        spec_best(seen).0 matches Some(p) ==> exists|i: int|
            0 <= i < seen.len() && seen[i] == (p, spec_best(seen).1) && forall|j: int|
                0 <= j < i ==> #[trigger] seen[j].1 < spec_best(seen).1,
        spec_best(seen).0 is None ==> spec_best(seen).1 == i64::MIN,
        spec_best(seen).0 is None ==> forall|i: int| 0 <= i < seen.len() ==> #[trigger] seen[i].1 == i64::MIN,
    decreases seen.len(),
{
    if seen.len() > 0 {
        let front = seen.drop_last();
        lemma_best_is_first_maximum(front);
        assert forall|i: int| 0 <= i < front.len() implies #[trigger] seen[i] == front[i] by {}
        assert forall|i: int| 0 <= i < seen.len() implies #[trigger] seen[i].1 <= spec_best(seen).1 by {
            if i < front.len() {
                assert(seen[i] == front[i]);
            }
        }
        if seen.last().1 > spec_best(front).1 {
            assert(seen[seen.len() - 1] == (seen.last().0, seen.last().1));
        } else {
            match spec_best(front).0 {
                Some(p) => {
                    let i = choose|i: int|
                        0 <= i < front.len() && front[i] == (p, spec_best(front).1) && forall|j: int|
                            0 <= j < i ==> #[trigger] front[j].1 < spec_best(front).1;
                    assert(seen[i] == (p, spec_best(seen).1));
                    assert forall|j: int| 0 <= j < i implies #[trigger] seen[j].1 < spec_best(seen).1 by {
                        assert(seen[j] == front[j]);
                    }
                },
                None => {
                    assert forall|i: int| 0 <= i < seen.len() implies #[trigger] seen[i].1 == i64::MIN by {
                        if i < front.len() {
                            assert(seen[i] == front[i]);
                        } else {
                            assert(seen[i] == seen.last());
                        }
                    }
                },
            }
        }
    }
}


/// Each directory level costs its square in thousands of points: two ratings
/// of the same name that differ only in depth differ by a thousand times the
/// difference of the squared depths.
pub proof fn deeper_files_lose_squared_thousands(
    name: Seq<char>,
    ext: Seq<char>,
    d1: nat,
    d2: nat,
    platform: GamePlatform,
    proximity_points: int,
)
    ensures
        spec_rating(name, ext, d1, platform, proximity_points) - spec_rating(
            name,
            ext,
            d2,
            platform,
            proximity_points,
        ) == (d2 * d2 - d1 * d1) * 1000,
{
}

/// An extension the platform uses outranks one it doesn't by exactly ten
/// million points, all else being equal.
pub proof fn allowed_extension_outranks_by_ten_million(
    name: Seq<char>,
    allowed: Seq<char>,
    refused: Seq<char>,
    directory_levels: nat,
    platform: GamePlatform,
    proximity_points: int,
)
    requires
        matches_any(allowed, allowed_extensions(platform)),
        !matches_any(refused, allowed_extensions(platform)),
    ensures
        spec_rating(name, allowed, directory_levels, platform, proximity_points) - spec_rating(
            name,
            refused,
            directory_levels,
            platform,
            proximity_points,
        ) == 10_000_000,
{
}

/// Reducing a name to its lowercased ASCII letters and digits twice gives
/// the same as doing it once.
pub proof fn alphanumeric_lowercase_is_idempotent(s: Seq<char>)
    ensures
        alphanumeric_lowercase(alphanumeric_lowercase(s)) == alphanumeric_lowercase(s),
    decreases s.len(),
{
    if s.len() > 0 {
        alphanumeric_lowercase_is_idempotent(s.drop_last());
        let front = alphanumeric_lowercase(s.drop_last());
        if is_ascii_alphanumeric(s.last()) {
            let c = ascii_lower(s.last());
            assert(front.push(c).drop_last() =~= front);
            assert(is_ascii_alphanumeric(c));
            assert(ascii_lower(c) == c);
        }
    }
}

/// The search never queues a folder deeper than the deepest level searched.
pub proof fn search_stays_shallow(search: ExecutableSearch)
    requires
        search.wf(),
    ensures
        forall|i: int| 0 <= i < search.spec_queue().len() ==> #[trigger] search.spec_queue()[i].1
            <= MAX_DIRECTORY_LEVEL_DEPTH,
{
    assert forall|i: int| 0 <= i < search.spec_queue().len() implies #[trigger] search.spec_queue()[i].1
        <= MAX_DIRECTORY_LEVEL_DEPTH by {
        search.lemma_queue_depth(i);
    }
}

impl ExecutableSearch {
    proof fn lemma_queue_depth(&self, i: int)
        requires
            self.wf(),
            0 <= i < self.spec_queue().len(),
        ensures
            self.spec_queue()[i].1 <= MAX_DIRECTORY_LEVEL_DEPTH,
    {
        assert(self.queue@[i].1 <= MAX_DIRECTORY_LEVEL_DEPTH);
    }
}

/// A Linux binary without an extension is an executable Linux uses: it
/// takes no penalty, so it rates as a `.x8664` binary or a shell script with
/// the same name does, and ten million points above a file with an
/// extension Linux doesn't use, such as `.exe`.
pub proof fn linux_binaries_without_extension_are_not_penalized(name: Seq<char>, directory_levels: nat, proximity_points: int)
    ensures
        matches_any(seq![], allowed_extensions(GamePlatform::Linux)),
        spec_rating(name, seq![], directory_levels, GamePlatform::Linux, proximity_points) == spec_rating(
            name,
            "x8664"@,
            directory_levels,
            GamePlatform::Linux,
            proximity_points,
        ),
        spec_rating(name, seq![], directory_levels, GamePlatform::Linux, proximity_points) == spec_rating(
            name,
            "sh"@,
            directory_levels,
            GamePlatform::Linux,
            proximity_points,
        ),
        spec_rating(name, seq![], directory_levels, GamePlatform::Linux, proximity_points) - spec_rating(
            name,
            "exe"@,
            directory_levels,
            GamePlatform::Linux,
            proximity_points,
        ) == 10_000_000,
{
    reveal_strlit("x8664");
    reveal_strlit("x86");
    reveal_strlit("bin");
    reveal_strlit("sh");
    reveal_strlit("run");
    reveal_strlit("");
    reveal_strlit("exe");
    let l = allowed_extensions(GamePlatform::Linux);
    assert(eq_ignore_ascii_case(seq![], l[5]));
    assert(eq_ignore_ascii_case("x8664"@, l[0]));
    assert(eq_ignore_ascii_case("sh"@, l[3]));
    assert forall|i: int| 0 <= i < l.len() implies !eq_ignore_ascii_case("exe"@, #[trigger] l[i]) by {
        if i == 1 || i == 2 || i == 4 {
            assert(ascii_lower("exe"@[0]) != ascii_lower(l[i][0]));
        }
    }
}

/// Each platform takes its usual executables without penalty: Linux
/// binaries (`.x8664`, `.x86`, `.bin`, `.sh`, `.run` or no extension),
/// Windows `.exe`, `.msi` and `.bat`, macOS `.dmg`, `.app` and `.pkg`,
/// Android `.apk`, web `.html`, Flash `.swf`, Java `.jar` and Unity
/// `.unity3d` files.
pub proof fn platforms_accept_their_executables()
    ensures
        matches_any("x8664"@, allowed_extensions(GamePlatform::Linux)),
        matches_any("x86"@, allowed_extensions(GamePlatform::Linux)),
        matches_any("bin"@, allowed_extensions(GamePlatform::Linux)),
        matches_any("sh"@, allowed_extensions(GamePlatform::Linux)),
        matches_any("run"@, allowed_extensions(GamePlatform::Linux)),
        matches_any(seq![], allowed_extensions(GamePlatform::Linux)),
        matches_any("exe"@, allowed_extensions(GamePlatform::Windows)),
        matches_any("msi"@, allowed_extensions(GamePlatform::Windows)),
        matches_any("bat"@, allowed_extensions(GamePlatform::Windows)),
        matches_any("dmg"@, allowed_extensions(GamePlatform::OSX)),
        matches_any("app"@, allowed_extensions(GamePlatform::OSX)),
        matches_any("pkg"@, allowed_extensions(GamePlatform::OSX)),
        matches_any("apk"@, allowed_extensions(GamePlatform::Android)),
        matches_any("html"@, allowed_extensions(GamePlatform::Web)),
        matches_any("swf"@, allowed_extensions(GamePlatform::Flash)),
        matches_any("jar"@, allowed_extensions(GamePlatform::Java)),
        matches_any("unity3d"@, allowed_extensions(GamePlatform::UnityWebPlayer)),
{
    reveal_strlit("x8664");
    reveal_strlit("x86");
    reveal_strlit("bin");
    reveal_strlit("sh");
    reveal_strlit("run");
    reveal_strlit("");
    reveal_strlit("exe");
    reveal_strlit("msi");
    reveal_strlit("bat");
    reveal_strlit("dmg");
    reveal_strlit("app");
    reveal_strlit("pkg");
    reveal_strlit("apk");
    reveal_strlit("html");
    reveal_strlit("swf");
    reveal_strlit("jar");
    reveal_strlit("unity3d");
    let l = allowed_extensions(GamePlatform::Linux);
    assert(eq_ignore_ascii_case("x8664"@, l[0]));
    assert(eq_ignore_ascii_case("x86"@, l[1]));
    assert(eq_ignore_ascii_case("bin"@, l[2]));
    assert(eq_ignore_ascii_case("sh"@, l[3]));
    assert(eq_ignore_ascii_case("run"@, l[4]));
    assert(eq_ignore_ascii_case(seq![], l[5]));
    let w = allowed_extensions(GamePlatform::Windows);
    assert(eq_ignore_ascii_case("exe"@, w[0]));
    assert(eq_ignore_ascii_case("msi"@, w[1]));
    assert(eq_ignore_ascii_case("bat"@, w[2]));
    let o = allowed_extensions(GamePlatform::OSX);
    assert(eq_ignore_ascii_case("dmg"@, o[0]));
    assert(eq_ignore_ascii_case("app"@, o[1]));
    assert(eq_ignore_ascii_case("pkg"@, o[2]));
    assert(eq_ignore_ascii_case("apk"@, allowed_extensions(GamePlatform::Android)[0]));
    assert(eq_ignore_ascii_case("html"@, allowed_extensions(GamePlatform::Web)[0]));
    assert(eq_ignore_ascii_case("swf"@, allowed_extensions(GamePlatform::Flash)[0]));
    assert(eq_ignore_ascii_case("jar"@, allowed_extensions(GamePlatform::Java)[0]));
    assert(eq_ignore_ascii_case("unity3d"@, allowed_extensions(GamePlatform::UnityWebPlayer)[0]));
}

proof fn lemma_traits_platforms_contains(traits: Seq<UploadTrait>, p: GamePlatform)
    ensures
        traits_platforms(traits).contains(p) <==> exists|i: int|
            0 <= i < traits.len() && trait_platform(#[trigger] traits[i]) == Some(p),
    decreases traits.len(),
{
    if traits.len() > 0 {
        let front = traits.drop_last();
        let tf = traits_platforms(front);
        let tt = traits_platforms(traits);
        lemma_traits_platforms_contains(front, p);
        assert forall|i: int| 0 <= i < front.len() implies #[trigger] front[i] == traits[i] by {}
        assert(tt == match trait_platform(traits.last()) {
            Some(q) => tf.push(q),
            None => tf,
        });
        if tf.contains(p) {
            let j = choose|j: int| 0 <= j < tf.len() && tf[j] == p;
            assert(tt[j] == p);
        }
        if exists|i: int| 0 <= i < traits.len() && trait_platform(#[trigger] traits[i]) == Some(p) {
            let i = choose|i: int| 0 <= i < traits.len() && trait_platform(#[trigger] traits[i]) == Some(p);
            if i < front.len() {
                assert(trait_platform(front[i]) == Some(p));
            } else {
                assert(tt[tf.len() as int] == p);
            }
        }
        if tt.contains(p) {
            let j = choose|j: int| 0 <= j < tt.len() && tt[j] == p;
            if j < tf.len() {
                assert(tf[j] == p);
                let i = choose|i: int| 0 <= i < front.len() && trait_platform(#[trigger] front[i]) == Some(p);
                assert(trait_platform(traits[i]) == Some(p));
            } else {
                assert(trait_platform(traits[traits.len() - 1]) == Some(p));
            }
        }
    }
}

/// An upload runs on Linux, Windows, macOS or Android exactly when it has
/// that platform's trait, and on the web, Flash, Java or the Unity web
/// player exactly when its type is HTML, Flash, Java or Unity.
pub proof fn upload_platforms_come_from_traits_and_type(t: UploadType, traits: Seq<UploadTrait>)
    ensures
        upload_platforms(t, traits).contains(GamePlatform::Linux) <==> traits.contains(UploadTrait::PLinux),
        upload_platforms(t, traits).contains(GamePlatform::Windows) <==> traits.contains(UploadTrait::PWindows),
        upload_platforms(t, traits).contains(GamePlatform::OSX) <==> traits.contains(UploadTrait::POsx),
        upload_platforms(t, traits).contains(GamePlatform::Android) <==> traits.contains(UploadTrait::PAndroid),
        upload_platforms(t, traits).contains(GamePlatform::Web) <==> t == UploadType::Html,
        upload_platforms(t, traits).contains(GamePlatform::Flash) <==> t == UploadType::Flash,
        upload_platforms(t, traits).contains(GamePlatform::Java) <==> t == UploadType::Java,
        upload_platforms(t, traits).contains(GamePlatform::UnityWebPlayer) <==> t == UploadType::Unity,
{
    let all = seq![
        GamePlatform::Linux,
        GamePlatform::Windows,
        GamePlatform::OSX,
        GamePlatform::Android,
        GamePlatform::Web,
        GamePlatform::Flash,
        GamePlatform::Java,
        GamePlatform::UnityWebPlayer,
    ];
    let tp = traits_platforms(traits);
    assert forall|k: int| 0 <= k < all.len() implies (upload_platforms(t, traits).contains(
        #[trigger] all[k],
    ) <==> (type_platform(t) == Some(all[k]) || tp.contains(all[k]))) by {
        let p = all[k];
        match type_platform(t) {
            Some(q) => {
                let u = seq![q] + tp;
                if u.contains(p) {
                    let j = choose|j: int| 0 <= j < u.len() && u[j] == p;
                    if j > 0 {
                        assert(tp[j - 1] == p);
                    }
                }
                if tp.contains(p) {
                    let j = choose|j: int| 0 <= j < tp.len() && tp[j] == p;
                    assert(u[j + 1] == p);
                }
                if q == p {
                    assert(u[0] == p);
                }
            },
            None => {},
        }
    }
    lemma_traits_platforms_contains(traits, GamePlatform::Linux);
    lemma_traits_platforms_contains(traits, GamePlatform::Windows);
    lemma_traits_platforms_contains(traits, GamePlatform::OSX);
    lemma_traits_platforms_contains(traits, GamePlatform::Android);
    lemma_traits_platforms_contains(traits, GamePlatform::Web);
    lemma_traits_platforms_contains(traits, GamePlatform::Flash);
    lemma_traits_platforms_contains(traits, GamePlatform::Java);
    lemma_traits_platforms_contains(traits, GamePlatform::UnityWebPlayer);
    assert(all[0] == GamePlatform::Linux);
    assert(all[1] == GamePlatform::Windows);
    assert(all[2] == GamePlatform::OSX);
    assert(all[3] == GamePlatform::Android);
    assert(all[4] == GamePlatform::Web);
    assert(all[5] == GamePlatform::Flash);
    assert(all[6] == GamePlatform::Java);
    assert(all[7] == GamePlatform::UnityWebPlayer);
    if traits.contains(UploadTrait::PLinux) {
        let i = choose|i: int| 0 <= i < traits.len() && traits[i] == UploadTrait::PLinux;
        assert(trait_platform(traits[i]) == Some(GamePlatform::Linux));
    }
    if traits.contains(UploadTrait::PWindows) {
        let i = choose|i: int| 0 <= i < traits.len() && traits[i] == UploadTrait::PWindows;
        assert(trait_platform(traits[i]) == Some(GamePlatform::Windows));
    }
    if traits.contains(UploadTrait::POsx) {
        let i = choose|i: int| 0 <= i < traits.len() && traits[i] == UploadTrait::POsx;
        assert(trait_platform(traits[i]) == Some(GamePlatform::OSX));
    }
    if traits.contains(UploadTrait::PAndroid) {
        let i = choose|i: int| 0 <= i < traits.len() && traits[i] == UploadTrait::PAndroid;
        assert(trait_platform(traits[i]) == Some(GamePlatform::Android));
    }
    if tp.contains(GamePlatform::Linux) {
        let i = choose|i: int| 0 <= i < traits.len() && trait_platform(#[trigger] traits[i]) == Some(GamePlatform::Linux);
        assert(traits[i] == UploadTrait::PLinux);
    }
    if tp.contains(GamePlatform::Windows) {
        let i = choose|i: int| 0 <= i < traits.len() && trait_platform(#[trigger] traits[i]) == Some(GamePlatform::Windows);
        assert(traits[i] == UploadTrait::PWindows);
    }
    if tp.contains(GamePlatform::OSX) {
        let i = choose|i: int| 0 <= i < traits.len() && trait_platform(#[trigger] traits[i]) == Some(GamePlatform::OSX);
        assert(traits[i] == UploadTrait::POsx);
    }
    if tp.contains(GamePlatform::Android) {
        let i = choose|i: int| 0 <= i < traits.len() && trait_platform(#[trigger] traits[i]) == Some(GamePlatform::Android);
        assert(traits[i] == UploadTrait::PAndroid);
    }
}

/// A web game's `index` page earns 2300 points over a file with another
/// name (such as `game`); on other platforms the name `index` earns nothing.
pub proof fn web_index_pages_are_preferred(ext: Seq<char>, directory_levels: nat, proximity_points: int)
    ensures
        spec_rating("index"@, ext, directory_levels, GamePlatform::Web, proximity_points) - spec_rating(
            "game"@,
            ext,
            directory_levels,
            GamePlatform::Web,
            proximity_points,
        ) == 2300,
        spec_rating("index"@, ext, directory_levels, GamePlatform::Linux, proximity_points) == spec_rating(
            "game"@,
            ext,
            directory_levels,
            GamePlatform::Linux,
            proximity_points,
        ),
{
    reveal_strlit("index");
    reveal_strlit("game");
    assert(eq_ignore_ascii_case("index"@, best_filenames(GamePlatform::Web)[0]));
    assert(!eq_ignore_ascii_case("game"@, best_filenames(GamePlatform::Web)[0]));
}

} // verus!
