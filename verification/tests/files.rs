use scratch_io::config::{check_config_version, get_config_file, ConfigError};
use scratch_io::extract::{get_archive_format, ArchiveFormat};
use scratch_io::filesystem::{
    ensure_is_dir, ensure_is_empty, executable_mode, get_file_extension, get_file_name,
    get_file_stem, is_dir, is_folder_empty, parent, FilesystemError, OtherFilesystemErrorKind,
    PathState,
};
use scratch_io::game_files::{
    add_part_extension, cover_path, available_path_candidate, check_removal, get_game_folder,
    AvailablePathSearch, RootFolderSearch,
    get_upload_archive_path, get_upload_folder, get_web_game_url, partial_download_paths,
};
use scratch_io::heuristics::{
    executable_name, get_game_platforms, make_alphanumeric_lowercase, rate_executable,
    ExecutableSearch, GamePlatform,
};
use scratch_io::itch_api::types::{Upload, UploadStorage, UploadTrait, UploadType};

fn other(kind: OtherFilesystemErrorKind) -> FilesystemError {
    FilesystemError::OtherError(kind)
}

#[test]
fn path_parts() {
    assert_eq!(get_file_name("games/a/b.tar.gz"), Ok("b.tar.gz".to_string()));
    assert_eq!(get_file_stem("games/a/b.tar.gz"), Ok("b.tar".to_string()));
    assert_eq!(get_file_extension("games/a/b.tar.gz"), Ok("gz".to_string()));
    assert_eq!(parent("games/a/b.tar.gz"), Ok("games/a".to_string()));
}

#[test]
fn path_part_errors() {
    assert_eq!(
        get_file_name("/"),
        Err(other(OtherFilesystemErrorKind::PathWithoutFilename("/".to_string())))
    );
    assert_eq!(
        get_file_stem(".."),
        Err(other(OtherFilesystemErrorKind::PathWithoutFilename("..".to_string())))
    );
    assert_eq!(
        get_file_extension("games/readme"),
        Err(other(OtherFilesystemErrorKind::PathWithoutExtension("games/readme".to_string())))
    );
    assert_eq!(
        parent("/"),
        Err(other(OtherFilesystemErrorKind::PathWithoutParent("/".to_string())))
    );
}

#[test]
fn path_state_decisions() {
    assert_eq!(is_dir(PathState::Missing), None);
    assert_eq!(is_dir(PathState::NotADirectory), Some(false));
    assert_eq!(is_dir(PathState::Directory { empty: false }), Some(true));
    assert_eq!(is_folder_empty("f", PathState::Missing), Ok(true));
    assert_eq!(is_folder_empty("f", PathState::Directory { empty: true }), Ok(true));
    assert_eq!(is_folder_empty("f", PathState::Directory { empty: false }), Ok(false));
    assert_eq!(
        is_folder_empty("f", PathState::NotADirectory),
        Err(other(OtherFilesystemErrorKind::ShouldBeAFolder("f".to_string())))
    );
    assert_eq!(ensure_is_dir("d", PathState::Directory { empty: true }), Ok(()));
    assert_eq!(
        ensure_is_dir("d", PathState::Missing),
        Err(other(OtherFilesystemErrorKind::ShouldBeAFolder("d".to_string())))
    );
    assert_eq!(ensure_is_empty("e", PathState::Missing), Ok(()));
    assert_eq!(
        ensure_is_empty("e", PathState::Directory { empty: false }),
        Err(other(OtherFilesystemErrorKind::ShouldBeEmpty("e".to_string())))
    );
}

#[test]
fn executable_bits() {
    assert_eq!(executable_mode(0o644), Some(0o755));
    assert_eq!(executable_mode(0o755), None);
    assert_eq!(executable_mode(0o700), Some(0o711));
}

#[test]
fn game_file_paths() {
    assert_eq!(get_upload_folder("games/My Game", 123456), "games/My Game/123456");
    assert_eq!(
        get_upload_archive_path("games/My Game", 7, "build.zip"),
        "games/My Game/7-download-build.zip"
    );
    assert_eq!(add_part_extension("games/x/7-download-a.zip"), Ok("games/x/7-download-a.zip.part".to_string()));
    assert_eq!(add_part_extension("/"), Err(other(OtherFilesystemErrorKind::PathWithoutFilename("/".to_string()))));
    assert_eq!(
        add_part_extension("/home/u/Games/ExampleGame/123456"),
        Ok("/home/u/Games/ExampleGame/123456.part".to_string())
    );
    assert_eq!(available_path_candidate("/", 0), Err(other(OtherFilesystemErrorKind::PathWithoutParent("/".to_string()))));
    assert_eq!(
        available_path_candidate("dir/..", 0),
        Err(other(OtherFilesystemErrorKind::PathWithoutFilename("dir/..".to_string())))
    );
    assert_eq!(
        rate_executable("/", 0, GamePlatform::Linux, 0),
        Err(other(OtherFilesystemErrorKind::PathWithoutFilename("/".to_string())))
    );
    assert_eq!(get_game_folder("/home/me", "Celeste"), "/home/me/Games/Celeste");
    assert_eq!(available_path_candidate("dir/file", 0), Ok("dir/file0".to_string()));
    assert_eq!(available_path_candidate("dir/file", 255), Ok("dir/fileff".to_string()));
    assert_eq!(get_web_game_url(1234), "https://html-classic.itch.zone/html/1234/index.html");
}

#[test]
fn partial_download_leftovers() {
    let (files, folders) = partial_download_paths("g", 5, "a.zip").unwrap();
    assert_eq!(files, vec!["g/5-download-a.zip.part".to_string(), "g/5-download-a.zip".to_string()]);
    assert_eq!(folders, vec!["g/5.part".to_string()]);
}

#[test]
fn home_folder_is_never_removed() {
    assert_eq!(check_removal("/home/me/Games/x", Some("/home/me")), Ok(()));
    assert_eq!(check_removal("/home/me/Games/x", None), Ok(()));
    assert_eq!(
        check_removal("/home/me", Some("/home/me")),
        Err(other(OtherFilesystemErrorKind::RefusingToRemoveFolder("/home/me".to_string())))
    );
}

#[test]
fn archive_formats() {
    assert_eq!(get_archive_format("a/game.zip"), Ok(ArchiveFormat::Zip));
    assert_eq!(get_archive_format("a/game.ZIP"), Ok(ArchiveFormat::Zip));
    assert_eq!(get_archive_format("game.tar"), Ok(ArchiveFormat::Tar));
    assert_eq!(get_archive_format("game.tar.gz"), Ok(ArchiveFormat::TarGz));
    assert_eq!(get_archive_format("game.TAR.GZ"), Ok(ArchiveFormat::TarGz));
    assert_eq!(get_archive_format("game.tgz"), Ok(ArchiveFormat::TarGz));
    assert_eq!(get_archive_format("game.gz"), Ok(ArchiveFormat::Other));
    assert_eq!(get_archive_format("game.tar.bz2"), Ok(ArchiveFormat::TarBz2));
    assert_eq!(get_archive_format("game.tbz2"), Ok(ArchiveFormat::TarBz2));
    assert_eq!(get_archive_format("game.tar.xz"), Ok(ArchiveFormat::TarXz));
    assert_eq!(get_archive_format("game.txz"), Ok(ArchiveFormat::TarXz));
    assert_eq!(get_archive_format("game.tar.zst"), Ok(ArchiveFormat::TarZst));
    assert_eq!(get_archive_format("game.exe"), Ok(ArchiveFormat::Other));
    assert_eq!(get_archive_format("game"), Ok(ArchiveFormat::Other));
}

#[test]
fn config_file_and_version() {
    assert_eq!(get_config_file("/home/me/.config/scratch-io"), "/home/me/.config/scratch-io/config.toml");
    assert_eq!(check_config_version(0), Ok(()));
    assert_eq!(check_config_version(3), Err(ConfigError::IncompatibleVersion { version: 3 }));
}

#[test]
fn alphanumeric_lowercase_names() {
    assert_eq!(make_alphanumeric_lowercase("My Game-64.EXE".to_string()), "mygame64exe");
    assert_eq!(make_alphanumeric_lowercase("ÜberGame_2".to_string()), "bergame2");
    let once = make_alphanumeric_lowercase("Run Game!".to_string());
    assert_eq!(make_alphanumeric_lowercase(once.clone()), once);
    assert_eq!(
        executable_name("dir/Start Game.X86_64"),
        Ok(("startgame".to_string(), "x8664".to_string()))
    );
    assert_eq!(executable_name("dir/launcher"), Ok(("launcher".to_string(), "".to_string())));
}

#[test]
fn ratings_of_candidates() {
    assert_eq!(rate_executable("game/index.html", 0, GamePlatform::Web, 0), Ok(2300));
    assert_eq!(rate_executable("game/sub/index.html", 1, GamePlatform::Web, 10), Ok(1310));
    assert_eq!(rate_executable("game/a/b/run.sh", 2, GamePlatform::Linux, 0), Ok(-4000));
    assert_eq!(rate_executable("game/notes.txt", 0, GamePlatform::Windows, 5), Ok(-9_999_995));
    assert_eq!(rate_executable("game/Game.EXE", 0, GamePlatform::Windows, 0), Ok(0));
}

#[test]
fn available_path_search_takes_the_first_free_candidate() {
    let taken = ["dir/file0", "dir/file1", "dir/file2"];
    let mut search = AvailablePathSearch::new("dir/file");
    let mut tried = Vec::new();
    let found = loop {
        let c = search.candidate().unwrap();
        if !taken.contains(&c.as_str()) {
            break c;
        }
        tried.push(c.clone());
        assert!(search.report_taken(&c));
    };
    assert_eq!(found, "dir/file3");
    assert_eq!(tried, vec!["dir/file0", "dir/file1", "dir/file2"]);
    assert!(AvailablePathSearch::new("").candidate().is_err());
}

#[test]
fn root_folder_search_descends_through_single_folders() {
    let mut search = RootFolderSearch::new("x");
    assert_eq!(search.current_root(), "x");
    assert!(search.descend(Some(("x/a".to_string(), false)), false));
    assert!(search.descend(Some(("x/a/b".to_string(), false)), false));
    assert_eq!(search.current_root(), "x/a/b");
    assert!(!search.descend(Some(("x/a/b/c".to_string(), false)), true));
    assert_eq!(search.wrapped_root(), Some("x/a/b".to_string()));

    let mut search = RootFolderSearch::new("y");
    assert!(!search.descend(Some(("y/game.exe".to_string(), true)), false));
    assert_eq!(search.wrapped_root(), None);
    let mut search = RootFolderSearch::new("z");
    assert!(!search.descend(None, false));
    assert_eq!(search.wrapped_root(), None);
}

#[test]
fn depth_and_extension_penalties() {
    for (d1, d2) in [(0usize, 1usize), (0, 2), (1, 2), (2, 0)] {
        let a = rate_executable("g/start.exe", d1, GamePlatform::Windows, 1234).unwrap();
        let b = rate_executable("g/start.exe", d2, GamePlatform::Windows, 1234).unwrap();
        assert_eq!(a - b, ((d2 * d2) as i64 - (d1 * d1) as i64) * 1000);
    }
    let allowed = rate_executable("g/start.exe", 1, GamePlatform::Windows, 77).unwrap();
    let refused = rate_executable("g/start.dll", 1, GamePlatform::Windows, 77).unwrap();
    let missing = rate_executable("g/start", 1, GamePlatform::Windows, 77).unwrap();
    assert_eq!(allowed - refused, 10_000_000);
    assert_eq!(allowed - missing, 10_000_000);
}

#[test]
fn allowed_extensions_and_best_names() {
    assert_eq!(GamePlatform::Windows.get_allowed_extensions(), vec!["exe", "msi", "bat"]);
    assert_eq!(GamePlatform::Linux.get_allowed_extensions().len(), 6);
    assert_eq!(GamePlatform::Web.get_best_filenames(), vec!["index"]);
    assert!(GamePlatform::Java.get_best_filenames().is_empty());
}

#[test]
fn executable_search_keeps_the_first_best_file() {
    let mut s = ExecutableSearch::new("up");
    let (folder, depth) = s.next_folder().unwrap();
    assert_eq!((folder.as_str(), depth), ("up", 0));
    s.add_file("up/a".to_string(), 5);
    s.add_directory("up/sub".to_string(), depth);
    s.add_file("up/b".to_string(), 5);
    let (folder, depth) = s.next_folder().unwrap();
    assert_eq!((folder.as_str(), depth), ("up/sub", 1));
    s.add_directory("up/sub/deep".to_string(), depth);
    let (_, depth) = s.next_folder().unwrap();
    assert_eq!(depth, 2);
    s.add_directory("up/sub/deep/deeper".to_string(), depth);
    assert!(s.next_folder().is_none());
    assert_eq!(s.finish("up"), Ok("up/a".to_string()));
}

#[test]
fn executable_search_without_files_fails() {
    let mut s = ExecutableSearch::new("empty");
    assert!(s.next_folder().is_some());
    s.add_file("empty/x".to_string(), i64::MIN);
    assert_eq!(
        s.finish("empty"),
        Err("Couldn't find any game file executable in: \"empty\"".to_string())
    );
}

fn upload(id: u64, upload_type: UploadType, traits: Vec<UploadTrait>) -> Upload {
    Upload {
        position: 0,
        id,
        game_id: 1,
        upload_type,
        traits,
        filename: "f".to_string(),
        display_name: None,
        storage: UploadStorage::External { host: "h".to_string() },
        created_at: 0,
        updated_at: 0,
    }
}

#[test]
fn platforms_of_uploads() {
    let a = upload(1, UploadType::Html, vec![UploadTrait::Demo]);
    let b = upload(2, UploadType::Default, vec![UploadTrait::POsx, UploadTrait::PAndroid]);
    assert_eq!(a.to_game_platforms(), vec![GamePlatform::Web]);
    assert_eq!(b.to_game_platforms(), vec![GamePlatform::OSX, GamePlatform::Android]);
    assert_eq!(
        get_game_platforms(&vec![a, b]),
        vec![(1, GamePlatform::Web), (2, GamePlatform::OSX), (2, GamePlatform::Android)]
    );
}

#[test]
fn cover_paths() {
    assert_eq!(cover_path("g", None), "g/cover.png");
    assert_eq!(cover_path("g", Some("art.png")), "g/art.png");
}
