use scratch_io::download::{
    download_warning, expected_hash, hash_matches, plan_download, range_header_value,
    range_outcome, seek_target, DownloadPlan, DownloadStatus, Md5Stream, RangeOutcome, SeekError,
    SeekPosition,
};
use scratch_io::heuristics::GamePlatform;
use scratch_io::itch_api::types::{Manifest, ManifestAction, Upload, UploadStorage, UploadType};
use scratch_io::launch::{
    choose_launch_method, command_line, launch_action, parse_environment_variable, resolve_launch,
    spawn_error_message, split_words, LaunchMethod, LaunchOptionsError, LaunchTarget, WordsKind,
};
use scratch_io::text::{bytes_to_hex, str_eq_ignore_ascii_case, u64_to_decimal, u64_to_hex, u64_to_radix};

fn strings(v: &[&str]) -> Vec<String> {
    v.iter().map(|s| s.to_string()).collect()
}

#[test]
fn numbers_as_text() {
    assert_eq!(u64_to_decimal(0), "0");
    assert_eq!(u64_to_decimal(1234567890), "1234567890");
    assert_eq!(u64_to_decimal(u64::MAX), "18446744073709551615");
    assert_eq!(u64_to_hex(0), "0");
    assert_eq!(u64_to_hex(0xdeadbeef), "deadbeef");
    assert_eq!(u64_to_radix(5, 2), "101");
    assert_eq!(bytes_to_hex(&[0x00, 0x0f, 0xa0, 0xff]), "000fa0ff");
    assert!(str_eq_ignore_ascii_case("AbC", "aBc"));
    assert!(!str_eq_ignore_ascii_case("abc", "abd"));
    assert!(!str_eq_ignore_ascii_case("abc", "abcd"));
}

#[test]
fn download_plans() {
    assert_eq!(plan_download(0, 100), DownloadPlan::WholeFile);
    assert_eq!(plan_download(0, 0), DownloadPlan::WholeFile);
    assert_eq!(plan_download(100, 100), DownloadPlan::Complete);
    assert_eq!(plan_download(40, 100), DownloadPlan::RequestRange { from: 40 });
    assert_eq!(plan_download(120, 100), DownloadPlan::Restart);
    assert_eq!(range_header_value(40), "bytes=40-");
    assert_eq!(range_outcome(206), RangeOutcome::UsePartial);
    assert_eq!(range_outcome(200), RangeOutcome::Restart);
    assert_eq!(range_outcome(404), RangeOutcome::Fail { status: 404 });
}

#[test]
fn downloaded_hash_check() {
    let digest = [0x90, 0x01, 0x50, 0x98, 0x3c, 0xd2, 0x4f, 0xb0, 0xd6, 0x96, 0x3f, 0x7d, 0x28, 0xe1, 0x7f, 0x72];
    assert!(hash_matches(&digest, "900150983cd24fb0d6963f7d28e17f72"));
    assert!(hash_matches(&digest, "900150983CD24FB0D6963F7D28E17F72"));
    assert!(!hash_matches(&digest, "900150983cd24fb0d6963f7d28e17f73"));
}

#[test]
fn md5_stream_hashes_its_chunks() {
    let mut s = Md5Stream::new();
    s.update(b"a");
    s.update(b"");
    s.update(b"bc");
    assert_eq!(bytes_to_hex(&s.finalize()), "900150983cd24fb0d6963f7d28e17f72");
    let mut s = Md5Stream::new();
    s.update(b"ab");
    s.update(b"c");
    assert!(s.digest_matches("900150983CD24FB0D6963F7D28E17F72"));
    let mut s = Md5Stream::new();
    s.update(b"abd");
    assert!(!s.digest_matches("900150983cd24fb0d6963f7d28e17f72"));
    assert_eq!(bytes_to_hex(&Md5Stream::new().finalize()), "d41d8cd98f00b204e9800998ecf8427e");
}

fn hosted(hash: Option<&str>) -> Upload {
    Upload {
        position: 0,
        id: 1,
        game_id: 2,
        upload_type: UploadType::Default,
        traits: vec![],
        filename: "f.zip".to_string(),
        display_name: None,
        storage: UploadStorage::Hosted { size: 1, md5_hash: hash.map(|h| h.to_string()) },
        created_at: 0,
        updated_at: 0,
    }
}

#[test]
fn download_warnings_and_expected_hash() {
    assert_eq!(expected_hash(&hosted(Some("ab")), false), Some("ab"));
    assert_eq!(expected_hash(&hosted(Some("ab")), true), None);
    assert_eq!(expected_hash(&hosted(None), false), None);
    assert_eq!(
        download_warning(true, true),
        Some(DownloadStatus::Warning(
            "Skipping hash verification! The file integrity won't be checked!".to_string()
        ))
    );
    assert_eq!(
        download_warning(false, false),
        Some(DownloadStatus::Warning("Missing md5 hash. Couldn't verify the file integrity!".to_string()))
    );
    assert_eq!(download_warning(false, true), None);
}

#[test]
fn seeks() {
    assert_eq!(seek_target(100, 10, SeekPosition::Start(50)), Ok(50));
    assert_eq!(seek_target(100, 10, SeekPosition::Start(101)), Err(SeekError::PastEnd));
    assert_eq!(seek_target(100, 10, SeekPosition::End(-30)), Ok(70));
    assert_eq!(seek_target(100, 10, SeekPosition::End(-101)), Err(SeekError::BeforeStartOrOverflow));
    assert_eq!(seek_target(100, 10, SeekPosition::Current(5)), Ok(15));
    assert_eq!(seek_target(100, 10, SeekPosition::Current(-11)), Err(SeekError::BeforeStartOrOverflow));
    assert_eq!(seek_target(100, 10, SeekPosition::End(1)), Err(SeekError::PastEnd));
}

fn action(name: &str, path: &str, args: Option<&[&str]>) -> ManifestAction {
    ManifestAction {
        name: name.to_string(),
        path: path.to_string(),
        platform: None,
        args: args.map(strings),
        sandbox: None,
        console: None,
        scope: None,
    }
}

#[test]
fn manifest_actions_are_found_by_name() {
    let m = Manifest {
        actions: Some(vec![
            action("editor", "editor.exe", None),
            action("play", "game.exe", None),
            action("play", "other.exe", None),
        ]),
        prereqs: None,
    };
    assert_eq!(launch_action(Some(&m), None), Some(1));
    assert_eq!(launch_action(Some(&m), Some("editor")), Some(0));
    assert_eq!(launch_action(Some(&m), Some("missing")), None);
    assert_eq!(launch_action(None, None), None);
    let no_actions = Manifest { actions: None, prereqs: None };
    assert_eq!(launch_action(Some(&no_actions), None), None);
}

#[test]
fn launch_resolution() {
    let a = action("play", "bin/game", Some(&["--fullscreen"]));
    let given = strings(&["--windowed"]);
    let none: Vec<String> = vec![];
    assert_eq!(
        resolve_launch(&LaunchMethod::AlternativeExecutable("x".to_string()), None, &given),
        Ok(LaunchTarget::Executable { path: "x".to_string(), args: given.clone() })
    );
    assert_eq!(
        resolve_launch(&LaunchMethod::ManifestAction("play".to_string()), Some(&a), &none),
        Ok(LaunchTarget::Executable { path: "bin/game".to_string(), args: strings(&["--fullscreen"]) })
    );
    assert_eq!(
        resolve_launch(&LaunchMethod::ManifestAction("play".to_string()), Some(&a), &given),
        Ok(LaunchTarget::Executable { path: "bin/game".to_string(), args: given.clone() })
    );
    assert_eq!(
        resolve_launch(&LaunchMethod::ManifestAction("run".to_string()), None, &given),
        Err("The provided launch action doesn't exist in the manifest: run".to_string())
    );
    assert_eq!(
        resolve_launch(&LaunchMethod::Heuristics(GamePlatform::Linux, "T".to_string()), None, &given),
        Ok(LaunchTarget::SearchExecutable { args: given.clone() })
    );
}

#[test]
fn command_lines_with_and_without_wrapper() {
    let args = strings(&["-x"]);
    assert_eq!(command_line(&vec![], "/g/game", &args), ("/g/game".to_string(), strings(&["-x"])));
    assert_eq!(
        command_line(&strings(&["wine", "--debug"]), "/g/game.exe", &args),
        ("wine".to_string(), strings(&["--debug", "/g/game.exe", "-x"]))
    );
}

#[test]
fn spawn_errors() {
    assert_eq!(
        spawn_error_message(Some(8), "Exec format error"),
        "Couldn't spawn the child process because it is not an executable format for this OS\nMaybe a wrapper is missing or the selected game executable isn't the correct one!"
    );
    assert_eq!(
        spawn_error_message(Some(2), "No such file"),
        "Couldn't spawn the child process: No such file"
    );
}

#[test]
fn launch_options() {
    assert_eq!(split_words(None, WordsKind::GameArguments), Ok(vec![]));
    assert_eq!(
        split_words(Some("wine --flag 'a b'"), WordsKind::WrapperArguments),
        Ok(strings(&["wine", "--flag", "a b"]))
    );
    assert_eq!(
        split_words(Some("'open"), WordsKind::EnvironmentVariables),
        Err(LaunchOptionsError::UnclosedQuote {
            kind: WordsKind::EnvironmentVariables,
            text: "'open".to_string()
        })
    );
    assert_eq!(
        parse_environment_variable("A=b=c"),
        Ok(("A".to_string(), "b=c".to_string()))
    );
    assert_eq!(
        parse_environment_variable("NOVALUE"),
        Err(LaunchOptionsError::MissingEquals { variable: "NOVALUE".to_string() })
    );
    assert_eq!(
        choose_launch_method(Some("x".to_string()), Some("play".to_string()), None, "T".to_string()),
        Ok(LaunchMethod::AlternativeExecutable("x".to_string()))
    );
    assert_eq!(
        choose_launch_method(None, Some("play".to_string()), Some(GamePlatform::Linux), "T".to_string()),
        Ok(LaunchMethod::ManifestAction("play".to_string()))
    );
    assert_eq!(
        choose_launch_method(None, None, Some(GamePlatform::Linux), "T".to_string()),
        Ok(LaunchMethod::Heuristics(GamePlatform::Linux, "T".to_string()))
    );
    assert_eq!(
        choose_launch_method(None, None, None, "T".to_string()),
        Err(LaunchOptionsError::NoLaunchMethod)
    );
}
