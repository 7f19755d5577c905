use scratch_io::itch_api::errors::{
    ApiResponseCommonErrors, ApiResponseError, ApiResponseErrorKind, BuildResponseError,
    CollectionResponseError, GameResponseError, IncorrectCaptchaCode, IncorrectTOTPCode,
    IncorrectUsernameOrPassword, InvalidApiKey, InvalidBuildID, InvalidCollectionID,
    InvalidGameID, InvalidTOTPToken, InvalidTargetBuildID, InvalidUploadID, InvalidUserID,
    LoginResponseError, NoUpgradePath, TOTPResponseError, TOTPTokenTimedOut,
    UpgradePathResponseError, UploadResponseError, UserResponseError,
};
use scratch_io::itch_api::login::{
    login_form, login_step, totp_form, ItchKey, LoginError, LoginResponse, LoginStep,
    LoginSuccess,
};
use scratch_io::itch_api::oauth::code_verifier::CodeVerifier;
use scratch_io::itch_api::oauth::uuid::UuidV4;
use scratch_io::itch_api::oauth::{get_oauth_url, oauth_url};
use scratch_io::itch_api::types::{
    GameClassification, GameTrait, GameType, ItchCookie, ItchKeySource, LoginCaptchaError,
    LoginTOTPError, Upload, UploadStorage, UploadTrait, UploadType, User,
};
use scratch_io::itch_api::{auth_headers, ApiEndpoint, ApiResponse, ItchApiUrl, ItchApiVersion, ListCollector};

fn strings(v: &[&str]) -> Vec<String> {
    v.iter().map(|s| s.to_string()).collect()
}

fn kind(v: &[&str]) -> ApiResponseErrorKind {
    ApiResponseErrorKind::from_errors(&strings(v))
}

#[test]
fn api_urls_by_version() {
    let u = ItchApiUrl::v1("my-games");
    assert_eq!(u.as_str(), "https://itch.io/api/1/my-games");
    assert_eq!(u.version(), ItchApiVersion::V1);
    let u = ItchApiUrl::v2("profile");
    assert_eq!(u.as_str(), "https://api.itch.io/profile");
    assert_eq!(u.get_version(), ItchApiVersion::V2);
    let u = ItchApiUrl::other("https://example.com/x".to_string());
    assert_eq!(u.as_str(), "https://example.com/x");
    assert_eq!(u.version(), ItchApiVersion::Other);
    assert_eq!(
        ItchApiUrl::from_api_endpoint(ItchApiVersion::V2, "login").as_str(),
        "https://api.itch.io/login"
    );
    assert_eq!(
        ItchApiUrl::from_api_endpoint(ItchApiVersion::Other, "https://a.b/c").as_str(),
        "https://a.b/c"
    );
}

#[test]
fn auth_headers_by_version() {
    assert_eq!(
        auth_headers(&ItchApiUrl::v1("x"), "KEY"),
        vec![("authorization".to_string(), "Bearer KEY".to_string())]
    );
    assert_eq!(
        auth_headers(&ItchApiUrl::v2("x"), "KEY"),
        vec![
            ("authorization".to_string(), "KEY".to_string()),
            ("accept".to_string(), "application/vnd.itch.v2".to_string())
        ]
    );
    assert!(auth_headers(&ItchApiUrl::other("https://evil.example".to_string()), "KEY").is_empty());
}

#[test]
fn error_messages_are_recognized() {
    assert!(matches!(kind(&["invalid key"]), ApiResponseErrorKind::InvalidApiKey(_)));
    assert!(matches!(
        kind(&["Incorrect username or password", "other"]),
        ApiResponseErrorKind::IncorrectUsernameOrPassword(_)
    ));
    assert!(matches!(
        kind(&["password must be provided"]),
        ApiResponseErrorKind::IncorrectUsernameOrPassword(_)
    ));
    assert!(matches!(
        kind(&["Please complete reCAPTCHA to continue"]),
        ApiResponseErrorKind::IncorrectCaptchaCode(_)
    ));
    assert!(matches!(kind(&["invalid code"]), ApiResponseErrorKind::IncorrectTOTPCode(_)));
    assert!(matches!(
        kind(&["two-factor login attempt timed out"]),
        ApiResponseErrorKind::TOTPTokenTimedOut(_)
    ));
    assert!(matches!(kind(&["invalid token"]), ApiResponseErrorKind::InvalidTOTPToken(_)));
    assert!(matches!(
        kind(&["user_id: expected database ID integer"]),
        ApiResponseErrorKind::InvalidUserID(_)
    ));
    assert!(matches!(
        kind(&["collection_id: expected integer"]),
        ApiResponseErrorKind::InvalidCollectionID(_)
    ));
    assert!(matches!(kind(&["invalid game"]), ApiResponseErrorKind::InvalidGameID(_)));
    assert!(matches!(
        kind(&["upload_id: expected database id"]),
        ApiResponseErrorKind::InvalidUploadID(_)
    ));
    assert!(matches!(kind(&["build_id: expected integer"]), ApiResponseErrorKind::InvalidBuildID(_)));
    assert!(matches!(
        kind(&["target_build_id: expected empty, or integer then database id"]),
        ApiResponseErrorKind::InvalidTargetBuildID(_)
    ));
    assert!(matches!(kind(&["no upgrade path"]), ApiResponseErrorKind::NoUpgradePath(_)));
}

#[test]
fn unrecognized_error_messages() {
    assert_eq!(kind(&[]), ApiResponseErrorKind::Other);
    assert_eq!(kind(&["invalid key", "invalid key"]), ApiResponseErrorKind::Other);
    assert_eq!(kind(&["Invalid Key"]), ApiResponseErrorKind::Other);
    assert_eq!(kind(&["something else"]), ApiResponseErrorKind::Other);
    let kind_from_slice: ApiResponseErrorKind = strings(&["invalid game"]).as_slice().into();
    assert_eq!(kind_from_slice, ApiResponseErrorKind::InvalidGameID(InvalidGameID));
}

fn api_error(v: &[&str]) -> ApiResponseError {
    strings(v).into()
}

#[test]
fn api_error_keeps_its_messages() {
    let e = api_error(&["invalid user"]);
    assert_eq!(e.errors, strings(&["invalid user"]));
    assert_eq!(e.kind, ApiResponseErrorKind::InvalidUserID(InvalidUserID));
}

#[test]
fn errors_are_sorted_per_call() {
    let c: ApiResponseCommonErrors = api_error(&["invalid key"]).into();
    assert_eq!(c, ApiResponseCommonErrors::InvalidApiKey(InvalidApiKey));
    let c: ApiResponseCommonErrors = api_error(&["zzz"]).into();
    assert_eq!(c, ApiResponseCommonErrors::Other(strings(&["zzz"])));
    let l: LoginResponseError = api_error(&["username must be provided"]).into();
    assert_eq!(l, LoginResponseError::IncorrectUsernameOrPassword(IncorrectUsernameOrPassword));
    let l: LoginResponseError = api_error(&["Please correctly complete reCAPTCHA"]).into();
    assert_eq!(l, LoginResponseError::IncorrectCaptchaCode(IncorrectCaptchaCode));
    let t: TOTPResponseError = api_error(&["invalid code"]).into();
    assert_eq!(t, TOTPResponseError::IncorrectTOTPCode(IncorrectTOTPCode));
    let t: TOTPResponseError = api_error(&["two-factor login attempt timed out"]).into();
    assert_eq!(t, TOTPResponseError::TOTPTokenTimedOut(TOTPTokenTimedOut));
    let t: TOTPResponseError = api_error(&["invalid token"]).into();
    assert_eq!(t, TOTPResponseError::InvalidTOTPToken(InvalidTOTPToken));
    let u: UserResponseError = api_error(&["invalid user"]).into();
    assert_eq!(u, UserResponseError::InvalidUserID(InvalidUserID));
    let c: CollectionResponseError = api_error(&["invalid collection"]).into();
    assert_eq!(c, CollectionResponseError::InvalidCollectionID(InvalidCollectionID));
    let g: GameResponseError = api_error(&["game_id: expected integer"]).into();
    assert_eq!(g, GameResponseError::InvalidGameID(InvalidGameID));
    let up: UploadResponseError = api_error(&["invalid game"]).into();
    assert_eq!(up, UploadResponseError::InvalidUploadID(InvalidUploadID));
    let b: BuildResponseError = api_error(&["invalid upload"]).into();
    assert_eq!(b, BuildResponseError::InvalidBuildID(InvalidBuildID));
    let p: UpgradePathResponseError = api_error(&["no upgrade path"]).into();
    assert_eq!(p, UpgradePathResponseError::NoUpgradePath(NoUpgradePath));
    let p: UpgradePathResponseError = api_error(&["invalid game"]).into();
    assert_eq!(p, UpgradePathResponseError::InvalidBuildID(InvalidBuildID));
    let p: UpgradePathResponseError =
        api_error(&["target_build_id: expected empty, or integer then database id"]).into();
    assert_eq!(p, UpgradePathResponseError::InvalidTargetBuildID(InvalidTargetBuildID));
}

#[test]
fn invalid_key_is_common_for_every_call_on_examples() {
    let g: GameResponseError = api_error(&["invalid key"]).into();
    assert_eq!(g, GameResponseError::Other(ApiResponseCommonErrors::InvalidApiKey(InvalidApiKey)));
    let b: BuildResponseError = api_error(&["invalid key"]).into();
    assert_eq!(b, BuildResponseError::Other(ApiResponseCommonErrors::InvalidApiKey(InvalidApiKey)));
    let u: UserResponseError = api_error(&["invalid game"]).into();
    assert_eq!(
        u,
        UserResponseError::Other(ApiResponseCommonErrors::Other(strings(&["invalid game"])))
    );
}

#[test]
fn api_response_into_result() {
    let ok: ApiResponse<u32> = ApiResponse::Success(5);
    assert_eq!(ok.into_result::<ApiResponseError>(), Ok(5));
    let err: ApiResponse<u32> = ApiResponse::Error { errors: strings(&["invalid key"]) };
    let e = err.into_result::<ApiResponseError>().unwrap_err();
    assert_eq!(e.kind, ApiResponseErrorKind::InvalidApiKey(InvalidApiKey));
    let err: ApiResponse<u32> = ApiResponse::Error { errors: strings(&["invalid game"]) };
    assert_eq!(
        err.into_result::<UploadResponseError>(),
        Err(UploadResponseError::InvalidUploadID(InvalidUploadID))
    );
    let err: ApiResponse<u32> = ApiResponse::Error { errors: strings(&["invalid key"]) };
    assert_eq!(
        err.into_result::<UploadResponseError>(),
        Err(UploadResponseError::Other(ApiResponseCommonErrors::InvalidApiKey(InvalidApiKey)))
    );
}

#[test]
fn list_collector_stops_at_a_short_page() {
    let mut c: ListCollector<u32> = ListCollector::new();
    assert_eq!(c.next_page(), Some(1));
    c.add_page(vec![1, 2], 2);
    assert_eq!(c.next_page(), Some(2));
    c.add_page(vec![3], 2);
    assert_eq!(c.next_page(), None);
    assert_eq!(c.into_values(), vec![1, 2, 3]);
    let mut c: ListCollector<u32> = ListCollector::new();
    c.add_page(vec![], 0);
    assert_eq!(c.next_page(), None);
}

fn user(display_name: Option<&str>) -> User {
    User {
        id: 1,
        username: "user1".to_string(),
        display_name: display_name.map(|s| s.to_string()),
        url: "https://user1.itch.io".to_string(),
        cover_url: None,
        still_cover_url: None,
    }
}

fn upload(display_name: Option<&str>, storage: UploadStorage) -> Upload {
    Upload {
        position: 0,
        id: 10,
        game_id: 20,
        upload_type: UploadType::Html,
        traits: vec![UploadTrait::PLinux, UploadTrait::Demo, UploadTrait::PWindows],
        filename: "game.zip".to_string(),
        display_name: display_name.map(|s| s.to_string()),
        storage,
        created_at: 0,
        updated_at: 0,
    }
}

#[test]
fn names_fall_back() {
    assert_eq!(user(Some("User One")).get_name(), "User One");
    assert_eq!(user(None).get_name(), "user1");
    let hosted = UploadStorage::Hosted { size: 3, md5_hash: Some("abc".to_string()) };
    assert_eq!(upload(Some("Linux build"), hosted.clone()).get_name(), "Linux build");
    assert_eq!(upload(None, hosted.clone()).get_name(), "game.zip");
    assert_eq!(upload(None, hosted).get_hash(), Some("abc"));
    assert_eq!(upload(None, UploadStorage::External { host: "x".to_string() }).get_hash(), None);
}

#[test]
fn api_names_of_game_enums() {
    assert_eq!(GameTrait::PLinux.to_string(), "p_linux");
    assert_eq!(GameTrait::InPressSystem.to_string(), "in_press_system");
    assert_eq!(GameClassification::GameMod.to_string(), "game_mod");
    assert_eq!(GameClassification::PhysicalGame.to_string(), "physical_game");
    assert_eq!(GameType::Html.to_string(), "html");
    assert_eq!(GameType::Default.to_string(), "default");
}

#[test]
fn login_forms() {
    let f = login_form("me", "secret", "token");
    assert_eq!(
        f,
        vec![
            ("username".to_string(), "me".to_string()),
            ("password".to_string(), "secret".to_string()),
            ("force_recaptcha".to_string(), "true".to_string()),
            ("recaptcha_response".to_string(), "token".to_string()),
            ("source".to_string(), "desktop".to_string()),
        ]
    );
    assert_eq!(
        totp_form("tk", 123456),
        vec![("token".to_string(), "tk".to_string()), ("code".to_string(), "123456".to_string())]
    );
}

fn success() -> LoginSuccess {
    LoginSuccess {
        success: true,
        cookie: ItchCookie { itchio: "c".to_string() },
        key: ItchKey {
            key: "NEWKEY".to_string(),
            id: 1,
            user_id: 2,
            source: ItchKeySource::Desktop,
            revoked: None,
            created_at: 0,
            updated_at: 0,
            last_used_at: None,
        },
    }
}

#[test]
fn login_steps() {
    assert_eq!(
        login_step(LoginResponse::Success(success()), None),
        LoginStep::Done { api_key: "NEWKEY".to_string() }
    );
    let captcha = LoginCaptchaError {
        success: false,
        recaptcha_needed: true,
        recaptcha_url: "https://itch.io/captcha".to_string(),
    };
    assert_eq!(
        login_step(LoginResponse::CaptchaError(captcha.clone()), Some(1)),
        LoginStep::Failed(LoginError::CaptchaNeeded(captcha))
    );
    let totp = LoginTOTPError { success: false, totp_needed: true, token: "T".to_string() };
    assert_eq!(
        login_step(LoginResponse::TOTPError(totp.clone()), Some(42)),
        LoginStep::VerifyTotp { token: "T".to_string(), code: 42 }
    );
    assert_eq!(
        login_step(LoginResponse::TOTPError(totp.clone()), None),
        LoginStep::Failed(LoginError::TOTPNeeded(totp))
    );
}

const RFC_7636_BYTES: [u8; 32] = [
    116, 24, 223, 180, 151, 153, 224, 37, 79, 250, 96, 125, 216, 173, 187, 186, 22, 212, 37, 77,
    105, 214, 191, 240, 91, 88, 5, 88, 83, 132, 141, 121,
];

#[test]
fn code_verifier_and_challenge_match_rfc_7636() {
    let v = CodeVerifier::from_bytes(RFC_7636_BYTES);
    assert_eq!(v.as_str(), "dBjftJeZ4CVP-mB92K27uhbUJU1p1r_wW1gFWFOEjXk");
    assert_eq!(v.to_challenge().as_str(), "E9Melhoa2OwvFrEMTJguCHaoeK1t8URWbuGJSstw-cM");
}

#[test]
fn random_code_verifier_is_43_url_safe_characters() {
    let v = CodeVerifier::random().expect("the random source works here");
    assert_eq!(v.as_str().len(), 43);
    assert!(v.as_str().chars().all(|c| c.is_ascii_alphanumeric() || c == '-' || c == '_'));
    let c = v.to_challenge();
    assert!(c.as_str().chars().all(|c| c.is_ascii_alphanumeric() || c == '-' || c == '_'));
    assert_ne!(CodeVerifier::random().expect("the random source works here").as_str(), v.as_str());
}

#[test]
fn oauth_url_carries_the_challenge() {
    let v = CodeVerifier::from_bytes(RFC_7636_BYTES);
    let url = oauth_url(&v);
    assert_eq!(
        url,
        "https://itch.io/user/oauth?client_id=85252daf268d27fbefac93e1ac462bfd&response_type=code&scope=itch&redirect_uri=itch%3A%2F%2Foauth-callback&code_challenge_method=S256&code_challenge=E9Melhoa2OwvFrEMTJguCHaoeK1t8URWbuGJSstw-cM"
    );
    let r = get_oauth_url().expect("the random source works here");
    assert_eq!(
        r.url,
        format!(
            "https://itch.io/user/oauth?client_id=85252daf268d27fbefac93e1ac462bfd&response_type=code&scope=itch&redirect_uri=itch%3A%2F%2Foauth-callback&code_challenge_method=S256&code_challenge={}",
            r.code_verifier.to_challenge().as_str()
        )
    );
    assert_eq!(r.url, oauth_url(&r.code_verifier));
}

#[test]
fn uuid_bits_and_text() {
    let u = UuidV4::from_random_bytes([0xFF; 16]);
    assert_eq!(u.to_string(), "ffffffff-ffff-4fff-bfff-ffffffffffff");
    let u = UuidV4::from_random_bytes([0; 16]);
    assert_eq!(u.to_string(), "00000000-0000-4000-8000-000000000000");
    let bytes = [0x12, 0x34, 0x56, 0x78, 0x9a, 0xbc, 0xde, 0xf0, 0x0f, 0xed, 0xcb, 0xa9, 0x87, 0x65, 0x43, 0x21];
    assert_eq!(UuidV4::from_random_bytes(bytes).to_string(), "12345678-9abc-4ef0-8fed-cba987654321");
    let r = UuidV4::random().expect("the random source works here").to_string();
    assert_eq!(r.len(), 36);
    assert_eq!(&r[14..15], "4");
    assert!(matches!(&r[19..20], "8" | "9" | "a" | "b"));
}

#[test]
fn endpoint_addresses() {
    use_endpoint(ApiEndpoint::Login, "https://api.itch.io/login");
    use_endpoint(ApiEndpoint::UserInfo { user_id: 42 }, "https://api.itch.io/users/42");
    use_endpoint(ApiEndpoint::OwnedKeys, "https://api.itch.io/profile/owned-keys");
    use_endpoint(
        ApiEndpoint::CollectionGames { collection_id: 7 },
        "https://api.itch.io/collections/7/collection-games",
    );
    use_endpoint(ApiEndpoint::GameUploads { game_id: 3 }, "https://api.itch.io/games/3/uploads");
    use_endpoint(ApiEndpoint::UploadDownload { upload_id: 9 }, "https://api.itch.io/uploads/9/download");
    use_endpoint(
        ApiEndpoint::UpgradePath { current_build_id: 1, target_build_id: 20 },
        "https://api.itch.io/builds/1/upgrade-paths/20",
    );
    use_endpoint(
        ApiEndpoint::BuildScannedArchive { build_id: 5 },
        "https://api.itch.io/builds/5/scanned-archive",
    );
}

fn use_endpoint(e: ApiEndpoint, expected: &str) {
    let url = e.url();
    assert_eq!(url.as_str(), expected);
    assert_eq!(url.version(), ItchApiVersion::V2);
}
