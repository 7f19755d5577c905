//! The errors the itch.io API answers with, and how each API call sorts
//! them.
use vstd::prelude::*;
use vstd::string::StringExecFns;

verus! {

/// The provided API key is invalid.
#[derive(Debug, Clone, Copy, PartialEq, Eq)]
pub struct InvalidApiKey;

/// The username or the password is incorrect.
#[derive(Debug, Clone, Copy, PartialEq, Eq)]
pub struct IncorrectUsernameOrPassword;

/// The reCAPTCHA response code is incorrect.
#[derive(Debug, Clone, Copy, PartialEq, Eq)]
pub struct IncorrectCaptchaCode;

/// The TOTP code is incorrect.
#[derive(Debug, Clone, Copy, PartialEq, Eq)]
pub struct IncorrectTOTPCode;

/// The TOTP token timed out; logging in again gives another one.
#[derive(Debug, Clone, Copy, PartialEq, Eq)]
pub struct TOTPTokenTimedOut;

/// The TOTP token is invalid.
#[derive(Debug, Clone, Copy, PartialEq, Eq)]
pub struct InvalidTOTPToken;

/// The provided user ID is invalid.
#[derive(Debug, Clone, Copy, PartialEq, Eq)]
pub struct InvalidUserID;

/// The provided collection ID is invalid.
#[derive(Debug, Clone, Copy, PartialEq, Eq)]
pub struct InvalidCollectionID;

/// The provided game ID is invalid.
#[derive(Debug, Clone, Copy, PartialEq, Eq)]
pub struct InvalidGameID;

/// The provided upload ID is invalid.
#[derive(Debug, Clone, Copy, PartialEq, Eq)]
pub struct InvalidUploadID;

/// The provided build ID is invalid.
#[derive(Debug, Clone, Copy, PartialEq, Eq)]
pub struct InvalidBuildID;

/// The provided target build ID is invalid.
#[derive(Debug, Clone, Copy, PartialEq, Eq)]
pub struct InvalidTargetBuildID;

/// No upgrade path was found.
#[derive(Debug, Clone, Copy, PartialEq, Eq)]
pub struct NoUpgradePath;

/// Every error the itch.io API answers with that this library recognizes.
#[derive(Debug, Clone, Copy, PartialEq, Eq)]
pub enum ApiResponseErrorKind {
    InvalidApiKey(InvalidApiKey),
    IncorrectUsernameOrPassword(IncorrectUsernameOrPassword),
    IncorrectCaptchaCode(IncorrectCaptchaCode),
    IncorrectTOTPCode(IncorrectTOTPCode),
    TOTPTokenTimedOut(TOTPTokenTimedOut),
    InvalidTOTPToken(InvalidTOTPToken),
    InvalidUserID(InvalidUserID),
    InvalidCollectionID(InvalidCollectionID),
    InvalidGameID(InvalidGameID),
    InvalidUploadID(InvalidUploadID),
    InvalidBuildID(InvalidBuildID),
    InvalidTargetBuildID(InvalidTargetBuildID),
    NoUpgradePath(NoUpgradePath),
    Other,
}

pub open spec fn is_invalid_user_or_password(v: Seq<char>) -> bool {
    v == "Incorrect username or password"@ || v == "username must be provided"@ || v
        == "password must be provided"@
}

pub open spec fn is_invalid_captcha_code(v: Seq<char>) -> bool {
    v == "Please correctly complete reCAPTCHA"@ || v == "Please complete reCAPTCHA to continue"@
}

pub open spec fn is_invalid_user(v: Seq<char>) -> bool {
    v == "invalid user"@ || v == "user_id: expected database ID integer"@
}

pub open spec fn is_invalid_collection(v: Seq<char>) -> bool {
    v == "invalid collection"@ || v == "collection_id: expected database id"@ || v
        == "collection_id: expected integer"@
}

pub open spec fn is_invalid_game(v: Seq<char>) -> bool {
    v == "invalid game"@ || v == "game_id: expected database id"@ || v
        == "game_id: expected integer"@
}

pub open spec fn is_invalid_upload(v: Seq<char>) -> bool {
    v == "invalid upload"@ || v == "upload_id: expected database id"@ || v
        == "upload_id: expected integer"@
}

pub open spec fn is_invalid_build(v: Seq<char>) -> bool {
    v == "invalid build"@ || v == "build_id: expected database id"@ || v
        == "build_id: expected integer"@
}

/// Which error the API's error messages stand for. A recognized message
/// must be the only one, except for a wrong username or password, which is
/// recognized as the first of several.
pub open spec fn spec_error_kind(errors: Seq<Seq<char>>) -> ApiResponseErrorKind {
    if errors.len() == 1 && errors[0] == "invalid key"@ {
        ApiResponseErrorKind::InvalidApiKey(InvalidApiKey)
    } else if errors.len() >= 1 && is_invalid_user_or_password(errors[0]) {
        ApiResponseErrorKind::IncorrectUsernameOrPassword(IncorrectUsernameOrPassword)
    } else if errors.len() != 1 {
        ApiResponseErrorKind::Other
    } else if is_invalid_captcha_code(errors[0]) {
        ApiResponseErrorKind::IncorrectCaptchaCode(IncorrectCaptchaCode)
    } else if errors[0] == "invalid code"@ {
        ApiResponseErrorKind::IncorrectTOTPCode(IncorrectTOTPCode)
    } else if errors[0] == "two-factor login attempt timed out"@ {
        ApiResponseErrorKind::TOTPTokenTimedOut(TOTPTokenTimedOut)
    } else if errors[0] == "invalid token"@ {
        ApiResponseErrorKind::InvalidTOTPToken(InvalidTOTPToken)
    } else if is_invalid_user(errors[0]) {
        ApiResponseErrorKind::InvalidUserID(InvalidUserID)
    } else if is_invalid_collection(errors[0]) {
        ApiResponseErrorKind::InvalidCollectionID(InvalidCollectionID)
    } else if is_invalid_game(errors[0]) {
        ApiResponseErrorKind::InvalidGameID(InvalidGameID)
    } else if is_invalid_upload(errors[0]) {
        ApiResponseErrorKind::InvalidUploadID(InvalidUploadID)
    } else if is_invalid_build(errors[0]) {
        ApiResponseErrorKind::InvalidBuildID(InvalidBuildID)
    } else if errors[0] == "target_build_id: expected empty, or integer then database id"@ {
        ApiResponseErrorKind::InvalidTargetBuildID(InvalidTargetBuildID)
    } else if errors[0] == "no upgrade path"@ {
        ApiResponseErrorKind::NoUpgradePath(NoUpgradePath)
    } else {
        ApiResponseErrorKind::Other
    }
}

/// The texts of a list of strings.
pub open spec fn strings_view(v: Seq<String>) -> Seq<Seq<char>> {
    v.map_values(|s: String| s@)
}

/// Whether `v` holds the text `t`.
fn is(v: &String, t: &str) -> (r: bool)
    ensures
        r == (v@ == t@),
{
    *v == String::from_str(t)
}

impl ApiResponseErrorKind {
    /// Recognizes the error that the API's error messages stand for.
    pub fn from_errors(value: &[String]) -> (r: ApiResponseErrorKind)
        ensures
            r == spec_error_kind(strings_view(value@)),
    {
        let ghost errors = strings_view(value@);
        if value.len() == 0 {
            return ApiResponseErrorKind::Other;
        }
        let v = &value[0];
        proof {
            assert(errors[0] == v@);
        }
        if value.len() == 1 && is(v, "invalid key") {
            ApiResponseErrorKind::InvalidApiKey(InvalidApiKey)
        } else if is(v, "Incorrect username or password") || is(v, "username must be provided") || is(
            v,
            "password must be provided",
        ) {
            ApiResponseErrorKind::IncorrectUsernameOrPassword(IncorrectUsernameOrPassword)
        } else if value.len() != 1 {
            ApiResponseErrorKind::Other
        } else if is(v, "Please correctly complete reCAPTCHA") || is(
            v,
            "Please complete reCAPTCHA to continue",
        ) {
            ApiResponseErrorKind::IncorrectCaptchaCode(IncorrectCaptchaCode)
        } else if is(v, "invalid code") {
            ApiResponseErrorKind::IncorrectTOTPCode(IncorrectTOTPCode)
        } else if is(v, "two-factor login attempt timed out") {
            ApiResponseErrorKind::TOTPTokenTimedOut(TOTPTokenTimedOut)
        } else if is(v, "invalid token") {
            ApiResponseErrorKind::InvalidTOTPToken(InvalidTOTPToken)
        } else if is(v, "invalid user") || is(v, "user_id: expected database ID integer") {
            ApiResponseErrorKind::InvalidUserID(InvalidUserID)
        } else if is(v, "invalid collection") || is(v, "collection_id: expected database id") || is(
            v,
            "collection_id: expected integer",
        ) {
            ApiResponseErrorKind::InvalidCollectionID(InvalidCollectionID)
        } else if is(v, "invalid game") || is(v, "game_id: expected database id") || is(
            v,
            "game_id: expected integer",
        ) {
            ApiResponseErrorKind::InvalidGameID(InvalidGameID)
        } else if is(v, "invalid upload") || is(v, "upload_id: expected database id") || is(
            v,
            "upload_id: expected integer",
        ) {
            ApiResponseErrorKind::InvalidUploadID(InvalidUploadID)
        } else if is(v, "invalid build") || is(v, "build_id: expected database id") || is(
            v,
            "build_id: expected integer",
        ) {
            ApiResponseErrorKind::InvalidBuildID(InvalidBuildID)
        } else if is(v, "target_build_id: expected empty, or integer then database id") {
            ApiResponseErrorKind::InvalidTargetBuildID(InvalidTargetBuildID)
        } else if is(v, "no upgrade path") {
            ApiResponseErrorKind::NoUpgradePath(NoUpgradePath)
        } else {
            ApiResponseErrorKind::Other
        }
    }
}

/// An error answer of the API: its messages, and the error they stand for.
#[derive(Debug, Clone, PartialEq, Eq)]
pub struct ApiResponseError {
    pub errors: Vec<String>,
    pub kind: ApiResponseErrorKind,
}

impl ApiResponseError {
    /// Keeps the messages and recognizes the error they stand for.
    pub fn from_errors(value: Vec<String>) -> (r: ApiResponseError)
        ensures
            r.errors == value,
            r.kind == spec_error_kind(strings_view(value@)),
    {
        let kind = ApiResponseErrorKind::from_errors(value.as_slice());
        ApiResponseError { errors: value, kind }
    }
}

/// The errors that every API call can answer with.
#[derive(Debug, Clone, PartialEq, Eq)]
pub enum ApiResponseCommonErrors {
    InvalidApiKey(InvalidApiKey),
    Other(Vec<String>),
}

impl ApiResponseCommonErrors {
    pub open spec fn spec_from(value: ApiResponseError) -> ApiResponseCommonErrors {
        match value.kind {
            ApiResponseErrorKind::InvalidApiKey(v) => ApiResponseCommonErrors::InvalidApiKey(v),
            _ => ApiResponseCommonErrors::Other(value.errors),
        }
    }

    /// An invalid API key is kept; any other error is passed on with its
    /// messages.
    pub fn from_api_error(value: ApiResponseError) -> (r: ApiResponseCommonErrors)
        ensures
            r == Self::spec_from(value),
    {
        match value.kind {
            ApiResponseErrorKind::InvalidApiKey(v) => ApiResponseCommonErrors::InvalidApiKey(v),
            _ => ApiResponseCommonErrors::Other(value.errors),
        }
    }
}

/// The errors of the login call.
#[derive(Debug, Clone, PartialEq, Eq)]
pub enum LoginResponseError {
    IncorrectUsernameOrPassword(IncorrectUsernameOrPassword),
    IncorrectCaptchaCode(IncorrectCaptchaCode),
    Other(ApiResponseCommonErrors),
}

impl LoginResponseError {
    pub open spec fn spec_from(value: ApiResponseError) -> LoginResponseError {
        match value.kind {
            ApiResponseErrorKind::IncorrectUsernameOrPassword(v) => LoginResponseError::IncorrectUsernameOrPassword(v),
            ApiResponseErrorKind::IncorrectCaptchaCode(v) => LoginResponseError::IncorrectCaptchaCode(v),
            _ => LoginResponseError::Other(ApiResponseCommonErrors::spec_from(value)),
        }
    }

    /// Sorts an API error for the login call.
    pub fn from_api_error(value: ApiResponseError) -> (r: LoginResponseError)
        ensures
            r == Self::spec_from(value),
    {
        match value.kind {
            ApiResponseErrorKind::IncorrectUsernameOrPassword(v) => LoginResponseError::IncorrectUsernameOrPassword(v),
            ApiResponseErrorKind::IncorrectCaptchaCode(v) => LoginResponseError::IncorrectCaptchaCode(v),
            _ => LoginResponseError::Other(ApiResponseCommonErrors::from_api_error(value)),
        }
    }
}

/// The errors of the TOTP verification call.
#[derive(Debug, Clone, PartialEq, Eq)]
pub enum TOTPResponseError {
    IncorrectTOTPCode(IncorrectTOTPCode),
    TOTPTokenTimedOut(TOTPTokenTimedOut),
    InvalidTOTPToken(InvalidTOTPToken),
    Other(ApiResponseCommonErrors),
}

impl TOTPResponseError {
    pub open spec fn spec_from(value: ApiResponseError) -> TOTPResponseError {
        match value.kind {
            ApiResponseErrorKind::IncorrectTOTPCode(v) => TOTPResponseError::IncorrectTOTPCode(v),
            ApiResponseErrorKind::TOTPTokenTimedOut(v) => TOTPResponseError::TOTPTokenTimedOut(v),
            ApiResponseErrorKind::InvalidTOTPToken(v) => TOTPResponseError::InvalidTOTPToken(v),
            _ => TOTPResponseError::Other(ApiResponseCommonErrors::spec_from(value)),
        }
    }

    /// Sorts an API error for the TOTP verification call.
    pub fn from_api_error(value: ApiResponseError) -> (r: TOTPResponseError)
        ensures
            r == Self::spec_from(value),
    {
        match value.kind {
            ApiResponseErrorKind::IncorrectTOTPCode(v) => TOTPResponseError::IncorrectTOTPCode(v),
            ApiResponseErrorKind::TOTPTokenTimedOut(v) => TOTPResponseError::TOTPTokenTimedOut(v),
            ApiResponseErrorKind::InvalidTOTPToken(v) => TOTPResponseError::InvalidTOTPToken(v),
            _ => TOTPResponseError::Other(ApiResponseCommonErrors::from_api_error(value)),
        }
    }
}

/// The errors of the calls that take a user ID.
#[derive(Debug, Clone, PartialEq, Eq)]
pub enum UserResponseError {
    InvalidUserID(InvalidUserID),
    Other(ApiResponseCommonErrors),
}

impl UserResponseError {
    pub open spec fn spec_from(value: ApiResponseError) -> UserResponseError {
        match value.kind {
            ApiResponseErrorKind::InvalidUserID(v) => UserResponseError::InvalidUserID(v),
            _ => UserResponseError::Other(ApiResponseCommonErrors::spec_from(value)),
        }
    }

    /// Sorts an API error for a call that takes a user ID.
    pub fn from_api_error(value: ApiResponseError) -> (r: UserResponseError)
        ensures
            r == Self::spec_from(value),
    {
        match value.kind {
            ApiResponseErrorKind::InvalidUserID(v) => UserResponseError::InvalidUserID(v),
            _ => UserResponseError::Other(ApiResponseCommonErrors::from_api_error(value)),
        }
    }
}

/// The errors of the calls that take a collection ID.
#[derive(Debug, Clone, PartialEq, Eq)]
pub enum CollectionResponseError {
    InvalidCollectionID(InvalidCollectionID),
    Other(ApiResponseCommonErrors),
}

impl CollectionResponseError {
    pub open spec fn spec_from(value: ApiResponseError) -> CollectionResponseError {
        match value.kind {
            ApiResponseErrorKind::InvalidCollectionID(v) => CollectionResponseError::InvalidCollectionID(v),
            _ => CollectionResponseError::Other(ApiResponseCommonErrors::spec_from(value)),
        }
    }

    /// Sorts an API error for a call that takes a collection ID.
    pub fn from_api_error(value: ApiResponseError) -> (r: CollectionResponseError)
        ensures
            r == Self::spec_from(value),
    {
        match value.kind {
            ApiResponseErrorKind::InvalidCollectionID(v) => CollectionResponseError::InvalidCollectionID(v),
            _ => CollectionResponseError::Other(ApiResponseCommonErrors::from_api_error(value)),
        }
    }
}

/// The errors of the calls that take a game ID.
#[derive(Debug, Clone, PartialEq, Eq)]
pub enum GameResponseError {
    InvalidGameID(InvalidGameID),
    Other(ApiResponseCommonErrors),
}

impl GameResponseError {
    pub open spec fn spec_from(value: ApiResponseError) -> GameResponseError {
        match value.kind {
            ApiResponseErrorKind::InvalidGameID(v) => GameResponseError::InvalidGameID(v),
            _ => GameResponseError::Other(ApiResponseCommonErrors::spec_from(value)),
        }
    }

    /// Sorts an API error for a call that takes a game ID.
    pub fn from_api_error(value: ApiResponseError) -> (r: GameResponseError)
        ensures
            r == Self::spec_from(value),
    {
        match value.kind {
            ApiResponseErrorKind::InvalidGameID(v) => GameResponseError::InvalidGameID(v),
            _ => GameResponseError::Other(ApiResponseCommonErrors::from_api_error(value)),
        }
    }
}

/// The errors of the calls that take an upload ID.
#[derive(Debug, Clone, PartialEq, Eq)]
pub enum UploadResponseError {
    InvalidUploadID(InvalidUploadID),
    Other(ApiResponseCommonErrors),
}

impl UploadResponseError {
    pub open spec fn spec_from(value: ApiResponseError) -> UploadResponseError {
        match value.kind {
            ApiResponseErrorKind::InvalidUploadID(v) => UploadResponseError::InvalidUploadID(v),
            ApiResponseErrorKind::InvalidGameID(_) => UploadResponseError::InvalidUploadID(InvalidUploadID),
            _ => UploadResponseError::Other(ApiResponseCommonErrors::spec_from(value)),
        }
    }

    /// Sorts an API error for a call that takes an upload ID: an invalid
    /// game ID also means that the upload ID is invalid.
    pub fn from_api_error(value: ApiResponseError) -> (r: UploadResponseError)
        ensures
            r == Self::spec_from(value),
    {
        match value.kind {
            ApiResponseErrorKind::InvalidUploadID(v) => UploadResponseError::InvalidUploadID(v),
            ApiResponseErrorKind::InvalidGameID(_) => UploadResponseError::InvalidUploadID(InvalidUploadID),
            _ => UploadResponseError::Other(ApiResponseCommonErrors::from_api_error(value)),
        }
    }
}

/// The errors of the calls that take a build ID.
#[derive(Debug, Clone, PartialEq, Eq)]
pub enum BuildResponseError {
    InvalidBuildID(InvalidBuildID),
    Other(ApiResponseCommonErrors),
}

impl BuildResponseError {
    pub open spec fn spec_from(value: ApiResponseError) -> BuildResponseError {
        match value.kind {
            ApiResponseErrorKind::InvalidBuildID(v) => BuildResponseError::InvalidBuildID(v),
            ApiResponseErrorKind::InvalidUploadID(_) => BuildResponseError::InvalidBuildID(InvalidBuildID),
            ApiResponseErrorKind::InvalidGameID(_) => BuildResponseError::InvalidBuildID(InvalidBuildID),
            _ => BuildResponseError::Other(ApiResponseCommonErrors::spec_from(value)),
        }
    }

    /// Sorts an API error for a call that takes a build ID: an invalid
    /// upload or game ID also means that the build ID is invalid.
    pub fn from_api_error(value: ApiResponseError) -> (r: BuildResponseError)
        ensures
            r == Self::spec_from(value),
    {
        match value.kind {
            ApiResponseErrorKind::InvalidBuildID(v) => BuildResponseError::InvalidBuildID(v),
            ApiResponseErrorKind::InvalidUploadID(_) => BuildResponseError::InvalidBuildID(InvalidBuildID),
            ApiResponseErrorKind::InvalidGameID(_) => BuildResponseError::InvalidBuildID(InvalidBuildID),
            _ => BuildResponseError::Other(ApiResponseCommonErrors::from_api_error(value)),
        }
    }
}

/// The errors of the upgrade path call.
#[derive(Debug, Clone, PartialEq, Eq)]
pub enum UpgradePathResponseError {
    NoUpgradePath(NoUpgradePath),
    InvalidBuildID(InvalidBuildID),
    InvalidTargetBuildID(InvalidTargetBuildID),
    Other(ApiResponseCommonErrors),
}

impl UpgradePathResponseError {
    pub open spec fn spec_from(value: ApiResponseError) -> UpgradePathResponseError {
        match value.kind {
            ApiResponseErrorKind::NoUpgradePath(v) => UpgradePathResponseError::NoUpgradePath(v),
            ApiResponseErrorKind::InvalidBuildID(v) => UpgradePathResponseError::InvalidBuildID(v),
            ApiResponseErrorKind::InvalidUploadID(_) => UpgradePathResponseError::InvalidBuildID(InvalidBuildID),
            ApiResponseErrorKind::InvalidGameID(_) => UpgradePathResponseError::InvalidBuildID(InvalidBuildID),
            ApiResponseErrorKind::InvalidTargetBuildID(v) => UpgradePathResponseError::InvalidTargetBuildID(v),
            _ => UpgradePathResponseError::Other(ApiResponseCommonErrors::spec_from(value)),
        }
    }

    /// Sorts an API error for the upgrade path call: an invalid upload or
    /// game ID also means that the build ID is invalid.
    pub fn from_api_error(value: ApiResponseError) -> (r: UpgradePathResponseError)
        ensures
            r == Self::spec_from(value),
    {
        match value.kind {
            ApiResponseErrorKind::NoUpgradePath(v) => UpgradePathResponseError::NoUpgradePath(v),
            ApiResponseErrorKind::InvalidBuildID(v) => UpgradePathResponseError::InvalidBuildID(v),
            ApiResponseErrorKind::InvalidUploadID(_) => UpgradePathResponseError::InvalidBuildID(InvalidBuildID),
            ApiResponseErrorKind::InvalidGameID(_) => UpgradePathResponseError::InvalidBuildID(InvalidBuildID),
            ApiResponseErrorKind::InvalidTargetBuildID(v) => UpgradePathResponseError::InvalidTargetBuildID(v),
            _ => UpgradePathResponseError::Other(ApiResponseCommonErrors::from_api_error(value)),
        }
    }
}


impl From<ApiResponseError> for ApiResponseCommonErrors {
    fn from(value: ApiResponseError) -> (r: ApiResponseCommonErrors) {
        ApiResponseCommonErrors::from_api_error(value)
    }
}

impl vstd::std_specs::convert::FromSpecImpl<ApiResponseError> for ApiResponseCommonErrors {
    open spec fn obeys_from_spec() -> bool {
        true
    }

    open spec fn from_spec(v: ApiResponseError) -> ApiResponseCommonErrors {
        ApiResponseCommonErrors::spec_from(v)
    }
}

impl From<ApiResponseError> for LoginResponseError {
    fn from(value: ApiResponseError) -> (r: LoginResponseError) {
        LoginResponseError::from_api_error(value)
    }
}

impl vstd::std_specs::convert::FromSpecImpl<ApiResponseError> for LoginResponseError {
    open spec fn obeys_from_spec() -> bool {
        true
    }

    open spec fn from_spec(v: ApiResponseError) -> LoginResponseError {
        LoginResponseError::spec_from(v)
    }
}

impl From<ApiResponseError> for TOTPResponseError {
    fn from(value: ApiResponseError) -> (r: TOTPResponseError) {
        TOTPResponseError::from_api_error(value)
    }
}

impl vstd::std_specs::convert::FromSpecImpl<ApiResponseError> for TOTPResponseError {
    open spec fn obeys_from_spec() -> bool {
        true
    }

    open spec fn from_spec(v: ApiResponseError) -> TOTPResponseError {
        TOTPResponseError::spec_from(v)
    }
}

impl From<ApiResponseError> for UserResponseError {
    fn from(value: ApiResponseError) -> (r: UserResponseError) {
        UserResponseError::from_api_error(value)
    }
}

impl vstd::std_specs::convert::FromSpecImpl<ApiResponseError> for UserResponseError {
    open spec fn obeys_from_spec() -> bool {
        true
    }

    open spec fn from_spec(v: ApiResponseError) -> UserResponseError {
        UserResponseError::spec_from(v)
    }
}

impl From<ApiResponseError> for CollectionResponseError {
    fn from(value: ApiResponseError) -> (r: CollectionResponseError) {
        CollectionResponseError::from_api_error(value)
    }
}

impl vstd::std_specs::convert::FromSpecImpl<ApiResponseError> for CollectionResponseError {
    open spec fn obeys_from_spec() -> bool {
        true
    }

    open spec fn from_spec(v: ApiResponseError) -> CollectionResponseError {
        CollectionResponseError::spec_from(v)
    }
}

impl From<ApiResponseError> for GameResponseError {
    fn from(value: ApiResponseError) -> (r: GameResponseError) {
        GameResponseError::from_api_error(value)
    }
}

impl vstd::std_specs::convert::FromSpecImpl<ApiResponseError> for GameResponseError {
    open spec fn obeys_from_spec() -> bool {
        true
    }

    open spec fn from_spec(v: ApiResponseError) -> GameResponseError {
        GameResponseError::spec_from(v)
    }
}

impl From<ApiResponseError> for UploadResponseError {
    fn from(value: ApiResponseError) -> (r: UploadResponseError) {
        UploadResponseError::from_api_error(value)
    }
}

impl vstd::std_specs::convert::FromSpecImpl<ApiResponseError> for UploadResponseError {
    open spec fn obeys_from_spec() -> bool {
        true
    }

    open spec fn from_spec(v: ApiResponseError) -> UploadResponseError {
        UploadResponseError::spec_from(v)
    }
}

impl From<ApiResponseError> for BuildResponseError {
    fn from(value: ApiResponseError) -> (r: BuildResponseError) {
        BuildResponseError::from_api_error(value)
    }
}

impl vstd::std_specs::convert::FromSpecImpl<ApiResponseError> for BuildResponseError {
    open spec fn obeys_from_spec() -> bool {
        true
    }

    open spec fn from_spec(v: ApiResponseError) -> BuildResponseError {
        BuildResponseError::spec_from(v)
    }
}

impl From<ApiResponseError> for UpgradePathResponseError {
    fn from(value: ApiResponseError) -> (r: UpgradePathResponseError) {
        UpgradePathResponseError::from_api_error(value)
    }
}

impl vstd::std_specs::convert::FromSpecImpl<ApiResponseError> for UpgradePathResponseError {
    open spec fn obeys_from_spec() -> bool {
        true
    }

    open spec fn from_spec(v: ApiResponseError) -> UpgradePathResponseError {
        UpgradePathResponseError::spec_from(v)
    }
}

impl From<Vec<String>> for ApiResponseError {
    fn from(value: Vec<String>) -> (r: ApiResponseError) {
        ApiResponseError::from_errors(value)
    }
}

impl vstd::std_specs::convert::FromSpecImpl<Vec<String>> for ApiResponseError {
    open spec fn obeys_from_spec() -> bool {
        true
    }

    open spec fn from_spec(v: Vec<String>) -> ApiResponseError {
        ApiResponseError { errors: v, kind: spec_error_kind(strings_view(v@)) }
    }
}

impl<'a> From<&'a [String]> for ApiResponseErrorKind {
    fn from(value: &'a [String]) -> (r: ApiResponseErrorKind) {
        ApiResponseErrorKind::from_errors(value)
    }
}

impl<'a> vstd::std_specs::convert::FromSpecImpl<&'a [String]> for ApiResponseErrorKind {
    open spec fn obeys_from_spec() -> bool {
        true
    }

    open spec fn from_spec(v: &'a [String]) -> ApiResponseErrorKind {
        spec_error_kind(strings_view(v@))
    }
}


/// An invalid API key is an error common to every API call: each call's
/// error type passes it on as its common error, unchanged.
pub proof fn invalid_api_key_is_common_to_every_call(value: ApiResponseError)
    requires
        value.kind is InvalidApiKey,
    ensures
        ApiResponseCommonErrors::spec_from(value) == ApiResponseCommonErrors::InvalidApiKey(
            InvalidApiKey,
        ),
        LoginResponseError::spec_from(value) == LoginResponseError::Other(
            ApiResponseCommonErrors::InvalidApiKey(InvalidApiKey),
        ),
        TOTPResponseError::spec_from(value) == TOTPResponseError::Other(
            ApiResponseCommonErrors::InvalidApiKey(InvalidApiKey),
        ),
        UserResponseError::spec_from(value) == UserResponseError::Other(
            ApiResponseCommonErrors::InvalidApiKey(InvalidApiKey),
        ),
        CollectionResponseError::spec_from(value) == CollectionResponseError::Other(
            ApiResponseCommonErrors::InvalidApiKey(InvalidApiKey),
        ),
        GameResponseError::spec_from(value) == GameResponseError::Other(
            ApiResponseCommonErrors::InvalidApiKey(InvalidApiKey),
        ),
        UploadResponseError::spec_from(value) == UploadResponseError::Other(
            ApiResponseCommonErrors::InvalidApiKey(InvalidApiKey),
        ),
        BuildResponseError::spec_from(value) == BuildResponseError::Other(
            ApiResponseCommonErrors::InvalidApiKey(InvalidApiKey),
        ),
        UpgradePathResponseError::spec_from(value) == UpgradePathResponseError::Other(
            ApiResponseCommonErrors::InvalidApiKey(InvalidApiKey),
        ),
{
}

/// An error the API answers with that isn't recognized reaches the caller
/// with all its messages.
pub proof fn unrecognized_errors_keep_their_messages(value: ApiResponseError)
    requires
        value.kind is Other,
    ensures
        ApiResponseCommonErrors::spec_from(value) == ApiResponseCommonErrors::Other(value.errors),
        LoginResponseError::spec_from(value) == LoginResponseError::Other(
            ApiResponseCommonErrors::Other(value.errors),
        ),
        UploadResponseError::spec_from(value) == UploadResponseError::Other(
            ApiResponseCommonErrors::Other(value.errors),
        ),
        BuildResponseError::spec_from(value) == BuildResponseError::Other(
            ApiResponseCommonErrors::Other(value.errors),
        ),
{
}

/// An answer with no message, or with several messages that don't start
/// with a wrong username or password, is never taken for a specific error.
pub proof fn only_single_messages_are_recognized(errors: Seq<Seq<char>>)
    requires
        errors.len() != 1,
        errors.len() == 0 || !is_invalid_user_or_password(errors[0]),
    ensures
        spec_error_kind(errors) == ApiResponseErrorKind::Other,
{
}

} // verus!
