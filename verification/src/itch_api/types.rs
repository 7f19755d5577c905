//! The data that the itch.io API returns.
use vstd::prelude::*;
use vstd::string::StringExecFns;

verus! {

/// The session cookie that a login returns.
#[derive(Debug, Clone, PartialEq, Eq)]
pub struct ItchCookie {
    pub itchio: String,
}

/// Where an API key was created.
#[derive(Debug, Clone, Copy, PartialEq, Eq)]
pub enum ItchKeySource {
    Desktop,
    Android,
}

/// The answer to a login that needs a reCAPTCHA to be solved first.
#[derive(Debug, Clone, PartialEq, Eq)]
pub struct LoginCaptchaError {
    pub success: bool,
    pub recaptcha_needed: bool,
    pub recaptcha_url: String,
}

/// The answer to a login that needs a TOTP code to be completed.
#[derive(Debug, Clone, PartialEq, Eq)]
pub struct LoginTOTPError {
    pub success: bool,
    pub totp_needed: bool,
    pub token: String,
}

/// An itch.io user.
#[derive(Debug, Clone, PartialEq, Eq)]
pub struct User {
    pub id: u64,
    pub username: String,
    pub display_name: Option<String>,
    pub url: String,
    pub cover_url: Option<String>,
    /// Only present when `cover_url` is animated: the address of its first
    /// frame.
    pub still_cover_url: Option<String>,
}

impl User {
    /// The name to show: the display name, or the username when there is
    /// none.
    pub open spec fn spec_name(&self) -> Seq<char> {
        match self.display_name {
            Some(n) => n@,
            None => self.username@,
        }
    }

    /// The display name of the user, or the username if it is missing.
    pub fn get_name(&self) -> (r: &str)
        ensures
            r@ == self.spec_name(),
    {
        match &self.display_name {
            Some(n) => n.as_str(),
            None => self.username.as_str(),
        }
    }
}

/// The profile of the user an API key belongs to.
#[derive(Debug, Clone, PartialEq, Eq)]
pub struct Profile {
    pub user: User,
    pub gamer: bool,
    pub developer: bool,
    pub press_user: bool,
}

/// The kind of a game's page.
#[derive(Debug, Clone, Copy, PartialEq, Eq)]
pub enum GameType {
    Default,
    Html,
    Flash,
    Java,
    Unity,
}

/// What a project is.
#[derive(Debug, Clone, Copy, PartialEq, Eq)]
pub enum GameClassification {
    Game,
    Assets,
    GameMod,
    PhysicalGame,
    Soundtrack,
    Tool,
    Comic,
    Book,
    Other,
}

/// A trait of a game: the platforms it runs on and how it is sold.
#[derive(Debug, Clone, Copy, PartialEq, Eq)]
pub enum GameTrait {
    PLinux,
    PWindows,
    POsx,
    PAndroid,
    CanBeBought,
    HasDemo,
    InPressSystem,
}

impl GameType {
    /// The name the API gives this value.
    pub open spec fn spec_name(&self) -> Seq<char> {
        match self {
            GameType::Default => "default"@,
            GameType::Html => "html"@,
            GameType::Flash => "flash"@,
            GameType::Java => "java"@,
            GameType::Unity => "unity"@,
        }
    }

    /// The name the API gives this value.
    pub fn to_string(&self) -> (r: String)
        ensures
            r@ == self.spec_name(),
    {
        let name = match self {
            GameType::Default => "default",
            GameType::Html => "html",
            GameType::Flash => "flash",
            GameType::Java => "java",
            GameType::Unity => "unity",
        };
        String::from_str(name)
    }
}

impl GameClassification {
    /// The name the API gives this value.
    pub open spec fn spec_name(&self) -> Seq<char> {
        match self {
            GameClassification::Game => "game"@,
            GameClassification::Assets => "assets"@,
            GameClassification::GameMod => "game_mod"@,
            GameClassification::PhysicalGame => "physical_game"@,
            GameClassification::Soundtrack => "soundtrack"@,
            GameClassification::Tool => "tool"@,
            GameClassification::Comic => "comic"@,
            GameClassification::Book => "book"@,
            GameClassification::Other => "other"@,
        }
    }

    /// The name the API gives this value.
    pub fn to_string(&self) -> (r: String)
        ensures
            r@ == self.spec_name(),
    {
        let name = match self {
            GameClassification::Game => "game",
            GameClassification::Assets => "assets",
            GameClassification::GameMod => "game_mod",
            GameClassification::PhysicalGame => "physical_game",
            GameClassification::Soundtrack => "soundtrack",
            GameClassification::Tool => "tool",
            GameClassification::Comic => "comic",
            GameClassification::Book => "book",
            GameClassification::Other => "other",
        };
        String::from_str(name)
    }
}

impl GameTrait {
    /// The name the API gives this value.
    pub open spec fn spec_name(&self) -> Seq<char> {
        match self {
            GameTrait::PLinux => "p_linux"@,
            GameTrait::PWindows => "p_windows"@,
            GameTrait::POsx => "p_osx"@,
            GameTrait::PAndroid => "p_android"@,
            GameTrait::CanBeBought => "can_be_bought"@,
            GameTrait::HasDemo => "has_demo"@,
            GameTrait::InPressSystem => "in_press_system"@,
        }
    }

    /// The name the API gives this value.
    pub fn to_string(&self) -> (r: String)
        ensures
            r@ == self.spec_name(),
    {
        let name = match self {
            GameTrait::PLinux => "p_linux",
            GameTrait::PWindows => "p_windows",
            GameTrait::POsx => "p_osx",
            GameTrait::PAndroid => "p_android",
            GameTrait::CanBeBought => "can_be_bought",
            GameTrait::HasDemo => "has_demo",
            GameTrait::InPressSystem => "in_press_system",
        };
        String::from_str(name)
    }
}

/// The kind of a file of a build.
#[derive(Debug, Clone, Copy, PartialEq, Eq)]
pub enum BuildFileType {
    Archive,
    Patch,
    Signature,
    Manifest,
    Unpacked,
}

/// The variant of a file of a build.
#[derive(Debug, Clone, Copy, PartialEq, Eq)]
pub enum BuildFileSubtype {
    Default,
    Optimized,
    Accelerated,
    Gzip,
}

/// The state of a file of a build.
#[derive(Debug, Clone, Copy, PartialEq, Eq)]
pub enum BuildFileState {
    Uploaded,
}

/// A file of a build.
#[derive(Debug, Clone, Copy, PartialEq, Eq)]
pub struct BuildFile {
    pub size: u64,
    pub file_type: BuildFileType,
    pub sub_type: BuildFileSubtype,
    pub state: BuildFileState,
}

/// The state of a build.
#[derive(Debug, Clone, Copy, PartialEq, Eq)]
pub enum BuildState {
    Completed,
}

/// The kind of an upload.
#[derive(Debug, Clone, Copy, PartialEq, Eq)]
pub enum UploadType {
    Default,
    Html,
    Flash,
    Java,
    Unity,
    Soundtrack,
    Book,
    Video,
    Documentation,
    Mod,
    AudioAssets,
    GraphicalAssets,
    Sourcecode,
    Other,
}

/// A trait of an upload: the platforms it runs on, or that it is a demo.
#[derive(Debug, Clone, Copy, PartialEq, Eq)]
pub enum UploadTrait {
    PLinux,
    PWindows,
    POsx,
    PAndroid,
    Demo,
}

/// Where the files of an upload are kept.
#[derive(Debug, Clone, PartialEq, Eq)]
pub enum UploadStorage {
    Hosted { size: u64, md5_hash: Option<String> },
    Build { size: u64, build_id: u64, channel_name: String },
    External { host: String },
}

/// A downloadable file of a game. The times are Unix timestamps, in seconds.
#[derive(Debug, Clone, PartialEq, Eq)]
pub struct Upload {
    pub position: u64,
    pub id: u64,
    pub game_id: u64,
    pub upload_type: UploadType,
    pub traits: Vec<UploadTrait>,
    pub filename: String,
    pub display_name: Option<String>,
    pub storage: UploadStorage,
    pub created_at: i64,
    pub updated_at: i64,
}

impl Upload {
    /// The name to show: the display name, or the file name when there is
    /// none.
    pub open spec fn spec_name(&self) -> Seq<char> {
        match self.display_name {
            Some(n) => n@,
            None => self.filename@,
        }
    }

    /// The display name of the upload, or its file name if it is missing.
    pub fn get_name(&self) -> (r: &str)
        ensures
            r@ == self.spec_name(),
    {
        match &self.display_name {
            Some(n) => n.as_str(),
            None => self.filename.as_str(),
        }
    }

    /// The MD5 hash of a hosted upload, when the API gives one.
    pub open spec fn spec_hash(&self) -> Option<Seq<char>> {
        match self.storage {
            UploadStorage::Hosted { md5_hash: Some(h), .. } => Some(h@),
            _ => None,
        }
    }

    /// The MD5 hash of the upload, or `None` if it is missing.
    pub fn get_hash(&self) -> (r: Option<&str>)
        ensures
            match r {
                Some(h) => self.spec_hash() == Some(h@),
                None => self.spec_hash() is None,
            },
    {
        match &self.storage {
            UploadStorage::Hosted { md5_hash: Some(h), .. } => Some(h.as_str()),
            _ => None,
        }
    }
}

/// The platform a launch action is for.
#[derive(Debug, Clone, Copy, PartialEq, Eq)]
pub enum ManifestActionPlatform {
    Linux,
    Windows,
    Osx,
    Unknown,
}

/// A way to launch a game, as its manifest describes it.
#[derive(Debug, Clone, PartialEq, Eq)]
pub struct ManifestAction {
    pub name: String,
    pub path: String,
    pub platform: Option<ManifestActionPlatform>,
    pub args: Option<Vec<String>>,
    pub sandbox: Option<bool>,
    pub console: Option<bool>,
    /// Games can ask for an itch.io API key by setting the `scope` parameter.
    pub scope: Option<String>,
}

/// The software a game needs installed first.
#[derive(Debug, Clone, Copy, PartialEq, Eq)]
pub enum ManifestPrerequisiteName {
    Vcredist2010x64,
    Vcredist2010x86,
    Vcredist2013x64,
    Vcredist2013x86,
    Vcredist2015x64,
    Vcredist2015x86,
    Vcredist2017x64,
    Vcredist2017x86,
    Vcredist2019x64,
    Vcredist2019x86,
    Net452,
    Net46,
    Net462,
    Xna40,
    DxJune2010,
}

/// A prerequisite of a game.
#[derive(Debug, Clone, Copy, PartialEq, Eq)]
pub struct ManifestPrerequisite {
    pub name: ManifestPrerequisiteName,
}

/// A game's manifest: how to launch it and what it needs.
#[derive(Debug, Clone, PartialEq, Eq)]
pub struct Manifest {
    pub actions: Option<Vec<ManifestAction>>,
    pub prereqs: Option<Vec<ManifestPrerequisite>>,
}

/// What a scanned archive belongs to.
#[derive(Debug, Clone, Copy, PartialEq, Eq)]
pub enum ScannedArchiveObject {
    Upload { object_id: u64 },
    Build { object_id: u64 },
}

} // verus!
