//! The itch.io API: its addresses, the data it returns, the errors it
//! answers with, and the OAuth login flow.
pub mod errors;
pub mod login;
pub mod oauth;
pub mod types;

use vstd::prelude::*;
use vstd::string::StringExecFns;
use vstd::std_specs::convert::FromSpec;
use crate::itch_api::errors::{spec_error_kind, strings_view, ApiResponseError};
use crate::text::{decimal_digits, u64_to_decimal};

verus! {

/// The base address of version 1 of the itch.io API.
pub open spec fn itch_api_v1_base_url() -> Seq<char> {
    "https://itch.io/api/1/"@
}

/// The base address of version 2 of the itch.io API.
pub open spec fn itch_api_v2_base_url() -> Seq<char> {
    "https://api.itch.io/"@
}

/// An itch.io API version: `V1` (<https://itch.io/api/1/>), `V2`
/// (<https://api.itch.io/>), or `Other`, any other address.
#[derive(Debug, Clone, Copy, PartialEq, Eq)]
pub enum ItchApiVersion {
    V1,
    V2,
    Other,
}

/// An itch.io API address and the version it belongs to.
#[derive(Debug, Clone, PartialEq, Eq)]
pub struct ItchApiUrl {
    version: ItchApiVersion,
    url: String,
}

impl ItchApiUrl {
    /// The API version.
    pub closed spec fn spec_version(&self) -> ItchApiVersion {
        self.version
    }

    /// The full address.
    pub closed spec fn spec_url(&self) -> Seq<char> {
        self.url@
    }

    /// The address of `endpoint` in version 1 of the API: the endpoint
    /// appended to its base address.
    pub fn v1(endpoint: &str) -> (r: ItchApiUrl)
        ensures
            r.spec_version() == ItchApiVersion::V1,
            r.spec_url() == itch_api_v1_base_url() + endpoint@,
    {
        ItchApiUrl {
            version: ItchApiVersion::V1,
            url: String::from_str("https://itch.io/api/1/").concat(endpoint),
        }
    }

    /// The address of `endpoint` in version 2 of the API: the endpoint
    /// appended to its base address.
    pub fn v2(endpoint: &str) -> (r: ItchApiUrl)
        ensures
            r.spec_version() == ItchApiVersion::V2,
            r.spec_url() == itch_api_v2_base_url() + endpoint@,
    {
        ItchApiUrl {
            version: ItchApiVersion::V2,
            url: String::from_str("https://api.itch.io/").concat(endpoint),
        }
    }

    /// An address used as it is.
    pub fn other(url: String) -> (r: ItchApiUrl)
        ensures
            r.spec_version() == ItchApiVersion::Other,
            r.spec_url() == url@,
    {
        ItchApiUrl { version: ItchApiVersion::Other, url }
    }

    /// The address of `endpoint` in the API version `version`: `V1` and `V2`
    /// prepend their base address, `Other` uses the endpoint as it is.
    pub fn from_api_endpoint(version: ItchApiVersion, endpoint: &str) -> (r: ItchApiUrl)
        ensures
            r.spec_version() == version,
            r.spec_url() == match version {
                ItchApiVersion::V1 => itch_api_v1_base_url() + endpoint@,
                ItchApiVersion::V2 => itch_api_v2_base_url() + endpoint@,
                ItchApiVersion::Other => endpoint@,
            },
    {
        match version {
            ItchApiVersion::V1 => ItchApiUrl::v1(endpoint),
            ItchApiVersion::V2 => ItchApiUrl::v2(endpoint),
            ItchApiVersion::Other => ItchApiUrl::other(String::from_str(endpoint)),
        }
    }

    /// The API version of this address.
    pub fn version(&self) -> (r: ItchApiVersion)
        ensures
            r == self.spec_version(),
    {
        self.version
    }

    /// The API version of this address.
    pub fn get_version(&self) -> (r: ItchApiVersion)
        ensures
            r == self.spec_version(),
    {
        self.version
    }

    /// The full address.
    pub fn as_str(&self) -> (r: &str)
        ensures
            r@ == self.spec_url(),
    {
        self.url.as_str()
    }
}


/// The headers that authenticate a request to `version` of the API with
/// `api_key`, and select the version's answers: version 1 takes the key as
/// a bearer token, version 2 takes it as it is and asks for its answer
/// format, and any other address gets no header, so that the key never
/// leaves for an address that isn't itch.io's.
pub open spec fn spec_auth_headers(version: ItchApiVersion, api_key: Seq<char>) -> Seq<(Seq<char>, Seq<char>)> {
    match version {
        ItchApiVersion::V1 => seq![("authorization"@, "Bearer "@ + api_key)],
        ItchApiVersion::V2 => seq![
            ("authorization"@, api_key),
            ("accept"@, "application/vnd.itch.v2"@),
        ],
        ItchApiVersion::Other => seq![],
    }
}

/// The texts of a list of headers.
pub open spec fn headers_view(h: Seq<(String, String)>) -> Seq<(Seq<char>, Seq<char>)> {
    h.map_values(|p: (String, String)| (p.0@, p.1@))
}

/// The headers to send with a request to `url` with the API key `api_key`.
pub fn auth_headers(url: &ItchApiUrl, api_key: &str) -> (r: Vec<(String, String)>)
    ensures
        headers_view(r@) == spec_auth_headers(url.spec_version(), api_key@),
{
    let mut headers: Vec<(String, String)> = Vec::new();
    match url.version() {
        ItchApiVersion::V1 => {
            headers.push(
                (String::from_str("authorization"), String::from_str("Bearer ").concat(api_key)),
            );
        },
        ItchApiVersion::V2 => {
            headers.push((String::from_str("authorization"), String::from_str(api_key)));
            headers.push(
                (String::from_str("accept"), String::from_str("application/vnd.itch.v2")),
            );
        },
        ItchApiVersion::Other => {},
    }
    proof {
        assert(headers_view(headers@) =~= spec_auth_headers(url.spec_version(), api_key@));
    }
    headers
}

/// An answer of the API: the requested data, or a list of error messages.
#[derive(Debug, Clone, PartialEq, Eq)]
pub enum ApiResponse<T> {
    Success(T),
    Error { errors: Vec<String> },
}

impl<T> ApiResponse<T> {
    /// The data, or the error that the messages stand for, converted into
    /// the error type `E` of the call (such as [`UploadResponseError`] for a
    /// call that takes an upload ID).
    pub fn into_result<E: From<ApiResponseError>>(self) -> (r: Result<T, E>)
        ensures
            match self {
                ApiResponse::Success(v) => r matches Ok(x) && x == v,
                ApiResponse::Error { errors } => r is Err && (E::obeys_from_spec() ==> r
                    == Err::<T, E>(
                    E::from_spec(
                        ApiResponseError { errors, kind: spec_error_kind(strings_view(errors@)) },
                    ),
                )),
            },
    {
        match self {
            ApiResponse::Success(v) => Ok(v),
            ApiResponse::Error { errors } => Err(E::from(ApiResponseError::from_errors(errors))),
        }
    }
}

/// A page of a list that the API splits in pages.
#[derive(Debug, Clone, PartialEq, Eq)]
pub struct ApiResponseList<T> {
    pub page: u64,
    pub per_page: u64,
    pub values: T,
}


/// Gathers the items of a list that the API splits in pages: pages are
/// asked for from 1 on, and the list ends with the first page that holds no
/// item or fewer items than a page can hold.
pub struct ListCollector<T> {
    values: Vec<T>,
    page: u64,
    done: bool,
}

impl<T> ListCollector<T> {
    /// The items gathered so far, in order.
    pub closed spec fn spec_values(&self) -> Seq<T> {
        self.values@
    }

    /// The page to ask for next, when the list hasn't ended.
    pub closed spec fn spec_next_page(&self) -> Option<u64> {
        if self.done {
            None
        } else {
            Some(self.page)
        }
    }

    /// A collector that asks for page 1 first.
    pub fn new() -> (r: ListCollector<T>)
        ensures
            r.spec_values() == Seq::<T>::empty(),
            r.spec_next_page() == Some(1u64),
    {
        ListCollector { values: Vec::new(), page: 1, done: false }
    }

    /// The page to ask for next, or `None` once the list has ended.
    pub fn next_page(&self) -> (r: Option<u64>)
        ensures
            r == self.spec_next_page(),
    {
        if self.done {
            None
        } else {
            Some(self.page)
        }
    }

    /// Adds the items of the page just received, which can hold `per_page`
    /// items. The list ends when the page isn't full, is empty, or is the
    /// last page that can be numbered.
    pub fn add_page(&mut self, items: Vec<T>, per_page: u64)
        requires
            old(self).spec_next_page() is Some,
        ensures
            final(self).spec_values() == old(self).spec_values() + items@,
            final(self).spec_next_page() == (if items@.len() < per_page || items@.len() == 0
                || old(self).spec_next_page()->Some_0 == u64::MAX {
                None::<u64>
            } else {
                Some((old(self).spec_next_page()->Some_0 + 1) as u64)
            }),
    {
        let n = items.len();
        let mut items = items;
        self.values.append(&mut items);
        if (n as u64) < per_page || n == 0 || self.page == u64::MAX {
            self.done = true;
        } else {
            self.page = self.page + 1;
        }
    }

    /// The items gathered.
    pub fn into_values(self) -> (r: Vec<T>)
        ensures
            r@ == self.spec_values(),
    {
        self.values
    }
}


/// The API key is never sent to an address that isn't a known itch.io API
/// version, and each known version receives it in exactly one header.
pub proof fn api_key_only_goes_to_itch_io(api_key: Seq<char>)
    ensures
        spec_auth_headers(ItchApiVersion::Other, api_key).len() == 0,
        spec_auth_headers(ItchApiVersion::V1, api_key)[0].1 == "Bearer "@ + api_key,
        spec_auth_headers(ItchApiVersion::V2, api_key)[0].1 == api_key,
        spec_auth_headers(ItchApiVersion::V2, api_key)[1].1 == "application/vnd.itch.v2"@,
{
}


/// A call of the itch.io API, by what it is about.
#[derive(Debug, Clone, Copy, PartialEq, Eq)]
pub enum ApiEndpoint {
    Login,
    TotpVerify,
    UserInfo { user_id: u64 },
    Profile,
    CreatedGames,
    OwnedKeys,
    ProfileCollections,
    CollectionInfo { collection_id: u64 },
    CollectionGames { collection_id: u64 },
    GameInfo { game_id: u64 },
    GameUploads { game_id: u64 },
    UploadInfo { upload_id: u64 },
    UploadBuilds { upload_id: u64 },
    UploadDownload { upload_id: u64 },
    BuildInfo { build_id: u64 },
    UpgradePath { current_build_id: u64, target_build_id: u64 },
    UploadScannedArchive { upload_id: u64 },
    BuildScannedArchive { build_id: u64 },
}

/// The path of an API call, below the base address of version 2 of the
/// API.
pub open spec fn spec_endpoint_path(e: ApiEndpoint) -> Seq<char> {
    match e {
        ApiEndpoint::Login => "login"@,
        ApiEndpoint::TotpVerify => "totp/verify"@,
        ApiEndpoint::UserInfo { user_id } => "users/"@ + decimal_digits(user_id as nat),
        ApiEndpoint::Profile => "profile"@,
        ApiEndpoint::CreatedGames => "profile/games"@,
        ApiEndpoint::OwnedKeys => "profile/owned-keys"@,
        ApiEndpoint::ProfileCollections => "profile/collections"@,
        ApiEndpoint::CollectionInfo { collection_id } => "collections/"@ + decimal_digits(
            collection_id as nat,
        ),
        ApiEndpoint::CollectionGames { collection_id } => "collections/"@ + decimal_digits(
            collection_id as nat,
        ) + "/collection-games"@,
        ApiEndpoint::GameInfo { game_id } => "games/"@ + decimal_digits(game_id as nat),
        ApiEndpoint::GameUploads { game_id } => "games/"@ + decimal_digits(game_id as nat)
            + "/uploads"@,
        ApiEndpoint::UploadInfo { upload_id } => "uploads/"@ + decimal_digits(upload_id as nat),
        ApiEndpoint::UploadBuilds { upload_id } => "uploads/"@ + decimal_digits(upload_id as nat)
            + "/builds"@,
        ApiEndpoint::UploadDownload { upload_id } => "uploads/"@ + decimal_digits(upload_id as nat)
            + "/download"@,
        ApiEndpoint::BuildInfo { build_id } => "builds/"@ + decimal_digits(build_id as nat),
        ApiEndpoint::UpgradePath { current_build_id, target_build_id } => "builds/"@
            + decimal_digits(current_build_id as nat) + "/upgrade-paths/"@ + decimal_digits(
            target_build_id as nat,
        ),
        ApiEndpoint::UploadScannedArchive { upload_id } => "uploads/"@ + decimal_digits(
            upload_id as nat,
        ) + "/scanned-archive"@,
        ApiEndpoint::BuildScannedArchive { build_id } => "builds/"@ + decimal_digits(build_id as nat)
            + "/scanned-archive"@,
    }
}

fn id_path(prefix: &str, id: u64, suffix: &str) -> (r: String)
    ensures
        r@ == prefix@ + decimal_digits(id as nat) + suffix@,
{
    String::from_str(prefix).concat(u64_to_decimal(id).as_str()).concat(suffix)
}

impl ApiEndpoint {
    /// The address of the call, in version 2 of the API.
    pub fn url(&self) -> (r: ItchApiUrl)
        ensures
            r.spec_version() == ItchApiVersion::V2,
            r.spec_url() == itch_api_v2_base_url() + spec_endpoint_path(*self),
    {
        let path = match *self {
            ApiEndpoint::Login => String::from_str("login"),
            ApiEndpoint::TotpVerify => String::from_str("totp/verify"),
            ApiEndpoint::UserInfo { user_id } => id_path("users/", user_id, ""),
            ApiEndpoint::Profile => String::from_str("profile"),
            ApiEndpoint::CreatedGames => String::from_str("profile/games"),
            ApiEndpoint::OwnedKeys => String::from_str("profile/owned-keys"),
            ApiEndpoint::ProfileCollections => String::from_str("profile/collections"),
            ApiEndpoint::CollectionInfo { collection_id } => id_path("collections/", collection_id, ""),
            ApiEndpoint::CollectionGames { collection_id } => id_path(
                "collections/",
                collection_id,
                "/collection-games",
            ),
            ApiEndpoint::GameInfo { game_id } => id_path("games/", game_id, ""),
            ApiEndpoint::GameUploads { game_id } => id_path("games/", game_id, "/uploads"),
            ApiEndpoint::UploadInfo { upload_id } => id_path("uploads/", upload_id, ""),
            ApiEndpoint::UploadBuilds { upload_id } => id_path("uploads/", upload_id, "/builds"),
            ApiEndpoint::UploadDownload { upload_id } => id_path("uploads/", upload_id, "/download"),
            ApiEndpoint::BuildInfo { build_id } => id_path("builds/", build_id, ""),
            ApiEndpoint::UpgradePath { current_build_id, target_build_id } => {
                let head = id_path("builds/", current_build_id, "/upgrade-paths/");
                head.concat(u64_to_decimal(target_build_id).as_str())
            },
            ApiEndpoint::UploadScannedArchive { upload_id } => id_path(
                "uploads/",
                upload_id,
                "/scanned-archive",
            ),
            ApiEndpoint::BuildScannedArchive { build_id } => id_path(
                "builds/",
                build_id,
                "/scanned-archive",
            ),
        };
        proof {
            reveal_strlit("");
            assert(forall|s: Seq<char>| s + ""@ == s) by {
                assert forall|s: Seq<char>| s + ""@ =~= s by {}
            }
        }
        ItchApiUrl::v2(path.as_str())
    }
}

} // verus!
