//! The client: where the API lives, and the request of each operation.
use crate::request::{Parameter, ParameterView, Request, RequestView};
use crate::text::{decimal, push_decimal};
use vstd::prelude::*;
use vstd::string::StringExecFns;

verus! {

/// Which member of a download key a lookup goes by.
#[derive(Clone, Copy, Debug, PartialEq, Eq)]
pub enum DownloadKeysType {
    DownloadKey,
    UserId,
    Email,
}

impl DownloadKeysType {
    /// The name of the query parameter that stands for this kind of lookup.
    pub open spec fn wire_name(self) -> Seq<char> {
        match self {
            DownloadKeysType::DownloadKey => "download_key"@,
            DownloadKeysType::UserId => "user_id"@,
            DownloadKeysType::Email => "email"@,
        }
    }

    /// The name of the query parameter that stands for this kind of lookup.
    pub fn name(&self) -> (name: &'static str)
        ensures
            name@ == self.wire_name(),
    {
        match self {
            DownloadKeysType::DownloadKey => "download_key",
            DownloadKeysType::UserId => "user_id",
            DownloadKeysType::Email => "email",
        }
    }
}

/// Which member of a purchase a lookup goes by.
#[derive(Clone, Copy, Debug, PartialEq, Eq)]
pub enum PurchasesType {
    Email,
    UserId,
}

impl PurchasesType {
    /// The name of the query parameter that stands for this kind of lookup.
    pub open spec fn wire_name(self) -> Seq<char> {
        match self {
            PurchasesType::Email => "email"@,
            PurchasesType::UserId => "user_id"@,
        }
    }

    /// The name of the query parameter that stands for this kind of lookup.
    pub fn name(&self) -> (name: &'static str)
        ensures
            name@ == self.wire_name(),
    {
        match self {
            PurchasesType::Email => "email",
            PurchasesType::UserId => "user_id",
        }
    }
}

/// Where the API lives and the key that requests are made with.
pub struct Ichor {
    base_url: String,
    api_version: u8,
    api_key: String,
}

/// The mathematical value of an [`Ichor`].
pub ghost struct IchorView {
    pub base_url: Seq<char>,
    pub api_version: u8,
    pub api_key: Seq<char>,
}

impl DeepView for Ichor {
    type V = IchorView;

    closed spec fn deep_view(&self) -> IchorView {
        IchorView {
            base_url: self.base_url@,
            api_version: self.api_version,
            api_key: self.api_key@,
        }
    }
}

/// The prefix of every address: the base, the version in decimal digits and
/// the key, with a slash between them.
pub open spec fn full_base(client: IchorView) -> Seq<char> {
    client.base_url + "/"@ + decimal(client.api_version as nat) + "/"@ + client.api_key
}

/// The request of an operation without a query.
pub open spec fn plain_request(client: IchorView, path: Seq<char>) -> RequestView {
    RequestView { url: full_base(client) + path, query: None }
}

/// The request of an operation that looks something up by one pair.
pub open spec fn lookup_request(
    client: IchorView,
    path: Seq<char>,
    name: Seq<char>,
    value: Seq<char>,
) -> RequestView {
    RequestView { url: full_base(client) + path, query: Some(ParameterView { name, value }) }
}

impl Ichor {
    /// A client for the API at `base_url`, in version `api_version`, with
    /// the key `api_key`. The three are kept as they are given.
    pub fn new(base_url: &str, api_version: u8, api_key: &str) -> (client: Ichor)
        ensures
            client.deep_view() == (IchorView {
                base_url: base_url@,
                api_version,
                api_key: api_key@,
            }),
    {
        Ichor {
            base_url: String::from_str(base_url),
            api_version,
            api_key: String::from_str(api_key),
        }
    }

    /// The prefix of every address, followed by `path`.
    fn address(&self, path: &str) -> (url: String)
        ensures
            url@ == full_base(self.deep_view()) + path@,
    {
        let mut url = self.get_full_base();
        url.append(path);
        url
    }

    fn get_full_base(&self) -> (base: String)
        ensures
            base@ == full_base(self.deep_view()),
    {
        let mut base = self.base_url.clone();
        base.append("/");
        push_decimal(&mut base, self.api_version as u32);
        base.append("/");
        base.append(self.api_key.as_str());
        base
    }

    /// The request for what the server knows of the key.
    pub fn credentials_info(self) -> (request: Request)
        ensures
            request.deep_view() == plain_request(self.deep_view(), "/credentials/info"@),
    {
        Request { url: self.address("/credentials/info"), query: None }
    }

    /// The request for the key's own account.
    pub fn me(self) -> (request: Request)
        ensures
            request.deep_view() == plain_request(self.deep_view(), "/me"@),
    {
        Request { url: self.address("/me"), query: None }
    }

    /// The request for the games of the key's account.
    pub fn my_games(self) -> (request: Request)
        ensures
            request.deep_view() == plain_request(self.deep_view(), "/my-games"@),
    {
        Request { url: self.address("/my-games"), query: None }
    }

    /// The request for the game `game_id`, which goes into the address as
    /// it is given.
    pub fn game(self, game_id: &str) -> (request: Request)
        ensures
            request.deep_view() == plain_request(self.deep_view(), "/game/"@ + game_id@),
    {
        let mut url = self.address("/game/");
        url.append(game_id);
        assert(url@ =~= full_base(self.deep_view()) + ("/game/"@ + game_id@));
        Request { url, query: None }
    }

    /// The request for a download key of the game `game_id`, looked up by
    /// `lookup` taken as a `lookup_type`.
    pub fn download_keys(self, game_id: u32, lookup_type: DownloadKeysType, lookup: &str) -> (request:
        Request)
        ensures
            request.deep_view() == lookup_request(
                self.deep_view(),
                "/game/"@ + decimal(game_id as nat) + "/download_keys"@,
                lookup_type.wire_name(),
                lookup@,
            ),
    {
        let mut url = self.address("/game/");
        push_decimal(&mut url, game_id);
        url.append("/download_keys");
        assert(url@ =~= full_base(self.deep_view()) + ("/game/"@ + decimal(game_id as nat)
            + "/download_keys"@));
        let pair = Parameter {
            name: String::from_str(lookup_type.name()),
            value: String::from_str(lookup),
        };
        Request { url, query: Some(pair) }
    }

    /// The request for the purchases of the game `game_id`, looked up by
    /// `lookup` taken as a `lookup_type`.
    pub fn purchases(self, game_id: u32, lookup_type: PurchasesType, lookup: &str) -> (request:
        Request)
        ensures
            request.deep_view() == lookup_request(
                self.deep_view(),
                "/game/"@ + decimal(game_id as nat) + "/purchases"@,
                lookup_type.wire_name(),
                lookup@,
            ),
    {
        let mut url = self.address("/game/");
        push_decimal(&mut url, game_id);
        url.append("/purchases");
        assert(url@ =~= full_base(self.deep_view()) + ("/game/"@ + decimal(game_id as nat)
            + "/purchases"@));
        let pair = Parameter {
            name: String::from_str(lookup_type.name()),
            value: String::from_str(lookup),
        };
        Request { url, query: Some(pair) }
    }
}

} // verus!
