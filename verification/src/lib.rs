//! A client for the itch.io API without a transport of its own: it says
//! which request each operation makes and what the server's answer comes to.
use vstd::prelude::*;

pub mod client;
pub mod credentials;
pub mod decode;
pub mod error;
pub mod game;
pub mod json;
pub mod keys;
pub mod list;
pub mod purchase;
pub mod reply;
pub mod request;
pub mod text;
pub mod user;

pub use client::{DownloadKeysType, Ichor, PurchasesType};
pub use credentials::CredentialsInfo;
pub use decode::Decode;
pub use error::{check_status, Error};
pub use game::{Earning, Game, MyGames};
pub use json::{Json, Member};
pub use keys::{DownloadKey, DownloadKeys};
pub use list::MaybeEmptyList;
pub use purchase::{Purchase, Purchases};
pub use reply::{receive, receive_game};
pub use request::{Parameter, Request};
pub use user::{Me, User};

verus! {

/// Where the API lives unless a client is told otherwise.
pub const BASE_URL: &'static str = "https://itch.io/api";

/// The version of the API unless a client is told otherwise.
pub const API_VERSION: u8 = 1;

/// The value of a flag that the answer leaves out.
pub fn default_false() -> (flag: bool)
    ensures
        flag == false,
{
    false
}

} // verus!
