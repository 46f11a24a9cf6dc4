//! Download keys.
use crate::decode::{field, optional_field, read, read_optional, Decode};
use crate::error::Error;
use crate::json::{lemma_object_value, Json, JsonValue};
use crate::user::{User, UserView};
use vstd::prelude::*;

verus! {

/// A key that lets its owner download a game.
pub struct DownloadKey {
    pub id: u32,
    pub created_at: String,
    pub downloads: u32,
    pub key: String,
    pub game_id: u32,
    pub owner: Option<User>,
}

/// The mathematical value of a [`DownloadKey`].
pub ghost struct DownloadKeyView {
    pub id: u32,
    pub created_at: Seq<char>,
    pub downloads: u32,
    pub key: Seq<char>,
    pub game_id: u32,
    pub owner: Option<UserView>,
}

impl DeepView for DownloadKey {
    type V = DownloadKeyView;

    open spec fn deep_view(&self) -> DownloadKeyView {
        DownloadKeyView {
            id: self.id,
            created_at: self.created_at@,
            downloads: self.downloads,
            key: self.key@,
            game_id: self.game_id,
            owner: self.owner.deep_view(),
        }
    }
}

impl Decode for DownloadKey {
    /// An object with `id`, `created_at`, `downloads`, `key` and `game_id`;
    /// `owner` may be missing or `null`.
    open spec fn parse(value: JsonValue) -> Option<DownloadKeyView> {
        match value {
            JsonValue::Object(members) => {
                let id = field::<u32>(members, "id"@);
                let created_at = field::<String>(members, "created_at"@);
                let downloads = field::<u32>(members, "downloads"@);
                let key = field::<String>(members, "key"@);
                let game_id = field::<u32>(members, "game_id"@);
                let owner = optional_field::<User>(members, "owner"@);
                if id is Some && created_at is Some && downloads is Some && key is Some
                    && game_id is Some && owner is Some {
                    Some(
                        DownloadKeyView {
                            id: id->Some_0,
                            created_at: created_at->Some_0,
                            downloads: downloads->Some_0,
                            key: key->Some_0,
                            game_id: game_id->Some_0,
                            owner: owner->Some_0,
                        },
                    )
                } else {
                    None
                }
            },
            _ => None,
        }
    }

    fn decode(json: &Json) -> (decoded: Result<DownloadKey, Error>) {
        match json {
            Json::Object(members) => {
                proof {
                    lemma_object_value(*members);
                }
                let id = read::<u32>(members, "id")?;
                let created_at = read::<String>(members, "created_at")?;
                let downloads = read::<u32>(members, "downloads")?;
                let key = read::<String>(members, "key")?;
                let game_id = read::<u32>(members, "game_id")?;
                let owner = read_optional::<User>(members, "owner")?;
                Ok(
                    DownloadKey {
                        id,
                        created_at,
                        downloads,
                        key,
                        game_id,
                        owner,
                    },
                )
            },
            _ => Err(Error::Decode),
        }
    }
}

/// The answer to a lookup of a download key.
pub struct DownloadKeys {
    pub download_key: DownloadKey,
}

/// The mathematical value of a [`DownloadKeys`].
pub ghost struct DownloadKeysView {
    pub download_key: DownloadKeyView,
}

impl DeepView for DownloadKeys {
    type V = DownloadKeysView;

    open spec fn deep_view(&self) -> DownloadKeysView {
        DownloadKeysView {
            download_key: self.download_key.deep_view(),
        }
    }
}

impl Decode for DownloadKeys {
    /// An object whose member `download_key` is a [`DownloadKey`].
    open spec fn parse(value: JsonValue) -> Option<DownloadKeysView> {
        match value {
            JsonValue::Object(members) => {
                let download_key = field::<DownloadKey>(members, "download_key"@);
                if download_key is Some {
                    Some(
                        DownloadKeysView {
                            download_key: download_key->Some_0,
                        },
                    )
                } else {
                    None
                }
            },
            _ => None,
        }
    }

    fn decode(json: &Json) -> (decoded: Result<DownloadKeys, Error>) {
        match json {
            Json::Object(members) => {
                proof {
                    lemma_object_value(*members);
                }
                let download_key = read::<DownloadKey>(members, "download_key")?;
                Ok(
                    DownloadKeys {
                        download_key,
                    },
                )
            },
            _ => Err(Error::Decode),
        }
    }
}

} // verus!
