//! The key's own credentials.
use crate::decode::{field, optional_field, read, read_optional, Decode};
use crate::error::Error;
use crate::json::{lemma_object_value, Json, JsonValue};
use crate::list::{ListView, MaybeEmptyList};
use vstd::prelude::*;

verus! {

/// What the server knows of the key that a request was made with.
pub struct CredentialsInfo {
    pub kind: String,
    pub scopes: Option<MaybeEmptyList<String>>,
    pub expires_at: Option<String>,
}

/// The mathematical value of a [`CredentialsInfo`].
pub ghost struct CredentialsInfoView {
    pub kind: Seq<char>,
    pub scopes: Option<ListView<Seq<char>>>,
    pub expires_at: Option<Seq<char>>,
}

impl DeepView for CredentialsInfo {
    type V = CredentialsInfoView;

    open spec fn deep_view(&self) -> CredentialsInfoView {
        CredentialsInfoView {
            kind: self.kind@,
            scopes: self.scopes.deep_view(),
            expires_at: self.expires_at.deep_view(),
        }
    }
}

impl Decode for CredentialsInfo {
    /// An object with `type`; `scopes` and `expires_at` may be missing or `null`.
    open spec fn parse(value: JsonValue) -> Option<CredentialsInfoView> {
        match value {
            JsonValue::Object(members) => {
                let kind = field::<String>(members, "type"@);
                let scopes = optional_field::<MaybeEmptyList<String>>(members, "scopes"@);
                let expires_at = optional_field::<String>(members, "expires_at"@);
                if kind is Some && scopes is Some && expires_at is Some {
                    Some(
                        CredentialsInfoView {
                            kind: kind->Some_0,
                            scopes: scopes->Some_0,
                            expires_at: expires_at->Some_0,
                        },
                    )
                } else {
                    None
                }
            },
            _ => None,
        }
    }

    fn decode(json: &Json) -> (decoded: Result<CredentialsInfo, Error>) {
        match json {
            Json::Object(members) => {
                proof {
                    lemma_object_value(*members);
                }
                let kind = read::<String>(members, "type")?;
                let scopes = read_optional::<MaybeEmptyList<String>>(members, "scopes")?;
                let expires_at = read_optional::<String>(members, "expires_at")?;
                Ok(
                    CredentialsInfo {
                        kind,
                        scopes,
                        expires_at,
                    },
                )
            },
            _ => Err(Error::Decode),
        }
    }
}

} // verus!
