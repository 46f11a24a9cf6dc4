//! Accounts.
use crate::decode::{field, flag_field, optional_field, read, read_flag, read_optional, Decode};
use crate::error::Error;
use crate::json::{
    bound, law_bound_by_last_member, lemma_object_value, Json, JsonValue, MemberValue,
};
use vstd::prelude::*;

verus! {

/// An account on the site.
pub struct User {
    pub username: String,
    pub gamer: bool,
    pub display_name: Option<String>,
    pub cover_url: Option<String>,
    pub url: String,
    pub press_user: bool,
    pub developer: bool,
    pub id: u32,
}

/// The mathematical value of a [`User`].
pub ghost struct UserView {
    pub username: Seq<char>,
    pub gamer: bool,
    pub display_name: Option<Seq<char>>,
    pub cover_url: Option<Seq<char>>,
    pub url: Seq<char>,
    pub press_user: bool,
    pub developer: bool,
    pub id: u32,
}

impl DeepView for User {
    type V = UserView;

    open spec fn deep_view(&self) -> UserView {
        UserView {
            username: self.username@,
            gamer: self.gamer,
            display_name: self.display_name.deep_view(),
            cover_url: self.cover_url.deep_view(),
            url: self.url@,
            press_user: self.press_user,
            developer: self.developer,
            id: self.id,
        }
    }
}

impl Decode for User {
    /// An object with `username`, `url` and `id`; `display_name` and
    /// `cover_url` may be missing or `null`; the three flags are `false`
    /// where they are missing. Members of other names are passed over.
    open spec fn parse(value: JsonValue) -> Option<UserView> {
        match value {
            JsonValue::Object(members) => {
                let username = field::<String>(members, "username"@);
                let gamer = flag_field(members, "gamer"@);
                let display_name = optional_field::<String>(members, "display_name"@);
                let cover_url = optional_field::<String>(members, "cover_url"@);
                let url = field::<String>(members, "url"@);
                let press_user = flag_field(members, "press_user"@);
                let developer = flag_field(members, "developer"@);
                let id = field::<u32>(members, "id"@);
                if username is Some && gamer is Some && display_name is Some && cover_url is Some
                    && url is Some && press_user is Some && developer is Some && id is Some {
                    Some(
                        UserView {
                            username: username->Some_0,
                            gamer: gamer->Some_0,
                            display_name: display_name->Some_0,
                            cover_url: cover_url->Some_0,
                            url: url->Some_0,
                            press_user: press_user->Some_0,
                            developer: developer->Some_0,
                            id: id->Some_0,
                        },
                    )
                } else {
                    None
                }
            },
            _ => None,
        }
    }

    fn decode(json: &Json) -> (decoded: Result<User, Error>) {
        match json {
            Json::Object(members) => {
                proof {
                    lemma_object_value(*members);
                }
                let username = read::<String>(members, "username")?;
                let gamer = read_flag(members, "gamer")?;
                let display_name = read_optional::<String>(members, "display_name")?;
                let cover_url = read_optional::<String>(members, "cover_url")?;
                let url = read::<String>(members, "url")?;
                let press_user = read_flag(members, "press_user")?;
                let developer = read_flag(members, "developer")?;
                let id = read::<u32>(members, "id")?;
                Ok(User { username, gamer, display_name, cover_url, url, press_user, developer, id })
            },
            _ => Err(Error::Decode),
        }
    }
}

/// The answer to a request for the key's own account.
pub struct Me {
    pub user: User,
}

/// The mathematical value of a [`Me`].
pub ghost struct MeView {
    pub user: UserView,
}

impl DeepView for Me {
    type V = MeView;

    open spec fn deep_view(&self) -> MeView {
        MeView { user: self.user.deep_view() }
    }
}

impl Decode for Me {
    /// An object whose member `user` is a [`User`].
    open spec fn parse(value: JsonValue) -> Option<MeView> {
        match value {
            JsonValue::Object(members) => match field::<User>(members, "user"@) {
                Some(user) => Some(MeView { user }),
                None => None,
            },
            _ => None,
        }
    }

    fn decode(json: &Json) -> (decoded: Result<Me, Error>) {
        match json {
            Json::Object(members) => {
                proof {
                    lemma_object_value(*members);
                }
                let user = read::<User>(members, "user")?;
                Ok(Me { user })
            },
            _ => Err(Error::Decode),
        }
    }
}

/// A flag that a user's object leaves out is `false` in the user.
pub proof fn law_missing_flags_are_false(members: Seq<MemberValue>)
    requires
        User::parse(JsonValue::Object(members)) is Some,
    ensures
        bound(members, "gamer"@).len() == 0 ==> !User::parse(
            JsonValue::Object(members),
        )->Some_0.gamer,
        bound(members, "press_user"@).len() == 0 ==> !User::parse(
            JsonValue::Object(members),
        )->Some_0.press_user,
        bound(members, "developer"@).len() == 0 ==> !User::parse(
            JsonValue::Object(members),
        )->Some_0.developer,
{
}

/// A member whose name is none of a user's is passed over.
pub proof fn law_unknown_member_is_ignored(members: Seq<MemberValue>, extra: MemberValue)
    requires
        extra.key != "username"@,
        extra.key != "gamer"@,
        extra.key != "display_name"@,
        extra.key != "cover_url"@,
        extra.key != "url"@,
        extra.key != "press_user"@,
        extra.key != "developer"@,
        extra.key != "id"@,
    ensures
        User::parse(JsonValue::Object(members.push(extra))) == User::parse(
            JsonValue::Object(members),
        ),
{
    law_bound_by_last_member(members, extra, "username"@);
    law_bound_by_last_member(members, extra, "gamer"@);
    law_bound_by_last_member(members, extra, "display_name"@);
    law_bound_by_last_member(members, extra, "cover_url"@);
    law_bound_by_last_member(members, extra, "url"@);
    law_bound_by_last_member(members, extra, "press_user"@);
    law_bound_by_last_member(members, extra, "developer"@);
    law_bound_by_last_member(members, extra, "id"@);
}

/// Whether a user's object has its flags does not decide whether it parses:
/// a missing flag never makes it fail.
pub proof fn law_flags_are_optional(members: Seq<MemberValue>)
    requires
        field::<String>(members, "username"@) is Some,
        field::<String>(members, "url"@) is Some,
        field::<u32>(members, "id"@) is Some,
        optional_field::<String>(members, "display_name"@) is Some,
        optional_field::<String>(members, "cover_url"@) is Some,
        bound(members, "gamer"@).len() == 0,
        bound(members, "press_user"@).len() == 0,
        bound(members, "developer"@).len() == 0,
    ensures
        User::parse(JsonValue::Object(members)) is Some,
{
}

} // verus!
