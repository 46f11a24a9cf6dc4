//! Games and what they earn.
use crate::decode::{field, optional_field, read, read_optional, Decode};
use crate::error::Error;
use crate::json::{lemma_object_value, Json, JsonValue};
use crate::list::{ListView, MaybeEmptyList};
use crate::user::{User, UserView};
use vstd::prelude::*;

verus! {

/// What a game has earned in one currency.
pub struct Earning {
    pub currency: String,
    pub amount_formatted: String,
    pub amount: u32,
}

/// The mathematical value of an [`Earning`].
pub ghost struct EarningView {
    pub currency: Seq<char>,
    pub amount_formatted: Seq<char>,
    pub amount: u32,
}

impl DeepView for Earning {
    type V = EarningView;

    open spec fn deep_view(&self) -> EarningView {
        EarningView {
            currency: self.currency@,
            amount_formatted: self.amount_formatted@,
            amount: self.amount,
        }
    }
}

impl Decode for Earning {
    /// An object with `currency`, `amount_formatted` and `amount`, the amount in
    /// minor units.
    open spec fn parse(value: JsonValue) -> Option<EarningView> {
        match value {
            JsonValue::Object(members) => {
                let currency = field::<String>(members, "currency"@);
                let amount_formatted = field::<String>(members, "amount_formatted"@);
                let amount = field::<u32>(members, "amount"@);
                if currency is Some && amount_formatted is Some && amount is Some {
                    Some(
                        EarningView {
                            currency: currency->Some_0,
                            amount_formatted: amount_formatted->Some_0,
                            amount: amount->Some_0,
                        },
                    )
                } else {
                    None
                }
            },
            _ => None,
        }
    }

    fn decode(json: &Json) -> (decoded: Result<Earning, Error>) {
        match json {
            Json::Object(members) => {
                proof {
                    lemma_object_value(*members);
                }
                let currency = read::<String>(members, "currency")?;
                let amount_formatted = read::<String>(members, "amount_formatted")?;
                let amount = read::<u32>(members, "amount")?;
                Ok(
                    Earning {
                        currency,
                        amount_formatted,
                        amount,
                    },
                )
            },
            _ => Err(Error::Decode),
        }
    }
}

/// A game as the site lists it.
pub struct Game {
    pub purchases_count: Option<i64>,
    pub p_osx: bool,
    pub id: i64,
    pub published: Option<bool>,
    pub published_at: String,
    pub views_count: Option<i64>,
    pub url: String,
    pub can_be_bought: bool,
    pub p_android: bool,
    pub p_linux: bool,
    pub created_at: String,
    pub in_press_system: bool,
    pub has_demo: bool,
    pub user: User,
    pub title: String,
    pub downloads_count: Option<i64>,
    pub p_windows: bool,
    pub min_price: i64,
    pub classification: String,
    pub short_text: String,
    pub kind: String,
    pub earnings: Option<MaybeEmptyList<Earning>>,
}

/// The mathematical value of a [`Game`].
pub ghost struct GameView {
    pub purchases_count: Option<i64>,
    pub p_osx: bool,
    pub id: i64,
    pub published: Option<bool>,
    pub published_at: Seq<char>,
    pub views_count: Option<i64>,
    pub url: Seq<char>,
    pub can_be_bought: bool,
    pub p_android: bool,
    pub p_linux: bool,
    pub created_at: Seq<char>,
    pub in_press_system: bool,
    pub has_demo: bool,
    pub user: UserView,
    pub title: Seq<char>,
    pub downloads_count: Option<i64>,
    pub p_windows: bool,
    pub min_price: i64,
    pub classification: Seq<char>,
    pub short_text: Seq<char>,
    pub kind: Seq<char>,
    pub earnings: Option<ListView<EarningView>>,
}

impl DeepView for Game {
    type V = GameView;

    open spec fn deep_view(&self) -> GameView {
        GameView {
            purchases_count: self.purchases_count.deep_view(),
            p_osx: self.p_osx,
            id: self.id,
            published: self.published.deep_view(),
            published_at: self.published_at@,
            views_count: self.views_count.deep_view(),
            url: self.url@,
            can_be_bought: self.can_be_bought,
            p_android: self.p_android,
            p_linux: self.p_linux,
            created_at: self.created_at@,
            in_press_system: self.in_press_system,
            has_demo: self.has_demo,
            user: self.user.deep_view(),
            title: self.title@,
            downloads_count: self.downloads_count.deep_view(),
            p_windows: self.p_windows,
            min_price: self.min_price,
            classification: self.classification@,
            short_text: self.short_text@,
            kind: self.kind@,
            earnings: self.earnings.deep_view(),
        }
    }
}

impl Decode for Game {
    /// An object with every member of [`Game`] but the three counts,
    /// `published` and `earnings`, which may be missing or `null`. The member
    /// `type` is read into `kind`.
    open spec fn parse(value: JsonValue) -> Option<GameView> {
        match value {
            JsonValue::Object(members) => {
                let purchases_count = optional_field::<i64>(members, "purchases_count"@);
                let p_osx = field::<bool>(members, "p_osx"@);
                let id = field::<i64>(members, "id"@);
                let published = optional_field::<bool>(members, "published"@);
                let published_at = field::<String>(members, "published_at"@);
                let views_count = optional_field::<i64>(members, "views_count"@);
                let url = field::<String>(members, "url"@);
                let can_be_bought = field::<bool>(members, "can_be_bought"@);
                let p_android = field::<bool>(members, "p_android"@);
                let p_linux = field::<bool>(members, "p_linux"@);
                let created_at = field::<String>(members, "created_at"@);
                let in_press_system = field::<bool>(members, "in_press_system"@);
                let has_demo = field::<bool>(members, "has_demo"@);
                let user = field::<User>(members, "user"@);
                let title = field::<String>(members, "title"@);
                let downloads_count = optional_field::<i64>(members, "downloads_count"@);
                let p_windows = field::<bool>(members, "p_windows"@);
                let min_price = field::<i64>(members, "min_price"@);
                let classification = field::<String>(members, "classification"@);
                let short_text = field::<String>(members, "short_text"@);
                let kind = field::<String>(members, "type"@);
                let earnings = optional_field::<MaybeEmptyList<Earning>>(members, "earnings"@);
                if purchases_count is Some && p_osx is Some && id is Some && published is Some
                    && published_at is Some && views_count is Some && url is Some
                    && can_be_bought is Some && p_android is Some && p_linux is Some
                    && created_at is Some && in_press_system is Some && has_demo is Some
                    && user is Some && title is Some && downloads_count is Some
                    && p_windows is Some && min_price is Some && classification is Some
                    && short_text is Some && kind is Some && earnings is Some {
                    Some(
                        GameView {
                            purchases_count: purchases_count->Some_0,
                            p_osx: p_osx->Some_0,
                            id: id->Some_0,
                            published: published->Some_0,
                            published_at: published_at->Some_0,
                            views_count: views_count->Some_0,
                            url: url->Some_0,
                            can_be_bought: can_be_bought->Some_0,
                            p_android: p_android->Some_0,
                            p_linux: p_linux->Some_0,
                            created_at: created_at->Some_0,
                            in_press_system: in_press_system->Some_0,
                            has_demo: has_demo->Some_0,
                            user: user->Some_0,
                            title: title->Some_0,
                            downloads_count: downloads_count->Some_0,
                            p_windows: p_windows->Some_0,
                            min_price: min_price->Some_0,
                            classification: classification->Some_0,
                            short_text: short_text->Some_0,
                            kind: kind->Some_0,
                            earnings: earnings->Some_0,
                        },
                    )
                } else {
                    None
                }
            },
            _ => None,
        }
    }

    fn decode(json: &Json) -> (decoded: Result<Game, Error>) {
        match json {
            Json::Object(members) => {
                proof {
                    lemma_object_value(*members);
                }
                let purchases_count = read_optional::<i64>(members, "purchases_count")?;
                let p_osx = read::<bool>(members, "p_osx")?;
                let id = read::<i64>(members, "id")?;
                let published = read_optional::<bool>(members, "published")?;
                let published_at = read::<String>(members, "published_at")?;
                let views_count = read_optional::<i64>(members, "views_count")?;
                let url = read::<String>(members, "url")?;
                let can_be_bought = read::<bool>(members, "can_be_bought")?;
                let p_android = read::<bool>(members, "p_android")?;
                let p_linux = read::<bool>(members, "p_linux")?;
                let created_at = read::<String>(members, "created_at")?;
                let in_press_system = read::<bool>(members, "in_press_system")?;
                let has_demo = read::<bool>(members, "has_demo")?;
                let user = read::<User>(members, "user")?;
                let title = read::<String>(members, "title")?;
                let downloads_count = read_optional::<i64>(members, "downloads_count")?;
                let p_windows = read::<bool>(members, "p_windows")?;
                let min_price = read::<i64>(members, "min_price")?;
                let classification = read::<String>(members, "classification")?;
                let short_text = read::<String>(members, "short_text")?;
                let kind = read::<String>(members, "type")?;
                let earnings = read_optional::<MaybeEmptyList<Earning>>(members, "earnings")?;
                Ok(
                    Game {
                        purchases_count,
                        p_osx,
                        id,
                        published,
                        published_at,
                        views_count,
                        url,
                        can_be_bought,
                        p_android,
                        p_linux,
                        created_at,
                        in_press_system,
                        has_demo,
                        user,
                        title,
                        downloads_count,
                        p_windows,
                        min_price,
                        classification,
                        short_text,
                        kind,
                        earnings,
                    },
                )
            },
            _ => Err(Error::Decode),
        }
    }
}

/// The answer to a request for the games of the key's account.
pub struct MyGames {
    pub games: MaybeEmptyList<Game>,
}

/// The mathematical value of a [`MyGames`].
pub ghost struct MyGamesView {
    pub games: ListView<GameView>,
}

impl DeepView for MyGames {
    type V = MyGamesView;

    open spec fn deep_view(&self) -> MyGamesView {
        MyGamesView {
            games: self.games.deep_view(),
        }
    }
}

impl Decode for MyGames {
    /// An object whose member `games` is a list of [`Game`], or `{}`.
    open spec fn parse(value: JsonValue) -> Option<MyGamesView> {
        match value {
            JsonValue::Object(members) => {
                let games = field::<MaybeEmptyList<Game>>(members, "games"@);
                if games is Some {
                    Some(
                        MyGamesView {
                            games: games->Some_0,
                        },
                    )
                } else {
                    None
                }
            },
            _ => None,
        }
    }

    fn decode(json: &Json) -> (decoded: Result<MyGames, Error>) {
        match json {
            Json::Object(members) => {
                proof {
                    lemma_object_value(*members);
                }
                let games = read::<MaybeEmptyList<Game>>(members, "games")?;
                Ok(
                    MyGames {
                        games,
                    },
                )
            },
            _ => Err(Error::Decode),
        }
    }
}

} // verus!
