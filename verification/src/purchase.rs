//! Purchases.
use crate::decode::{field, read, Decode};
use crate::error::Error;
use crate::json::{lemma_object_value, Json, JsonValue};
use crate::list::{ListView, MaybeEmptyList};
use vstd::prelude::*;

verus! {

/// One purchase of a game.
pub struct Purchase {
    pub donation: bool,
    pub id: i64,
    pub email: String,
    pub created_at: String,
    pub source: String,
    pub currency: String,
    pub price: String,
    pub sale_rate: i64,
    pub game_id: i64,
}

/// The mathematical value of a [`Purchase`].
pub ghost struct PurchaseView {
    pub donation: bool,
    pub id: i64,
    pub email: Seq<char>,
    pub created_at: Seq<char>,
    pub source: Seq<char>,
    pub currency: Seq<char>,
    pub price: Seq<char>,
    pub sale_rate: i64,
    pub game_id: i64,
}

impl DeepView for Purchase {
    type V = PurchaseView;

    open spec fn deep_view(&self) -> PurchaseView {
        PurchaseView {
            donation: self.donation,
            id: self.id,
            email: self.email@,
            created_at: self.created_at@,
            source: self.source@,
            currency: self.currency@,
            price: self.price@,
            sale_rate: self.sale_rate,
            game_id: self.game_id,
        }
    }
}

impl Decode for Purchase {
    /// An object with every member of [`Purchase`]; `price` is text, `sale_rate`
    /// a whole number.
    open spec fn parse(value: JsonValue) -> Option<PurchaseView> {
        match value {
            JsonValue::Object(members) => {
                let donation = field::<bool>(members, "donation"@);
                let id = field::<i64>(members, "id"@);
                let email = field::<String>(members, "email"@);
                let created_at = field::<String>(members, "created_at"@);
                let source = field::<String>(members, "source"@);
                let currency = field::<String>(members, "currency"@);
                let price = field::<String>(members, "price"@);
                let sale_rate = field::<i64>(members, "sale_rate"@);
                let game_id = field::<i64>(members, "game_id"@);
                if donation is Some && id is Some && email is Some && created_at is Some
                    && source is Some && currency is Some && price is Some && sale_rate is Some
                    && game_id is Some {
                    Some(
                        PurchaseView {
                            donation: donation->Some_0,
                            id: id->Some_0,
                            email: email->Some_0,
                            created_at: created_at->Some_0,
                            source: source->Some_0,
                            currency: currency->Some_0,
                            price: price->Some_0,
                            sale_rate: sale_rate->Some_0,
                            game_id: game_id->Some_0,
                        },
                    )
                } else {
                    None
                }
            },
            _ => None,
        }
    }

    fn decode(json: &Json) -> (decoded: Result<Purchase, Error>) {
        match json {
            Json::Object(members) => {
                proof {
                    lemma_object_value(*members);
                }
                let donation = read::<bool>(members, "donation")?;
                let id = read::<i64>(members, "id")?;
                let email = read::<String>(members, "email")?;
                let created_at = read::<String>(members, "created_at")?;
                let source = read::<String>(members, "source")?;
                let currency = read::<String>(members, "currency")?;
                let price = read::<String>(members, "price")?;
                let sale_rate = read::<i64>(members, "sale_rate")?;
                let game_id = read::<i64>(members, "game_id")?;
                Ok(
                    Purchase {
                        donation,
                        id,
                        email,
                        created_at,
                        source,
                        currency,
                        price,
                        sale_rate,
                        game_id,
                    },
                )
            },
            _ => Err(Error::Decode),
        }
    }
}

/// The answer to a lookup of purchases.
pub struct Purchases {
    pub purchases: MaybeEmptyList<Purchase>,
}

/// The mathematical value of a [`Purchases`].
pub ghost struct PurchasesView {
    pub purchases: ListView<PurchaseView>,
}

impl DeepView for Purchases {
    type V = PurchasesView;

    open spec fn deep_view(&self) -> PurchasesView {
        PurchasesView {
            purchases: self.purchases.deep_view(),
        }
    }
}

impl Decode for Purchases {
    /// An object whose member `purchases` is a list of [`Purchase`], or `{}`.
    open spec fn parse(value: JsonValue) -> Option<PurchasesView> {
        match value {
            JsonValue::Object(members) => {
                let purchases = field::<MaybeEmptyList<Purchase>>(members, "purchases"@);
                if purchases is Some {
                    Some(
                        PurchasesView {
                            purchases: purchases->Some_0,
                        },
                    )
                } else {
                    None
                }
            },
            _ => None,
        }
    }

    fn decode(json: &Json) -> (decoded: Result<Purchases, Error>) {
        match json {
            Json::Object(members) => {
                proof {
                    lemma_object_value(*members);
                }
                let purchases = read::<MaybeEmptyList<Purchase>>(members, "purchases")?;
                Ok(
                    Purchases {
                        purchases,
                    },
                )
            },
            _ => Err(Error::Decode),
        }
    }
}

} // verus!
