use ichor::json::{find, Found};
use ichor::{
    receive, CredentialsInfo, Decode, DownloadKey, Earning, Error, Game, Json, MaybeEmptyList, Me,
    Member, MyGames, Purchase, Purchases, User,
};

fn text(s: &str) -> Json {
    Json::Text(s.to_string())
}

fn object(members: Vec<(&str, Json)>) -> Json {
    Json::Object(
        members.into_iter().map(|(key, value)| Member { key: key.to_string(), value }).collect(),
    )
}

fn without(json: &Json, key: &str) -> Json {
    match json {
        Json::Object(members) => Json::Object(
            members
                .iter()
                .filter(|m| m.key != key)
                .map(|m| Member { key: m.key.clone(), value: copy(&m.value) })
                .collect(),
        ),
        other => copy(other),
    }
}

fn with(json: &Json, key: &str, value: Json) -> Json {
    match without(json, key) {
        Json::Object(mut members) => {
            members.push(Member { key: key.to_string(), value });
            Json::Object(members)
        }
        other => other,
    }
}

fn copy(json: &Json) -> Json {
    match json {
        Json::Null => Json::Null,
        Json::Bool(b) => Json::Bool(*b),
        Json::Integer(n) => Json::Integer(*n),
        Json::Decimal => Json::Decimal,
        Json::Text(s) => Json::Text(s.clone()),
        Json::Array(items) => Json::Array(items.iter().map(copy).collect()),
        Json::Object(members) => Json::Object(
            members.iter().map(|m| Member { key: m.key.clone(), value: copy(&m.value) }).collect(),
        ),
    }
}

fn minimal_user() -> Json {
    object(vec![
        ("username", text("someone")),
        ("url", text("https://someone.itch.io")),
        ("id", Json::Integer(5119994)),
    ])
}

fn earning(currency: &str, amount: i128, formatted: &str) -> Json {
    object(vec![
        ("currency", text(currency)),
        ("amount_formatted", text(formatted)),
        ("amount", Json::Integer(amount)),
    ])
}

fn minimal_game() -> Json {
    object(vec![
        ("p_osx", Json::Bool(true)),
        ("id", Json::Integer(-5)),
        ("published_at", text("then")),
        ("url", text("https://x")),
        ("can_be_bought", Json::Bool(false)),
        ("p_android", Json::Bool(true)),
        ("p_linux", Json::Bool(false)),
        ("created_at", text("before")),
        ("in_press_system", Json::Bool(true)),
        ("has_demo", Json::Bool(true)),
        ("user", minimal_user()),
        ("title", text("T")),
        ("p_windows", Json::Bool(false)),
        ("min_price", Json::Integer(0)),
        ("classification", text("tool")),
        ("short_text", text("")),
        ("type", text("html")),
    ])
}

fn a_purchase() -> Json {
    object(vec![
        ("donation", Json::Bool(true)),
        ("id", Json::Integer(1)),
        ("email", text("e")),
        ("created_at", text("c")),
        ("source", text("s")),
        ("currency", text("EUR")),
        ("price", text("1,00")),
        ("sale_rate", Json::Integer(25)),
        ("game_id", Json::Integer(3)),
    ])
}

fn a_download_key() -> Json {
    object(vec![
        ("id", Json::Integer(1)),
        ("created_at", text("c")),
        ("downloads", Json::Integer(0)),
        ("key", text("k")),
        ("game_id", Json::Integer(3)),
    ])
}

fn fails<T: Decode>(json: &Json) -> bool {
    matches!(T::decode(json), Err(Error::Decode))
}

#[test]
fn empty_object_is_an_empty_list() {
    let list = MaybeEmptyList::<String>::decode(&object(vec![])).unwrap();
    assert!(list == MaybeEmptyList::Empty {});
    let list = MaybeEmptyList::<Earning>::decode(&object(vec![])).ok().unwrap();
    assert!(matches!(list, MaybeEmptyList::Empty {}));
}

#[test]
fn empty_array_is_an_empty_list() {
    let list = MaybeEmptyList::<String>::decode(&Json::Array(vec![])).unwrap();
    assert!(list == MaybeEmptyList::List(vec![]));
    match MaybeEmptyList::<Earning>::decode(&Json::Array(vec![])) {
        Ok(MaybeEmptyList::List(items)) => assert!(items.is_empty()),
        _ => panic!("an empty array is a list without items"),
    }
}

#[test]
fn array_of_one_is_a_list_of_the_decoded_element() {
    let element = earning("USD", 1250, "$12.50");
    let alone = Earning::decode(&element).ok().unwrap();
    match MaybeEmptyList::<Earning>::decode(&Json::Array(vec![copy(&element)])) {
        Ok(MaybeEmptyList::List(items)) => {
            assert_eq!(items.len(), 1);
            assert_eq!(items[0].currency, alone.currency);
            assert_eq!(items[0].amount, alone.amount);
            assert_eq!(items[0].amount_formatted, alone.amount_formatted);
            assert_eq!(items[0].currency, "USD");
            assert_eq!(items[0].amount, 1250);
            assert_eq!(items[0].amount_formatted, "$12.50");
        }
        _ => panic!("an array of one earning is a list of one"),
    }
}

#[test]
fn array_keeps_the_order_of_its_elements() {
    let array = Json::Array(vec![text("c"), text("a"), text("b"), text("a")]);
    let list = MaybeEmptyList::<String>::decode(&array).unwrap();
    assert!(
        list == MaybeEmptyList::List(vec![
            "c".to_string(),
            "a".to_string(),
            "b".to_string(),
            "a".to_string()
        ])
    );
}

#[test]
fn text_is_no_list() {
    assert!(fails::<MaybeEmptyList<String>>(&text("not a list")));
    assert!(fails::<MaybeEmptyList<Earning>>(&text("not a list")));
}

#[test]
fn other_shapes_are_no_list() {
    assert!(fails::<MaybeEmptyList<String>>(&Json::Null));
    assert!(fails::<MaybeEmptyList<String>>(&Json::Bool(false)));
    assert!(fails::<MaybeEmptyList<String>>(&Json::Integer(0)));
    assert!(fails::<MaybeEmptyList<String>>(&Json::Decimal));
    assert!(fails::<MaybeEmptyList<String>>(&object(vec![("a", text("b"))])));
    assert!(fails::<MaybeEmptyList<Earning>>(&earning("USD", 1, "$0.01")));
}

#[test]
fn one_bad_element_fails_the_list() {
    let array = Json::Array(vec![text("a"), Json::Integer(1), text("b")]);
    assert!(fails::<MaybeEmptyList<String>>(&array));
    let array = Json::Array(vec![earning("USD", 1, "x"), object(vec![])]);
    assert!(fails::<MaybeEmptyList<Earning>>(&array));
}

#[test]
fn lists_are_equal_by_structure() {
    let a = MaybeEmptyList::List(vec![1u32, 2]);
    assert!(a == MaybeEmptyList::List(vec![1u32, 2]));
    assert!(a != MaybeEmptyList::List(vec![2u32, 1]));
    assert!(a != MaybeEmptyList::Empty {});
    assert!(MaybeEmptyList::<u32>::Empty {} == MaybeEmptyList::Empty {});
    assert!(MaybeEmptyList::<u32>::Empty {} != MaybeEmptyList::List(vec![]));
}

#[test]
fn missing_flags_are_false() {
    let user = User::decode(&minimal_user()).ok().unwrap();
    assert!(!user.gamer);
    assert!(!user.press_user);
    assert!(!user.developer);
    assert_eq!(user.username, "someone");
    assert_eq!(user.url, "https://someone.itch.io");
    assert_eq!(user.id, 5119994);
    assert_eq!(user.display_name, None);
    assert_eq!(user.cover_url, None);
}

#[test]
fn each_flag_is_read_where_it_is_there() {
    for flag in ["gamer", "press_user", "developer"] {
        let user = User::decode(&with(&minimal_user(), flag, Json::Bool(true))).ok().unwrap();
        assert_eq!(user.gamer, flag == "gamer");
        assert_eq!(user.press_user, flag == "press_user");
        assert_eq!(user.developer, flag == "developer");
        let user = User::decode(&with(&minimal_user(), flag, Json::Bool(false))).ok().unwrap();
        assert!(!user.gamer && !user.press_user && !user.developer);
    }
}

#[test]
fn a_flag_must_be_a_boolean() {
    for flag in ["gamer", "press_user", "developer"] {
        assert!(fails::<User>(&with(&minimal_user(), flag, Json::Null)));
        assert!(fails::<User>(&with(&minimal_user(), flag, Json::Integer(1))));
        assert!(fails::<User>(&with(&minimal_user(), flag, text("true"))));
    }
}

#[test]
fn optional_text_may_be_missing_null_or_text() {
    let user = User::decode(&with(&minimal_user(), "display_name", Json::Null)).ok().unwrap();
    assert_eq!(user.display_name, None);
    let user = User::decode(&with(&minimal_user(), "cover_url", text("https://img"))).ok().unwrap();
    assert_eq!(user.cover_url.as_deref(), Some("https://img"));
    assert!(fails::<User>(&with(&minimal_user(), "display_name", Json::Integer(3))));
    assert!(fails::<User>(&with(&minimal_user(), "cover_url", Json::Bool(true))));
}

#[test]
fn required_members_must_be_there() {
    for key in ["username", "url", "id"] {
        assert!(fails::<User>(&without(&minimal_user(), key)));
        assert!(fails::<User>(&with(&minimal_user(), key, Json::Null)));
    }
    assert!(fails::<User>(&object(vec![])));
}

#[test]
fn only_an_object_is_a_record() {
    for json in [
        Json::Null,
        Json::Bool(true),
        Json::Integer(1),
        Json::Decimal,
        text("x"),
        Json::Array(vec![]),
        Json::Array(vec![minimal_user()]),
    ] {
        assert!(fails::<User>(&json));
        assert!(fails::<Me>(&json));
        assert!(fails::<Game>(&json));
        assert!(fails::<Earning>(&json));
        assert!(fails::<MyGames>(&json));
        assert!(fails::<Purchase>(&json));
        assert!(fails::<Purchases>(&json));
        assert!(fails::<DownloadKey>(&json));
        assert!(fails::<CredentialsInfo>(&json));
    }
}

#[test]
fn unknown_members_are_passed_over() {
    let json = with(
        &with(&minimal_user(), "followers", Json::Integer(12)),
        "extra",
        object(vec![("a", Json::Decimal)]),
    );
    let user = User::decode(&json).ok().unwrap();
    assert_eq!(user.id, 5119994);
    // an unknown member may even repeat
    let mut members = match json {
        Json::Object(members) => members,
        _ => unreachable!(),
    };
    members.push(Member { key: "extra".to_string(), value: Json::Null });
    assert!(User::decode(&Json::Object(members)).is_ok());
}

#[test]
fn a_repeated_member_fails() {
    for key in ["username", "gamer", "display_name", "id"] {
        let mut members = match with(&minimal_user(), "gamer", Json::Bool(true)) {
            Json::Object(members) => members,
            _ => unreachable!(),
        };
        let again = match key {
            "username" => text("other"),
            "gamer" => Json::Bool(true),
            "display_name" => Json::Null,
            _ => Json::Integer(5119994),
        };
        if key == "display_name" {
            members.push(Member { key: key.to_string(), value: Json::Null });
        }
        members.push(Member { key: key.to_string(), value: again });
        assert!(fails::<User>(&Json::Object(members)));
    }
}

#[test]
fn find_counts_the_members_of_a_name() {
    let members = vec![
        Member { key: "a".to_string(), value: Json::Integer(1) },
        Member { key: "b".to_string(), value: Json::Integer(2) },
        Member { key: "a".to_string(), value: Json::Integer(3) },
        Member { key: "".to_string(), value: Json::Integer(4) },
    ];
    assert!(matches!(find(&members, "a"), Found::Repeated));
    assert!(matches!(find(&members, "b"), Found::Once(Json::Integer(2))));
    assert!(matches!(find(&members, ""), Found::Once(Json::Integer(4))));
    assert!(matches!(find(&members, "c"), Found::Absent));
    assert!(matches!(find(&members, "A"), Found::Absent));
    assert!(matches!(find(&Vec::new(), "a"), Found::Absent));
}

#[test]
fn numbers_must_fit_their_field() {
    assert_eq!(u32::decode(&Json::Integer(0)), Ok(0));
    assert_eq!(u32::decode(&Json::Integer(4294967295)), Ok(u32::MAX));
    assert_eq!(u32::decode(&Json::Integer(4294967296)), Err(Error::Decode));
    assert_eq!(u32::decode(&Json::Integer(-1)), Err(Error::Decode));
    assert_eq!(u32::decode(&Json::Decimal), Err(Error::Decode));
    assert_eq!(u32::decode(&text("1")), Err(Error::Decode));
    assert_eq!(i64::decode(&Json::Integer(i64::MAX as i128)), Ok(i64::MAX));
    assert_eq!(i64::decode(&Json::Integer(i64::MIN as i128)), Ok(i64::MIN));
    assert_eq!(i64::decode(&Json::Integer(i64::MAX as i128 + 1)), Err(Error::Decode));
    assert_eq!(i64::decode(&Json::Integer(i64::MIN as i128 - 1)), Err(Error::Decode));
    assert_eq!(i64::decode(&Json::Integer(u64::MAX as i128)), Err(Error::Decode));
    assert_eq!(i64::decode(&Json::Decimal), Err(Error::Decode));
    assert_eq!(i64::decode(&Json::Null), Err(Error::Decode));
    assert!(fails::<User>(&with(&minimal_user(), "id", Json::Integer(-1))));
    assert!(fails::<User>(&with(&minimal_user(), "id", Json::Integer(1 << 32))));
    assert!(fails::<User>(&with(&minimal_user(), "id", Json::Decimal)));
}

#[test]
fn plain_values_decode_by_shape() {
    assert_eq!(bool::decode(&Json::Bool(true)), Ok(true));
    assert_eq!(bool::decode(&Json::Bool(false)), Ok(false));
    assert_eq!(bool::decode(&Json::Integer(1)), Err(Error::Decode));
    assert_eq!(String::decode(&text("")), Ok(String::new()));
    assert_eq!(String::decode(&text("h\u{e9}")), Ok("h\u{e9}".to_string()));
    assert_eq!(String::decode(&Json::Null), Err(Error::Decode));
    assert_eq!(String::decode(&Json::Array(vec![text("a")])), Err(Error::Decode));
}

#[test]
fn game_reads_every_member() {
    let game = Game::decode(&minimal_game()).ok().unwrap();
    assert!(game.p_osx);
    assert_eq!(game.id, -5);
    assert_eq!(game.published_at, "then");
    assert_eq!(game.url, "https://x");
    assert!(!game.can_be_bought);
    assert!(game.p_android);
    assert!(!game.p_linux);
    assert_eq!(game.created_at, "before");
    assert!(game.in_press_system);
    assert!(game.has_demo);
    assert_eq!(game.user.username, "someone");
    assert_eq!(game.title, "T");
    assert!(!game.p_windows);
    assert_eq!(game.min_price, 0);
    assert_eq!(game.classification, "tool");
    assert_eq!(game.short_text, "");
    assert_eq!(game.kind, "html");
    assert_eq!(game.purchases_count, None);
    assert_eq!(game.downloads_count, None);
    assert_eq!(game.views_count, None);
    assert_eq!(game.published, None);
    assert!(game.earnings.is_none());
}

#[test]
fn game_needs_each_member_that_is_not_optional() {
    for key in [
        "p_osx",
        "id",
        "published_at",
        "url",
        "can_be_bought",
        "p_android",
        "p_linux",
        "created_at",
        "in_press_system",
        "has_demo",
        "user",
        "title",
        "p_windows",
        "min_price",
        "classification",
        "short_text",
        "type",
    ] {
        assert!(fails::<Game>(&without(&minimal_game(), key)), "{}", format!("without {key}"));
        assert!(fails::<Game>(&with(&minimal_game(), key, Json::Null)));
    }
}

#[test]
fn game_reads_its_optional_members() {
    let json = with(&minimal_game(), "purchases_count", Json::Integer(1));
    let json = with(&json, "downloads_count", Json::Integer(2));
    let json = with(&json, "views_count", Json::Integer(3));
    let json = with(&json, "published", Json::Bool(false));
    let json = with(&json, "earnings", object(vec![]));
    let game = Game::decode(&json).ok().unwrap();
    assert_eq!(game.purchases_count, Some(1));
    assert_eq!(game.downloads_count, Some(2));
    assert_eq!(game.views_count, Some(3));
    assert_eq!(game.published, Some(false));
    assert!(matches!(game.earnings, Some(MaybeEmptyList::Empty {})));

    for key in ["purchases_count", "downloads_count", "views_count", "published", "earnings"] {
        let game = Game::decode(&with(&minimal_game(), key, Json::Null)).ok().unwrap();
        assert_eq!(game.purchases_count, None);
        assert!(game.earnings.is_none());
        assert!(fails::<Game>(&with(&minimal_game(), key, text("x"))));
    }
}

#[test]
fn game_fails_with_a_bad_user_or_bad_earnings() {
    let bad_user = without(&minimal_user(), "id");
    assert!(fails::<Game>(&with(&minimal_game(), "user", bad_user)));
    let bad = Json::Array(vec![earning("USD", -1, "x")]);
    assert!(fails::<Game>(&with(&minimal_game(), "earnings", bad)));
    let bad = object(vec![("currency", text("USD"))]);
    assert!(fails::<Game>(&with(&minimal_game(), "earnings", bad)));
}

#[test]
fn my_games_needs_its_list() {
    assert!(fails::<MyGames>(&object(vec![])));
    assert!(fails::<MyGames>(&object(vec![("games", Json::Null)])));
    assert!(fails::<MyGames>(&object(vec![("games", text("none"))])));
    let games = MyGames::decode(&object(vec![("games", Json::Array(vec![]))])).ok().unwrap();
    assert!(matches!(games.games, MaybeEmptyList::List(list) if list.is_empty()));
    let two = Json::Array(vec![minimal_game(), with(&minimal_game(), "id", Json::Integer(6))]);
    match MyGames::decode(&object(vec![("games", two)])).ok().unwrap().games {
        MaybeEmptyList::List(list) => {
            assert_eq!(list.len(), 2);
            assert_eq!(list[0].id, -5);
            assert_eq!(list[1].id, 6);
        }
        MaybeEmptyList::Empty {} => panic!("two games were sent"),
    }
}

#[test]
fn download_key_owner_is_optional() {
    let key = DownloadKey::decode(&a_download_key()).ok().unwrap();
    assert_eq!(key.id, 1);
    assert_eq!(key.created_at, "c");
    assert_eq!(key.downloads, 0);
    assert_eq!(key.key, "k");
    assert_eq!(key.game_id, 3);
    assert!(key.owner.is_none());
    let key = DownloadKey::decode(&with(&a_download_key(), "owner", Json::Null)).ok().unwrap();
    assert!(key.owner.is_none());
    let key = DownloadKey::decode(&with(&a_download_key(), "owner", minimal_user())).ok().unwrap();
    assert_eq!(key.owner.unwrap().id, 5119994);
    assert!(fails::<DownloadKey>(&with(&a_download_key(), "owner", object(vec![]))));
    for member in ["id", "created_at", "downloads", "key", "game_id"] {
        assert!(fails::<DownloadKey>(&without(&a_download_key(), member)));
    }
}

#[test]
fn purchase_reads_every_member() {
    let purchase = Purchase::decode(&a_purchase()).ok().unwrap();
    assert!(purchase.donation);
    assert_eq!(purchase.id, 1);
    assert_eq!(purchase.email, "e");
    assert_eq!(purchase.created_at, "c");
    assert_eq!(purchase.source, "s");
    assert_eq!(purchase.currency, "EUR");
    assert_eq!(purchase.price, "1,00");
    assert_eq!(purchase.sale_rate, 25);
    assert_eq!(purchase.game_id, 3);
    for member in [
        "donation",
        "id",
        "email",
        "created_at",
        "source",
        "currency",
        "price",
        "sale_rate",
        "game_id",
    ] {
        assert!(fails::<Purchase>(&without(&a_purchase(), member)));
    }
    assert!(fails::<Purchase>(&with(&a_purchase(), "price", Json::Integer(100))));
    assert!(fails::<Purchase>(&with(&a_purchase(), "sale_rate", Json::Decimal)));
}

#[test]
fn purchases_may_be_an_empty_object() {
    let empty: Purchases = receive(200, &object(vec![("purchases", object(vec![]))])).ok().unwrap();
    assert!(matches!(empty.purchases, MaybeEmptyList::Empty {}));
    assert!(fails::<Purchases>(&object(vec![("purchases", a_purchase())])));
    assert!(fails::<Purchases>(&object(vec![])));
}

#[test]
fn credentials_need_only_their_type() {
    let info = CredentialsInfo::decode(&object(vec![("type", text("key"))])).ok().unwrap();
    assert_eq!(info.kind, "key");
    assert!(info.scopes.is_none());
    assert!(info.expires_at.is_none());
    assert!(fails::<CredentialsInfo>(&object(vec![("scopes", object(vec![]))])));
    assert!(fails::<CredentialsInfo>(&object(vec![
        ("type", text("key")),
        ("scopes", text("all"))
    ])));
    assert!(fails::<CredentialsInfo>(&object(vec![
        ("type", text("key")),
        ("scopes", Json::Array(vec![Json::Integer(1)]))
    ])));
    assert!(fails::<CredentialsInfo>(&object(vec![
        ("type", text("key")),
        ("expires_at", Json::Integer(1700000000))
    ])));
}
