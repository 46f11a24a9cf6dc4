use ichor::text::push_decimal;
use ichor::{DownloadKeysType, Ichor, Parameter, PurchasesType, Request, API_VERSION, BASE_URL};

#[test]
fn defaults_are_the_public_api() {
    assert_eq!(BASE_URL, "https://itch.io/api");
    assert_eq!(API_VERSION, 1);
}

#[test]
fn default_flag_is_false() {
    assert!(!ichor::default_false());
}

#[test]
fn decimal_digits_are_exact() {
    for (n, digits) in [
        (0u32, "0"),
        (7, "7"),
        (9, "9"),
        (10, "10"),
        (99, "99"),
        (100, "100"),
        (1289068, "1289068"),
        (u32::MAX, "4294967295"),
    ] {
        let mut out = String::from("n=");
        push_decimal(&mut out, n);
        assert_eq!(out, format!("n={}", digits));
    }
}

#[test]
fn address_holds_base_version_and_key_as_given() {
    let request = Ichor::new("http://localhost:8080/api/", 255, "a/b c").me();
    assert_eq!(request.url, "http://localhost:8080/api//255/a/b c/me");
    let request = Ichor::new("", 0, "").my_games();
    assert_eq!(request.url, "/0//my-games");
}

#[test]
fn game_id_goes_into_the_address_as_given() {
    let request = Ichor::new(BASE_URL, API_VERSION, "k").game("not a number");
    assert_eq!(request.url, "https://itch.io/api/1/k/game/not a number");
    assert!(request.query.is_none());
}

#[test]
fn lookup_types_have_their_wire_names() {
    assert_eq!(DownloadKeysType::DownloadKey.name(), "download_key");
    assert_eq!(DownloadKeysType::UserId.name(), "user_id");
    assert_eq!(DownloadKeysType::Email.name(), "email");
    assert_eq!(PurchasesType::Email.name(), "email");
    assert_eq!(PurchasesType::UserId.name(), "user_id");
}

#[test]
fn download_keys_query_names_follow_the_lookup_type() {
    for (kind, name) in [
        (DownloadKeysType::DownloadKey, "download_key"),
        (DownloadKeysType::UserId, "user_id"),
        (DownloadKeysType::Email, "email"),
    ] {
        let request = Ichor::new(BASE_URL, API_VERSION, "k").download_keys(42, kind, "v");
        assert_eq!(request.url, "https://itch.io/api/1/k/game/42/download_keys");
        let pair = request.query.unwrap();
        assert_eq!(pair.name, name);
        assert_eq!(pair.value, "v");
    }
}

#[test]
fn purchases_query_names_follow_the_lookup_type() {
    for (kind, name) in [(PurchasesType::Email, "email"), (PurchasesType::UserId, "user_id")] {
        let request = Ichor::new(BASE_URL, API_VERSION, "k").purchases(u32::MAX, kind, "v");
        assert_eq!(request.url, "https://itch.io/api/1/k/game/4294967295/purchases");
        let pair = request.query.unwrap();
        assert_eq!(pair.name, name);
        assert_eq!(pair.value, "v");
    }
}

#[test]
fn download_keys_by_user_id_goes_to_the_documented_target() {
    let request = Ichor::new(BASE_URL, API_VERSION, "k").download_keys(
        1289068,
        DownloadKeysType::UserId,
        "5119994",
    );
    let target = request.target().unwrap();
    assert!(target.ends_with("/game/1289068/download_keys?user_id=5119994"));
    assert_eq!(target, "https://itch.io/api/1/k/game/1289068/download_keys?user_id=5119994");
}

#[test]
fn purchases_by_user_id_goes_to_the_documented_target() {
    let request =
        Ichor::new(BASE_URL, API_VERSION, "k").purchases(1289068, PurchasesType::UserId, "5119994");
    let target = request.target().unwrap();
    assert!(target.ends_with("/game/1289068/purchases?user_id=5119994"));
}

#[test]
fn target_encodes_the_lookup_value() {
    let request = Ichor::new(BASE_URL, API_VERSION, "k").purchases(
        7,
        PurchasesType::Email,
        "a b+c@example.com&x=1",
    );
    assert_eq!(request.query.as_ref().unwrap().value, "a b+c@example.com&x=1");
    assert_eq!(
        request.target().unwrap(),
        "https://itch.io/api/1/k/game/7/purchases?email=a+b%2Bc%40example.com%26x%3D1"
    );
}

#[test]
fn target_without_a_query_is_the_address_in_normal_form() {
    let request = Ichor::new("HTTPS://Itch.IO/api", 1, "k").me();
    assert_eq!(request.url, "HTTPS://Itch.IO/api/1/k/me");
    assert_eq!(request.target().unwrap(), "https://itch.io/api/1/k/me");
    let plain = Request { url: "https://itch.io".to_string(), query: None };
    assert_eq!(plain.target().unwrap(), "https://itch.io/");
}

#[test]
fn target_keeps_a_query_that_the_address_has() {
    let request = Request {
        url: "https://itch.io/api?x=1".to_string(),
        query: Some(Parameter { name: "user_id".to_string(), value: "2".to_string() }),
    };
    assert_eq!(request.target().unwrap(), "https://itch.io/api?x=1&user_id=2");
}

#[test]
fn target_of_no_absolute_address_is_none() {
    assert!(Ichor::new("", 1, "k").me().target().is_none());
    assert!(Ichor::new("itch.io/api", 1, "k").credentials_info().target().is_none());
    assert!(Ichor::new("not a url", 1, "k")
        .download_keys(1, DownloadKeysType::Email, "a@b.c")
        .target()
        .is_none());
}
