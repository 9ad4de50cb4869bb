use wfm_rs::config::{fix_items, Config, ITEMS_CACHE_EXPIRY_S};
use wfm_rs::model::{
    authorized_headers, endpoint_url, item_orders_path, item_path, item_statistics_path,
    items_path, order_path, place_order_path, plain_headers, post_order_body,
    riven_auctions_path, signin_body, signin_headers, signin_path, update_order_body, Header,
    PostOrderDescriptor, UpdateOrderDescriptor, User,
};
use wfm_rs::ocr::{
    closest_match_index, find_closest_levenshtein_match, item_crop, pixel_dev, remove_not_white,
    CropRect, Pixel, IMG_MAX_WHITE_DEV,
};
use wfm_rs::platinum::Platinum;
use wfm_rs::request;
use wfm_rs::response::{
    ExistingProfileOrderItem, OrderUser, RemoveOrderResponse, ShortItem, ShortItemLocale,
};
use wfm_rs::riven::{
    cheapest_offers, keeps_cached_auctions, knows_weapon, older_than, process_riven_data,
    riven_data_is_stale, rivens_of_type, Auction, AuctionItem, AuctionOwner, RivenAuctionDataSet,
    RivenData, RivenEntry, RivenType, WEEK_IN_SECONDS,
};
use wfm_rs::shared::{OrderType, Platform};
use wfm_rs::traits::{ItemID, ItemUrl, OrderID};
use wfm_rs::websocket::{
    ducat_snipes, is_ducat_snipe, latest_status, session_cookie, status_label, whisper,
    OnlineCount, Status, WebsocketMessagePayload, WebsocketOrder,
};

fn item(name: &str, id: &str) -> ShortItem {
    ShortItem {
        url_name: name.to_lowercase().replace(' ', "_"),
        thumb: format!("{}.png", id),
        id: id.to_string(),
        item_name: name.to_string(),
    }
}

fn record(kind: RivenType, weapon: Option<&str>) -> RivenData {
    RivenData { riven_type: kind, weapon: weapon.map(|w| w.to_string()) }
}

fn entry(weapon: &str, kind: RivenType) -> RivenEntry {
    RivenEntry { weapon: weapon.to_string(), riven_type: kind }
}

fn auction(id: &str, price: u64, bid: Option<u64>, direct: bool, status: &str) -> Auction {
    Auction {
        id: id.to_string(),
        item: AuctionItem { name: format!("riven-{}", id) },
        owner: AuctionOwner { ingame_name: format!("owner-{}", id), status: status.to_string() },
        starting_price: price,
        top_bid: bid,
        is_direct_sell: direct,
    }
}

fn locale(text: &str) -> ShortItemLocale {
    ShortItemLocale { item_name: text.to_string() }
}

fn announced(id: &str, kind: OrderType, ducats: Option<u16>, price: Platinum) -> WebsocketOrder {
    WebsocketOrder {
        id: id.to_string(),
        quantity: 1,
        user: OrderUser {
            reputation: 0,
            region: "en".to_string(),
            ingame_name: "Tenno".to_string(),
            status: "ingame".to_string(),
            id: "u1".to_string(),
        },
        platform: Platform::Pc,
        order_type: kind,
        item: ExistingProfileOrderItem {
            quantity_for_set: None,
            ducats,
            id: "i1".to_string(),
            url_name: "braton_prime_stock".to_string(),
            icon: "i.png".to_string(),
            thumb: "t.png".to_string(),
            icon_format: "land".to_string(),
            tags: vec![],
            sub_icon: None,
            en: locale("Braton Prime Stock"),
            ru: locale("r"),
            ko: locale("k"),
            fr: locale("f"),
            sv: locale("s"),
            de: locale("d"),
            zh_hant: locale("z"),
            zh_hans: locale("z"),
            pt: locale("p"),
            es: locale("e"),
            pl: locale("p"),
        },
        creation_date: "c".to_string(),
        visible: true,
        last_update: "l".to_string(),
        platinum: price,
        region: "en".to_string(),
    }
}

#[test]
fn each_weapon_keeps_the_kind_first_seen() {
    let data = vec![
        record(RivenType::Rifle, Some("Braton")),
        record(RivenType::Melee, None),
        record(RivenType::Melee, Some("Skana")),
        record(RivenType::Pistol, Some("Braton")),
        record(RivenType::Rifle, Some("Boltor")),
        record(RivenType::Zaw, Some("Skana")),
    ];
    let set = process_riven_data(&data, 1700000000);
    assert_eq!(set.timestamp, 1700000000);
    assert_eq!(
        set.data,
        vec![
            entry("Braton", RivenType::Rifle),
            entry("Skana", RivenType::Melee),
            entry("Boltor", RivenType::Rifle),
        ]
    );
    assert!(knows_weapon(&set.data, "Skana"));
    assert!(!knows_weapon(&set.data, "skana"));
    assert_eq!(rivens_of_type(&set, RivenType::Rifle), vec!["Braton", "Boltor"]);
    assert_eq!(rivens_of_type(&set, RivenType::Melee), vec!["Skana"]);
    assert_eq!(rivens_of_type(&set, RivenType::Archgun), Vec::<String>::new());
    assert_eq!(process_riven_data(&vec![], 5).data, vec![]);
}

#[test]
fn cached_data_ages() {
    assert!(!older_than(100, 100, 0));
    assert!(older_than(101, 100, 0));
    let set = process_riven_data(&vec![], 1000);
    assert!(!riven_data_is_stale(1000 + WEEK_IN_SECONDS, &set));
    assert!(riven_data_is_stale(1001 + WEEK_IN_SECONDS, &set));
    assert_eq!(WEEK_IN_SECONDS, 60 * 60 * 24 * 7);
    let auctions = RivenAuctionDataSet { data: vec![], timestamp: 1000 };
    assert!(!keeps_cached_auctions(1000, &auctions));
    assert!(!keeps_cached_auctions(1300, &auctions));
    assert!(keeps_cached_auctions(1301, &auctions));
}

#[test]
fn offers_are_the_cheapest_in_game_with_the_cheapest_last() {
    let auctions = vec![
        auction("a", 100, None, false, "ingame"),
        auction("b", 10, Some(120), false, "ingame"),
        auction("c", 100, None, true, "ingame"),
        auction("d", 5, None, true, "offline"),
        auction("e", 300, Some(20), false, "ingame"),
        auction("f", 100, None, true, "ingame"),
    ];
    let ids = |offers: &Vec<Auction>| -> Vec<String> { offers.iter().map(|a| a.id.clone()).collect() };
    let all = cheapest_offers(&auctions, 400);
    assert_eq!(ids(&all), vec!["b", "a", "f", "c", "e"]);
    assert_eq!(all[4].starting_price, 20);
    assert_eq!(all[0].starting_price, 120);
    assert_eq!(ids(&cheapest_offers(&auctions, 2)), vec!["c", "e"]);
    assert_eq!(ids(&cheapest_offers(&auctions, 0)), Vec::<String>::new());
    assert_eq!(cheapest_offers(&vec![], 400), vec![]);
}

#[test]
fn the_closest_name_is_found() {
    let items = vec![
        item("Ash Prime Systems", "1"),
        item("Ash Prime Chassis", "2"),
        item("Ash Prime Systems", "3"),
        item("Volt Prime Systems", "4"),
    ];
    assert_eq!(closest_match_index(&items, "Ash Prime Systcms"), Some(0));
    assert_eq!(closest_match_index(&items, "Ash Prime Chasis"), Some(1));
    assert_eq!(closest_match_index(&items, "Volt Prime"), Some(3));
    assert_eq!(closest_match_index(&items, "Ash Prime Systems"), Some(0));
    assert_eq!(find_closest_levenshtein_match(&items, "olt Prime Systems"), Some(items[3].clone()));
    assert_eq!(closest_match_index(&vec![], "Ash"), None);
    assert_eq!(find_closest_levenshtein_match(&vec![], "Ash"), None);
    // "kitten" is three edits from "sitting" and seven from "Saturday".
    let words = vec![item("Saturday", "1"), item("sitting", "2"), item("mitten", "3")];
    assert_eq!(closest_match_index(&words, "kitten"), Some(2));
    assert_eq!(closest_match_index(&words[..2].to_vec(), "kitten"), Some(1));
    let far = vec![item(&"x".repeat(10000), "1")];
    assert_eq!(closest_match_index(&far, ""), None);
}

#[test]
fn pictures_are_reduced_to_black_and_white() {
    let white = Pixel { red: 255, green: 255, blue: 255, alpha: 255 };
    let black = Pixel { red: 0, green: 0, blue: 0, alpha: 255 };
    assert_eq!(pixel_dev(white), 0);
    assert_eq!(pixel_dev(black), 765);
    assert_eq!(pixel_dev(Pixel { red: 250, green: 240, blue: 230, alpha: 7 }), 45);
    let mut pixels = vec![
        Pixel { red: 250, green: 240, blue: 230, alpha: 7 },
        Pixel { red: 250, green: 240, blue: 229, alpha: 255 },
        white,
        black,
        Pixel { red: 200, green: 255, blue: 255, alpha: 0 },
    ];
    remove_not_white(&mut pixels, IMG_MAX_WHITE_DEV);
    assert_eq!(pixels, vec![white, black, white, black, black]);
    assert_eq!(IMG_MAX_WHITE_DEV, 45);
}

#[test]
fn item_names_stand_in_four_places() {
    assert_eq!(item_crop(0), Some(CropRect { x: 470, y: 410, width: 250, height: 50 }));
    assert_eq!(item_crop(1), Some(CropRect { x: 720, y: 410, width: 250, height: 50 }));
    assert_eq!(item_crop(2), Some(CropRect { x: 960, y: 410, width: 250, height: 50 }));
    assert_eq!(item_crop(3), Some(CropRect { x: 1200, y: 410, width: 250, height: 50 }));
    assert_eq!(item_crop(4), None);
}

#[test]
fn messages_have_their_types() {
    let order = announced("o", OrderType::Sell, None, Platinum::from_units(1));
    assert_eq!(WebsocketMessagePayload::SetStatus(Status::Online).get_ws_type(), "@WS/USER/SET_STATUS");
    assert_eq!(WebsocketMessagePayload::SubscribeMostRecent.get_ws_type(), "@WS/SUBSCRIBE/MOST_RECENT");
    assert_eq!(
        WebsocketMessagePayload::OnlineCount(OnlineCount { total_users: 2, registered_users: 1 })
            .get_ws_type(),
        "@WS/MESSAGE/ONLINE_COUNT"
    );
    assert_eq!(
        WebsocketMessagePayload::NewOrder { order }.get_ws_type(),
        "@WS/SUBSCRIPTIONS/MOST_RECENT/NEW_ORDER"
    );
    assert_eq!(WebsocketMessagePayload::Error("e".to_string()).get_ws_type(), "@WS/ERROR");
    assert!(WebsocketMessagePayload::SubscribeMostRecent.is_bare());
    assert!(!WebsocketMessagePayload::SetStatus(Status::InGame).is_bare());
    let message = WebsocketMessagePayload::SetStatus(Status::InGame).into_message();
    assert_eq!(message.message_type, "@WS/USER/SET_STATUS");
    assert_eq!(message.payload, WebsocketMessagePayload::SetStatus(Status::InGame));
}

#[test]
fn the_feed_is_signed_in_by_cookie() {
    assert_eq!(session_cookie("JWT abc.def"), "JWT=abc.def");
    assert_eq!(session_cookie("abc.def"), "JWT=abc.def");
}

#[test]
fn the_first_status_counts() {
    let events = vec![
        WebsocketMessagePayload::SubscribeMostRecent,
        WebsocketMessagePayload::SetStatus(Status::InGame),
        WebsocketMessagePayload::SetStatus(Status::Offline),
    ];
    assert_eq!(latest_status(&events), Some(Status::InGame));
    assert_eq!(latest_status(&vec![WebsocketMessagePayload::Error("x".to_string())]), None);
    assert_eq!(latest_status(&vec![]), None);
    assert_eq!(status_label(Some(Status::InGame)), "In-game");
    assert_eq!(status_label(Some(Status::Online)), "Online");
    assert_eq!(status_label(Some(Status::Offline)), "Offline");
    assert_eq!(status_label(None), "[Unknown]");
}

#[test]
fn snipes_pay_enough_ducats_for_each_platinum() {
    let p = Platinum::from_units;
    assert!(is_ducat_snipe(&announced("a", OrderType::Sell, Some(100), p(10)), 10));
    assert!(!is_ducat_snipe(&announced("a", OrderType::Sell, Some(99), p(10)), 10));
    assert!(!is_ducat_snipe(&announced("a", OrderType::Buy, Some(100), p(1)), 10));
    assert!(!is_ducat_snipe(&announced("a", OrderType::Sell, None, p(1)), 10));
    assert!(is_ducat_snipe(&announced("a", OrderType::Sell, Some(45), p(0)), 10));
    assert!(!is_ducat_snipe(&announced("a", OrderType::Sell, Some(0), p(0)), 10));
    assert!(is_ducat_snipe(&announced("a", OrderType::Sell, Some(0), p(3)), 0));
    let four_and_a_half = Platinum { units: 4, fraction: 1 << 63 };
    assert!(is_ducat_snipe(&announced("a", OrderType::Sell, Some(45), four_and_a_half), 10));
    assert!(!is_ducat_snipe(&announced("a", OrderType::Sell, Some(44), four_and_a_half), 10));
    assert!(!is_ducat_snipe(&announced("a", OrderType::Sell, Some(65535), p(u64::MAX)), 65535));
    for (ducats, price) in [(100u16, 10.0f64), (15, 2.0), (45, 4.5), (65, 6.5), (9, 1.0)] {
        let whole = price.trunc() as u64;
        let fraction = (price.fract() * 18446744073709551616.0) as u64;
        let order = announced("a", OrderType::Sell, Some(ducats), Platinum { units: whole, fraction });
        assert_eq!(is_ducat_snipe(&order, 10), ducats as f64 / price >= 10.0);
    }
    let events = vec![
        WebsocketMessagePayload::NewOrder { order: announced("a", OrderType::Sell, Some(100), p(10)) },
        WebsocketMessagePayload::SubscribeMostRecent,
        WebsocketMessagePayload::NewOrder { order: announced("b", OrderType::Sell, Some(15), p(10)) },
        WebsocketMessagePayload::NewOrder { order: announced("c", OrderType::Sell, Some(45), p(3)) },
    ];
    assert_eq!(ducat_snipes(&events, 10), vec![0, 3]);
    assert_eq!(ducat_snipes(&events, 1), vec![0, 2, 3]);
}

#[test]
fn a_whisper_opens_the_trade() {
    let order = announced("a", OrderType::Sell, Some(100), Platinum::from_units(10));
    assert_eq!(
        whisper(&order, "10", "warframe.market watcher"),
        "/w Tenno Hi! I want to buy: \"Braton Prime Stock\" for 10 platinum. (warframe.market watcher)"
    );
}

#[test]
fn endpoints_are_spelled() {
    let ash = item("Ash Prime Systems", "54a7");
    assert_eq!(endpoint_url("/items"), "https://api.warframe.market/v1/items");
    assert_eq!(signin_path(), "/auth/signin");
    assert_eq!(items_path(), "/items");
    assert_eq!(place_order_path(), "/profile/orders");
    assert_eq!(item_path(&ash), "/items/ash_prime_systems");
    assert_eq!(item_orders_path(&ash), "/items/ash_prime_systems/orders");
    assert_eq!(item_orders_path(&"nikana".to_string()), "/items/nikana/orders");
    assert_eq!(item_statistics_path(&"nikana"), "/items/nikana/statistics");
    assert_eq!(order_path(&"5f1a".to_string()), "/profile/orders/5f1a");
    assert_eq!(
        order_path(&RemoveOrderResponse { order_id: "77".to_string() }),
        "/profile/orders/77"
    );
    assert_eq!(riven_auctions_path("braton"), "/auctions/search?type=riven&weapon_url_name=braton");
    let user = User::_from_jwt_token("JWT t", "Tenno");
    assert_eq!(user.orders_path(), "/profile/Tenno/orders");
    assert_eq!(user.auctions_path(), "/profile/Tenno/auctions");
    assert_eq!(ash.item_url(), "ash_prime_systems");
    assert_eq!(ash.item_id(), "54a7");
    assert_eq!("x".to_string().order_id(), "x");
    assert_eq!("x".item_id(), "x");
}

#[test]
fn an_account_is_its_name_and_token() {
    let user = User::_from_jwt_token("JWT t", "Tenno");
    assert_eq!(user._jwt_token(), "JWT t");
    assert_eq!(user.username(), "Tenno");
    assert!(user == user.clone());
    assert!(user != User::_from_jwt_token("JWT t", "Other"));
    assert!(user != User::_from_jwt_token("JWT u", "Tenno"));
}

#[test]
fn requests_carry_their_headers_and_bodies() {
    let header = |name: &str, value: &str| Header { name: name.to_string(), value: value.to_string() };
    assert_eq!(plain_headers(), vec![header("Content-Type", "application/json")]);
    assert_eq!(
        authorized_headers("JWT t"),
        vec![header("authorization", "JWT t"), header("Content-Type", "application/json")]
    );
    assert_eq!(
        signin_headers(Platform::Xbox, "en"),
        vec![
            header("Content-Type", "application/json; utf-8"),
            header("Authorization", "JWT"),
            header("platform", "xbox"),
            header("language", "en"),
        ]
    );
    assert_eq!(
        signin_body("a@b.c", "secret"),
        request::Signin {
            auth_type: "header".to_string(),
            email: "a@b.c".to_string(),
            password: "secret".to_string(),
        }
    );
    let placed = PostOrderDescriptor {
        item_id: "54a7".to_string(),
        price: 12,
        kind: OrderType::Sell,
        visible: true,
        quantity: 2,
        rank: Some(3),
        subtype: Some("intact".to_string()),
    };
    assert_eq!(
        post_order_body(&placed),
        request::ProfileOrder {
            item_id: "54a7".to_string(),
            order_type: OrderType::Sell,
            platinum: 12,
            quantity: 2,
            visible: true,
            rank: Some(3),
            subtype: Some("intact".to_string()),
        }
    );
    let updated = UpdateOrderDescriptor {
        platinum: Platinum { units: 9, fraction: 1 << 62 },
        quantity: 1,
        visible: false,
        rank: None,
        subtype: None,
    };
    assert_eq!(
        update_order_body(&"5f1a".to_string(), &updated),
        request::UpdateOrder {
            item_id: "5f1a".to_string(),
            platinum: Platinum { units: 9, fraction: 1 << 62 },
            quantity: 1,
            visible: false,
            rank: None,
            subtype: None,
        }
    );
}

#[test]
fn parts_of_warframes_are_blueprints() {
    let mut items = vec![
        item("Ash Prime Systems", "1"),
        item("Ash Prime Set", "2"),
        item("Volt Prime Neuroptics", "3"),
        item("Mag Prime Chassis", "4"),
        item("systems check", "5"),
    ];
    let before = items.clone();
    fix_items(&mut items);
    let names: Vec<&str> = items.iter().map(|i| i.item_name.as_str()).collect();
    assert_eq!(
        names,
        vec![
            "Ash Prime Systems blueprint",
            "Ash Prime Set",
            "Volt Prime Neuroptics blueprint",
            "Mag Prime Chassis blueprint",
            "systems check",
        ]
    );
    for (fixed, given) in items.iter().zip(before.iter()) {
        assert_eq!(fixed.id, given.id);
        assert_eq!(fixed.url_name, given.url_name);
        assert_eq!(fixed.thumb, given.thumb);
    }
}

#[test]
fn the_configuration_knows_its_account_and_the_age_of_its_items() {
    let mut config =
        Config::new("JWT t".to_string(), "Tenno".to_string(), vec![item("Nikana", "1")], 1000);
    assert_eq!(config.user(), User::_from_jwt_token("JWT t", "Tenno"));
    assert_eq!(config.jwt_token(), "JWT t");
    assert_eq!(config.username(), "Tenno");
    assert_eq!(config.items_timestamp(), 1000);
    assert_eq!(config.items(), &vec![item("Nikana", "1")]);
    assert!(!config.items_are_stale(1000 + ITEMS_CACHE_EXPIRY_S));
    assert!(config.items_are_stale(1001 + ITEMS_CACHE_EXPIRY_S));
    assert_eq!(ITEMS_CACHE_EXPIRY_S, 24 * 60 * 60);
    config.refresh_items(vec![], 5000);
    assert_eq!(config.items, vec![]);
    assert_eq!(config.items_timestamp(), 5000);
    assert_eq!(config.username(), "Tenno");
}

fn reference_distance(a: &[char], b: &[char]) -> usize {
    if a.is_empty() {
        return b.len();
    }
    if b.is_empty() {
        return a.len();
    }
    let (a_front, a_last) = (&a[..a.len() - 1], a[a.len() - 1]);
    let (b_front, b_last) = (&b[..b.len() - 1], b[b.len() - 1]);
    let replaced = reference_distance(a_front, b_front) + if a_last == b_last { 0 } else { 1 };
    let deleted = reference_distance(a_front, b) + 1;
    let inserted = reference_distance(a, b_front) + 1;
    replaced.min(deleted).min(inserted)
}

fn words_up_to(length: usize) -> Vec<String> {
    let mut words = vec![String::new()];
    let mut last = vec![String::new()];
    for _ in 0..length {
        let mut next = Vec::new();
        for word in &last {
            for letter in ['a', 'b', 'é'] {
                let mut longer = word.clone();
                longer.push(letter);
                next.push(longer);
            }
        }
        words.extend(next.iter().cloned());
        last = next;
    }
    words
}

#[test]
fn the_closer_of_two_names_is_the_one_with_fewer_edits() {
    let words = words_up_to(3);
    for target in &words {
        let target_chars: Vec<char> = target.chars().collect();
        for first in &words {
            for second in &words {
                let to_first =
                    reference_distance(&target_chars, &first.chars().collect::<Vec<char>>());
                let to_second =
                    reference_distance(&target_chars, &second.chars().collect::<Vec<char>>());
                let expected = if to_first <= to_second { 0 } else { 1 };
                let items = vec![item(first, "1"), item(second, "2")];
                assert_eq!(closest_match_index(&items, target), Some(expected));
            }
        }
    }
}
